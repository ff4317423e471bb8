use draw_read::capture::{CaptureBuffer, CaptureError};
use draw_read::geometry::{ImagePoint, Rectangle, ScaleFactor, ScreenPoint};
use draw_read::outline::draw_rectangle;
use draw_read::pipeline::{run, PipelineStep};
use draw_read::selection::{
    advance, on_capture, on_pipeline_finished, render_frame, screen, selected_rectangle, Action,
    PointerEvent, Screen, SelectionState,
};

const GREEN: [u8; 4] = [0, 255, 0, 255];

fn at(x: i32, y: i32) -> ScreenPoint {
    ScreenPoint { x, y }
}

fn px(x: u32, y: u32) -> ImagePoint {
    ImagePoint { x, y }
}

fn pixels(width: u32, height: u32) -> Vec<u8> {
    (0..width * height * 4).map(|k| (k % 199) as u8).collect()
}

fn bitmap(width: u32, height: u32) -> CaptureBuffer {
    CaptureBuffer::new(pixels(width, height), width, height, ScaleFactor::identity()).unwrap()
}

fn scaled_bitmap(width: u32, height: u32, numerator: u32, denominator: u32) -> CaptureBuffer {
    let scale = ScaleFactor::new(numerator, denominator).unwrap();
    CaptureBuffer::new(pixels(width, height), width, height, scale).unwrap()
}

fn capturing(width: u32, height: u32) -> SelectionState {
    SelectionState::Capturing {
        buffer: bitmap(width, height),
    }
}

fn dragging(width: u32, height: u32, start: ScreenPoint, pointer: ScreenPoint) -> SelectionState {
    SelectionState::Dragging {
        buffer: bitmap(width, height),
        start,
        pointer,
    }
}

fn completed() -> SelectionState {
    SelectionState::Completed {
        rectangle: Rectangle {
            top_left: px(1, 2),
            bottom_right: px(3, 4),
        },
    }
}

fn scenario_rectangle() -> Rectangle {
    Rectangle {
        top_left: px(10, 10),
        bottom_right: px(50, 40),
    }
}

#[test]
fn a_session_starts_idle() {
    assert_eq!(SelectionState::default(), SelectionState::Idle);
}

#[test]
fn a_capture_awaits_the_pointer() {
    let next = on_capture(SelectionState::Idle, Ok(bitmap(4, 4)));
    assert_eq!(next, capturing(4, 4));
}

#[test]
fn a_new_capture_replaces_the_bitmap_that_was_held() {
    let next = on_capture(dragging(4, 4, at(0, 0), at(1, 1)), Ok(bitmap(2, 2)));
    assert_eq!(next, capturing(2, 2));
    let next = on_capture(completed(), Ok(bitmap(3, 3)));
    assert_eq!(next, capturing(3, 3));
}

#[test]
fn a_failed_capture_leaves_the_session_idle() {
    assert_eq!(
        on_capture(SelectionState::Idle, Err(CaptureError::NoMonitor)),
        SelectionState::Idle
    );
    assert_eq!(
        on_capture(capturing(4, 4), Err(CaptureError::PermissionDenied)),
        SelectionState::Idle
    );
}

#[test]
fn a_press_starts_the_drag() {
    let (state, action) = advance(capturing(100, 100), PointerEvent::Down(at(10, 10)));
    assert_eq!(state, dragging(100, 100, at(10, 10), at(10, 10)));
    assert_eq!(action, Some(Action::Render));
}

#[test]
fn a_move_keeps_the_start_and_follows_the_pointer() {
    let (state, action) = advance(
        dragging(100, 100, at(10, 10), at(10, 10)),
        PointerEvent::Move(at(30, 20)),
    );
    assert_eq!(state, dragging(100, 100, at(10, 10), at(30, 20)));
    assert_eq!(action, Some(Action::Render));
}

#[test]
fn a_second_press_starts_the_rectangle_anew() {
    let (state, action) = advance(
        dragging(100, 100, at(10, 10), at(30, 20)),
        PointerEvent::Down(at(5, 6)),
    );
    assert_eq!(state, dragging(100, 100, at(5, 6), at(5, 6)));
    assert_eq!(action, Some(Action::Render));
}

#[test]
fn a_drag_ends_in_the_rectangle_between_press_and_release() {
    let (state, _) = advance(capturing(100, 100), PointerEvent::Down(at(10, 10)));
    let (state, _) = advance(state, PointerEvent::Move(at(33, 27)));
    let (state, action) = advance(state, PointerEvent::Up(at(50, 40)));
    assert_eq!(
        state,
        SelectionState::Completed {
            rectangle: scenario_rectangle()
        }
    );
    assert_eq!(
        action,
        Some(Action::RunPipeline {
            buffer: bitmap(100, 100),
            rectangle: scenario_rectangle()
        })
    );
    match action {
        Some(Action::RunPipeline { buffer, rectangle }) => match run(buffer, rectangle) {
            PipelineStep::Recognize { image } => {
                assert_eq!(image.width, 40);
                assert_eq!(image.height, 30);
                assert_eq!(image.bytes.len(), 40 * 30 * 4);
            }
            PipelineStep::EmptySelection => panic!("the selection is not empty"),
        },
        _ => panic!("the pipeline is to run"),
    }
}

#[test]
fn an_inverted_drag_ends_in_the_same_rectangle() {
    let (state, _) = advance(capturing(100, 100), PointerEvent::Down(at(50, 40)));
    let (state, action) = advance(state, PointerEvent::Up(at(10, 10)));
    assert_eq!(
        state,
        SelectionState::Completed {
            rectangle: scenario_rectangle()
        }
    );
    assert_eq!(
        action,
        Some(Action::RunPipeline {
            buffer: bitmap(100, 100),
            rectangle: scenario_rectangle()
        })
    );
}

#[test]
fn a_drag_along_either_diagonal_ends_in_the_same_rectangle() {
    for &(from, to) in &[
        (at(10, 40), at(50, 10)),
        (at(50, 10), at(10, 40)),
        (at(10, 10), at(50, 40)),
        (at(50, 40), at(10, 10)),
    ] {
        let (state, _) = advance(capturing(100, 100), PointerEvent::Down(from));
        let (state, _) = advance(state, PointerEvent::Up(to));
        assert_eq!(
            state,
            SelectionState::Completed {
                rectangle: scenario_rectangle()
            }
        );
    }
}

#[test]
fn a_click_selects_nothing_and_the_session_returns_to_idle() {
    let (state, _) = advance(capturing(100, 100), PointerEvent::Down(at(25, 25)));
    let (state, action) = advance(state, PointerEvent::Up(at(25, 25)));
    let point = Rectangle {
        top_left: px(25, 25),
        bottom_right: px(25, 25),
    };
    assert_eq!(state, SelectionState::Completed { rectangle: point });
    match action {
        Some(Action::RunPipeline { buffer, rectangle }) => {
            assert_eq!(rectangle, point);
            assert_eq!(run(buffer, rectangle), PipelineStep::EmptySelection);
        }
        _ => panic!("the pipeline is to run"),
    }
    assert_eq!(on_pipeline_finished(state), SelectionState::Idle);
}

#[test]
fn a_drag_without_width_or_without_height_selects_nothing() {
    for &to in &[at(25, 60), at(60, 25)] {
        let (state, _) = advance(capturing(100, 100), PointerEvent::Down(at(25, 25)));
        let (state, action) = advance(state, PointerEvent::Up(to));
        match action {
            Some(Action::RunPipeline { buffer, rectangle }) => {
                assert_eq!(run(buffer, rectangle), PipelineStep::EmptySelection);
            }
            _ => panic!("the pipeline is to run"),
        }
        assert_eq!(on_pipeline_finished(state), SelectionState::Idle);
    }
}

#[test]
fn a_drag_is_measured_in_logical_pixels() {
    let state = SelectionState::Capturing {
        buffer: scaled_bitmap(100, 100, 2, 1),
    };
    let (state, _) = advance(state, PointerEvent::Down(at(20, 20)));
    let (state, _) = advance(state, PointerEvent::Up(at(100, 80)));
    assert_eq!(
        state,
        SelectionState::Completed {
            rectangle: scenario_rectangle()
        }
    );
}

#[test]
fn a_drag_from_beyond_the_bitmap_is_folded_into_it() {
    let (state, _) = advance(capturing(100, 100), PointerEvent::Down(at(-90, 110)));
    let (state, _) = advance(state, PointerEvent::Up(at(150, -60)));
    assert_eq!(
        state,
        SelectionState::Completed {
            rectangle: scenario_rectangle()
        }
    );
}

#[test]
fn the_selected_rectangle_lies_inside_the_bitmap() {
    let buffer = scaled_bitmap(64, 48, 3, 2);
    let points = [
        at(0, 0),
        at(-1, -1),
        at(63, 47),
        at(64, 48),
        at(1000, -1000),
        at(i32::MIN, i32::MAX),
    ];
    for &a in &points {
        for &b in &points {
            let r = selected_rectangle(&buffer, a, b);
            assert!(r.top_left.x <= r.bottom_right.x && r.bottom_right.x < 64);
            assert!(r.top_left.y <= r.bottom_right.y && r.bottom_right.y < 48);
            assert_eq!(r, selected_rectangle(&buffer, b, a));
        }
    }
}

#[test]
fn the_end_of_the_pipeline_ends_a_completed_selection_only() {
    assert_eq!(on_pipeline_finished(completed()), SelectionState::Idle);
    assert_eq!(
        on_pipeline_finished(SelectionState::Idle),
        SelectionState::Idle
    );
    assert_eq!(on_pipeline_finished(capturing(2, 2)), capturing(2, 2));
    assert_eq!(
        on_pipeline_finished(dragging(2, 2, at(0, 0), at(1, 1))),
        dragging(2, 2, at(0, 0), at(1, 1))
    );
}

#[test]
fn events_outside_a_capture_are_ignored() {
    for &event in &[
        PointerEvent::Down(at(1, 1)),
        PointerEvent::Move(at(2, 2)),
        PointerEvent::Up(at(3, 3)),
    ] {
        assert_eq!(
            advance(SelectionState::Idle, event),
            (SelectionState::Idle, None)
        );
        assert_eq!(advance(completed(), event), (completed(), None));
    }
}

#[test]
fn a_move_or_a_release_before_the_press_is_ignored() {
    assert_eq!(
        advance(capturing(4, 4), PointerEvent::Move(at(2, 2))),
        (capturing(4, 4), None)
    );
    assert_eq!(
        advance(capturing(4, 4), PointerEvent::Up(at(2, 2))),
        (capturing(4, 4), None)
    );
}

#[test]
fn a_frame_without_a_drag_is_the_bitmap() {
    assert_eq!(render_frame(&capturing(6, 5), GREEN), pixels(6, 5));
}

#[test]
fn a_frame_without_a_bitmap_is_empty() {
    assert_eq!(render_frame(&SelectionState::Idle, GREEN), Vec::<u8>::new());
    assert_eq!(render_frame(&completed(), GREEN), Vec::<u8>::new());
}

#[test]
fn a_frame_shows_the_outline_of_the_live_rectangle() {
    let state = dragging(8, 6, at(5, 4), at(1, 1));
    let mut expected = pixels(8, 6);
    draw_rectangle(&mut expected, (8, 6), px(1, 1), px(5, 4), &GREEN);
    assert_ne!(expected, pixels(8, 6));
    assert_eq!(render_frame(&state, GREEN), expected);
}

#[test]
fn a_frame_right_after_the_press_is_the_bitmap() {
    let (state, _) = advance(capturing(8, 6), PointerEvent::Down(at(3, 3)));
    assert_eq!(render_frame(&state, GREEN), pixels(8, 6));
}

#[test]
fn rendering_twice_gives_the_same_bytes() {
    let state = dragging(8, 6, at(1, 1), at(5, 4));
    let first = render_frame(&state, GREEN);
    let second = render_frame(&state, GREEN);
    assert_eq!(first, second);
    assert_eq!(state, dragging(8, 6, at(1, 1), at(5, 4)));
}

#[test]
fn earlier_moves_leave_no_pixels_behind() {
    let (state, _) = advance(capturing(8, 6), PointerEvent::Down(at(1, 1)));
    let (state, _) = advance(state, PointerEvent::Move(at(6, 5)));
    let wide = render_frame(&state, GREEN);
    let (state, _) = advance(state, PointerEvent::Move(at(3, 2)));
    let narrow = render_frame(&state, GREEN);
    assert_ne!(wide, narrow);
    assert_eq!(narrow, render_frame(&dragging(8, 6, at(1, 1), at(3, 2)), GREEN));
}

#[test]
fn a_frame_takes_the_colour_it_is_given() {
    let state = dragging(8, 6, at(1, 1), at(5, 4));
    let red = render_frame(&state, [255, 0, 0, 255]);
    assert_eq!(red[(1 * 8 + 1) * 4..(1 * 8 + 1) * 4 + 4], [255, 0, 0, 255]);
    let green = render_frame(&state, GREEN);
    assert_eq!(green[(1 * 8 + 1) * 4..(1 * 8 + 1) * 4 + 4], GREEN);
}

#[test]
fn the_window_shows_the_bitmap_while_a_rectangle_is_dragged() {
    assert!(capturing(2, 2).is_selecting());
    assert!(dragging(2, 2, at(0, 0), at(1, 1)).is_selecting());
    assert!(!SelectionState::Idle.is_selecting());
    assert!(!completed().is_selecting());
    for &speaking in &[Some(true), Some(false), None] {
        assert_eq!(screen(&capturing(2, 2), speaking), Screen::Selection);
        assert_eq!(
            screen(&dragging(2, 2, at(0, 0), at(1, 1)), speaking),
            Screen::Selection
        );
    }
}

#[test]
fn the_window_offers_to_read_or_to_stop() {
    assert_eq!(screen(&SelectionState::Idle, Some(false)), Screen::Read);
    assert_eq!(screen(&SelectionState::Idle, Some(true)), Screen::Stop);
    assert_eq!(screen(&SelectionState::Idle, None), Screen::Error);
    assert_eq!(screen(&completed(), Some(false)), Screen::Read);
    assert_eq!(screen(&completed(), Some(true)), Screen::Stop);
    assert_eq!(screen(&completed(), None), Screen::Error);
}
