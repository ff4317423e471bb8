//! The life of one selection: from the capture of a bitmap, over the drag of
//! a rectangle, to the region that is read out.

use vstd::prelude::*;
use crate::capture::{CaptureBuffer, CaptureError};
use crate::geometry::{
    canonical, canonical_rect, lemma_normalized_is_within, normalize, normalized, Rectangle,
    ScreenPoint,
};
use crate::outline::{draw_rect_outline, lemma_outline_of_one_point, on_outline, outlined};

verus! {

/// What the pointer did, and where.
#[derive(Clone, Copy, Debug, PartialEq, Eq, Structural)]
pub enum PointerEvent {
    Down(ScreenPoint),
    Move(ScreenPoint),
    Up(ScreenPoint),
}

/// Where a session stands.
#[derive(Debug, PartialEq, Eq)]
pub enum SelectionState {
    /// No capture is held and no rectangle is drawn.
    Idle,
    /// A bitmap was taken; the pointer has not gone down on it yet.
    Capturing { buffer: CaptureBuffer },
    /// The pointer went down at `start` and was last seen at `pointer`. The
    /// rectangle between the two is drawn on every frame and stored nowhere.
    Dragging { buffer: CaptureBuffer, start: ScreenPoint, pointer: ScreenPoint },
    /// The pointer went up: the rectangle is final and is being read out.
    Completed { rectangle: Rectangle },
}

impl Default for SelectionState {
    /// A session starts idle.
    fn default() -> (state: SelectionState)
        ensures
            state == SelectionState::Idle,
    {
        SelectionState::Idle
    }
}

/// What the caller is to do after a pointer event.
#[derive(Debug, PartialEq, Eq)]
pub enum Action {
    /// Show the frame that `render_frame` gives for the new state.
    Render,
    /// Recognise and speak the region of the bitmap, which leaves the session
    /// with this action.
    RunPipeline { buffer: CaptureBuffer, rectangle: Rectangle },
}

/// The rectangle between two pointer positions over a bitmap.
pub open spec fn live_rectangle(buffer: CaptureBuffer, start: ScreenPoint, pointer: ScreenPoint) -> Rectangle {
    canonical(
        normalized(start, buffer.spec_size(), buffer.spec_scale()),
        normalized(pointer, buffer.spec_size(), buffer.spec_scale()),
    )
}

/// The state that follows `state` on `event`. Events outside an active
/// capture are ignored, and so is a move or a release before the pointer
/// went down. A second press while dragging starts the rectangle anew.
pub open spec fn next_state(state: SelectionState, event: PointerEvent) -> SelectionState {
    match (state, event) {
        (SelectionState::Capturing { buffer }, PointerEvent::Down(p)) => SelectionState::Dragging {
            buffer,
            start: p,
            pointer: p,
        },
        (SelectionState::Dragging { buffer, start, pointer }, PointerEvent::Down(p)) => {
            SelectionState::Dragging { buffer, start: p, pointer: p }
        },
        (SelectionState::Dragging { buffer, start, pointer }, PointerEvent::Move(p)) => {
            SelectionState::Dragging { buffer, start, pointer: p }
        },
        (SelectionState::Dragging { buffer, start, pointer }, PointerEvent::Up(p)) => {
            SelectionState::Completed { rectangle: live_rectangle(buffer, start, p) }
        },
        _ => state,
    }
}

/// What the caller is to do once `state` has taken `event`.
pub open spec fn next_action(state: SelectionState, event: PointerEvent) -> Option<Action> {
    match (state, event) {
        (SelectionState::Capturing { buffer }, PointerEvent::Down(p)) => Some(Action::Render),
        (SelectionState::Dragging { buffer, start, pointer }, PointerEvent::Down(p)) => Some(
            Action::Render,
        ),
        (SelectionState::Dragging { buffer, start, pointer }, PointerEvent::Move(p)) => Some(
            Action::Render,
        ),
        (SelectionState::Dragging { buffer, start, pointer }, PointerEvent::Up(p)) => Some(
            Action::RunPipeline { buffer, rectangle: live_rectangle(buffer, start, p) },
        ),
        _ => None,
    }
}

/// Takes one pointer event: gives the state that follows and what the
/// caller is to do. A rectangle that is handed out for reading is canonical
/// and lies inside the bitmap that comes with it.
pub fn advance(state: SelectionState, event: PointerEvent) -> (next: (SelectionState, Option<Action>))
    ensures
        next.0 == next_state(state, event),
        next.1 == next_action(state, event),
        next.1 matches Some(Action::RunPipeline { buffer, rectangle }) ==> {
            &&& buffer.wf()
            &&& rectangle.wf()
            &&& rectangle.within(buffer.spec_size())
        },
{
    match state {
        SelectionState::Capturing { buffer } => match event {
            PointerEvent::Down(p) => (
                SelectionState::Dragging { buffer, start: p, pointer: p },
                Some(Action::Render),
            ),
            _ => (SelectionState::Capturing { buffer }, None),
        },
        SelectionState::Dragging { buffer, start, pointer } => match event {
            PointerEvent::Down(p) => (
                SelectionState::Dragging { buffer, start: p, pointer: p },
                Some(Action::Render),
            ),
            PointerEvent::Move(p) => (
                SelectionState::Dragging { buffer, start, pointer: p },
                Some(Action::Render),
            ),
            PointerEvent::Up(p) => {
                let rectangle = selected_rectangle(&buffer, start, p);
                (SelectionState::Completed { rectangle }, Some(Action::RunPipeline { buffer, rectangle }))
            },
        },
        SelectionState::Idle => (SelectionState::Idle, None),
        SelectionState::Completed { rectangle } => (SelectionState::Completed { rectangle }, None),
    }
}

/// The rectangle between two pointer positions over a bitmap: each position
/// is brought into the bitmap, and the two are put in canonical order.
pub fn selected_rectangle(buffer: &CaptureBuffer, start: ScreenPoint, pointer: ScreenPoint) -> (rectangle:
    Rectangle)
    ensures
        rectangle == live_rectangle(*buffer, start, pointer),
        rectangle.wf(),
        rectangle.within(buffer.spec_size()),
        buffer.wf(),
{
    let size = buffer.size();
    let scale = buffer.scale();
    canonical_rect(normalize(start, size, scale), normalize(pointer, size, scale))
}

/// The state after a capture was asked for. A bitmap replaces whatever the
/// session held and awaits the pointer; a failed capture leaves the session
/// idle.
pub open spec fn state_after_capture(captured: Result<CaptureBuffer, CaptureError>) -> SelectionState {
    match captured {
        Ok(buffer) => SelectionState::Capturing { buffer },
        Err(_) => SelectionState::Idle,
    }
}

/// Takes the outcome of a capture into the session. The state that the
/// session was in is given up with the bitmap that it held, so that no
/// more than one bitmap is ever kept.
pub fn on_capture(previous: SelectionState, captured: Result<CaptureBuffer, CaptureError>) -> (next:
    SelectionState)
    ensures
        next == state_after_capture(captured),
{
    match (previous, captured) {
        (_, Ok(buffer)) => SelectionState::Capturing { buffer },
        (_, Err(_)) => SelectionState::Idle,
    }
}

/// The state once a region has been read out, or has turned out empty: a
/// completed selection gives way to an idle session, any other state stays.
pub open spec fn state_after_pipeline(state: SelectionState) -> SelectionState {
    match state {
        SelectionState::Completed { rectangle } => SelectionState::Idle,
        _ => state,
    }
}

/// Ends a completed selection.
pub fn on_pipeline_finished(state: SelectionState) -> (next: SelectionState)
    ensures
        next == state_after_pipeline(state),
{
    match state {
        SelectionState::Completed { rectangle } => SelectionState::Idle,
        other => other,
    }
}

/// The frame to show in a state: the untouched bitmap, with the outline of
/// the live rectangle on it while the pointer is down. A state without a
/// bitmap has no frame, which is the empty sequence.
pub open spec fn frame_of(selection: SelectionState, colour: Seq<u8>) -> Seq<u8> {
    match selection {
        SelectionState::Capturing { buffer } => buffer@,
        SelectionState::Dragging { buffer, start, pointer } => {
            let rectangle = live_rectangle(buffer, start, pointer);
            outlined(
                buffer@,
                buffer.spec_size().0 as int,
                rectangle.top_left,
                rectangle.bottom_right,
                colour,
            )
        },
        _ => Seq::empty(),
    }
}

/// Renders the frame for the current state. Every call starts from a fresh
/// copy of the captured pixels, which are never written to.
pub fn render_frame(selection: &SelectionState, colour: [u8; 4]) -> (frame: Vec<u8>)
    ensures
        frame@ == frame_of(*selection, colour@),
{
    match selection {
        SelectionState::Capturing { buffer } => buffer.to_frame(),
        SelectionState::Dragging { buffer, start, pointer } => {
            let rectangle = selected_rectangle(buffer, *start, *pointer);
            let mut frame = buffer.to_frame();
            draw_rect_outline(frame.as_mut_slice(), buffer.size(), rectangle, colour);
            frame
        },
        _ => Vec::new(),
    }
}

/// What the window shows.
#[derive(Clone, Copy, Debug, PartialEq, Eq, Structural)]
pub enum Screen {
    /// The captured bitmap, for a rectangle to be dragged over it.
    Selection,
    /// The controls, with a button that starts a reading.
    Read,
    /// The controls, with a button that stops the voice.
    Stop,
    /// The speech engine does not say whether it speaks.
    Error,
}

impl SelectionState {
    /// The session holds a bitmap for the pointer to work on.
    pub open spec fn spec_is_selecting(self) -> bool {
        self is Capturing || self is Dragging
    }

    /// Whether the session holds a bitmap for the pointer to work on.
    pub fn is_selecting(&self) -> (selecting: bool)
        ensures
            selecting == self.spec_is_selecting(),
    {
        match self {
            SelectionState::Capturing { .. } => true,
            SelectionState::Dragging { .. } => true,
            _ => false,
        }
    }
}

/// What the window shows for a state of the session and for what the speech
/// engine says of itself: `Some(true)` while it speaks, `None` where it
/// could not tell.
pub open spec fn shown(selection: SelectionState, speaking: Option<bool>) -> Screen {
    if selection.spec_is_selecting() {
        Screen::Selection
    } else {
        match speaking {
            Some(false) => Screen::Read,
            Some(true) => Screen::Stop,
            None => Screen::Error,
        }
    }
}

/// Decides what the window shows.
pub fn screen(selection: &SelectionState, speaking: Option<bool>) -> (screen: Screen)
    ensures
        screen == shown(*selection, speaking),
{
    if selection.is_selecting() {
        Screen::Selection
    } else {
        match speaking {
            Some(false) => Screen::Read,
            Some(true) => Screen::Stop,
            None => Screen::Error,
        }
    }
}

/// Two frames rendered in one state, with no event between them, hold the
/// same bytes.
pub proof fn lemma_render_is_repeatable(
    selection: SelectionState,
    colour: Seq<u8>,
    first: Seq<u8>,
    second: Seq<u8>,
)
    requires
        first == frame_of(selection, colour),
        second == frame_of(selection, colour),
    ensures
        first == second,
{
}

/// However the pointer moved before, the frame shows the rectangle up to
/// where the pointer is now and nothing of where it was: no move leaves a
/// trace in the state.
pub proof fn lemma_moves_leave_no_trace(
    buffer: CaptureBuffer,
    start: ScreenPoint,
    pointer: ScreenPoint,
    earlier: ScreenPoint,
    latest: ScreenPoint,
    colour: Seq<u8>,
)
    ensures
        ({
            let dragging = SelectionState::Dragging { buffer, start, pointer };
            let detour = next_state(
                next_state(dragging, PointerEvent::Move(earlier)),
                PointerEvent::Move(latest),
            );
            let direct = next_state(dragging, PointerEvent::Move(latest));
            &&& detour == direct
            &&& direct == SelectionState::Dragging { buffer, start, pointer: latest }
            &&& frame_of(detour, colour) == frame_of(direct, colour)
        }),
{
}

/// A frame has the size of the bitmap, and off the outline of the live
/// rectangle every byte of it is the byte of the bitmap.
pub proof fn lemma_frame_keeps_the_bitmap(
    buffer: CaptureBuffer,
    start: ScreenPoint,
    pointer: ScreenPoint,
    colour: Seq<u8>,
    k: int,
)
    requires
        0 <= k < buffer@.len(),
    ensures
        ({
            let frame = frame_of(SelectionState::Dragging { buffer, start, pointer }, colour);
            let rectangle = live_rectangle(buffer, start, pointer);
            let width = buffer.spec_size().0 as int;
            &&& frame.len() == buffer@.len()
            &&& !on_outline((k / 4) % width, (k / 4) / width, rectangle.top_left, rectangle.bottom_right)
                ==> frame[k] == buffer@[k]
        }),
{
}

/// A drag from one point to another selects what the drag back selects.
pub proof fn lemma_drag_direction_is_irrelevant(buffer: CaptureBuffer, a: ScreenPoint, b: ScreenPoint)
    ensures
        live_rectangle(buffer, a, b) == live_rectangle(buffer, b, a),
        live_rectangle(buffer, a, b).wf(),
{
}

/// Every rectangle that a drag selects lies inside the bitmap.
pub proof fn lemma_live_rectangle_is_within(buffer: CaptureBuffer, a: ScreenPoint, b: ScreenPoint)
    requires
        buffer.wf(),
    ensures
        live_rectangle(buffer, a, b).within(buffer.spec_size()),
{
    lemma_normalized_is_within(a, buffer.spec_size(), buffer.spec_scale());
    lemma_normalized_is_within(b, buffer.spec_size(), buffer.spec_scale());
}

/// A press and a release at one point select an empty rectangle, and the
/// frame in between shows the bitmap untouched.
pub proof fn lemma_click_selects_nothing(buffer: CaptureBuffer, p: ScreenPoint, colour: Seq<u8>)
    ensures
        live_rectangle(buffer, p, p).spec_is_empty(),
        live_rectangle(buffer, p, p).top_left == live_rectangle(buffer, p, p).bottom_right,
        frame_of(SelectionState::Dragging { buffer, start: p, pointer: p }, colour) == buffer@,
{
    let at = live_rectangle(buffer, p, p).top_left;
    lemma_outline_of_one_point(buffer@, buffer.spec_size().0 as int, at, colour);
}

/// From a bitmap, a press, any number of moves and a release lead to a
/// completed selection, and the end of the pipeline from there to an idle
/// session.
pub proof fn lemma_selection_ends_idle(
    buffer: CaptureBuffer,
    down: ScreenPoint,
    moved: ScreenPoint,
    up: ScreenPoint,
)
    ensures
        ({
            let pressed = next_state(SelectionState::Capturing { buffer }, PointerEvent::Down(down));
            let dragged = next_state(pressed, PointerEvent::Move(moved));
            let released = next_state(dragged, PointerEvent::Up(up));
            &&& released == SelectionState::Completed { rectangle: live_rectangle(buffer, down, up) }
            &&& next_action(dragged, PointerEvent::Up(up)) == Some(
                Action::RunPipeline { buffer, rectangle: live_rectangle(buffer, down, up) },
            )
            &&& state_after_pipeline(released) == SelectionState::Idle
        }),
{
}

/// Outside an active capture every pointer event is ignored.
pub proof fn lemma_events_outside_a_capture_are_ignored(rectangle: Rectangle, event: PointerEvent)
    ensures
        next_state(SelectionState::Idle, event) == SelectionState::Idle,
        next_action(SelectionState::Idle, event) is None,
        next_state(SelectionState::Completed { rectangle }, event) == (SelectionState::Completed {
            rectangle,
        }),
        next_action(SelectionState::Completed { rectangle }, event) is None,
{
}

} // verus!
