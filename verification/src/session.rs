//! One session of the tool: the selection, the settings and their panel, and
//! the window. The session takes what the user did and what the screen and
//! the recognition engine returned, and says what is to be done next.

use vstd::prelude::*;
use crate::capture::{CaptureBuffer, CaptureError};
use crate::geometry::{logical, logical_position, ScaleFactor, ScreenPoint};
use crate::pipeline::{
    conclude, joined, run, selected_region, CroppedImage, OcrError, PipelineStep, TextLine,
    Utterance,
};
use crate::selection::{
    advance, live_rectangle, next_state, on_capture, on_pipeline_finished, Action, PointerEvent,
    SelectionState,
};
use crate::settings::{
    drag_window, dragged, is_changed, PanelEvent, SettingChange, Settings, SettingsError,
    SettingsPanel,
};

verus! {

/// What a session holds between two events.
#[derive(Debug, PartialEq, Eq)]
pub struct Session {
    pub selection: SelectionState,
    pub settings: Settings,
    pub panel: SettingsPanel,
    /// Where the pointer that drags the window was last seen, in logical
    /// pixels; `None` while the window is not dragged.
    pub held_at: Option<ScreenPoint>,
}

/// What happened.
#[derive(Debug, PartialEq, Eq)]
pub enum Event {
    /// A reading was asked for and the monitor under the pointer, which
    /// stands at `origin` on the desktop, was captured, or was not.
    Captured { outcome: Result<CaptureBuffer, CaptureError>, origin: ScreenPoint },
    /// The pointer went down on the bitmap.
    Pressed(ScreenPoint),
    /// The pointer moved, over a monitor with the given scale.
    Moved { position: ScreenPoint, scale: ScaleFactor },
    /// The pointer went up on the bitmap.
    Released(ScreenPoint),
    /// Text recognition returned.
    Recognized(Result<Vec<TextLine>, OcrError>),
    /// The settings are to be shown, or to be hidden.
    PanelToggled,
    /// A setting was changed.
    Changed(SettingChange),
    /// The changes are withdrawn; these are the settings as they are stored.
    Cancelled(Settings),
    /// The changes are to be stored.
    Applied,
    /// The pointer took hold of the window, over a monitor with the given
    /// scale.
    Grabbed { position: ScreenPoint, scale: ScaleFactor },
    /// The pointer let go of the window.
    Dropped,
}

/// How a reading ended.
#[derive(Debug, PartialEq, Eq)]
pub enum Reading {
    /// The selection was empty: nothing was recognised, nothing is spoken.
    Empty,
    /// This is to be spoken.
    Speak(Utterance),
    /// Recognition failed: nothing is spoken.
    Failed(OcrError),
}

/// What the caller is to do.
#[derive(Debug, PartialEq, Eq)]
pub enum Effect {
    Nothing,
    /// A bitmap was taken: the window is to cover the monitor, which stands
    /// at `origin`, with the frame of the new state.
    Cover { origin: ScreenPoint, size: (u32, u32) },
    /// No bitmap could be taken.
    CaptureFailed { error: CaptureError },
    /// The frame of the new state is to be shown.
    Render,
    /// The region is to be handed to text recognition, and what it returns
    /// to the session.
    Recognize { image: CroppedImage },
    /// The reading is over: the window is to shrink to its buttons and to
    /// go back to `position`.
    Restore { position: ScreenPoint, reading: Reading },
    /// The window is to be fitted to the panel.
    Fit { open: bool },
    /// The settings are to be stored, recognition and voice to be set up
    /// anew, and the window to be fitted to the panel.
    Store { open: bool },
    /// The change was refused.
    Refuse { reason: SettingsError },
    /// The window is to go to `position`.
    Move { position: ScreenPoint },
}

impl Session {
    /// A session as the tool starts: idle, the panel hidden, the window at
    /// rest.
    pub fn new(settings: Settings) -> (session: Session)
        ensures
            session == (Session {
                selection: SelectionState::Idle,
                settings,
                panel: SettingsPanel { open: false, dirty: false },
                held_at: None,
            }),
    {
        Session {
            selection: SelectionState::Idle,
            settings,
            panel: SettingsPanel { open: false, dirty: false },
            held_at: None,
        }
    }
}

impl Default for Session {
    /// A session with the settings of a first run.
    fn default() -> (session: Session)
        ensures
            session.selection == SelectionState::Idle,
            session.settings.is_initial(),
            session.panel == (SettingsPanel { open: false, dirty: false }),
            session.held_at is None,
    {
        Session::new(Settings::default())
    }
}

/// `after` and `effect` are what follows `before` on a pointer event over
/// the bitmap.
pub open spec fn is_pointer_step(
    before: Session,
    pointer: PointerEvent,
    after: Session,
    effect: Effect,
) -> bool {
    &&& after.settings == before.settings
    &&& after.panel == before.panel
    &&& after.held_at == before.held_at
    &&& match (before.selection, pointer) {
        (SelectionState::Dragging { buffer, start, pointer: last }, PointerEvent::Up(p)) => {
            let rectangle = live_rectangle(buffer, start, p);
            if rectangle.spec_is_empty() {
                &&& after.selection == SelectionState::Idle
                &&& effect == (Effect::Restore {
                    position: before.settings.position,
                    reading: Reading::Empty,
                })
            } else {
                &&& after.selection == SelectionState::Completed { rectangle }
                &&& effect matches Effect::Recognize { image }
                &&& image.bytes@ == selected_region(buffer@, buffer.spec_size().0 as int, rectangle)
                &&& image.width == rectangle.spec_width()
                &&& image.height == rectangle.spec_height()
            }
        },
        (SelectionState::Capturing { buffer }, PointerEvent::Down(p)) => {
            &&& after.selection == next_state(before.selection, pointer)
            &&& effect == Effect::Render
        },
        (SelectionState::Dragging { buffer, start, pointer: last }, _) => {
            &&& after.selection == next_state(before.selection, pointer)
            &&& effect == Effect::Render
        },
        _ => {
            &&& after.selection == before.selection
            &&& effect == Effect::Nothing
        },
    }
}

/// `after` and `effect` are what follows `before` on `event`.
pub open spec fn is_step(before: Session, event: Event, after: Session, effect: Effect) -> bool {
    match event {
        Event::Captured { outcome, origin } => {
            &&& after.settings == before.settings
            &&& after.panel == before.panel
            &&& after.held_at == before.held_at
            &&& match outcome {
                Ok(buffer) => {
                    &&& after.selection == SelectionState::Capturing { buffer }
                    &&& effect == Effect::Cover { origin, size: buffer.spec_size() }
                },
                Err(error) => {
                    &&& after.selection == SelectionState::Idle
                    &&& effect == Effect::CaptureFailed { error }
                },
            }
        },
        Event::Pressed(p) => is_pointer_step(before, PointerEvent::Down(p), after, effect),
        Event::Released(p) => is_pointer_step(before, PointerEvent::Up(p), after, effect),
        Event::Moved { position, scale } => {
            if before.selection.spec_is_selecting() {
                is_pointer_step(before, PointerEvent::Move(position), after, effect)
            } else {
                match before.held_at {
                    Some(previous) => {
                        let held = logical(position, scale);
                        let moved = dragged(before.settings.position, previous, held);
                        &&& after == (Session {
                            settings: Settings { position: moved, ..before.settings },
                            held_at: Some(held),
                            ..before
                        })
                        &&& effect == Effect::Move { position: moved }
                    },
                    None => after == before && effect == Effect::Nothing,
                }
            }
        },
        Event::Recognized(recognition) => {
            &&& after.settings == before.settings
            &&& after.panel == before.panel
            &&& after.held_at == before.held_at
            &&& match before.selection {
                SelectionState::Completed { rectangle } => {
                    &&& after.selection == SelectionState::Idle
                    &&& effect matches Effect::Restore { position, reading }
                    &&& position == before.settings.position
                    &&& match recognition {
                        Ok(lines) => {
                            &&& reading matches Reading::Speak(said)
                            &&& said.text@ == joined(lines@)
                            &&& !said.interrupt
                        },
                        Err(e) => reading == Reading::Failed(e),
                    }
                },
                _ => after.selection == before.selection && effect == Effect::Nothing,
            }
        },
        Event::PanelToggled => {
            &&& after == (Session { panel: before.panel.after(PanelEvent::Toggle), ..before })
            &&& effect == Effect::Fit { open: !before.panel.open }
        },
        Event::Changed(change) => {
            &&& after.selection == before.selection
            &&& after.held_at == before.held_at
            &&& if change.is_valid() {
                &&& is_changed(before.settings, change, after.settings)
                &&& after.panel == before.panel.after(PanelEvent::Changed)
                &&& effect == Effect::Nothing
            } else {
                &&& after.settings == before.settings
                &&& after.panel == before.panel
                &&& effect == Effect::Refuse { reason: SettingsError::InvalidColourComponent }
            }
        },
        Event::Cancelled(stored) => {
            &&& after == (Session {
                settings: stored,
                panel: before.panel.after(PanelEvent::Cancel),
                ..before
            })
            &&& effect == Effect::Fit { open: !before.panel.open }
        },
        Event::Applied => {
            &&& after == (Session { panel: before.panel.after(PanelEvent::Apply), ..before })
            &&& effect == Effect::Store { open: !before.panel.open }
        },
        Event::Grabbed { position, scale } => {
            &&& after == (Session { held_at: Some(logical(position, scale)), ..before })
            &&& effect == Effect::Nothing
        },
        Event::Dropped => {
            &&& after == (Session { held_at: None, ..before })
            &&& effect == Effect::Nothing
        },
    }
}

impl Session {
    /// Hands a pointer event to the selection. A release cuts the selected
    /// region out for recognition, or ends the reading at once where the
    /// selection is empty.
    fn on_pointer(self, pointer: PointerEvent) -> (next: (Session, Effect))
        ensures
            is_pointer_step(self, pointer, next.0, next.1),
    {
        let Session { selection, settings, panel, held_at } = self;
        let (state, action) = advance(selection, pointer);
        match action {
            Some(Action::Render) => (Session { selection: state, settings, panel, held_at }, Effect::Render),
            Some(Action::RunPipeline { buffer, rectangle }) => match run(buffer, rectangle) {
                PipelineStep::EmptySelection => {
                    let position = settings.position;
                    (
                        Session {
                            selection: on_pipeline_finished(state),
                            settings,
                            panel,
                            held_at,
                        },
                        Effect::Restore { position, reading: Reading::Empty },
                    )
                },
                PipelineStep::Recognize { image } => (
                    Session { selection: state, settings, panel, held_at },
                    Effect::Recognize { image },
                ),
            },
            None => (Session { selection: state, settings, panel, held_at }, Effect::Nothing),
        }
    }

    /// Takes one event: gives the session that follows and what the caller
    /// is to do.
    pub fn update(self, event: Event) -> (next: (Session, Effect))
        ensures
            is_step(self, event, next.0, next.1),
    {
        match event {
            Event::Captured { outcome, origin } => {
                let Session { selection, settings, panel, held_at } = self;
                match outcome {
                    Ok(buffer) => {
                        let size = buffer.size();
                        (
                            Session {
                                selection: on_capture(selection, Ok(buffer)),
                                settings,
                                panel,
                                held_at,
                            },
                            Effect::Cover { origin, size },
                        )
                    },
                    Err(error) => (
                        Session {
                            selection: on_capture(selection, Err(error)),
                            settings,
                            panel,
                            held_at,
                        },
                        Effect::CaptureFailed { error },
                    ),
                }
            },
            Event::Pressed(p) => self.on_pointer(PointerEvent::Down(p)),
            Event::Released(p) => self.on_pointer(PointerEvent::Up(p)),
            Event::Moved { position, scale } => {
                if self.selection.is_selecting() {
                    self.on_pointer(PointerEvent::Move(position))
                } else {
                    match self.held_at {
                        Some(previous) => {
                            let held = logical_position(position, scale);
                            let moved = drag_window(self.settings.position, previous, held);
                            let Session { selection, settings, panel, held_at } = self;
                            let mut settings = settings;
                            settings.position = moved;
                            (
                                Session { selection, settings, panel, held_at: Some(held) },
                                Effect::Move { position: moved },
                            )
                        },
                        None => (self, Effect::Nothing),
                    }
                }
            },
            Event::Recognized(recognition) => {
                let Session { selection, settings, panel, held_at } = self;
                match selection {
                    SelectionState::Completed { rectangle } => {
                        let reading = match conclude(recognition) {
                            Ok(said) => Reading::Speak(said),
                            Err(e) => Reading::Failed(e),
                        };
                        let position = settings.position;
                        (
                            Session {
                                selection: on_pipeline_finished(
                                    SelectionState::Completed { rectangle },
                                ),
                                settings,
                                panel,
                                held_at,
                            },
                            Effect::Restore { position, reading },
                        )
                    },
                    other => (Session { selection: other, settings, panel, held_at }, Effect::Nothing),
                }
            },
            Event::PanelToggled => {
                let Session { selection, settings, panel, held_at } = self;
                let (panel, _) = panel.on_event(PanelEvent::Toggle);
                (Session { selection, settings, panel, held_at }, Effect::Fit { open: panel.open })
            },
            Event::Changed(change) => {
                let Session { selection, settings, panel, held_at } = self;
                let mut settings = settings;
                match settings.apply(change) {
                    Ok(()) => {
                        let (panel, _) = panel.on_event(PanelEvent::Changed);
                        (Session { selection, settings, panel, held_at }, Effect::Nothing)
                    },
                    Err(reason) => (
                        Session { selection, settings, panel, held_at },
                        Effect::Refuse { reason },
                    ),
                }
            },
            Event::Cancelled(stored) => {
                let Session { selection, settings, panel, held_at } = self;
                let (panel, _) = panel.on_event(PanelEvent::Cancel);
                (
                    Session { selection, settings: stored, panel, held_at },
                    Effect::Fit { open: panel.open },
                )
            },
            Event::Applied => {
                let Session { selection, settings, panel, held_at } = self;
                let (panel, _) = panel.on_event(PanelEvent::Apply);
                (Session { selection, settings, panel, held_at }, Effect::Store { open: panel.open })
            },
            Event::Grabbed { position, scale } => {
                let Session { selection, settings, panel, held_at } = self;
                (
                    Session {
                        selection,
                        settings,
                        panel,
                        held_at: Some(logical_position(position, scale)),
                    },
                    Effect::Nothing,
                )
            },
            Event::Dropped => {
                let Session { selection, settings, panel, held_at } = self;
                (Session { selection, settings, panel, held_at: None }, Effect::Nothing)
            },
        }
    }
}

/// A release ends every drag in one of two ways. Where the selection is
/// empty the reading is over at once: the session is idle, nothing is handed
/// to recognition and nothing is spoken. Else the region goes to
/// recognition, and whatever comes back, lines or a failure, leaves the
/// session idle; only lines are spoken.
pub proof fn lemma_reading_ends_idle(
    before: Session,
    up: ScreenPoint,
    released: Session,
    first: Effect,
    recognition: Result<Vec<TextLine>, OcrError>,
    ended: Session,
    second: Effect,
)
    requires
        before.selection is Dragging,
        is_step(before, Event::Released(up), released, first),
        is_step(released, Event::Recognized(recognition), ended, second),
    ensures
        ended.selection == SelectionState::Idle,
        ended.settings == before.settings,
        first is Restore <==> released.selection == SelectionState::Idle,
        first is Restore ==> first->reading == Reading::Empty && second == Effect::Nothing,
        !(first is Restore) ==> {
            &&& first is Recognize
            &&& released.selection is Completed
            &&& second is Restore
            &&& second->reading is Speak <==> recognition is Ok
            &&& second->reading is Failed <==> recognition is Err
        },
{
}

/// No pointer event and no outcome of a capture or of a recognition
/// changes a setting or the panel.
pub proof fn lemma_reading_leaves_the_settings(
    before: Session,
    event: Event,
    after: Session,
    effect: Effect,
)
    requires
        is_step(before, event, after, effect),
        event is Captured || event is Pressed || event is Released || event is Recognized,
    ensures
        after.settings == before.settings,
        after.panel == before.panel,
        after.held_at == before.held_at,
{
}

/// Nothing that is done to the settings, to the panel or to the window
/// touches the selection.
pub proof fn lemma_settings_leave_the_selection(
    before: Session,
    event: Event,
    after: Session,
    effect: Effect,
)
    requires
        is_step(before, event, after, effect),
        event is PanelToggled || event is Changed || event is Cancelled || event is Applied
            || event is Grabbed || event is Dropped,
    ensures
        after.selection == before.selection,
{
}

} // verus!
