//! The settings that a user can change, and what is accepted as a change.

use vstd::prelude::*;
use vstd::string::{StrSliceExecFns, StringExecFns};
use crate::geometry::{clamped, ScreenPoint};
use crate::voice::{VoicePitch, VoiceRate};

verus! {

/// The record that is kept between runs.
#[derive(Clone, Debug, PartialEq, Eq)]
pub struct Settings {
    /// Where the text detection model lies.
    pub detection_file: String,
    /// Where the text recognition model lies.
    pub recognition_file: String,
    /// The colour of the selection rectangle, RGBA.
    pub rect_colour: [u8; 4],
    /// How loud the voice speaks, from 0 to 255.
    pub volume: u8,
    pub pitch: VoicePitch,
    pub rate: VoiceRate,
    /// The identifier of the voice, as the speech engine names it.
    pub voice: String,
    /// Where the window stands on the desktop.
    pub position: ScreenPoint,
    /// A switch that is kept with the record; no part of a session reads it.
    pub drag_draw: bool,
}

impl Settings {
    /// The settings of a first run.
    pub open spec fn is_initial(self) -> bool {
        &&& self.detection_file@ == "text-detection.rten"@
        &&& self.recognition_file@ == "text-recognition.rten"@
        &&& self.rect_colour@ == seq![0u8, 255u8, 0u8, 255u8]
        &&& self.volume == 255
        &&& self.pitch == VoicePitch::Alto
        &&& self.rate == VoiceRate::Default
        &&& self.voice@ == Seq::<char>::empty()
        &&& self.position == ScreenPoint { x: 0, y: 0 }
        &&& self.drag_draw
    }
}

impl Default for Settings {
    /// The settings of a first run: both models beside the program, a green
    /// rectangle, full volume, the middle pitch and rate, the engine's own
    /// voice, the window in the corner of the desktop.
    fn default() -> (settings: Settings)
        ensures
            settings.is_initial(),
    {
        let settings = Settings {
            detection_file: String::from_str("text-detection.rten"),
            recognition_file: String::from_str("text-recognition.rten"),
            rect_colour: [0, 255, 0, 255],
            volume: 255,
            pitch: VoicePitch::Alto,
            rate: VoiceRate::Default,
            voice: String::new(),
            position: ScreenPoint { x: 0, y: 0 },
            drag_draw: true,
        };
        assert(settings.rect_colour@ =~= seq![0u8, 255u8, 0u8, 255u8]);
        settings
    }
}

/// The settings to start with, and whether they are yet to be written.
#[derive(Debug, PartialEq, Eq)]
pub struct Startup {
    pub settings: Settings,
    /// The settings file holds nothing: it is to be written now.
    pub store: bool,
}

/// Whether a settings file holds no record: a file that was only just
/// created is empty.
pub fn stored_is_blank(contents: &str) -> (blank: bool)
    ensures
        blank == (contents@.len() == 0),
{
    contents.is_empty()
}

/// The settings to start with: the stored record where there is one, or
/// else those of a first run, which are then to be stored.
pub fn at_startup(stored: Option<Settings>) -> (startup: Startup)
    ensures
        match stored {
            Some(record) => startup.settings == record && !startup.store,
            None => startup.settings.is_initial() && startup.store,
        },
{
    match stored {
        Some(record) => Startup { settings: record, store: false },
        None => Startup { settings: Settings::default(), store: true },
    }
}

/// One of the three colour components that a user can enter.
#[derive(Clone, Copy, Debug, PartialEq, Eq, Structural)]
pub enum ColourChannel {
    Red,
    Green,
    Blue,
}

impl ColourChannel {
    /// The place of the component in an RGBA colour.
    pub open spec fn spec_index(self) -> int {
        match self {
            ColourChannel::Red => 0,
            ColourChannel::Green => 1,
            ColourChannel::Blue => 2,
        }
    }

    /// The place of the component in an RGBA colour.
    pub fn index(self) -> (i: usize)
        ensures
            i == self.spec_index(),
            i < 3,
    {
        match self {
            ColourChannel::Red => 0,
            ColourChannel::Green => 1,
            ColourChannel::Blue => 2,
        }
    }
}

/// Why a change was not taken.
#[derive(Clone, Copy, Debug, PartialEq, Eq, Structural)]
pub enum SettingsError {
    /// The text entered for a colour component is no number from 0 to 255.
    InvalidColourComponent,
}

impl SettingsError {
    /// What to tell the user.
    pub fn message(&self) -> (text: String)
        ensures
            text@ == "Colour components must be a number 0..255"@,
    {
        String::from_str("Colour components must be a number 0..255")
    }
}

/// The character is one of the ten decimal digits.
pub open spec fn is_digit(c: char) -> bool {
    '0' <= c <= '9'
}

/// The number that a string of decimal digits writes.
pub open spec fn decimal_value(digits: Seq<char>) -> nat
    decreases digits.len(),
{
    if digits.len() == 0 {
        0
    } else {
        (10 * decimal_value(digits.drop_last()) + (digits.last() as u32 - '0' as u32)) as nat
    }
}

/// The text without the one plus sign that may stand in front of a number.
pub open spec fn unsigned_part(text: Seq<char>) -> Seq<char> {
    if text.len() > 0 && text[0] == '+' {
        text.subrange(1, text.len() as int)
    } else {
        text
    }
}

/// The colour component that a text writes: decimal digits, at least one,
/// with or without a plus sign in front and nothing else around them, that
/// make a number up to 255. Any other text writes none.
pub open spec fn component_of(text: Seq<char>) -> Option<u8> {
    let digits = unsigned_part(text);
    if digits.len() > 0 && (forall|i: int| 0 <= i < digits.len() ==> is_digit(#[trigger] digits[i]))
        && decimal_value(digits) <= 255 {
        Some(decimal_value(digits) as u8)
    } else {
        None
    }
}

/// Reads a colour component as a user typed it.
pub fn parse_colour_component(text: &str) -> (component: Result<u8, SettingsError>)
    ensures
        component == match component_of(text@) {
            Some(value) => Ok::<u8, SettingsError>(value),
            None => Err::<u8, SettingsError>(SettingsError::InvalidColourComponent),
        },
{
    let len: usize = text.unicode_len();
    let first: usize = if len > 0 && text.get_char(0) == '+' {
        1
    } else {
        0
    };
    let ghost digits = unsigned_part(text@);
    assert(digits =~= text@.subrange(first as int, len as int));
    if first == len {
        return Err(SettingsError::InvalidColourComponent);
    }
    let mut value: u32 = 0;
    let mut i: usize = first;
    while i < len
        invariant
            first <= i <= len,
            len == text@.len(),
            digits == text@.subrange(first as int, len as int),
            digits == unsigned_part(text@),
            forall|j: int| 0 <= j < i - first ==> is_digit(#[trigger] digits[j]),
            value <= 256,
            value == if decimal_value(digits.take(i - first)) > 255 {
                256
            } else {
                decimal_value(digits.take(i - first))
            },
        decreases len - i,
    {
        let c: char = text.get_char(i);
        assert(digits[i - first] == c);
        if !('0' <= c && c <= '9') {
            assert(!is_digit(digits[i - first]));
            return Err(SettingsError::InvalidColourComponent);
        }
        let digit: u32 = c as u32 - '0' as u32;
        proof {
            assert(digits.take(i - first + 1).drop_last() =~= digits.take(i - first));
            assert(digits.take(i - first + 1).last() == c);
        }
        value = if value > 25 {
            256
        } else if 10 * value + digit > 255 {
            256
        } else {
            10 * value + digit
        };
        i += 1;
    }
    assert(digits.take(len - first) =~= digits);
    if value > 255 {
        Err(SettingsError::InvalidColourComponent)
    } else {
        Ok(value as u8)
    }
}

/// One change that a user asks for.
#[derive(Clone, Debug, PartialEq, Eq)]
pub enum SettingChange {
    Rate(VoiceRate),
    Pitch(VoicePitch),
    Volume(u8),
    /// A colour component, as the text that was typed for it.
    Colour { channel: ColourChannel, text: String },
    Voice(String),
    DetectionFile(String),
    RecognitionFile(String),
}

impl SettingChange {
    /// The change can be taken.
    pub open spec fn is_valid(self) -> bool {
        self matches SettingChange::Colour { channel, text } ==> component_of(text@) is Some
    }
}

/// Every field but the colour is the same in both.
pub open spec fn same_but_colour(before: Settings, after: Settings) -> bool {
    &&& after.detection_file == before.detection_file
    &&& after.recognition_file == before.recognition_file
    &&& after.volume == before.volume
    &&& after.pitch == before.pitch
    &&& after.rate == before.rate
    &&& after.voice == before.voice
    &&& after.position == before.position
    &&& after.drag_draw == before.drag_draw
}

/// `after` is `before` with a valid change made: the one field that the
/// change names has the new value, every other field is as before.
pub open spec fn is_changed(before: Settings, change: SettingChange, after: Settings) -> bool {
    match change {
        SettingChange::Rate(rate) => after == (Settings { rate, ..before }),
        SettingChange::Pitch(pitch) => after == (Settings { pitch, ..before }),
        SettingChange::Volume(volume) => after == (Settings { volume, ..before }),
        SettingChange::Colour { channel, text } => {
            &&& same_but_colour(before, after)
            &&& after.rect_colour@ == before.rect_colour@.update(
                channel.spec_index(),
                component_of(text@).unwrap(),
            )
        },
        SettingChange::Voice(voice) => after == (Settings { voice, ..before }),
        SettingChange::DetectionFile(file) => after == (Settings { detection_file: file, ..before }),
        SettingChange::RecognitionFile(file) => after == (Settings {
            recognition_file: file,
            ..before
        }),
    }
}

impl Settings {
    /// Makes one change. A colour component that is no number from 0 to 255
    /// is refused, and the settings stay as they were.
    pub fn apply(&mut self, change: SettingChange) -> (outcome: Result<(), SettingsError>)
        ensures
            change.is_valid() ==> outcome is Ok && is_changed(*old(self), change, *final(self)),
            !change.is_valid() ==> outcome == Err::<(), SettingsError>(
                SettingsError::InvalidColourComponent,
            ) && *final(self) == *old(self),
    {
        match change {
            SettingChange::Rate(rate) => {
                self.rate = rate;
            },
            SettingChange::Pitch(pitch) => {
                self.pitch = pitch;
            },
            SettingChange::Volume(volume) => {
                self.volume = volume;
            },
            SettingChange::Colour { channel, text } => {
                match parse_colour_component(text.as_str()) {
                    Ok(value) => {
                        self.rect_colour[channel.index()] = value;
                    },
                    Err(e) => {
                        return Err(e);
                    },
                }
            },
            SettingChange::Voice(voice) => {
                self.voice = voice;
            },
            SettingChange::DetectionFile(file) => {
                self.detection_file = file;
            },
            SettingChange::RecognitionFile(file) => {
                self.recognition_file = file;
            },
        }
        Ok(())
    }
}

/// Whether the settings are shown, and whether they hold a change that was
/// neither stored nor withdrawn.
#[derive(Clone, Copy, Debug, PartialEq, Eq, Structural)]
pub struct SettingsPanel {
    pub open: bool,
    pub dirty: bool,
}

/// What a user does to the panel.
#[derive(Clone, Copy, Debug, PartialEq, Eq, Structural)]
pub enum PanelEvent {
    /// The panel is to be shown, or to be hidden.
    Toggle,
    /// A setting was changed.
    Changed,
    /// The changes are withdrawn.
    Cancel,
    /// The changes are stored.
    Apply,
}

/// What the caller is to do for the panel.
#[derive(Clone, Copy, Debug, PartialEq, Eq, Structural)]
pub enum PanelAction {
    /// Fit the window to the panel as it now is.
    Resize,
    /// Read the stored settings again, then fit the window.
    Restore,
    /// Store the settings, set up recognition and voice anew, then fit the
    /// window.
    Store,
}

impl Default for SettingsPanel {
    /// The panel as a session starts: hidden, and without a change.
    fn default() -> (panel: SettingsPanel)
        ensures
            panel == (SettingsPanel { open: false, dirty: false }),
    {
        SettingsPanel { open: false, dirty: false }
    }
}

impl SettingsPanel {
    /// The panel after an event. A change marks the panel; to withdraw or to
    /// store the changes clears the mark and, like a toggle, shows a hidden
    /// panel or hides a shown one.
    pub open spec fn after(self, event: PanelEvent) -> SettingsPanel {
        match event {
            PanelEvent::Toggle => SettingsPanel { open: !self.open, dirty: self.dirty },
            PanelEvent::Changed => SettingsPanel { open: self.open, dirty: true },
            PanelEvent::Cancel => SettingsPanel { open: !self.open, dirty: false },
            PanelEvent::Apply => SettingsPanel { open: !self.open, dirty: false },
        }
    }

    /// What is to be done once the panel has taken an event.
    pub open spec fn action_on(event: PanelEvent) -> Option<PanelAction> {
        match event {
            PanelEvent::Toggle => Some(PanelAction::Resize),
            PanelEvent::Changed => None,
            PanelEvent::Cancel => Some(PanelAction::Restore),
            PanelEvent::Apply => Some(PanelAction::Store),
        }
    }

    /// Takes one event.
    pub fn on_event(self, event: PanelEvent) -> (next: (SettingsPanel, Option<PanelAction>))
        ensures
            next.0 == self.after(event),
            next.1 == Self::action_on(event),
    {
        match event {
            PanelEvent::Toggle => (
                SettingsPanel { open: !self.open, dirty: self.dirty },
                Some(PanelAction::Resize),
            ),
            PanelEvent::Changed => (SettingsPanel { open: self.open, dirty: true }, None),
            PanelEvent::Cancel => (
                SettingsPanel { open: !self.open, dirty: false },
                Some(PanelAction::Restore),
            ),
            PanelEvent::Apply => (
                SettingsPanel { open: !self.open, dirty: false },
                Some(PanelAction::Store),
            ),
        }
    }
}

/// Where the window stands once the pointer, which held it at `previous`,
/// has gone to `pointer`: it has moved as far as the pointer has, and stops
/// at the last position that can be written down.
pub open spec fn dragged(position: ScreenPoint, previous: ScreenPoint, pointer: ScreenPoint) -> ScreenPoint {
    ScreenPoint {
        x: clamped(position.x + (pointer.x - previous.x)) as i32,
        y: clamped(position.y + (pointer.y - previous.y)) as i32,
    }
}

fn drag_axis(position: i32, previous: i32, pointer: i32) -> (moved: i32)
    ensures
        moved == clamped(position + (pointer - previous)),
{
    let target: i64 = position as i64 + (pointer as i64 - previous as i64);
    if target < i32::MIN as i64 {
        i32::MIN
    } else if target > i32::MAX as i64 {
        i32::MAX
    } else {
        target as i32
    }
}

/// Moves the window with the pointer that drags it.
pub fn drag_window(position: ScreenPoint, previous: ScreenPoint, pointer: ScreenPoint) -> (moved:
    ScreenPoint)
    ensures
        moved == dragged(position, previous, pointer),
{
    ScreenPoint {
        x: drag_axis(position.x, previous.x, pointer.x),
        y: drag_axis(position.y, previous.y, pointer.y),
    }
}

} // verus!
