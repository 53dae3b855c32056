//! The raw document model, the resolved settings model, and the error
//! taxonomy of the validation pipeline.

use crate::constants::{MIN_COMBO_WINDOW, MIN_DEBOUNCE_TIME};
use vstd::prelude::*;

verus! {

/// Every way a configuration document can be rejected.
///
/// Each variant carries exactly the payload needed to reproduce a
/// human-readable diagnostic.
#[derive(Debug, PartialEq, Eq)]
pub enum MappingsParseError {
    /// The supplied path has no file name component extractable as text.
    InvalidFilename,
    /// The named file could not be opened or read as text.
    CannotReadFile(String),
    /// The document failed structural deserialization.
    InvalidToml,
    /// A `debounce` value outside the accepted range.
    InvalidDebounceTime(u16),
    /// A `combo_window` value outside the accepted range.
    InvalidComboWindow(u16),
    /// A rhythm bound to a non-ASCII character.
    InvalidCharacter(char),
    /// An unrecognized beat token within the rhythm bound to `character`.
    InvalidBeat { beat: String, character: char },
    /// An out-of-range delay within the rhythm bound to `character`.
    InvalidDelay { delay: u16, character: char },
    /// A rhythm with no beats at all.
    EmptyRhythm(char),
    /// More delays than beats minus one.
    TooManyDelays { character: char },
    /// Fewer delays than beats minus one.
    TooFewDelays { character: char },
}

/// Mathematical image of a [`MappingsParseError`]: the same variants over
/// `Seq<char>` instead of `String`, for use in contracts.
pub enum ErrView {
    InvalidFilename,
    CannotReadFile(Seq<char>),
    InvalidToml,
    InvalidDebounceTime(u16),
    InvalidComboWindow(u16),
    InvalidCharacter(char),
    InvalidBeat(Seq<char>, char),
    InvalidDelay(u16, char),
    EmptyRhythm(char),
    TooManyDelays(char),
    TooFewDelays(char),
}

impl View for MappingsParseError {
    type V = ErrView;

    open spec fn view(&self) -> ErrView {
        match self {
            MappingsParseError::InvalidFilename => ErrView::InvalidFilename,
            MappingsParseError::CannotReadFile(name) => ErrView::CannotReadFile(name@),
            MappingsParseError::InvalidToml => ErrView::InvalidToml,
            MappingsParseError::InvalidDebounceTime(t) => ErrView::InvalidDebounceTime(*t),
            MappingsParseError::InvalidComboWindow(w) => ErrView::InvalidComboWindow(*w),
            MappingsParseError::InvalidCharacter(c) => ErrView::InvalidCharacter(*c),
            MappingsParseError::InvalidBeat { beat, character } => ErrView::InvalidBeat(
                beat@,
                *character,
            ),
            MappingsParseError::InvalidDelay { delay, character } => ErrView::InvalidDelay(
                *delay,
                *character,
            ),
            MappingsParseError::EmptyRhythm(c) => ErrView::EmptyRhythm(*c),
            MappingsParseError::TooManyDelays { character } => ErrView::TooManyDelays(*character),
            MappingsParseError::TooFewDelays { character } => ErrView::TooFewDelays(*character),
        }
    }
}

/// The raw configuration document, exactly as authored: everything optional
/// except the structurally required fields of each rhythm.
#[derive(Debug)]
pub struct BongoConfig {
    pub global: GlobalConfig,
    pub freestyle: Option<Vec<FreestyleConfig>>,
}

/// The raw `[global]` block of a document.
#[derive(Debug, Clone, Copy)]
pub struct GlobalConfig {
    pub debounce: Option<u16>,
    pub combo_window: Option<u16>,
}

/// One raw `[[freestyle]]` rhythm entry of a document.
#[derive(Debug, Clone)]
pub struct FreestyleConfig {
    pub character: char,
    pub beats: Vec<String>,
    pub delays: Vec<u16>,
}

/// Fully-validated settings: both timing values resolved and in range, and
/// every rhythm well-formed.
#[derive(Debug, PartialEq, Eq)]
pub struct BongoSettings {
    pub global: GlobalSettings,
    pub freestyle: FreestyleSettings,
}

impl Default for BongoSettings {
    /// The settings applied when no configuration file is usable.
    fn default() -> (s: Self)
        ensures
            s.global == GlobalSettings::default_spec(),
            s.freestyle.0 is None,
    {
        BongoSettings { global: GlobalSettings::default(), freestyle: FreestyleSettings(None) }
    }
}

/// Resolved global timing settings, always within their valid ranges.
#[derive(Debug, Clone, Copy, PartialEq, Eq, Structural)]
pub struct GlobalSettings {
    pub debounce: u16,
    pub combo_window: u16,
}

impl GlobalSettings {
    /// The value `default` returns: both timings at their minimum.
    pub open spec fn default_spec() -> GlobalSettings {
        GlobalSettings { debounce: MIN_DEBOUNCE_TIME, combo_window: MIN_COMBO_WINDOW }
    }
}

impl Default for GlobalSettings {
    fn default() -> (s: Self)
        ensures
            s == GlobalSettings::default_spec(),
    {
        GlobalSettings { debounce: MIN_DEBOUNCE_TIME, combo_window: MIN_COMBO_WINDOW }
    }
}

/// The validated freestyle rhythms; `None` when the document had no
/// `freestyle` key at all.
#[derive(Debug, PartialEq, Eq)]
pub struct FreestyleSettings(pub Option<Vec<FreestyleRhythm>>);

impl Default for FreestyleSettings {
    fn default() -> (s: Self)
        ensures
            s.0 is None,
    {
        FreestyleSettings(None)
    }
}

/// One validated rhythm: a binding character and the beats it triggers,
/// each beat paired with the delay that follows it (`None` after the last).
#[derive(Debug, PartialEq, Eq)]
pub struct FreestyleRhythm {
    pub character: char,
    pub beats: Vec<(BongoInput, Option<BeatDelay>)>,
}

/// The closed set of physical and virtual inputs of the device.
#[derive(Debug, Clone, Copy, PartialEq, Eq, Structural)]
pub enum BongoInput {
    BackLeftBongo,
    FrontLeftBongo,
    BackRightBongo,
    FrontRightBongo,
    StartPauseButton,
    ClapMicrophone,
}

/// A delay between two beats, in milliseconds; validated values always lie
/// within the debounce range.
#[derive(Debug, Clone, Copy, PartialEq, Eq, Structural)]
pub struct BeatDelay(pub u16);

} // verus!
