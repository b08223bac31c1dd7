use vstd::prelude::*;

verus! {

/// The mascot whose ASCII art is appended below the bubble.
#[derive(Copy, Clone)]
pub enum Speaker {
    Ferris,
    Clippy,
    Cow,
}

/// Whether the bubble is joined to the mascot by a speech or a thought
/// connector.
#[derive(Copy, Clone)]
pub enum SpeechModes {
    Think,
    Say,
}

/// The glyph pair used for the mascot's eyes, expressing its mood.
#[derive(Copy, Clone)]
pub enum Eyes {
    RegularEyes,
    GreedyEyes,
    YouthfulEyes,
    ParanoidEyes,
    DeadEyes,
    TiredEyes,
    CryingEyes,
    HappyEyes,
}

/// Per-call rendering options: speech mode and eye style.
pub struct FerrisConfig {
    pub mode: SpeechModes,
    pub eyes: Eyes,
}

/// The ways a render call can fail.
#[derive(Copy, Clone, PartialEq, Eq, Debug)]
pub enum SayError {
    /// The input bytes are not valid UTF-8 text.
    InvalidEncoding,
    /// The output sink rejected the rendered bytes.
    OutputFailure,
}

/// Holds the currently selected mascot.  The caller threads one selector
/// through its render calls and updates it with [`set_speaker`]; every
/// later call renders the mascot it holds.
pub struct Selector {
    speaker: Speaker,
}

impl Selector {
    /// The mascot this selector currently holds.
    pub closed spec fn selected(&self) -> Speaker {
        self.speaker
    }

    /// A fresh selector, with Ferris selected.
    pub fn new() -> (sel: Selector)
        ensures
            sel.selected() == Speaker::Ferris,
    {
        Selector { speaker: Speaker::Ferris }
    }

    /// A copy of the currently selected mascot.
    pub fn speaker(&self) -> (s: Speaker)
        ensures
            s == self.selected(),
    {
        self.speaker
    }
}

/// Selects the mascot used by every later render call that reads `sel`.
pub fn set_speaker(sel: &mut Selector, speaker: &Speaker)
    ensures
        final(sel).selected() == *speaker,
{
    sel.speaker = *speaker;
}

} // verus!
