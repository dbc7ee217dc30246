//! Message taxonomy of the control plane, plus the small enums the user
//! picks values from: root note, mode and time signature.

use vstd::prelude::*;

use crate::style::Style;

verus! {

/// A root note the user can select for the generated scale.
#[derive(Debug, Clone, Copy, PartialEq, Eq, Structural)]
pub enum Note {
    C,
    CSharp,
    D,
    DSharp,
    E,
    F,
    FSharp,
    G,
    GSharp,
    A,
    ASharp,
    B,
}

impl Note {
    /// The display name of the note, as sent to the generation API.
    pub fn name(&self) -> (r: &'static str)
        ensures
            r@ == self.spec_name(),
    {
        match self {
            Note::C => "C",
            Note::CSharp => "C#",
            Note::D => "D",
            Note::DSharp => "D#",
            Note::E => "E",
            Note::F => "F",
            Note::FSharp => "F#",
            Note::G => "G",
            Note::GSharp => "G#",
            Note::A => "A",
            Note::ASharp => "A#",
            Note::B => "B",
        }
    }

    /// The characters of the note's display name.
    pub open spec fn spec_name(self) -> Seq<char> {
        match self {
            Note::C => "C"@,
            Note::CSharp => "C#"@,
            Note::D => "D"@,
            Note::DSharp => "D#"@,
            Note::E => "E"@,
            Note::F => "F"@,
            Note::FSharp => "F#"@,
            Note::G => "G"@,
            Note::GSharp => "G#"@,
            Note::A => "A"@,
            Note::ASharp => "A#"@,
            Note::B => "B"@,
        }
    }
}

/// A tonal mode the user can select.
#[derive(Debug, Clone, Copy, PartialEq, Eq, Structural)]
pub enum Mode {
    Major,
    Minor,
}

impl Mode {
    /// The display name of the mode.
    pub fn name(&self) -> (r: &'static str)
        ensures
            r@ == self.spec_name(),
    {
        match self {
            Mode::Major => "Major",
            Mode::Minor => "Minor",
        }
    }

    /// The characters of the mode's display name.
    pub open spec fn spec_name(self) -> Seq<char> {
        match self {
            Mode::Major => "Major"@,
            Mode::Minor => "Minor"@,
        }
    }
}

/// The time signatures the plugin parameter can take.
#[derive(Debug, Clone, Copy, PartialEq, Eq, Structural)]
pub enum TimeSignature {
    FourFour,
    ThreeFour,
    SixEight,
}

impl TimeSignature {
    /// Index of the variant within the parameter's list of choices.
    pub fn to_index(self) -> (r: usize)
        ensures
            r == self.spec_index(),
            r < 3,
    {
        match self {
            TimeSignature::FourFour => 0,
            TimeSignature::ThreeFour => 1,
            TimeSignature::SixEight => 2,
        }
    }

    /// Variant at the given index; out-of-range indices fall back to the
    /// default 4/4 signature.
    pub fn from_index(index: usize) -> (r: TimeSignature)
        ensures
            r == TimeSignature::spec_from_index(index as int),
    {
        match index {
            0 => TimeSignature::FourFour,
            1 => TimeSignature::ThreeFour,
            2 => TimeSignature::SixEight,
            _ => TimeSignature::FourFour,
        }
    }

    /// The variant's position in the parameter's list of choices.
    pub open spec fn spec_index(self) -> int {
        match self {
            TimeSignature::FourFour => 0,
            TimeSignature::ThreeFour => 1,
            TimeSignature::SixEight => 2,
        }
    }

    /// The variant chosen for an index; out-of-range indices give the
    /// default 4/4 signature.
    pub open spec fn spec_from_index(index: int) -> TimeSignature {
        if index == 0 {
            TimeSignature::FourFour
        } else if index == 1 {
            TimeSignature::ThreeFour
        } else if index == 2 {
            TimeSignature::SixEight
        } else {
            TimeSignature::FourFour
        }
    }
}

/// Round trip between a time signature and its parameter index.
pub proof fn lemma_time_signature_index_round_trip(t: TimeSignature)
    ensures
        TimeSignature::spec_from_index(t.spec_index()) == t,
{
}

/// A command sent from a producer thread (typically the UI) to the
/// coordinator on the real-time thread. Ownership transfers to the channel
/// on send.
#[derive(Debug, Clone)]
pub enum Command {
    /// Request a new generation run with the current session parameters.
    Generate,
    /// Select the instrument style used by subsequent generations.
    SelectStyle(Style),
    /// Select the root note of the scale used by subsequent generations.
    SelectNote(Note),
    /// Select the tonal mode; the coordinator currently only acknowledges it.
    SelectMode(Mode),
    /// Ask for the most recently generated file to be downloaded.
    Download,
}

/// An event sent from the coordinator back to consumer threads (typically
/// the UI). At most one event is produced per logical transition.
#[derive(Debug, Clone)]
pub enum Event {
    /// Whether a download link is now available.
    DownloadLinkAvailable(bool),
    /// Download progress as a percentage between 0 and 100.
    DownloadProgress(u8),
    /// A download failed with the given message; the link stays valid for a
    /// retry.
    DownloadError(String),
}

} // verus!
