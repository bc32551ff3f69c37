use vstd::prelude::*;

verus! {

/// What the recorder does with live input.
#[derive(Copy, Clone, Debug, PartialEq, Eq, Structural)]
pub enum RecordingMode {
    /// Events pass through; nothing is stored.
    Playthrough,
    /// Live input is cut into phrases and stored as accompaniments.
    Record,
    /// A stored accompaniment plays back while live input is stored as a solo.
    SoloOver,
}

/// The label shown for each mode.
pub open spec fn mode_text(m: RecordingMode) -> Seq<char> {
    match m {
        RecordingMode::Playthrough => "Play Freely"@,
        RecordingMode::Record => "Record Accompaniment"@,
        RecordingMode::SoloOver => "Solo Over Recording"@,
    }
}

impl RecordingMode {
    pub fn text(&self) -> (r: &'static str)
        ensures
            r@ == mode_text(*self),
    {
        match self {
            RecordingMode::Playthrough => "Play Freely",
            RecordingMode::Record => "Record Accompaniment",
            RecordingMode::SoloOver => "Solo Over Recording",
        }
    }
}

} // verus!
