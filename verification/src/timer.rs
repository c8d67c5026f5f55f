//! The timer block of the timer-programming message family.

use vstd::prelude::*;

verus! {

/// Record on Sundays.
pub const REC_SEQ_SUNDAY: u8 = 0x01;

/// Record on Mondays.
pub const REC_SEQ_MONDAY: u8 = 0x02;

/// Record on Tuesdays.
pub const REC_SEQ_TUESDAY: u8 = 0x04;

/// Record on Wednesdays.
pub const REC_SEQ_WEDNESDAY: u8 = 0x08;

/// Record on Thursdays.
pub const REC_SEQ_THURSDAY: u8 = 0x10;

/// Record on Fridays.
pub const REC_SEQ_FRIDAY: u8 = 0x20;

/// Record on Saturdays.
pub const REC_SEQ_SATURDAY: u8 = 0x40;

/// Which weekdays a timer recording repeats on; zero means it does not
/// repeat.
#[derive(Debug, Eq, PartialEq, Clone, Copy, Structural)]
pub struct RecordingSequence {
    pub bits: u8,
}

impl RecordingSequence {
    /// No repetition.
    pub fn once() -> (r: RecordingSequence)
        ensures
            r.bits == 0u8,
    {
        RecordingSequence { bits: 0 }
    }

    pub open spec fn spec_contains(&self, days: u8) -> bool {
        self.bits & days == days
    }

    /// True when every day of `days` is in the sequence.
    #[verifier::when_used_as_spec(spec_contains)]
    pub fn contains(&self, days: u8) -> (r: bool)
        ensures
            r == self.spec_contains(days),
    {
        self.bits & days == days
    }
}

/// When a timer recording starts and how long it runs: the leading
/// operand block of the set-timer messages.
#[derive(Debug, Eq, PartialEq, Clone, Copy, Structural)]
pub struct CecTimer {
    /// Day of month, 1 to 31.
    pub day: u8,
    /// Month of year, 1 to 12.
    pub month: u8,
    /// Start hour, 0 to 23.
    pub start_h: u8,
    /// Start minute, 0 to 59.
    pub start_min: u8,
    /// Duration hours, 1 to 99.
    pub duration_h: u8,
    /// Duration minutes, 0 to 59.
    pub duration_min: u8,
}

impl CecTimer {
    /// The fields are within their documented ranges.
    pub open spec fn wf(&self) -> bool {
        &&& 1 <= self.day <= 31
        &&& 1 <= self.month <= 12
        &&& self.start_h <= 23
        &&& self.start_min <= 59
        &&& 1 <= self.duration_h <= 99
        &&& self.duration_min <= 59
    }
}

} // verus!
