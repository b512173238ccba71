use vstd::prelude::*;

verus! {

/// A full-width raw sample, as the driver delivers it on subdevices that
/// report the large-sample-width capability.
pub type LSampl = u32;

/// A half-width raw sample, the default streaming sample size.
pub type Sampl = u16;

/// Marker for the two sample widths a streamed read may use.
pub trait SamplType {}

impl SamplType for u32 {}

impl SamplType for u16 {}

/// Analog reference mode of a channel: how the sampled signal is referenced.
/// The integer codes mirror the driver's fixed header values.
#[derive(Copy, Clone, PartialEq, Eq, Structural, Debug)]
pub enum ARef {
    Ground,
    Common,
    Diff,
    Other,
}

impl ARef {
    /// The driver's integer code for this reference mode.
    pub open spec fn code(self) -> u32 {
        match self {
            ARef::Ground => 0x00,
            ARef::Common => 0x01,
            ARef::Diff => 0x02,
            ARef::Other => 0x03,
        }
    }

    /// Which reference mode, if any, a driver code denotes.
    pub open spec fn spec_from_repr(v: u32) -> Option<ARef> {
        if v == 0x00 {
            Some(ARef::Ground)
        } else if v == 0x01 {
            Some(ARef::Common)
        } else if v == 0x02 {
            Some(ARef::Diff)
        } else if v == 0x03 {
            Some(ARef::Other)
        } else {
            None
        }
    }

    pub fn repr(self) -> (r: u32)
        ensures
            r == self.code(),
    {
        match self {
            ARef::Ground => 0x00,
            ARef::Common => 0x01,
            ARef::Diff => 0x02,
            ARef::Other => 0x03,
        }
    }

    pub fn from_repr(v: u32) -> (r: Option<ARef>)
        ensures
            r == Self::spec_from_repr(v),
    {
        if v == 0x00 {
            Some(ARef::Ground)
        } else if v == 0x01 {
            Some(ARef::Common)
        } else if v == 0x02 {
            Some(ARef::Diff)
        } else if v == 0x03 {
            Some(ARef::Other)
        } else {
            None
        }
    }

    /// Every reference mode decodes back from its own code.
    pub proof fn lemma_repr_round_trip(self)
        ensures
            Self::spec_from_repr(self.code()) == Some(self),
    {
    }
}

/// Process-wide policy for converting a raw value that falls outside the
/// calibrated range: signal with a sentinel, or clamp to a plain number.
#[derive(Copy, Clone, PartialEq, Eq, Structural, Debug)]
pub enum OORBehavior {
    NaN,
    Number,
}

impl OORBehavior {
    pub open spec fn code(self) -> u32 {
        match self {
            OORBehavior::NaN => 1,
            OORBehavior::Number => 0,
        }
    }

    pub open spec fn spec_from_repr(v: u32) -> Option<OORBehavior> {
        if v == 1 {
            Some(OORBehavior::NaN)
        } else if v == 0 {
            Some(OORBehavior::Number)
        } else {
            None
        }
    }

    pub fn repr(self) -> (r: u32)
        ensures
            r == self.code(),
    {
        match self {
            OORBehavior::NaN => 1,
            OORBehavior::Number => 0,
        }
    }

    pub fn from_repr(v: u32) -> (r: Option<OORBehavior>)
        ensures
            r == Self::spec_from_repr(v),
    {
        if v == 1 {
            Some(OORBehavior::NaN)
        } else if v == 0 {
            Some(OORBehavior::Number)
        } else {
            None
        }
    }

    /// Every variant decodes back from its own code.
    pub proof fn lemma_repr_round_trip(self)
        ensures
            Self::spec_from_repr(self.code()) == Some(self),
    {
    }
}

/// Physical unit of a calibrated range descriptor.
#[derive(Copy, Clone, PartialEq, Eq, Structural, Debug)]
pub enum Unit {
    Volt,
    MiliAmper,
    NoUnit,
}

impl Unit {
    pub open spec fn code(self) -> u32 {
        match self {
            Unit::Volt => 0,
            Unit::MiliAmper => 1,
            Unit::NoUnit => 2,
        }
    }

    pub open spec fn spec_from_repr(v: u32) -> Option<Unit> {
        if v == 0 {
            Some(Unit::Volt)
        } else if v == 1 {
            Some(Unit::MiliAmper)
        } else if v == 2 {
            Some(Unit::NoUnit)
        } else {
            None
        }
    }

    pub fn repr(self) -> (r: u32)
        ensures
            r == self.code(),
    {
        match self {
            Unit::Volt => 0,
            Unit::MiliAmper => 1,
            Unit::NoUnit => 2,
        }
    }

    pub fn from_repr(v: u32) -> (r: Option<Unit>)
        ensures
            r == Self::spec_from_repr(v),
    {
        if v == 0 {
            Some(Unit::Volt)
        } else if v == 1 {
            Some(Unit::MiliAmper)
        } else if v == 2 {
            Some(Unit::NoUnit)
        } else {
            None
        }
    }

    /// Every variant decodes back from its own code.
    pub proof fn lemma_repr_round_trip(self)
        ensures
            Self::spec_from_repr(self.code()) == Some(self),
    {
    }
}

/// Trigger source for the start phase of a command. The codes are the
/// driver's trigger bits.
#[derive(Copy, Clone, PartialEq, Eq, Structural, Debug)]
pub enum StartTrigger {
    Now,
    Follow,
    Ext,
    Int,
    Other,
}

impl StartTrigger {
    pub open spec fn code(self) -> u32 {
        match self {
            StartTrigger::Now => 0x00000002,
            StartTrigger::Follow => 0x00000004,
            StartTrigger::Ext => 0x00000040,
            StartTrigger::Int => 0x00000080,
            StartTrigger::Other => 0x00000100,
        }
    }

    pub open spec fn spec_from_repr(v: u32) -> Option<StartTrigger> {
        if v == 0x00000002 {
            Some(StartTrigger::Now)
        } else if v == 0x00000004 {
            Some(StartTrigger::Follow)
        } else if v == 0x00000040 {
            Some(StartTrigger::Ext)
        } else if v == 0x00000080 {
            Some(StartTrigger::Int)
        } else if v == 0x00000100 {
            Some(StartTrigger::Other)
        } else {
            None
        }
    }

    pub fn repr(self) -> (r: u32)
        ensures
            r == self.code(),
    {
        match self {
            StartTrigger::Now => 0x00000002,
            StartTrigger::Follow => 0x00000004,
            StartTrigger::Ext => 0x00000040,
            StartTrigger::Int => 0x00000080,
            StartTrigger::Other => 0x00000100,
        }
    }

    pub fn from_repr(v: u32) -> (r: Option<StartTrigger>)
        ensures
            r == Self::spec_from_repr(v),
    {
        if v == 0x00000002 {
            Some(StartTrigger::Now)
        } else if v == 0x00000004 {
            Some(StartTrigger::Follow)
        } else if v == 0x00000040 {
            Some(StartTrigger::Ext)
        } else if v == 0x00000080 {
            Some(StartTrigger::Int)
        } else if v == 0x00000100 {
            Some(StartTrigger::Other)
        } else {
            None
        }
    }

    /// Every variant decodes back from its own code.
    pub proof fn lemma_repr_round_trip(self)
        ensures
            Self::spec_from_repr(self.code()) == Some(self),
    {
    }
}

/// Trigger source for the scan-begin phase of a command.
#[derive(Copy, Clone, PartialEq, Eq, Structural, Debug)]
pub enum ScanBeginTrigger {
    Timer,
    Follow,
    Ext,
    Other,
}

impl ScanBeginTrigger {
    pub open spec fn code(self) -> u32 {
        match self {
            ScanBeginTrigger::Timer => 0x00000010,
            ScanBeginTrigger::Follow => 0x00000004,
            ScanBeginTrigger::Ext => 0x00000040,
            ScanBeginTrigger::Other => 0x00000100,
        }
    }

    pub open spec fn spec_from_repr(v: u32) -> Option<ScanBeginTrigger> {
        if v == 0x00000010 {
            Some(ScanBeginTrigger::Timer)
        } else if v == 0x00000004 {
            Some(ScanBeginTrigger::Follow)
        } else if v == 0x00000040 {
            Some(ScanBeginTrigger::Ext)
        } else if v == 0x00000100 {
            Some(ScanBeginTrigger::Other)
        } else {
            None
        }
    }

    pub fn repr(self) -> (r: u32)
        ensures
            r == self.code(),
    {
        match self {
            ScanBeginTrigger::Timer => 0x00000010,
            ScanBeginTrigger::Follow => 0x00000004,
            ScanBeginTrigger::Ext => 0x00000040,
            ScanBeginTrigger::Other => 0x00000100,
        }
    }

    pub fn from_repr(v: u32) -> (r: Option<ScanBeginTrigger>)
        ensures
            r == Self::spec_from_repr(v),
    {
        if v == 0x00000010 {
            Some(ScanBeginTrigger::Timer)
        } else if v == 0x00000004 {
            Some(ScanBeginTrigger::Follow)
        } else if v == 0x00000040 {
            Some(ScanBeginTrigger::Ext)
        } else if v == 0x00000100 {
            Some(ScanBeginTrigger::Other)
        } else {
            None
        }
    }

    /// Every variant decodes back from its own code.
    pub proof fn lemma_repr_round_trip(self)
        ensures
            Self::spec_from_repr(self.code()) == Some(self),
    {
    }
}

/// Trigger source for the convert phase of a command.
#[derive(Copy, Clone, PartialEq, Eq, Structural, Debug)]
pub enum ConvertTrigger {
    Now,
    Timer,
    Ext,
    Other,
}

impl ConvertTrigger {
    pub open spec fn code(self) -> u32 {
        match self {
            ConvertTrigger::Now => 0x00000002,
            ConvertTrigger::Timer => 0x00000010,
            ConvertTrigger::Ext => 0x00000040,
            ConvertTrigger::Other => 0x00000100,
        }
    }

    pub open spec fn spec_from_repr(v: u32) -> Option<ConvertTrigger> {
        if v == 0x00000002 {
            Some(ConvertTrigger::Now)
        } else if v == 0x00000010 {
            Some(ConvertTrigger::Timer)
        } else if v == 0x00000040 {
            Some(ConvertTrigger::Ext)
        } else if v == 0x00000100 {
            Some(ConvertTrigger::Other)
        } else {
            None
        }
    }

    pub fn repr(self) -> (r: u32)
        ensures
            r == self.code(),
    {
        match self {
            ConvertTrigger::Now => 0x00000002,
            ConvertTrigger::Timer => 0x00000010,
            ConvertTrigger::Ext => 0x00000040,
            ConvertTrigger::Other => 0x00000100,
        }
    }

    pub fn from_repr(v: u32) -> (r: Option<ConvertTrigger>)
        ensures
            r == Self::spec_from_repr(v),
    {
        if v == 0x00000002 {
            Some(ConvertTrigger::Now)
        } else if v == 0x00000010 {
            Some(ConvertTrigger::Timer)
        } else if v == 0x00000040 {
            Some(ConvertTrigger::Ext)
        } else if v == 0x00000100 {
            Some(ConvertTrigger::Other)
        } else {
            None
        }
    }

    /// Every variant decodes back from its own code.
    pub proof fn lemma_repr_round_trip(self)
        ensures
            Self::spec_from_repr(self.code()) == Some(self),
    {
    }
}

/// Trigger source for the scan-end phase of a command.
#[derive(Copy, Clone, PartialEq, Eq, Structural, Debug)]
pub enum ScanEndTrigger {
    Count,
    Other,
}

impl ScanEndTrigger {
    pub open spec fn code(self) -> u32 {
        match self {
            ScanEndTrigger::Count => 0x00000020,
            ScanEndTrigger::Other => 0x00000100,
        }
    }

    pub open spec fn spec_from_repr(v: u32) -> Option<ScanEndTrigger> {
        if v == 0x00000020 {
            Some(ScanEndTrigger::Count)
        } else if v == 0x00000100 {
            Some(ScanEndTrigger::Other)
        } else {
            None
        }
    }

    pub fn repr(self) -> (r: u32)
        ensures
            r == self.code(),
    {
        match self {
            ScanEndTrigger::Count => 0x00000020,
            ScanEndTrigger::Other => 0x00000100,
        }
    }

    pub fn from_repr(v: u32) -> (r: Option<ScanEndTrigger>)
        ensures
            r == Self::spec_from_repr(v),
    {
        if v == 0x00000020 {
            Some(ScanEndTrigger::Count)
        } else if v == 0x00000100 {
            Some(ScanEndTrigger::Other)
        } else {
            None
        }
    }

    /// Every variant decodes back from its own code.
    pub proof fn lemma_repr_round_trip(self)
        ensures
            Self::spec_from_repr(self.code()) == Some(self),
    {
    }
}

/// Trigger source for the stop phase of a command.
#[derive(Copy, Clone, PartialEq, Eq, Structural, Debug)]
pub enum StopTrigger {
    Count,
    Never,
    Other,
}

impl StopTrigger {
    pub open spec fn code(self) -> u32 {
        match self {
            StopTrigger::Count => 0x00000020,
            StopTrigger::Never => 0x00000001,
            StopTrigger::Other => 0x00000100,
        }
    }

    pub open spec fn spec_from_repr(v: u32) -> Option<StopTrigger> {
        if v == 0x00000020 {
            Some(StopTrigger::Count)
        } else if v == 0x00000001 {
            Some(StopTrigger::Never)
        } else if v == 0x00000100 {
            Some(StopTrigger::Other)
        } else {
            None
        }
    }

    pub fn repr(self) -> (r: u32)
        ensures
            r == self.code(),
    {
        match self {
            StopTrigger::Count => 0x00000020,
            StopTrigger::Never => 0x00000001,
            StopTrigger::Other => 0x00000100,
        }
    }

    pub fn from_repr(v: u32) -> (r: Option<StopTrigger>)
        ensures
            r == Self::spec_from_repr(v),
    {
        if v == 0x00000020 {
            Some(StopTrigger::Count)
        } else if v == 0x00000001 {
            Some(StopTrigger::Never)
        } else if v == 0x00000100 {
            Some(StopTrigger::Other)
        } else {
            None
        }
    }

    /// Every variant decodes back from its own code.
    pub proof fn lemma_repr_round_trip(self)
        ensures
            Self::spec_from_repr(self.code()) == Some(self),
    {
    }
}

/// Direction of a hardware buffer query.
#[derive(Copy, Clone, PartialEq, Eq, Structural, Debug)]
pub enum IODirection {
    Input,
    Output,
}

impl IODirection {
    pub open spec fn code(self) -> u32 {
        match self {
            IODirection::Input => 0,
            IODirection::Output => 1,
        }
    }

    pub fn repr(self) -> (r: u32)
        ensures
            r == self.code(),
    {
        match self {
            IODirection::Input => 0,
            IODirection::Output => 1,
        }
    }
}

/// Outcome of one round of the command-validation protocol.
#[derive(Copy, Clone, PartialEq, Eq, Structural, Debug)]
pub enum CommandTestResult {
    Accepted,
    TriggerUnsupported,
    TriggerCombinationUnsupported,
    ArgumentOutOfRange,
    ArgumentRequiredAdjustment,
    ChanlistUnsupported,
}

impl CommandTestResult {
    pub open spec fn code(self) -> i32 {
        match self {
            CommandTestResult::Accepted => 0,
            CommandTestResult::TriggerUnsupported => 1,
            CommandTestResult::TriggerCombinationUnsupported => 2,
            CommandTestResult::ArgumentOutOfRange => 3,
            CommandTestResult::ArgumentRequiredAdjustment => 4,
            CommandTestResult::ChanlistUnsupported => 5,
        }
    }

    pub open spec fn spec_from_repr(v: i32) -> Option<CommandTestResult> {
        if v == 0 {
            Some(CommandTestResult::Accepted)
        } else if v == 1 {
            Some(CommandTestResult::TriggerUnsupported)
        } else if v == 2 {
            Some(CommandTestResult::TriggerCombinationUnsupported)
        } else if v == 3 {
            Some(CommandTestResult::ArgumentOutOfRange)
        } else if v == 4 {
            Some(CommandTestResult::ArgumentRequiredAdjustment)
        } else if v == 5 {
            Some(CommandTestResult::ChanlistUnsupported)
        } else {
            None
        }
    }

    pub fn repr(self) -> (r: i32)
        ensures
            r == self.code(),
    {
        match self {
            CommandTestResult::Accepted => 0,
            CommandTestResult::TriggerUnsupported => 1,
            CommandTestResult::TriggerCombinationUnsupported => 2,
            CommandTestResult::ArgumentOutOfRange => 3,
            CommandTestResult::ArgumentRequiredAdjustment => 4,
            CommandTestResult::ChanlistUnsupported => 5,
        }
    }

    pub fn from_repr(v: i32) -> (r: Option<CommandTestResult>)
        ensures
            r == Self::spec_from_repr(v),
    {
        if v == 0 {
            Some(CommandTestResult::Accepted)
        } else if v == 1 {
            Some(CommandTestResult::TriggerUnsupported)
        } else if v == 2 {
            Some(CommandTestResult::TriggerCombinationUnsupported)
        } else if v == 3 {
            Some(CommandTestResult::ArgumentOutOfRange)
        } else if v == 4 {
            Some(CommandTestResult::ArgumentRequiredAdjustment)
        } else if v == 5 {
            Some(CommandTestResult::ChanlistUnsupported)
        } else {
            None
        }
    }

    /// Every variant decodes back from its own code.
    pub proof fn lemma_repr_round_trip(self)
        ensures
            Self::spec_from_repr(self.code()) == Some(self),
    {
    }
}

} // verus!
