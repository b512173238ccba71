use vstd::prelude::*;

verus! {

/// A word of driver-assigned capability bits. Testing is bitwise-AND against
/// zero, combining is bitwise-OR.
pub trait Bitfield where Self: Sized {
    /// The underlying bit word.
    spec fn word(&self) -> u32;

    /// True exactly when the two words share a bit.
    fn is_set(&self, other: Self) -> (r: bool)
        ensures
            r == ((self.word() & other.word()) != 0),
    ;

    /// Accumulates the other word's bits into this one.
    fn set(&mut self, other: Self)
        ensures
            final(self).word() == (old(self).word() | other.word()),
    ;
}

/// The capability bitfield a subdevice reports. The bit assignment is the
/// driver's fixed header layout, reproduced by the named constructors below.
pub struct SDF {
    value: u32,
}

impl Bitfield for SDF {
    closed spec fn word(&self) -> u32 {
        self.value
    }

    fn is_set(&self, other: Self) -> (r: bool) {
        self.value & other.value != 0
    }

    fn set(&mut self, other: Self) {
        self.value = self.value | other.value;
    }
}

impl SDF {
    pub fn new(value: u32) -> (r: SDF)
        ensures
            r.word() == value,
    {
        SDF { value }
    }

    /// The subdevice is acquiring data.
    pub fn busy() -> (r: SDF)
        ensures
            r.word() == 0x00000001,
    {
        SDF { value: 0x00000001 }
    }

    /// The subdevice is acquiring data for this handle.
    pub fn busy_owner() -> (r: SDF)
        ensures
            r.word() == 0x00000002,
    {
        SDF { value: 0x00000002 }
    }

    /// The subdevice is locked.
    pub fn locked() -> (r: SDF)
        ensures
            r.word() == 0x00000004,
    {
        SDF { value: 0x00000004 }
    }

    /// The subdevice is locked by this handle.
    pub fn lock_owner() -> (r: SDF)
        ensures
            r.word() == 0x00000008,
    {
        SDF { value: 0x00000008 }
    }

    /// The maximum raw value can be changed.
    pub fn maxdata() -> (r: SDF)
        ensures
            r.word() == 0x00000010,
    {
        SDF { value: 0x00000010 }
    }

    /// Per-channel flags can be changed.
    pub fn flags() -> (r: SDF)
        ensures
            r.word() == 0x00000020,
    {
        SDF { value: 0x00000020 }
    }

    /// The range type can be changed.
    pub fn rangetype() -> (r: SDF)
        ensures
            r.word() == 0x00000040,
    {
        SDF { value: 0x00000040 }
    }

    /// The subdevice accepts streaming commands.
    pub fn cmd() -> (r: SDF)
        ensures
            r.word() == 0x00001000,
    {
        SDF { value: 0x00001000 }
    }

    /// The subdevice is calibrated in software.
    pub fn soft_calibrated() -> (r: SDF)
        ensures
            r.word() == 0x00002000,
    {
        SDF { value: 0x00002000 }
    }

    /// The subdevice can be read.
    pub fn readable() -> (r: SDF)
        ensures
            r.word() == 0x00010000,
    {
        SDF { value: 0x00010000 }
    }

    /// The subdevice can be written.
    pub fn writable() -> (r: SDF)
        ensures
            r.word() == 0x00020000,
    {
        SDF { value: 0x00020000 }
    }

    /// The subdevice does not carry externally usable signals.
    pub fn internal() -> (r: SDF)
        ensures
            r.word() == 0x00040000,
    {
        SDF { value: 0x00040000 }
    }

    /// Ground-referenced inputs are supported.
    pub fn ground() -> (r: SDF)
        ensures
            r.word() == 0x00100000,
    {
        SDF { value: 0x00100000 }
    }

    /// Common-referenced inputs are supported.
    pub fn common() -> (r: SDF)
        ensures
            r.word() == 0x00200000,
    {
        SDF { value: 0x00200000 }
    }

    /// Differential inputs are supported.
    pub fn diff() -> (r: SDF)
        ensures
            r.word() == 0x00400000,
    {
        SDF { value: 0x00400000 }
    }

    /// The remaining reference mode is supported.
    pub fn other() -> (r: SDF)
        ensures
            r.word() == 0x00800000,
    {
        SDF { value: 0x00800000 }
    }

    /// The subdevice can dither its readings.
    pub fn dither() -> (r: SDF)
        ensures
            r.word() == 0x01000000,
    {
        SDF { value: 0x01000000 }
    }

    /// The subdevice can deglitch its readings.
    pub fn deglitch() -> (r: SDF)
        ensures
            r.word() == 0x02000000,
    {
        SDF { value: 0x02000000 }
    }

    /// A command is running on the subdevice.
    pub fn running() -> (r: SDF)
        ensures
            r.word() == 0x08000000,
    {
        SDF { value: 0x08000000 }
    }

    /// Streamed samples use the large sample width.
    pub fn lsampl() -> (r: SDF)
        ensures
            r.word() == 0x10000000,
    {
        SDF { value: 0x10000000 }
    }

    /// Streamed samples are bit-packed.
    pub fn packed() -> (r: SDF)
        ensures
            r.word() == 0x20000000,
    {
        SDF { value: 0x20000000 }
    }
}

/// Combining a flag into a query makes exactly that flag test as set. In
/// the words that set and is_set are specified over: after taking flag a in,
/// the query's word shares a bit with a, and still shares none with any
/// flag b disjoint from both — so is_set answers true for a and false for b.
pub proof fn lemma_combine_is_set(s: SDF, a: SDF, b: SDF)
    requires
        a.word() != 0,
        s.word() & b.word() == 0,
        a.word() & b.word() == 0,
    ensures
        ((s.word() | a.word()) & a.word()) != 0,
        ((s.word() | a.word()) & b.word()) == 0,
{
    let sw = s.word();
    let aw = a.word();
    let bw = b.word();
    assert(aw != 0 ==> ((sw | aw) & aw) != 0) by (bit_vector);
    assert(sw & bw == 0 && aw & bw == 0 ==> ((sw | aw) & bw) == 0) by (bit_vector);
}

} // verus!
