use vstd::prelude::*;

verus! {

/// One 64-bit tick count as it crosses the wire: a signed high half and an
/// unsigned low half.
#[derive(Clone, Copy, PartialEq, Eq, Structural, Debug)]
pub struct SyncValue {
    pub hi: i32,
    pub lo: u32,
}

impl SyncValue {
    /// The 64-bit tick count the two halves stand for:
    /// `ticks == hi * 2^32 + lo`, with `hi` read as its unsigned bit pattern.
    pub open spec fn spec_ticks(self) -> int {
        (if self.hi >= 0 {
            self.hi as int
        } else {
            self.hi as int + 0x1_0000_0000
        }) * 0x1_0000_0000 + self.lo as int
    }

    /// The zero counter value, the initial state of every counter.
    pub fn zero() -> (r: Self)
        ensures
            r.hi == 0,
            r.lo == 0,
            r.spec_ticks() == 0,
    {
        SyncValue { hi: 0, lo: 0 }
    }

    /// Splits a tick count into its wire halves.
    pub fn from_ticks(value: u64) -> (r: Self)
        ensures
            r.spec_ticks() == value,
    {
        let hi_bits: u32 = (value >> 32) as u32;
        let lo: u32 = (value & 0xFFFF_FFFF) as u32;
        let hi: i32 = if hi_bits >= 0x8000_0000 {
            -((0xFFFF_FFFFu32 - hi_bits) as i32) - 1
        } else {
            hi_bits as i32
        };
        proof {
            assert(value == (value >> 32) * 0x1_0000_0000 + (value & 0xFFFF_FFFF)
                && (value >> 32) < 0x1_0000_0000 && (value & 0xFFFF_FFFF) < 0x1_0000_0000)
                by (bit_vector);
        }
        SyncValue { hi, lo }
    }

    /// Reassembles the 64-bit tick count from the two halves.
    pub fn ticks(&self) -> (r: u64)
        ensures
            r == self.spec_ticks(),
    {
        let hi_bits: u64 = if self.hi >= 0 {
            self.hi as u64
        } else {
            (self.hi as i64 + 0x1_0000_0000) as u64
        };
        hi_bits * 0x1_0000_0000 + self.lo as u64
    }
}

/// Every pair of wire halves stands for one 64-bit tick count.
pub proof fn lemma_sync_value_in_range(v: SyncValue)
    ensures
        0 <= v.spec_ticks() < 0x1_0000_0000_0000_0000,
{
}

/// Round trip: distinct wire-half pairs stand for distinct tick counts, so
/// splitting a tick count and reassembling it reproduces both the count and
/// the pair.
pub proof fn lemma_sync_value_round_trip(a: SyncValue, b: SyncValue)
    requires
        a.spec_ticks() == b.spec_ticks(),
    ensures
        a == b,
{
    let ah: int = if a.hi >= 0 {
        a.hi as int
    } else {
        a.hi as int + 0x1_0000_0000
    };
    let bh: int = if b.hi >= 0 {
        b.hi as int
    } else {
        b.hi as int + 0x1_0000_0000
    };
    assert(ah == bh && a.lo == b.lo) by (nonlinear_arith)
        requires
            ah * 0x1_0000_0000 + a.lo == bh * 0x1_0000_0000 + b.lo,
            0 <= ah < 0x1_0000_0000,
            0 <= bh < 0x1_0000_0000,
            0 <= a.lo < 0x1_0000_0000,
            0 <= b.lo < 0x1_0000_0000,
    ;
}

/// The per-window driver of the redraw-pacing handshake: one native counter
/// object and the logical 64-bit value last pushed to it.
#[derive(Clone, Copy, PartialEq, Eq, Structural, Debug)]
pub struct SysRedrawSubsystem {
    /// The shell's identifier of the native counter object.
    pub sync_counter: u32,
    /// The logical counter value, as its wire halves.
    pub sync_value: SyncValue,
}

impl SysRedrawSubsystem {
    /// The driver state right after its native counter was created.
    pub open spec fn spec_new(sync_counter: u32) -> SysRedrawSubsystem {
        SysRedrawSubsystem { sync_counter, sync_value: SyncValue { hi: 0, lo: 0 } }
    }

    /// The driver state right after the native counter was created: the
    /// counter starts at zero.
    pub fn new(sync_counter: u32) -> (r: Self)
        ensures
            r == Self::spec_new(sync_counter),
            r.sync_counter == sync_counter,
            r.sync_value.spec_ticks() == 0,
            r.sync_value == (SyncValue { hi: 0, lo: 0 }),
    {
        SysRedrawSubsystem { sync_counter, sync_value: SyncValue::zero() }
    }

    /// Accepts a raw counter value requested by the shell; the value is a
    /// target set by the shell, not a locally computed increment.
    pub fn set_sync_value(&mut self, value: u64)
        ensures
            final(self).sync_value.spec_ticks() == value,
            final(self).sync_counter == old(self).sync_counter,
    {
        self.sync_value = SyncValue::from_ticks(value);
    }

    /// The current logical counter value.
    pub fn get_sync_value(&self) -> (r: u64)
        ensures
            r == self.sync_value.spec_ticks(),
    {
        self.sync_value.ticks()
    }

    /// Advances the counter by exactly one tick and hands back the wire value
    /// the caller must push to the native counter object.
    fn increment_sync_value(&mut self) -> (r: SyncValue)
        requires
            old(self).sync_value.spec_ticks() < 0xFFFF_FFFF_FFFF_FFFF,
        ensures
            final(self).sync_value.spec_ticks() == old(self).sync_value.spec_ticks() + 1,
            final(self).sync_counter == old(self).sync_counter,
            r == final(self).sync_value,
    {
        let next = self.sync_value.ticks() + 1;
        self.sync_value = SyncValue::from_ticks(next);
        self.sync_value
    }

    /// Forbids the shell to present the surface: one tick forward.
    pub fn lock_surface(&mut self) -> (r: SyncValue)
        requires
            old(self).sync_value.spec_ticks() < 0xFFFF_FFFF_FFFF_FFFF,
        ensures
            final(self).sync_value.spec_ticks() == old(self).sync_value.spec_ticks() + 1,
            final(self).sync_counter == old(self).sync_counter,
            r == final(self).sync_value,
    {
        self.increment_sync_value()
    }

    /// Allows the shell to present the surface again; the wire procedure is
    /// the same single tick as locking.
    pub fn unlock_surface(&mut self) -> (r: SyncValue)
        requires
            old(self).sync_value.spec_ticks() < 0xFFFF_FFFF_FFFF_FFFF,
        ensures
            final(self).sync_value.spec_ticks() == old(self).sync_value.spec_ticks() + 1,
            final(self).sync_counter == old(self).sync_counter,
            r == final(self).sync_value,
    {
        self.increment_sync_value()
    }
}

} // verus!
