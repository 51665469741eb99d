//! Node time base: program start time and the synchronization offset that maps
//! local monotonic time onto the host's session-elapsed time.
//! The offset is a signed microsecond count kept as two 32-bit halves.

use vstd::prelude::*;

verus! {

/// The offset held by two halves.
pub open spec fn joined(lo: u32, hi: u32) -> u64 {
    (hi as int * 0x1_0000_0000 + lo as int) as u64
}

/// The synchronized time at local time `local_us`: `local + offset` modulo 2^64
/// once synchronized, the local time before.
pub open spec fn synced_at(offset: u64, synced: bool, local_us: u64) -> u64 {
    if synced { vstd::wrapping::u64_specs::wrapping_add(local_us, offset) } else { local_us }
}

/// An operation on a node's time base.
#[derive(Debug, Clone, Copy, PartialEq, Eq, Structural)]
pub enum TimeOp {
    /// `set_program_start` at a local time in milliseconds.
    SetProgramStart(u64),
    /// `apply_sync` of a host session time at a local time, microseconds.
    ApplySync(u64, u64),
}

/// The time-base state (program start, offset, synchronized) after one
/// operation.
pub open spec fn time_step(st: (u32, u64, bool), op: TimeOp) -> (u32, u64, bool) {
    match op {
        TimeOp::SetProgramStart(now_ms) => (now_ms as u32, st.1, st.2),
        TimeOp::ApplySync(t, l) => (st.0, vstd::wrapping::u64_specs::wrapping_sub(t, l), true),
    }
}

/// The time-base state after a run of operations, in order.
pub open spec fn time_run(st: (u32, u64, bool), ops: Seq<TimeOp>) -> (u32, u64, bool)
    decreases ops.len(),
{
    if ops.len() == 0 {
        st
    } else {
        time_run(time_step(st, ops[0]), ops.drop_first())
    }
}

/// Time-base state of a node.
pub struct TimeBase {
    program_start_ms: u32,
    sync_offset_lo: u32,
    sync_offset_hi: u32,
    time_synced: bool,
}

impl TimeBase {
    /// Program start in milliseconds (modulo 2^32).
    pub closed spec fn start_ms(&self) -> u32 {
        self.program_start_ms
    }

    /// The synchronization offset as an unsigned 64-bit pattern.
    pub closed spec fn offset(&self) -> u64 {
        joined(self.sync_offset_lo, self.sync_offset_hi)
    }

    /// Whether a synchronization has been applied.
    pub closed spec fn synced(&self) -> bool {
        self.time_synced
    }

    /// Program start, offset and synchronization together.
    pub open spec fn state(&self) -> (u32, u64, bool) {
        (self.start_ms(), self.offset(), self.synced())
    }

    /// A time base with start 0 and no synchronization.
    pub fn new() -> (t: TimeBase)
        ensures
            t.start_ms() == 0,
            t.offset() == 0,
            !t.synced(),
            t.state() == (0u32, 0u64, false),
    {
        TimeBase { program_start_ms: 0, sync_offset_lo: 0, sync_offset_hi: 0, time_synced: false }
    }

    /// Records the program start from the local clock in milliseconds
    /// (truncated to 32 bits, so it wraps after about 49 days).
    pub fn set_program_start(&mut self, now_ms: u64)
        ensures
            final(self).start_ms() == now_ms as u32,
            final(self).offset() == old(self).offset(),
            final(self).synced() == old(self).synced(),
            final(self).state() == time_step(old(self).state(), TimeOp::SetProgramStart(now_ms)),
    {
        self.program_start_ms = now_ms as u32;
    }

    /// The program start timestamp in milliseconds.
    pub fn program_start_ms(&self) -> (r: u32)
        ensures
            r == self.start_ms(),
    {
        self.program_start_ms
    }

    /// Milliseconds since program start at local time `now_ms`, modulo 2^32.
    pub fn elapsed_ms(&self, now_ms: u64) -> (r: u32)
        ensures
            r == vstd::wrapping::u32_specs::wrapping_sub(now_ms as u32, self.start_ms()),
    {
        (now_ms as u32).wrapping_sub(self.program_start_ms)
    }

    /// Stores a signed offset as two halves and marks the time synchronized.
    fn store_offset(&mut self, offset: i64)
        ensures
            final(self).offset() == offset as u64,
            final(self).synced(),
            final(self).start_ms() == old(self).start_ms(),
    {
        let bits = offset as u64;
        let lo = bits as u32;
        let hi = (bits >> 32) as u32;
        assert(hi as int * 0x1_0000_0000 + lo as int == bits as int) by (bit_vector)
            requires
                lo == bits as u32,
                hi == (bits >> 32) as u32,
        ;
        self.sync_offset_lo = lo;
        self.sync_offset_hi = hi;
        self.time_synced = true;
    }

    /// Reads the signed offset back from its halves.
    fn load_offset(&self) -> (r: i64)
        ensures
            r as u64 == self.offset(),
            r == self.offset() as i64,
    {
        let lo = self.sync_offset_lo as u64;
        let hi = self.sync_offset_hi as u64;
        let bits = (hi << 32) | lo;
        assert(bits as int == hi as int * 0x1_0000_0000 + lo as int) by (bit_vector)
            requires
                lo < 0x1_0000_0000,
                hi < 0x1_0000_0000,
                bits == (hi << 32) | lo,
        ;
        let r = bits as i64;
        assert(r as u64 == bits) by (bit_vector)
            requires
                r == bits as i64,
        ;
        assert(bits == self.offset());
        r
    }

    /// Applies a synchronization received when the local clock read `local_us`:
    /// the offset becomes `rpi_session_time_us - local_us` (two's complement).
    pub fn apply_sync(&mut self, rpi_session_time_us: u64, local_us: u64)
        ensures
            final(self).offset() == vstd::wrapping::u64_specs::wrapping_sub(rpi_session_time_us, local_us),
            final(self).synced(),
            final(self).state() == time_step(old(self).state(), TimeOp::ApplySync(rpi_session_time_us, local_us)),
            final(self).start_ms() == old(self).start_ms(),
    {
        let bits = rpi_session_time_us.wrapping_sub(local_us);
        let offset = bits as i64;
        assert(offset as u64 == bits) by (bit_vector)
            requires
                offset == bits as i64,
        ;
        self.store_offset(offset);
    }

    /// The synchronized timestamp at local time `local_us`: the host's session
    /// time once synchronized, otherwise the local time.
    pub fn synced_timestamp_us(&self, local_us: u64) -> (r: u64)
        ensures
            r == synced_at(self.offset(), self.synced(), local_us),
    {
        if self.time_synced {
            let offset = self.load_offset();
            local_us.wrapping_add(offset as u64)
        } else {
            local_us
        }
    }

    /// Whether at least one synchronization has been applied.
    pub fn is_time_synced(&self) -> (r: bool)
        ensures
            r == self.synced(),
    {
        self.time_synced
    }
}

/// Right after a synchronization at local time `l`, the node's clock reads the
/// host's session time `t`, and it then advances with the local clock:
/// `d` microseconds later it reads `t + d` (modulo 2^64).
pub proof fn law_sync_tracks_host_time(t: u64, l: u64, d: u64)
    ensures
        synced_at(vstd::wrapping::u64_specs::wrapping_sub(t, l), true, l) == t,
        synced_at(vstd::wrapping::u64_specs::wrapping_sub(t, l), true, vstd::wrapping::u64_specs::wrapping_add(l, d))
            == vstd::wrapping::u64_specs::wrapping_add(t, d),
{
}

/// What `store_offset` stores is what `load_offset` reads back: every signed
/// offset survives the trip through its unsigned 64-bit pattern (the two
/// 32-bit halves).
pub proof fn law_offset_store_load(x: i64)
    ensures
        (x as u64) as i64 == x,
        joined((x as u64) as u32, ((x as u64) >> 32u64) as u32) as i64 == x,
{
    let bits = x as u64;
    let lo = bits as u32;
    let hi = (bits >> 32u64) as u32;
    assert(bits as i64 == x) by (bit_vector)
        requires
            bits == x as u64;
    assert(hi as int * 0x1_0000_0000 + lo as int == bits as int) by (bit_vector)
        requires
            lo == bits as u32,
            hi == (bits >> 32u64) as u32;
}

/// A time base is synchronized after a run of operations exactly when it was
/// before or the run applies a synchronization; in particular, from `new`, the
/// time is synchronized exactly when `apply_sync` has been called, and once
/// synchronized it stays so.
pub proof fn law_synced_iff_sync_applied(st: (u32, u64, bool), ops: Seq<TimeOp>)
    ensures
        time_run(st, ops).2 <==> (st.2 || exists|i: int| 0 <= i < ops.len() && #[trigger] ops[i] is ApplySync),
    decreases ops.len(),
{
    if ops.len() > 0 {
        let rest = ops.drop_first();
        law_synced_iff_sync_applied(time_step(st, ops[0]), rest);
        if exists|i: int| 0 <= i < ops.len() && #[trigger] ops[i] is ApplySync {
            let i = choose|i: int| 0 <= i < ops.len() && #[trigger] ops[i] is ApplySync;
            if i > 0 {
                assert(rest[i - 1] is ApplySync);
            }
        }
        if exists|j: int| 0 <= j < rest.len() && #[trigger] rest[j] is ApplySync {
            let j = choose|j: int| 0 <= j < rest.len() && #[trigger] rest[j] is ApplySync;
            assert(ops[j + 1] is ApplySync);
        }
    }
}

} // verus!
