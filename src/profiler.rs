use vstd::prelude::*;

use crate::stage::Command;

verus! {

/// Where a profiled span stands.
#[derive(Clone, Copy, Debug, PartialEq, Eq, Structural)]
pub enum ProfilerState {
    /// No marker recorded yet.
    Idle,
    /// The start marker is recorded, the end marker not yet.
    Open,
    /// Both markers are recorded; their ticks have not reached the host.
    Closed,
    /// Both ticks have been read back into host memory.
    Resolved { start: u64, end: u64 },
}

/// The device's tick period, `num / den` nanoseconds per tick.
#[derive(Clone, Copy, Debug, PartialEq, Eq, Structural)]
pub struct TickPeriod {
    pub num: u64,
    pub den: u64,
}

/// What `resolve` reports.
#[derive(Clone, Copy, Debug, PartialEq, Eq, Structural)]
pub enum Resolution {
    /// The ticks have not been read back yet.
    Pending,
    /// The span lasted this many nanoseconds (rounded down).
    Nanoseconds(u128),
    /// The end tick precedes the start tick.
    NonMonotonic,
}

/// Measures one span of dispatches on the device timeline, with two markers in query slots
/// `2 * span` and `2 * span + 1`.
pub struct TimestampProfiler {
    pub span: u32,
    pub state: ProfilerState,
}

/// The value of the little-endian bytes `b`.
pub open spec fn le_value(b: Seq<u8>) -> nat
    decreases b.len(),
{
    if b.len() == 0 {
        0
    } else {
        b[0] as nat + 256 * le_value(b.drop_first())
    }
}

pub open spec fn pow256(n: nat) -> nat
    decreases n,
{
    if n == 0 {
        1
    } else {
        256 * pow256((n - 1) as nat)
    }
}

proof fn lemma_pow256_monotone(a: nat, b: nat)
    requires
        a <= b,
    ensures
        pow256(a) <= pow256(b),
    decreases b - a,
{
    if a < b {
        lemma_pow256_monotone(a, (b - 1) as nat);
    }
}

/// Reads the little-endian `u64` that starts at byte `at`.
pub fn read_u64_le(b: &Vec<u8>, at: usize) -> (r: u64)
    requires
        at + 8 <= b@.len(),
    ensures
        r as nat == le_value(b@.subrange(at as int, at + 8)),
{
    let mut acc: u64 = 0;
    let mut k: usize = 8;
    proof {
        reveal_with_fuel(pow256, 9);
    }
    while k > 0
        invariant
            k <= 8,
            at + 8 <= b@.len(),
            acc as nat == le_value(b@.subrange(at + k, at + 8)),
            acc < pow256((8 - k) as nat),
            pow256(8) == 0x1_0000_0000_0000_0000,
        decreases k,
    {
        k = k - 1;
        let ghost tail = b@.subrange(at + k + 1, at + 8);
        assert(b@.subrange(at + k, at + 8).drop_first() =~= tail);
        assert(pow256((8 - k) as nat) == 256 * pow256((8 - k - 1) as nat));
        proof {
            lemma_pow256_monotone((8 - k) as nat, 8);
        }
        assert(at + k < b.len());
        let byte = b[at + k];
        assert(acc * 256 + byte < pow256((8 - k) as nat)) by (nonlinear_arith)
            requires
                acc < pow256((8 - k - 1) as nat),
                pow256((8 - k) as nat) == 256 * pow256((8 - k - 1) as nat),
                byte < 256,
        ;
        acc = acc * 256 + byte as u64;
    }
    acc
}

/// The length of a span from `start` to `end` ticks, in nanoseconds rounded down.
pub open spec fn duration_ns_spec(start: u64, end: u64, period: TickPeriod) -> int {
    (end - start) * period.num / period.den as int
}

/// `(end - start) * period`, in nanoseconds rounded down.
pub fn duration_ns(start: u64, end: u64, period: TickPeriod) -> (r: u128)
    requires
        start <= end,
        period.den > 0,
    ensures
        r as int == duration_ns_spec(start, end, period),
        r >= 0,
{
    let ticks = (end - start) as u128;
    assert(ticks * period.num as u128 <= 0xffff_ffff_ffff_ffff * 0xffff_ffff_ffff_ffff) by (nonlinear_arith)
        requires
            ticks <= 0xffff_ffff_ffff_ffff,
            period.num <= 0xffff_ffff_ffff_ffff,
    ;
    ticks * period.num as u128 / period.den as u128
}

/// What `resolve` returns in state `state`.
pub open spec fn resolution_of(state: ProfilerState, period: TickPeriod) -> Resolution {
    match state {
        ProfilerState::Resolved { start, end } => if start <= end {
            Resolution::Nanoseconds(duration_ns_spec(start, end, period) as u128)
        } else {
            Resolution::NonMonotonic
        },
        _ => Resolution::Pending,
    }
}

/// Until both ticks are in host memory `resolve` reports `Pending`, never a number; once they
/// are, and the end tick is not before the start tick, it reports their distance times the
/// tick period, which is never negative.
pub proof fn lemma_resolution_pending_or_nonnegative(state: ProfilerState, period: TickPeriod)
    requires
        period.den > 0,
    ensures
        !(state is Resolved) ==> resolution_of(state, period) == Resolution::Pending,
        state matches ProfilerState::Resolved { start, end } ==> (start <= end ==> {
            &&& duration_ns_spec(start, end, period) >= 0
            &&& resolution_of(state, period) == Resolution::Nanoseconds(
                duration_ns_spec(start, end, period) as u128,
            )
        }),
{
    if let ProfilerState::Resolved { start, end } = state {
        if start <= end {
            let t = end - start;
            assert(t * period.num / period.den as int >= 0) by (nonlinear_arith)
                requires
                    t >= 0,
                    period.num >= 0,
                    period.den > 0,
            ;
        }
    }
}

impl TimestampProfiler {
    pub open spec fn start_query(&self) -> u32 {
        (2 * self.span) as u32
    }

    pub open spec fn end_query(&self) -> u32 {
        (2 * self.span + 1) as u32
    }

    /// A profiler for span number `span` of the query set, which then needs `2 * span + 2`
    /// slots.
    pub fn new(span: u32) -> (r: TimestampProfiler)
        requires
            span < 0x8000_0000,
        ensures
            r.span == span,
            r.state == ProfilerState::Idle,
    {
        TimestampProfiler { span, state: ProfilerState::Idle }
    }

    /// Records the start marker and opens the span; a result of an earlier span is dropped.
    pub fn begin(&mut self, rec: &mut Vec<Command>)
        requires
            old(self).span < 0x8000_0000,
        ensures
            final(rec)@ == old(rec)@.push(Command::WriteTimestamp { query: old(self).start_query() }),
            final(self).span == old(self).span,
            final(self).state == ProfilerState::Open,
    {
        rec.push(Command::WriteTimestamp { query: 2 * self.span });
        self.state = ProfilerState::Open;
    }

    /// Records the end marker of an open span and closes it; without an open span it does
    /// nothing.
    pub fn end(&mut self, rec: &mut Vec<Command>)
        requires
            old(self).span < 0x8000_0000,
        ensures
            old(self).state == ProfilerState::Open ==> final(rec)@ == old(rec)@.push(
                Command::WriteTimestamp { query: old(self).end_query() },
            ) && final(self).state == ProfilerState::Closed,
            old(self).state != ProfilerState::Open ==> final(rec)@ == old(rec)@ && final(self).state
                == old(self).state,
            final(self).span == old(self).span,
    {
        if self.state == ProfilerState::Open {
            rec.push(Command::WriteTimestamp { query: 2 * self.span + 1 });
            self.state = ProfilerState::Closed;
        }
    }

    /// Takes the 16 bytes that the resolve-and-copy step left in host memory once the readback
    /// has completed: the start tick, then the end tick, each a little-endian `u64`. Accepted
    /// only for a closed span and a buffer of exactly 16 bytes.
    pub fn deliver(&mut self, bytes: &Vec<u8>) -> (r: bool)
        ensures
            r == (old(self).state == ProfilerState::Closed && bytes@.len() == 16),
            r ==> final(self).state == (ProfilerState::Resolved {
                start: le_value(bytes@.subrange(0, 8)) as u64,
                end: le_value(bytes@.subrange(8, 16)) as u64,
            }),
            !r ==> final(self).state == old(self).state,
            final(self).span == old(self).span,
    {
        if self.state == ProfilerState::Closed && bytes.len() == 16 {
            let start = read_u64_le(bytes, 0);
            let end = read_u64_le(bytes, 8);
            self.state = ProfilerState::Resolved { start, end };
            true
        } else {
            false
        }
    }

    /// The span's duration once its ticks are in host memory, `Pending` before that.
    pub fn resolve(&self, period: TickPeriod) -> (r: Resolution)
        requires
            period.den > 0,
        ensures
            r == resolution_of(self.state, period),
    {
        match self.state {
            ProfilerState::Resolved { start, end } => {
                if start <= end {
                    Resolution::Nanoseconds(duration_ns(start, end, period))
                } else {
                    Resolution::NonMonotonic
                }
            },
            _ => Resolution::Pending,
        }
    }
}

} // verus!
