//! Points in time, as a whole number of seconds since the Unix epoch plus a
//! sub-second part in nanoseconds.

use vstd::arithmetic::div_mod::{
    lemma_div_is_ordered, lemma_fundamental_div_mod, lemma_fundamental_div_mod_converse,
    lemma_mod_bound,
};
use vstd::prelude::*;

verus! {

/// Number of nanoseconds in one second.
pub const NANOS_PER_SEC: u32 = 1_000_000_000;

/// A point in time: `secs` whole seconds after the Unix epoch and `nanos`
/// nanoseconds into the following second.
#[derive(Clone, Copy, Debug, PartialEq, Eq, Structural)]
pub struct Timestamp {
    secs: u64,
    nanos: u32,
}

impl Timestamp {
    /// Whole seconds since the epoch.
    pub closed spec fn spec_secs(self) -> u64 {
        self.secs
    }

    /// Nanoseconds into the current second.
    pub closed spec fn spec_subsec_nanos(self) -> u32 {
        self.nanos
    }

    /// The sub-second part always stays below one second.
    #[verifier::type_invariant]
    pub open spec fn well_formed(self) -> bool {
        self.spec_subsec_nanos() < NANOS_PER_SEC
    }

    /// The point in time as a count of nanoseconds since the epoch.
    pub open spec fn total_nanos(self) -> int {
        self.spec_secs() * (NANOS_PER_SEC as int) + self.spec_subsec_nanos()
    }

    /// Builds a timestamp from its two parts; `None` when `nanos` does not
    /// denote a fraction of a second.
    pub fn new(secs: u64, nanos: u32) -> (t: Option<Timestamp>)
        ensures
            t is Some <==> nanos < NANOS_PER_SEC,
            t matches Some(ts) ==> ts.spec_secs() == secs && ts.spec_subsec_nanos() == nanos
                && ts.well_formed(),
    {
        if nanos < NANOS_PER_SEC {
            Some(Timestamp { secs, nanos })
        } else {
            None
        }
    }

    /// The timestamp that lies exactly `secs` seconds after the epoch.
    pub fn from_secs(secs: u64) -> (t: Timestamp)
        ensures
            t.spec_secs() == secs,
            t.spec_subsec_nanos() == 0,
            t.well_formed(),
    {
        Timestamp { secs, nanos: 0 }
    }

    /// Whole seconds since the epoch.
    #[verifier::when_used_as_spec(spec_secs)]
    pub fn secs(self) -> (s: u64)
        ensures
            s == self.spec_secs(),
    {
        self.secs
    }

    /// Nanoseconds into the current second.
    #[verifier::when_used_as_spec(spec_subsec_nanos)]
    pub fn subsec_nanos(self) -> (n: u32)
        ensures
            n == self.spec_subsec_nanos(),
            n < NANOS_PER_SEC,
    {
        proof {
            use_type_invariant(&self);
        }
        self.nanos
    }

    /// Whole seconds that lie between `earlier` and `self`; zero when
    /// `self` is not later than `earlier`.
    pub fn whole_secs_since(self, earlier: Timestamp) -> (elapsed: u64)
        ensures
            elapsed == elapsed_secs(self, earlier),
    {
        proof {
            use_type_invariant(&self);
            use_type_invariant(&earlier);
        }
        if self.secs <= earlier.secs {
            proof {
                if self.total_nanos() >= earlier.total_nanos() {
                    lemma_whole_seconds(0, self.total_nanos() - earlier.total_nanos());
                }
            }
            0
        } else {
            let gap: u64 = self.secs - earlier.secs;
            let whole: u64 = if self.nanos >= earlier.nanos {
                gap
            } else {
                gap - 1
            };
            proof {
                lemma_whole_seconds(whole as int, self.total_nanos() - earlier.total_nanos());
            }
            whole
        }
    }
}

/// Whole seconds from `earlier` to `now`, and zero when `now` lies before
/// `earlier`.
pub open spec fn elapsed_secs(now: Timestamp, earlier: Timestamp) -> nat {
    if now.total_nanos() >= earlier.total_nanos() {
        ((now.total_nanos() - earlier.total_nanos()) / (NANOS_PER_SEC as int)) as nat
    } else {
        0
    }
}

/// A span of nanoseconds that starts `whole` seconds in and ends before the
/// next second has `whole` as its count of whole seconds.
proof fn lemma_whole_seconds(whole: int, span: int)
    requires
        whole * 1_000_000_000 <= span < (whole + 1) * 1_000_000_000,
    ensures
        span / 1_000_000_000 == whole,
{
    lemma_fundamental_div_mod_converse(span, 1_000_000_000, whole, span - whole * 1_000_000_000);
}

/// The elapsed time never shrinks while the clock moves forward.
pub proof fn lemma_elapsed_grows_with_time(earlier: Timestamp, first: Timestamp, second: Timestamp)
    requires
        first.total_nanos() <= second.total_nanos(),
    ensures
        elapsed_secs(first, earlier) <= elapsed_secs(second, earlier),
{
    let unit = NANOS_PER_SEC as int;
    if first.total_nanos() >= earlier.total_nanos() {
        lemma_div_is_ordered(
            first.total_nanos() - earlier.total_nanos(),
            second.total_nanos() - earlier.total_nanos(),
            unit,
        );
    }
}

/// Once the earlier point is reached, every further full second on the clock
/// adds at least one to the elapsed time.
pub proof fn lemma_elapsed_gains_each_second(
    earlier: Timestamp,
    first: Timestamp,
    second: Timestamp,
    gap: nat,
)
    requires
        earlier.total_nanos() <= first.total_nanos(),
        first.total_nanos() + gap * NANOS_PER_SEC <= second.total_nanos(),
    ensures
        elapsed_secs(first, earlier) + gap <= elapsed_secs(second, earlier),
{
    let unit = NANOS_PER_SEC as int;
    let before = first.total_nanos() - earlier.total_nanos();
    let after = second.total_nanos() - earlier.total_nanos();
    lemma_div_of_shifted(before, gap as int, unit);
    lemma_div_is_ordered(before + gap * unit, after, unit);
}

/// Adding `count` whole units before dividing adds `count` to the quotient.
proof fn lemma_div_of_shifted(x: int, count: int, unit: int)
    requires
        0 <= x,
        0 <= count,
        0 < unit,
    ensures
        (x + count * unit) / unit == x / unit + count,
{
    lemma_fundamental_div_mod(x, unit);
    lemma_mod_bound(x, unit);
    assert(x + count * unit == unit * (x / unit + count) + x % unit) by (nonlinear_arith)
        requires
            x == unit * (x / unit) + x % unit,
    ;
    lemma_fundamental_div_mod_converse(x + count * unit, unit, x / unit + count, x % unit);
}

} // verus!
