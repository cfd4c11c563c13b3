//! Measured durations and their mean.

use vstd::prelude::*;

verus! {

/// Nanoseconds in one second.
pub const NANOS_PER_SEC: u32 = 1_000_000_000;

/// A span of wall-clock time: whole seconds and the nanoseconds beyond them.
#[derive(Clone, Copy, Debug)]
pub struct Elapsed {
    secs: u64,
    nanos: u32,
}

impl View for Elapsed {
    type V = (u64, u32);

    closed spec fn view(&self) -> (u64, u32) {
        (self.secs, self.nanos)
    }
}

/// The nanoseconds in a span of `secs` seconds and `nanos` nanoseconds.
pub open spec fn nanos_of(span: (u64, u32)) -> nat {
    (span.0 as nat) * 1_000_000_000 + (span.1 as nat)
}

/// The whole milliseconds in a span of `secs` seconds and `nanos` nanoseconds.
pub open spec fn millis_of(span: (u64, u32)) -> nat {
    (span.0 as nat) * 1000 + (span.1 as nat) / 1_000_000
}

impl Elapsed {
    #[verifier::type_invariant]
    spec fn well_formed(self) -> bool {
        self.nanos < NANOS_PER_SEC
    }

    /// A span of `secs` seconds and `nanos` nanoseconds, where `nanos` is
    /// less than a second; `None` otherwise.
    pub fn new(secs: u64, nanos: u32) -> (made: Option<Elapsed>)
        ensures
            made is Some <==> nanos < NANOS_PER_SEC,
            made is Some ==> made.unwrap()@ == (secs, nanos),
    {
        if nanos < NANOS_PER_SEC {
            Some(Elapsed { secs, nanos })
        } else {
            None
        }
    }

    /// The whole seconds.
    pub fn secs(&self) -> (secs: u64)
        ensures
            secs == self@.0,
    {
        self.secs
    }

    /// The nanoseconds beyond the whole seconds.
    pub fn subsec_nanos(&self) -> (nanos: u32)
        ensures
            nanos == self@.1,
            nanos < NANOS_PER_SEC,
    {
        proof {
            use_type_invariant(self);
        }
        self.nanos
    }

    /// The span in nanoseconds.
    pub fn as_nanos(&self) -> (nanos: u128)
        ensures
            nanos == nanos_of(self@),
    {
        proof {
            use_type_invariant(self);
        }
        let secs: u128 = self.secs as u128;
        let nanos: u128 = self.nanos as u128;
        secs * 1_000_000_000 + nanos
    }

    /// The span in whole milliseconds, rounded down.
    pub fn as_millis(&self) -> (millis: u128)
        ensures
            millis == millis_of(self@),
    {
        let secs: u128 = self.secs as u128;
        let nanos: u128 = self.nanos as u128;
        secs * 1000 + nanos / 1_000_000
    }
}

/// The sum of the spans in nanoseconds. Nothing of a span is dropped.
pub open spec fn total_nanos(spans: Seq<Elapsed>) -> nat
    decreases spans.len(),
{
    if spans.len() == 0 {
        0
    } else {
        total_nanos(spans.drop_last()) + nanos_of(spans.last()@)
    }
}

/// No span reaches this many nanoseconds.
pub open spec fn nanos_bound() -> nat {
    0x1_0000_0000_0000_0000 * 1_000_000_000
}

/// The arithmetic mean of `count` spans in nanoseconds, kept exact: the sum
/// of the spans divided by `count` gives `whole`, and `remainder` is left
/// over. The mean is `whole + remainder / count` nanoseconds.
#[derive(Clone, Copy, Debug, PartialEq, Eq, Structural)]
pub struct Mean {
    pub whole: u128,
    pub remainder: u128,
    pub count: usize,
}

/// The sum of a prefix is at most the sum of the whole.
pub proof fn total_nanos_grows(spans: Seq<Elapsed>, n: int)
    requires
        0 <= n <= spans.len(),
    ensures
        total_nanos(spans.take(n)) <= total_nanos(spans),
    decreases spans.len(),
{
    if n == spans.len() {
        assert(spans.take(n) =~= spans);
    } else {
        assert(spans.drop_last().take(n) =~= spans.take(n));
        total_nanos_grows(spans.drop_last(), n);
    }
}

/// Each span is below the bound, so the sum is below as many times the bound.
pub proof fn total_nanos_bounded(spans: Seq<Elapsed>)
    requires
        forall|i: int| 0 <= i < spans.len() ==> (#[trigger] spans[i])@.1 < NANOS_PER_SEC,
    ensures
        total_nanos(spans) <= spans.len() * nanos_bound(),
    decreases spans.len(),
{
    if spans.len() > 0 {
        total_nanos_bounded(spans.drop_last());
        let last = spans.last();
        assert(last == spans[spans.len() - 1]);
        assert(nanos_of(last@) <= nanos_bound());
        assert(spans.len() * nanos_bound() == (spans.len() - 1) * nanos_bound() + nanos_bound())
            by (nonlinear_arith);
    }
}

/// Adds up the spans in nanoseconds. Gives `None` exactly when the sum does
/// not fit the result type.
pub fn sum_nanos(spans: &Vec<Elapsed>) -> (total: Option<u128>)
    ensures
        total is Some <==> total_nanos(spans@) <= u128::MAX,
        total is Some ==> total.unwrap() == total_nanos(spans@),
{
    let mut total: u128 = 0;
    let mut i: usize = 0;
    while i < spans.len()
        invariant
            i <= spans.len(),
            total == total_nanos(spans@.take(i as int)),
        decreases spans.len() - i,
    {
        let nanos = spans[i].as_nanos();
        proof {
            assert(spans@.take(i + 1).drop_last() =~= spans@.take(i as int));
            total_nanos_grows(spans@, i + 1);
        }
        match total.checked_add(nanos) {
            Some(sum) => {
                total = sum;
            },
            None => {
                return None;
            },
        }
        i += 1;
    }
    assert(spans@.take(i as int) =~= spans@);
    Some(total)
}

/// The arithmetic mean of the spans, in nanoseconds and exact: the sum of
/// the spans as they are, divided by their number.
///
/// There is a mean exactly when there is at least one span and the sum of
/// the spans fits the result type. The whole part times the count, plus the
/// remainder, is then the sum, and the remainder is less than the count.
pub fn mean_nanos(spans: &Vec<Elapsed>) -> (mean: Option<Mean>)
    ensures
        mean is Some <==> spans@.len() > 0 && total_nanos(spans@) <= u128::MAX,
        mean is Some ==> {
            let m = mean.unwrap();
            &&& m.count == spans@.len()
            &&& m.whole == total_nanos(spans@) / (spans@.len() as nat)
            &&& m.remainder == total_nanos(spans@) % (spans@.len() as nat)
            &&& m.whole * m.count + m.remainder == total_nanos(spans@)
            &&& m.remainder < m.count
        },
{
    let count = spans.len();
    if count == 0 {
        return None;
    }
    match sum_nanos(spans) {
        None => None,
        Some(total) => {
            let divisor: u128 = count as u128;
            let whole: u128 = total / divisor;
            let remainder: u128 = total % divisor;
            proof {
                vstd::arithmetic::div_mod::lemma_fundamental_div_mod(total as int, divisor as int);
                assert(whole * count == divisor * whole) by (nonlinear_arith)
                    requires
                        divisor == count,
                ;
            }
            Some(Mean { whole, remainder, count })
        },
    }
}

} // verus!
