//! Knob smoothing: a rolling average over the last ten readings, kept in
//! a `heapless::HistoryBuf`.

use vstd::prelude::*;

verus! {

/// Number of readings the rolling average covers.
pub const KNOB_HISTORY_LEN: usize = 10;

/// The last (at most ten) readings of a knob, in a `heapless::HistoryBuf`.
///
/// The buffer type is an alias over a storage type in a private module of
/// heapless, so it cannot be declared to Verus; it is held here, hidden,
/// and reached only through the trusted functions below.
#[verifier::external_body]
pub struct KnobHistory {
    buf: heapless::HistoryBuf<u16, KNOB_HISTORY_LEN>,
}

/// The readings a knob history holds, oldest first.
pub uninterp spec fn history_contents(h: &KnobHistory) -> Seq<u16>;

/// Creates an empty `heapless::HistoryBuf` (`HistoryBuf::new`: nothing
/// written, length zero).
#[verifier::external_body]
fn history_new() -> (r: KnobHistory)
    ensures
        history_contents(&r) == Seq::<u16>::empty(),
{
    KnobHistory { buf: heapless::HistoryBuf::new() }
}

/// `HistoryBuf::write`: appends the reading, overwriting the oldest one
/// once all ten places are filled.
#[verifier::external_body]
fn history_write(h: &mut KnobHistory, t: u16)
    requires
        history_contents(old(h)).len() <= KNOB_HISTORY_LEN,
    ensures
        history_contents(final(h)) == (if history_contents(old(h)).len() < KNOB_HISTORY_LEN {
            history_contents(old(h)).push(t)
        } else {
            history_contents(old(h)).drop_first().push(t)
        }),
{
    h.buf.write(t)
}

/// `HistoryBuf::len`: the number of readings held.
#[verifier::external_body]
fn history_len(h: &KnobHistory) -> (r: usize)
    ensures
        r == history_contents(h).len(),
{
    h.buf.len()
}

/// `HistoryBuf::oldest_ordered`, collected: the readings held, oldest first.
#[verifier::external_body]
fn history_oldest_ordered(h: &KnobHistory) -> (r: Vec<u16>)
    ensures
        r@ == history_contents(h),
{
    h.buf.oldest_ordered().copied().collect()
}

/// Sum of readings.
pub open spec fn readings_sum(s: Seq<u16>) -> int
    decreases s.len(),
{
    if s.len() == 0 {
        0
    } else {
        readings_sum(s.drop_last()) + s.last()
    }
}

proof fn lemma_readings_sum_bound(s: Seq<u16>)
    ensures
        0 <= readings_sum(s) <= s.len() * 65535,
    decreases s.len(),
{
    if s.len() > 0 {
        lemma_readings_sum_bound(s.drop_last());
    }
}

impl KnobHistory {
    /// The history holds at most ten readings.
    pub open spec fn wf(&self) -> bool {
        history_contents(self).len() <= KNOB_HISTORY_LEN
    }

    /// The readings held, oldest first.
    pub open spec fn readings(&self) -> Seq<u16> {
        history_contents(self)
    }

    /// An empty history.
    pub fn new() -> (r: Self)
        ensures
            r.wf(),
            r.readings() == Seq::<u16>::empty(),
    {
        history_new()
    }

    /// Record a reading; once ten are held the oldest is dropped.
    pub fn write(&mut self, kn: u16)
        requires
            old(self).wf(),
        ensures
            final(self).wf(),
            final(self).readings() == (if old(self).readings().len() < KNOB_HISTORY_LEN {
                old(self).readings().push(kn)
            } else {
                old(self).readings().drop_first().push(kn)
            }),
    {
        history_write(self, kn)
    }

    /// Number of readings held.
    pub fn len(&self) -> (r: usize)
        requires
            self.wf(),
        ensures
            r == self.readings().len(),
    {
        history_len(self)
    }

    /// Integer average of the readings held.
    pub fn average(&self) -> (r: u16)
        requires
            self.wf(),
            self.readings().len() > 0,
        ensures
            r == readings_sum(self.readings()) / (self.readings().len() as int),
    {
        let v = history_oldest_ordered(self);
        let n = history_len(self);
        let mut sum: u32 = 0;
        let mut i: usize = 0;
        while i < v.len()
            invariant
                v@ == self.readings(),
                v@.len() <= KNOB_HISTORY_LEN,
                i <= v@.len(),
                sum as int == readings_sum(v@.take(i as int)),
            decreases v.len() - i,
        {
            proof {
                assert(v@.take(i + 1).drop_last() =~= v@.take(i as int));
                lemma_readings_sum_bound(v@.take(i as int));
            }
            sum = sum + v[i] as u32;
            i += 1;
        }
        proof {
            assert(v@.take(v@.len() as int) =~= v@);
            lemma_readings_sum_bound(v@);
            let q = sum as int / n as int;
            assert(q <= 65535) by (nonlinear_arith)
                requires
                    n > 0,
                    0 <= sum <= n * 65535,
                    q == sum as int / n as int,
            ;
        }
        (sum / n as u32) as u16
    }
}

} // verus!
