//! Bounded history of raw tooth-edge stamps, kept in a `heapless`
//! history buffer that overwrites its oldest entry when full.

use vstd::prelude::*;
use heapless::HistoryBuffer;
use crate::ticks::{CounterWidth, spec_interval, tick_interval};

verus! {

/// Number of edge stamps that a trigger wheel keeps.
pub const TICK_HISTORY_CAPACITY: usize = 128;

#[verifier::external_type_specification]
#[verifier::external_body]
#[verifier::reject_recursive_types(T)]
pub struct ExHistoryBuffer<T, const N: usize>(HistoryBuffer<T, N>);

/// The stamps that a history buffer holds, oldest first.
pub uninterp spec fn buffered_ticks(b: HistoryBuffer<u32, TICK_HISTORY_CAPACITY>) -> Seq<u32>;

/// `s` after writing `t` into a buffer of capacity `cap` that drops its
/// oldest entry when full.
pub open spec fn push_bounded(s: Seq<u32>, cap: nat, t: u32) -> Seq<u32> {
    if s.len() < cap {
        s.push(t)
    } else {
        s.drop_first().push(t)
    }
}

/// `s` after writing each stamp of `ts` in order, as `push_bounded` does.
pub open spec fn push_all_bounded(s: Seq<u32>, cap: nat, ts: Seq<u32>) -> Seq<u32>
    decreases ts.len(),
{
    if ts.len() == 0 {
        s
    } else {
        push_bounded(push_all_bounded(s, cap, ts.drop_last()), cap, ts.last())
    }
}

/// The last `n` entries of `s`, or all of `s` where it is shorter.
pub open spec fn newest(s: Seq<u32>, n: nat) -> Seq<u32> {
    if s.len() <= n {
        s
    } else {
        s.subrange(s.len() - n, s.len() as int)
    }
}

proof fn lemma_push_bounded_newest(u: Seq<u32>, cap: nat, t: u32)
    requires
        cap > 0,
    ensures
        push_bounded(newest(u, cap), cap, t) == newest(u.push(t), cap),
{
    if u.len() >= cap {
        assert(push_bounded(newest(u, cap), cap, t) =~= newest(u.push(t), cap));
    }
}

/// From a history that holds at most `cap` stamps, writing the stamps `ts`
/// leaves the newest `cap` stamps of the old history followed by `ts`.
pub proof fn lemma_push_all_keeps_newest(s: Seq<u32>, cap: nat, ts: Seq<u32>)
    requires
        cap > 0,
        s.len() <= cap,
    ensures
        push_all_bounded(s, cap, ts) == newest(s + ts, cap),
        push_all_bounded(s, cap, ts).len() <= cap,
    decreases ts.len(),
{
    if ts.len() == 0 {
        assert(s + ts =~= s);
    } else {
        lemma_push_all_keeps_newest(s, cap, ts.drop_last());
        lemma_push_bounded_newest(s + ts.drop_last(), cap, ts.last());
        assert((s + ts.drop_last()).push(ts.last()) =~= s + ts);
    }
}

/// Writing `cap + k` stamps (`k > 0`) into an empty history of capacity
/// `cap` leaves exactly `cap` stamps: the newest ones, in the order written,
/// the `k` oldest having been evicted. After each write the history holds at
/// most `cap` stamps.
pub proof fn lemma_history_bound(cap: nat, ts: Seq<u32>)
    requires
        cap > 0,
        ts.len() > cap,
    ensures
        push_all_bounded(Seq::<u32>::empty(), cap, ts) == ts.subrange(ts.len() - cap, ts.len() as int),
        push_all_bounded(Seq::<u32>::empty(), cap, ts).len() == cap,
        forall|j: int|
            0 <= j <= ts.len() ==> (#[trigger] push_all_bounded(Seq::<u32>::empty(), cap, ts.take(j))).len()
                <= cap,
{
    lemma_push_all_keeps_newest(Seq::<u32>::empty(), cap, ts);
    assert(Seq::<u32>::empty() + ts =~= ts);
    assert forall|j: int| 0 <= j <= ts.len() implies (#[trigger] push_all_bounded(
        Seq::<u32>::empty(),
        cap,
        ts.take(j),
    )).len() <= cap by {
        lemma_push_all_keeps_newest(Seq::<u32>::empty(), cap, ts.take(j));
    }
}

/// Relies on heapless::HistoryBuffer::new: a new buffer holds nothing.
#[verifier::external_body]
fn buffer_new() -> (r: HistoryBuffer<u32, TICK_HISTORY_CAPACITY>)
    ensures
        buffered_ticks(r) == Seq::<u32>::empty(),
{
    HistoryBuffer::new()
}

/// Relies on heapless::HistoryBuffer::write: the value is appended, and the
/// oldest one is overwritten once the buffer holds its capacity.
#[verifier::external_body]
fn buffer_write(b: &mut HistoryBuffer<u32, TICK_HISTORY_CAPACITY>, t: u32)
    ensures
        buffered_ticks(*final(b)) == push_bounded(
            buffered_ticks(*old(b)),
            TICK_HISTORY_CAPACITY as nat,
            t,
        ),
{
    b.write(t)
}

/// Relies on heapless::HistoryBuffer::recent: the most recently written
/// value, if any was written.
#[verifier::external_body]
fn buffer_recent(b: &HistoryBuffer<u32, TICK_HISTORY_CAPACITY>) -> (r: Option<u32>)
    ensures
        buffered_ticks(*b).len() == 0 ==> r is None,
        buffered_ticks(*b).len() > 0 ==> r == Some(buffered_ticks(*b).last()),
{
    b.recent().copied()
}

/// Relies on heapless::HistoryBuffer::len: the fill level, at most the
/// capacity.
#[verifier::external_body]
fn buffer_len(b: &HistoryBuffer<u32, TICK_HISTORY_CAPACITY>) -> (r: usize)
    ensures
        r == buffered_ticks(*b).len(),
        r <= TICK_HISTORY_CAPACITY,
{
    b.len()
}

/// Recent tooth-edge stamps of one trigger wheel, and the width of the
/// counter that took them.
pub struct TriggerWheel {
    ticks: HistoryBuffer<u32, TICK_HISTORY_CAPACITY>,
    width: CounterWidth,
}

impl View for TriggerWheel {
    type V = Seq<u32>;

    /// The stamps held, oldest first.
    closed spec fn view(&self) -> Seq<u32> {
        buffered_ticks(self.ticks)
    }
}

impl TriggerWheel {
    pub closed spec fn counter_width(&self) -> CounterWidth {
        self.width
    }

    /// The history never holds more than its capacity.
    pub open spec fn wf(&self) -> bool {
        self@.len() <= TICK_HISTORY_CAPACITY
    }

    /// An empty history for a 32-bit counter.
    pub fn new() -> (r: TriggerWheel)
        ensures
            r.wf(),
            r@ == Seq::<u32>::empty(),
            r.counter_width() == CounterWidth::Bits32,
    {
        TriggerWheel::with_counter_width(CounterWidth::Bits32)
    }

    /// An empty history for a counter of the given width.
    pub fn with_counter_width(width: CounterWidth) -> (r: TriggerWheel)
        ensures
            r.wf(),
            r@ == Seq::<u32>::empty(),
            r.counter_width() == width,
    {
        TriggerWheel { ticks: buffer_new(), width }
    }

    /// The interval that a new stamp `tick` makes with the last one of the
    /// history `h`, or `None` where `h` is empty.
    pub open spec fn spec_next_interval(h: Seq<u32>, width: CounterWidth, tick: u32) -> Option<int> {
        if h.len() == 0 {
            None
        } else {
            Some(spec_interval(width, h.last() as int, tick as int))
        }
    }

    /// Records `tick`, evicting the oldest stamp when full, and returns the
    /// interval since the previous stamp, or `None` for the first one.
    pub fn add_tick(&mut self, tick: u32) -> (r: Option<u32>)
        requires
            old(self).wf(),
        ensures
            final(self).wf(),
            final(self)@ == push_bounded(old(self)@, TICK_HISTORY_CAPACITY as nat, tick),
            final(self).counter_width() == old(self).counter_width(),
            match r {
                None => Self::spec_next_interval(old(self)@, old(self).counter_width(), tick) is None,
                Some(i) => Self::spec_next_interval(old(self)@, old(self).counter_width(), tick)
                    == Some(i as int),
            },
    {
        let interval = match buffer_recent(&self.ticks) {
            Some(recent) => Some(tick_interval(self.width, recent, tick)),
            None => None,
        };
        buffer_write(&mut self.ticks, tick);
        interval
    }

    /// Number of stamps held, at most the capacity.
    pub fn ticks_count(&self) -> (r: usize)
        ensures
            r == self@.len(),
            r <= TICK_HISTORY_CAPACITY,
    {
        buffer_len(&self.ticks)
    }

    /// Width of the counter that the stamps come from.
    pub fn width(&self) -> (r: CounterWidth)
        ensures
            r == self.counter_width(),
    {
        self.width
    }
}

} // verus!
