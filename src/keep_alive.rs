use vstd::prelude::*;

verus! {

/// A countdown that fires once every `period + 1` polls, used to re-check the
/// health of a dependency without doing so on every tick.
#[derive(Debug, Clone, Copy, PartialEq, Eq)]
pub struct KeepAliveCounter {
    pub period: i32,
    pub remaining: i32,
}

/// The counter after one poll, and whether that poll fires.
pub open spec fn poll(c: KeepAliveCounter) -> (KeepAliveCounter, bool) {
    if c.remaining - 1 < 0 {
        (KeepAliveCounter { period: c.period, remaining: c.period }, true)
    } else {
        (KeepAliveCounter { period: c.period, remaining: (c.remaining - 1) as i32 }, false)
    }
}

/// The answers of `n` polls in a row, starting from `c`.
pub open spec fn poll_answers(c: KeepAliveCounter, n: nat) -> Seq<bool>
    decreases n,
{
    if n == 0 {
        Seq::empty()
    } else {
        seq![poll(c).1] + poll_answers(poll(c).0, (n - 1) as nat)
    }
}

/// The counter after `n` polls in a row, starting from `c`.
pub open spec fn poll_after(c: KeepAliveCounter, n: nat) -> KeepAliveCounter
    decreases n,
{
    if n == 0 {
        c
    } else {
        poll_after(poll(c).0, (n - 1) as nat)
    }
}

impl KeepAliveCounter {
    pub open spec fn wf(&self) -> bool {
        0 <= self.remaining <= self.period
    }

    /// The counter as it stands right after it fired or was reset.
    pub open spec fn rearmed(&self) -> KeepAliveCounter {
        KeepAliveCounter { period: self.period, remaining: self.period }
    }

    pub fn new(period: i32) -> (r: Self)
        requires
            period >= 0,
        ensures
            r.period == period,
            r.remaining == period,
            r.wf(),
    {
        Self { period, remaining: period }
    }

    /// Makes the very next poll fire.
    pub fn with_trigger_on_start(self) -> (r: Self)
        requires
            self.wf(),
        ensures
            r.period == self.period,
            r.remaining == 0,
            r.wf(),
    {
        let mut c = self;
        c.remaining = 0;
        c
    }

    /// Counts one poll down; returns true, and starts the countdown over from
    /// `period`, when the countdown has run out.
    pub fn should_check(&mut self) -> (r: bool)
        requires
            old(self).wf(),
        ensures
            (*final(self), r) == poll(*old(self)),
            r <==> old(self).remaining == 0,
            r ==> *final(self) == old(self).rearmed(),
            final(self).wf(),
    {
        self.remaining = self.remaining - 1;
        if self.remaining < 0 {
            self.remaining = self.period;
            true
        } else {
            false
        }
    }

    /// Starts the countdown over from `period`.
    pub fn reset(&mut self)
        requires
            old(self).wf(),
        ensures
            *final(self) == old(self).rearmed(),
            final(self).wf(),
    {
        self.remaining = self.period;
    }
}

proof fn lemma_poll_countdown(c: KeepAliveCounter)
    requires
        c.wf(),
    ensures
        poll_answers(c, (c.remaining + 1) as nat) =~= Seq::new(c.remaining as nat, |i: int| false).push(true),
        poll_after(c, (c.remaining + 1) as nat) == c.rearmed(),
    decreases c.remaining,
{
    let n = (c.remaining + 1) as nat;
    if c.remaining == 0 {
        assert(poll_answers(poll(c).0, 0) =~= Seq::<bool>::empty());
        assert(poll_after(poll(c).0, 0) == poll(c).0);
    } else {
        let next = poll(c).0;
        lemma_poll_countdown(next);
        assert(poll_answers(c, n) == seq![false] + poll_answers(next, (n - 1) as nat));
        assert(poll_after(c, n) == poll_after(next, (n - 1) as nat));
    }
}

/// A counter that was just reset, or that just fired, answers `false` to the
/// next `period` polls and `true` to the one after, and then stands as it did
/// before them: it fires exactly once every `period + 1` polls.
pub proof fn lemma_fires_once_per_period(c: KeepAliveCounter)
    requires
        c.wf(),
        c.remaining == c.period,
    ensures
        poll_answers(c, (c.period + 1) as nat) =~= Seq::new(c.period as nat, |i: int| false).push(true),
        poll_after(c, (c.period + 1) as nat) == c,
{
    lemma_poll_countdown(c);
}

} // verus!
