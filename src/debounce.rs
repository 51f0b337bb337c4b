//! Button debouncing: at most one accepted edge per cooldown window.
use vstd::prelude::*;

verus! {

/// Cooldown armed on each accepted edge: 100 ms at 1 MHz.
pub const DEBOUNCE_TIME: u32 = 100_000;

/// Whether an edge arriving with `cooldown` ticks left is accepted.
pub open spec fn edge_accepted(cooldown: int) -> bool {
    cooldown == 0
}

/// The cooldown after an edge: armed when the edge is accepted, unchanged when it is dropped.
pub open spec fn after_edge(cooldown: int) -> int {
    if edge_accepted(cooldown) {
        DEBOUNCE_TIME as int
    } else {
        cooldown
    }
}

/// The cooldown after `elapsed` timer ticks: counted down, stopping at zero.
pub open spec fn after_ticks(cooldown: int, elapsed: int) -> int {
    if cooldown > elapsed {
        cooldown - elapsed
    } else {
        0
    }
}

/// Edges accepted when one edge arrives after each gap of `gaps` (in timer ticks),
/// starting from `cooldown`.
pub open spec fn accepted_edges(cooldown: int, gaps: Seq<nat>) -> nat
    decreases gaps.len(),
{
    if gaps.len() == 0 {
        0
    } else {
        let c = after_ticks(cooldown, gaps[0] as int);
        (if edge_accepted(c) {
            1nat
        } else {
            0nat
        }) + accepted_edges(after_edge(c), gaps.drop_first())
    }
}

/// Sum of a sequence of gaps.
pub open spec fn total_ticks(gaps: Seq<nat>) -> nat
    decreases gaps.len(),
{
    if gaps.len() == 0 {
        0
    } else {
        gaps[0] + total_ticks(gaps.drop_first())
    }
}

/// While a cooldown is running, every edge that arrives before it runs out is dropped.
pub proof fn lemma_edges_during_cooldown(cooldown: int, gaps: Seq<nat>)
    requires
        total_ticks(gaps) < cooldown,
    ensures
        accepted_edges(cooldown, gaps) == 0,
    decreases gaps.len(),
{
    if gaps.len() > 0 {
        let c = after_ticks(cooldown, gaps[0] as int);
        assert(c == cooldown - gaps[0]);
        lemma_edges_during_cooldown(c, gaps.drop_first());
    }
}

/// Of a burst of edges whose first comes once the cooldown has run out and whose later ones
/// all come within one cooldown window of it, exactly one is accepted.
pub proof fn lemma_one_edge_per_window(cooldown: int, gaps: Seq<nat>)
    requires
        gaps.len() >= 1,
        gaps[0] >= cooldown,
        total_ticks(gaps.drop_first()) < DEBOUNCE_TIME,
    ensures
        accepted_edges(cooldown, gaps) == 1,
{
    lemma_edges_during_cooldown(DEBOUNCE_TIME as int, gaps.drop_first());
}

/// An edge that arrives once the cooldown has run out is accepted.
pub proof fn lemma_edge_after_cooldown(cooldown: int, elapsed: int)
    requires
        elapsed >= cooldown,
    ensures
        edge_accepted(after_ticks(cooldown, elapsed)),
{
}

/// The debouncer: ticks left until the next button edge may be accepted.
pub struct Debouncer {
    remaining: u32,
}

impl Debouncer {
    /// Ticks left in the cooldown; zero when ready.
    pub closed spec fn cooldown(self) -> int {
        self.remaining as int
    }

    /// A debouncer whose cooldown has elapsed.
    pub fn new() -> (r: Self)
        ensures
            r.cooldown() == 0,
    {
        Debouncer { remaining: 0 }
    }

    /// Whether the next edge would be accepted.
    pub fn is_ready(&self) -> (r: bool)
        ensures
            r == edge_accepted(self.cooldown()),
    {
        self.remaining == 0
    }

    /// Ticks left in the cooldown.
    pub fn remaining(&self) -> (r: u32)
        ensures
            r == self.cooldown(),
    {
        self.remaining
    }

    /// The cooldown timer reports that it has run out.
    pub fn expire(&mut self)
        ensures
            final(self).cooldown() == 0,
    {
        self.remaining = 0;
    }

    /// A raw edge: accepted exactly when the cooldown has elapsed, and then the cooldown is
    /// armed, as the last thing done. An edge during the cooldown is dropped.
    pub fn on_edge(&mut self) -> (accepted: bool)
        ensures
            accepted == edge_accepted(old(self).cooldown()),
            final(self).cooldown() == after_edge(old(self).cooldown()),
    {
        if self.remaining == 0 {
            self.remaining = DEBOUNCE_TIME;
            true
        } else {
            false
        }
    }

    /// `elapsed` timer ticks have passed.
    pub fn tick(&mut self, elapsed: u32)
        ensures
            final(self).cooldown() == after_ticks(old(self).cooldown(), elapsed as int),
    {
        if self.remaining > elapsed {
            self.remaining = self.remaining - elapsed;
        } else {
            self.remaining = 0;
        }
    }
}

} // verus!
