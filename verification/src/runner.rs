//! The bookkeeping a worker slot carries: the loop units resident on
//! that slot and the slot's target tick frequency. The worker thread's
//! own tick/pacing loop is an external collaborator and lives outside
//! this crate; everything here is driven from the main thread.

use vstd::prelude::*;

use crate::loops::{ContainerView, GameLoopContainer, GameLoopKind};
use crate::mode::{FreqBits, FREQ_BITS_ZERO};

verus! {

/// The mathematical content of a `Runner`: its resident units with
/// their relative frequencies, and its target tick frequency.
#[verifier::ext_equal]
pub struct RunnerView<L> {
    pub loops: ContainerView<L>,
    pub frequency: FreqBits,
}

impl<L> RunnerView<L> {
    /// The inner container has its fixed shape.
    pub open spec fn wf(self) -> bool {
        self.loops.wf()
    }

    /// Whether this runner's container holds the kind with this index.
    pub open spec fn owns(self, k: int) -> bool {
        self.loops.owns(k)
    }

    /// A freshly created runner: no units, frequency zero ("unpaced").
    pub open spec fn new_view() -> RunnerView<L> {
        RunnerView { loops: ContainerView::empty_view(), frequency: FREQ_BITS_ZERO }
    }
}

/// One worker slot's scheduler-side state: a loop set of its own plus
/// its target tick frequency. Created lazily the first time its slot is
/// referenced, and kept for the remainder of the process.
pub struct Runner<L> {
    loops: GameLoopContainer<L>,
    frequency: FreqBits,
}

impl<L> View for Runner<L> {
    type V = RunnerView<L>;

    closed spec fn view(&self) -> RunnerView<L> {
        RunnerView { loops: self.loops@, frequency: self.frequency }
    }
}

impl<L> Runner<L> {
    /// A runner owning no loop kind, not yet paced.
    pub fn new() -> (r: Runner<L>)
        ensures
            r@ == RunnerView::<L>::new_view(),
    {
        Runner { loops: GameLoopContainer::new(), frequency: FREQ_BITS_ZERO }
    }

    /// Hand a unit to this runner, fully intact, at the given relative
    /// frequency.
    pub fn insert(&mut self, kind: GameLoopKind, unit: L, relative_frequency: FreqBits)
        requires
            old(self)@.wf(),
        ensures
            final(self)@ == (RunnerView {
                loops: old(self)@.loops.inserted(kind.index_spec(), unit, relative_frequency),
                ..old(self)@
            }),
    {
        self.loops.insert(kind, unit, relative_frequency);
    }

    /// Take a unit out of this runner, fully intact.
    pub fn remove(&mut self, kind: GameLoopKind) -> (unit: L)
        requires
            old(self)@.wf(),
            old(self)@.owns(kind.index_spec()),
        ensures
            final(self)@ == (RunnerView { loops: old(self)@.loops.removed(kind.index_spec()), ..old(self)@ }),
            old(self)@.loops.units[kind.index_spec()] == Some(unit),
    {
        self.loops.remove(kind)
    }

    /// Reprogram this runner's target tick frequency.
    pub fn set_frequency(&mut self, frequency: FreqBits)
        ensures
            final(self)@ == (RunnerView { frequency, ..old(self)@ }),
    {
        self.frequency = frequency;
    }

    /// Adjust one resident kind's relative frequency.
    pub fn set_relative_frequency(&mut self, kind: GameLoopKind, relative_frequency: FreqBits)
        requires
            old(self)@.wf(),
        ensures
            final(self)@ == (RunnerView {
                loops: old(self)@.loops.with_relative_frequency(
                    kind.index_spec(),
                    relative_frequency,
                ),
                ..old(self)@
            }),
    {
        self.loops.set_relative_frequency(kind, relative_frequency);
    }

    /// This runner's target tick frequency.
    pub fn frequency(&self) -> (f: FreqBits)
        ensures
            f == self@.frequency,
    {
        self.frequency
    }

    /// Whether this runner currently owns the given kind.
    pub fn owns_kind(&self, kind: GameLoopKind) -> (b: bool)
        requires
            self@.wf(),
        ensures
            b == self@.owns(kind.index_spec()),
    {
        self.loops.owns_kind(kind)
    }
}

} // verus!
