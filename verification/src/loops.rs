//! The fixed set of loop kinds, the loop-unit capability, and the
//! container that holds the loop units resident on one thread.

use vstd::prelude::*;

use crate::mode::FreqBits;
use crate::mode::FREQ_BITS_ONE;

verus! {

/// How many loop kinds exist.
pub const NUM_GAME_LOOPS: usize = 3;

/// The fixed, enumerated set of periodic workloads.
#[derive(Clone, Copy, PartialEq, Eq, Structural, Debug)]
pub enum GameLoopKind {
    Update,
    Render,
    Audio,
}

impl GameLoopKind {
    /// The kind's stable array index.
    pub open spec fn index_spec(self) -> int {
        match self {
            GameLoopKind::Update => 0,
            GameLoopKind::Render => 1,
            GameLoopKind::Audio => 2,
        }
    }

    /// The kind's stable array index.
    pub fn index(&self) -> (i: usize)
        ensures
            i == self.index_spec(),
            i < NUM_GAME_LOOPS,
    {
        match self {
            GameLoopKind::Update => 0,
            GameLoopKind::Render => 1,
            GameLoopKind::Audio => 2,
        }
    }
}

/// A loop unit's tick failed; fatal to the driver, no recovery.
#[derive(Clone, Copy, PartialEq, Eq, Structural, Debug)]
pub struct LoopError;

/// The single capability a loop unit offers: tick once, may fail. The
/// concrete loop bodies live outside this crate and implement this.
pub trait GameLoop {
    /// Run one tick of this loop.
    fn tick(&mut self) -> Result<(), LoopError>;
}

/// The mathematical content of a container: which kinds it holds (by
/// index), with which units, and each slot's relative frequency.
#[verifier::ext_equal]
pub struct ContainerView<L> {
    pub units: Seq<Option<L>>,
    pub relative_frequencies: Seq<FreqBits>,
}

impl<L> ContainerView<L> {
    /// The sequences have their fixed lengths.
    pub open spec fn wf(self) -> bool {
        &&& self.units.len() == NUM_GAME_LOOPS
        &&& self.relative_frequencies.len() == NUM_GAME_LOOPS
    }

    /// Whether the container holds the kind with this index.
    pub open spec fn owns(self, k: int) -> bool {
        self.units[k] is Some
    }

    /// A freshly made container: no units, default relative frequencies.
    pub open spec fn empty_view() -> ContainerView<L> {
        ContainerView {
            units: Seq::new(NUM_GAME_LOOPS as nat, |k: int| None),
            relative_frequencies: Seq::new(NUM_GAME_LOOPS as nat, |k: int| FREQ_BITS_ONE),
        }
    }

    /// Insertion overwrites one slot's unit and relative frequency.
    pub open spec fn inserted(self, k: int, unit: L, rf: FreqBits) -> ContainerView<L> {
        ContainerView {
            units: self.units.update(k, Some(unit)),
            relative_frequencies: self.relative_frequencies.update(k, rf),
        }
    }

    /// Consuming removal empties one slot; frequencies are untouched.
    pub open spec fn removed(self, k: int) -> ContainerView<L> {
        ContainerView { units: self.units.update(k, None), ..self }
    }

    /// Only one slot's relative frequency changes.
    pub open spec fn with_relative_frequency(self, k: int, rf: FreqBits) -> ContainerView<L> {
        ContainerView { relative_frequencies: self.relative_frequencies.update(k, rf), ..self }
    }
}

/// Holds zero or more named loop units resident on one thread, with a
/// relative frequency per slot; ticks all of them once per call.
pub struct GameLoopContainer<L> {
    units: Vec<Option<L>>,
    relative_frequencies: Vec<FreqBits>,
}

impl<L> View for GameLoopContainer<L> {
    type V = ContainerView<L>;

    closed spec fn view(&self) -> ContainerView<L> {
        ContainerView { units: self.units@, relative_frequencies: self.relative_frequencies@ }
    }
}

impl<L> GameLoopContainer<L> {
    /// A container holding no units.
    pub fn new() -> (c: GameLoopContainer<L>)
        ensures
            c@ == ContainerView::<L>::empty_view(),
    {
        let mut units: Vec<Option<L>> = Vec::new();
        let mut relative_frequencies: Vec<FreqBits> = Vec::new();
        let mut i: usize = 0;
        while i < NUM_GAME_LOOPS
            invariant
                i <= NUM_GAME_LOOPS,
                units@.len() == i,
                relative_frequencies@.len() == i,
                forall|k: int| 0 <= k < i ==> #[trigger] units@[k] is None,
                forall|k: int| 0 <= k < i ==> #[trigger] relative_frequencies@[k] == FREQ_BITS_ONE,
            decreases NUM_GAME_LOOPS - i,
        {
            units.push(None);
            relative_frequencies.push(FREQ_BITS_ONE);
            i = i + 1;
        }
        let c = GameLoopContainer { units, relative_frequencies };
        proof {
            assert(c@.units =~= ContainerView::<L>::empty_view().units);
            assert(c@.relative_frequencies
                =~= ContainerView::<L>::empty_view().relative_frequencies);
        }
        c
    }

    /// Put a unit into the slot for `kind`, at the given relative
    /// frequency, overwriting whatever the slot held.
    pub fn insert(&mut self, kind: GameLoopKind, unit: L, relative_frequency: FreqBits)
        requires
            old(self)@.wf(),
        ensures
            final(self)@ == old(self)@.inserted(kind.index_spec(), unit, relative_frequency),
    {
        let index = kind.index();
        self.units.remove(index);
        self.units.insert(index, Some(unit));
        self.relative_frequencies.remove(index);
        self.relative_frequencies.insert(index, relative_frequency);
        proof {
            assert(self@.units =~= old(self)@.units.update(kind.index_spec(), Some(unit)));
            assert(self@.relative_frequencies =~= old(self)@.relative_frequencies.update(
                kind.index_spec(),
                relative_frequency,
            ));
        }
    }

    /// Take the unit for `kind` out, fully intact. The caller must know
    /// the container owns the kind: absence would be an ownership
    /// bookkeeping violation, which this crate rules out by proof.
    pub fn remove(&mut self, kind: GameLoopKind) -> (unit: L)
        requires
            old(self)@.wf(),
            old(self)@.owns(kind.index_spec()),
        ensures
            final(self)@ == old(self)@.removed(kind.index_spec()),
            old(self)@.units[kind.index_spec()] == Some(unit),
    {
        let index = kind.index();
        let slot = self.units.remove(index);
        self.units.insert(index, None);
        proof {
            assert(self@.units =~= old(self)@.units.update(kind.index_spec(), None));
            assert(self@.relative_frequencies =~= old(self)@.relative_frequencies);
        }
        match slot {
            Some(unit) => unit,
            None => vstd::pervasive::unreached(),
        }
    }

    /// Adjust one slot's relative frequency.
    pub fn set_relative_frequency(&mut self, kind: GameLoopKind, relative_frequency: FreqBits)
        requires
            old(self)@.wf(),
        ensures
            final(self)@ == old(self)@.with_relative_frequency(
                kind.index_spec(),
                relative_frequency,
            ),
    {
        let index = kind.index();
        self.relative_frequencies.remove(index);
        self.relative_frequencies.insert(index, relative_frequency);
        proof {
            assert(self@.relative_frequencies =~= old(self)@.relative_frequencies.update(
                kind.index_spec(),
                relative_frequency,
            ));
        }
    }

    /// Whether the container currently holds the given kind.
    pub fn owns_kind(&self, kind: GameLoopKind) -> (b: bool)
        requires
            self@.wf(),
        ensures
            b == self@.owns(kind.index_spec()),
    {
        let index = kind.index();
        self.units[index].is_some()
    }

    /// Whether the container holds no unit at all.
    pub fn is_empty(&self) -> (e: bool)
        requires
            self@.wf(),
        ensures
            e == forall|k: int| 0 <= k < NUM_GAME_LOOPS ==> !(#[trigger] self@.owns(k)),
    {
        let e = self.units[0].is_none() && self.units[1].is_none() && self.units[2].is_none();
        proof {
            assert(self@.owns(0) == self@.units[0] is Some);
            assert(self@.owns(1) == self@.units[1] is Some);
            assert(self@.owns(2) == self@.units[2] is Some);
        }
        e
    }
}

impl<L: GameLoop> GameLoopContainer<L> {
    /// Tick one slot's unit, if present, putting it back afterwards.
    /// An empty slot has nothing that could fail.
    fn tick_slot(&mut self, kind: GameLoopKind) -> (r: Result<(), LoopError>)
        requires
            old(self)@.wf(),
        ensures
            final(self)@.wf(),
            final(self)@.relative_frequencies == old(self)@.relative_frequencies,
            forall|k: int|
                0 <= k < NUM_GAME_LOOPS ==> #[trigger] final(self)@.owns(k) == old(self)@.owns(k),
            !old(self)@.owns(kind.index_spec()) ==> r is Ok,
    {
        let index = kind.index();
        let slot = self.units.remove(index);
        match slot {
            Some(mut unit) => {
                let r = unit.tick();
                self.units.insert(index, Some(unit));
                proof {
                    assert(self@.units =~= old(self)@.units.update(
                        kind.index_spec(),
                        self@.units[kind.index_spec()],
                    ));
                }
                r
            },
            None => {
                self.units.insert(index, None);
                proof {
                    assert(self@.units =~= old(self)@.units);
                }
                Ok(())
            },
        }
    }

    /// Tick every resident unit once, in the container's fixed kind
    /// order, stopping at the first failure. Which kinds are resident,
    /// and every relative frequency, are unchanged either way; an
    /// empty container has nothing that could fail, so it succeeds.
    pub fn run_all(&mut self) -> (r: Result<(), LoopError>)
        requires
            old(self)@.wf(),
        ensures
            final(self)@.wf(),
            final(self)@.relative_frequencies == old(self)@.relative_frequencies,
            forall|k: int|
                0 <= k < NUM_GAME_LOOPS ==> #[trigger] final(self)@.owns(k) == old(self)@.owns(k),
            (forall|k: int| 0 <= k < NUM_GAME_LOOPS ==> !(#[trigger] old(self)@.owns(k))) ==> r
                is Ok,
    {
        let r = self.tick_slot(GameLoopKind::Update);
        if r.is_err() {
            return r;
        }
        let r = self.tick_slot(GameLoopKind::Render);
        if r.is_err() {
            return r;
        }
        self.tick_slot(GameLoopKind::Audio)
    }
}

} // verus!
