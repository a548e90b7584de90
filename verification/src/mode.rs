//! The declarative configuration snapshot: which thread owns each loop
//! kind, each kind's relative frequency, and each thread's tick rate.

use vstd::prelude::*;

use crate::loops::{GameLoopKind, NUM_GAME_LOOPS};
use crate::manager::{MAIN_THREAD_ID, NUM_THREADS};

verus! {

/// A frequency carried as the bit pattern of an IEEE-754 double
/// (`f64::to_bits`). The scheduler never interprets it; it only stores
/// it and hands it to the pacing collaborator outside this crate.
pub type FreqBits = u64;

/// Bit pattern of the double `1.0`: the default relative frequency.
pub const FREQ_BITS_ONE: FreqBits = 0x3FF0_0000_0000_0000;

/// Bit pattern of the double `0.0`: "unpaced" / "not yet requested".
pub const FREQ_BITS_ZERO: FreqBits = 0;

/// The mathematical content of a `Mode`: one thread id and one relative
/// frequency per loop kind, and one target frequency per thread
/// (workers first, the main thread last).
#[verifier::ext_equal]
pub struct ModeView {
    pub thread_ids: Seq<usize>,
    pub relative_frequencies: Seq<FreqBits>,
    pub thread_frequencies: Seq<FreqBits>,
}

impl ModeView {
    /// The sequences have their fixed lengths.
    pub open spec fn wf(self) -> bool {
        &&& self.thread_ids.len() == NUM_GAME_LOOPS
        &&& self.relative_frequencies.len() == NUM_GAME_LOOPS
        &&& self.thread_frequencies.len() == NUM_THREADS
    }

    /// Well formed, and every loop kind is assigned to an existing
    /// thread: a worker slot or the main thread.
    pub open spec fn valid(self) -> bool {
        &&& self.wf()
        &&& forall|k: int|
            0 <= k < NUM_GAME_LOOPS ==> #[trigger] self.thread_ids[k] <= MAIN_THREAD_ID
    }

    /// The default snapshot: every kind on the main thread at relative
    /// frequency one, every thread frequency zero ("unpaced").
    pub open spec fn default_view() -> ModeView {
        ModeView {
            thread_ids: Seq::new(NUM_GAME_LOOPS as nat, |k: int| MAIN_THREAD_ID),
            relative_frequencies: Seq::new(NUM_GAME_LOOPS as nat, |k: int| FREQ_BITS_ONE),
            thread_frequencies: Seq::new(NUM_THREADS as nat, |t: int| FREQ_BITS_ZERO),
        }
    }
}

/// An immutable declarative snapshot of the desired assignment of loop
/// kinds to threads and of all frequencies. Each setter consumes the
/// value and returns an updated copy; nothing is mutated in place.
pub struct Mode {
    thread_ids: Vec<usize>,
    relative_frequencies: Vec<FreqBits>,
    thread_frequencies: Vec<FreqBits>,
}

impl View for Mode {
    type V = ModeView;

    closed spec fn view(&self) -> ModeView {
        ModeView {
            thread_ids: self.thread_ids@,
            relative_frequencies: self.relative_frequencies@,
            thread_frequencies: self.thread_frequencies@,
        }
    }
}

impl Mode {
    /// The default snapshot: every kind on the main thread at relative
    /// frequency one, every thread frequency zero ("unpaced").
    pub fn new() -> (m: Mode)
        ensures
            m@.wf(),
            m@ == ModeView::default_view(),
    {
        let mut thread_ids: Vec<usize> = Vec::new();
        let mut relative_frequencies: Vec<FreqBits> = Vec::new();
        let mut thread_frequencies: Vec<FreqBits> = Vec::new();
        let mut i: usize = 0;
        while i < NUM_GAME_LOOPS
            invariant
                i <= NUM_GAME_LOOPS,
                thread_ids@.len() == i,
                relative_frequencies@.len() == i,
                forall|k: int| 0 <= k < i ==> #[trigger] thread_ids@[k] == MAIN_THREAD_ID,
                forall|k: int| 0 <= k < i ==> #[trigger] relative_frequencies@[k] == FREQ_BITS_ONE,
            decreases NUM_GAME_LOOPS - i,
        {
            thread_ids.push(MAIN_THREAD_ID);
            relative_frequencies.push(FREQ_BITS_ONE);
            i = i + 1;
        }
        let mut t: usize = 0;
        while t < NUM_THREADS
            invariant
                t <= NUM_THREADS,
                thread_frequencies@.len() == t,
                forall|j: int| 0 <= j < t ==> #[trigger] thread_frequencies@[j] == FREQ_BITS_ZERO,
            decreases NUM_THREADS - t,
        {
            thread_frequencies.push(FREQ_BITS_ZERO);
            t = t + 1;
        }
        let m = Mode { thread_ids, relative_frequencies, thread_frequencies };
        proof {
            assert(m@.thread_ids =~= ModeView::default_view().thread_ids);
            assert(m@.relative_frequencies =~= ModeView::default_view().relative_frequencies);
            assert(m@.thread_frequencies =~= ModeView::default_view().thread_frequencies);
            assert(m@ =~= ModeView::default_view());
        }
        m
    }

    /// Overwrite one kind's thread assignment and relative frequency.
    fn set(self, kind: GameLoopKind, thread_id: usize, relative_frequency: FreqBits) -> (m: Mode)
        requires
            self@.wf(),
        ensures
            m@.wf(),
            m@.thread_ids == self@.thread_ids.update(kind.index_spec(), thread_id),
            m@.relative_frequencies
                == self@.relative_frequencies.update(kind.index_spec(), relative_frequency),
            m@.thread_frequencies == self@.thread_frequencies,
    {
        let index = kind.index();
        let mut m = self;
        m.thread_ids.remove(index);
        m.thread_ids.insert(index, thread_id);
        m.relative_frequencies.remove(index);
        m.relative_frequencies.insert(index, relative_frequency);
        proof {
            assert(m@.thread_ids =~= self@.thread_ids.update(kind.index_spec(), thread_id));
            assert(m@.relative_frequencies =~= self@.relative_frequencies.update(
                kind.index_spec(),
                relative_frequency,
            ));
        }
        m
    }

    /// Reassign the update loop.
    pub fn update(self, thread_id: usize, relative_frequency: FreqBits) -> (m: Mode)
        requires
            self@.wf(),
        ensures
            m@.wf(),
            m@.thread_ids == self@.thread_ids.update(
                GameLoopKind::Update.index_spec(),
                thread_id,
            ),
            m@.relative_frequencies == self@.relative_frequencies.update(
                GameLoopKind::Update.index_spec(),
                relative_frequency,
            ),
            m@.thread_frequencies == self@.thread_frequencies,
    {
        self.set(GameLoopKind::Update, thread_id, relative_frequency)
    }

    /// Reassign the render loop.
    pub fn render(self, thread_id: usize, relative_frequency: FreqBits) -> (m: Mode)
        requires
            self@.wf(),
        ensures
            m@.wf(),
            m@.thread_ids == self@.thread_ids.update(
                GameLoopKind::Render.index_spec(),
                thread_id,
            ),
            m@.relative_frequencies == self@.relative_frequencies.update(
                GameLoopKind::Render.index_spec(),
                relative_frequency,
            ),
            m@.thread_frequencies == self@.thread_frequencies,
    {
        self.set(GameLoopKind::Render, thread_id, relative_frequency)
    }

    /// Reassign the audio loop.
    pub fn audio(self, thread_id: usize, relative_frequency: FreqBits) -> (m: Mode)
        requires
            self@.wf(),
        ensures
            m@.wf(),
            m@.thread_ids == self@.thread_ids.update(GameLoopKind::Audio.index_spec(), thread_id),
            m@.relative_frequencies == self@.relative_frequencies.update(
                GameLoopKind::Audio.index_spec(),
                relative_frequency,
            ),
            m@.thread_frequencies == self@.thread_frequencies,
    {
        self.set(GameLoopKind::Audio, thread_id, relative_frequency)
    }

    /// Overwrite one thread's target tick frequency. An out-of-range
    /// thread id is a caller contract violation.
    pub fn frequency(self, thread_id: usize, frequency: FreqBits) -> (m: Mode)
        requires
            self@.wf(),
            thread_id < NUM_THREADS,
        ensures
            m@.wf(),
            m@.thread_ids == self@.thread_ids,
            m@.relative_frequencies == self@.relative_frequencies,
            m@.thread_frequencies == self@.thread_frequencies.update(
                thread_id as int,
                frequency,
            ),
    {
        let mut m = self;
        m.thread_frequencies.remove(thread_id);
        m.thread_frequencies.insert(thread_id, frequency);
        proof {
            assert(m@.thread_frequencies =~= self@.thread_frequencies.update(
                thread_id as int,
                frequency,
            ));
        }
        m
    }

    /// The thread assignment and relative frequency of one kind.
    pub fn get(&self, kind: GameLoopKind) -> (r: (usize, FreqBits))
        requires
            self@.wf(),
        ensures
            r.0 == self@.thread_ids[kind.index_spec()],
            r.1 == self@.relative_frequencies[kind.index_spec()],
    {
        let index = kind.index();
        (self.thread_ids[index], self.relative_frequencies[index])
    }

    /// One thread's target tick frequency.
    pub fn thread_frequency(&self, thread_id: usize) -> (f: FreqBits)
        requires
            self@.wf(),
            thread_id < NUM_THREADS,
        ensures
            f == self@.thread_frequencies[thread_id as int],
    {
        self.thread_frequencies[thread_id]
    }
}

} // verus!
