//! The manager: owns the main-thread loop set, the lazily created
//! worker runners and the mode currently in effect; applies mode
//! transitions (migrating loop units, reprogramming frequencies) and
//! decides each event-pump iteration. The event pump itself, the
//! pacing primitive and the worker threads are external collaborators.

use vstd::prelude::*;

use crate::loops::{
    ContainerView, GameLoop, GameLoopContainer, GameLoopKind, LoopError, NUM_GAME_LOOPS,
};
use crate::mode::{FreqBits, Mode, ModeView, FREQ_BITS_ONE};
use crate::msg::ELGLMMsg;
use crate::runner::{Runner, RunnerView};

verus! {

/// How many worker slots exist.
pub const MAX_RUNNERS: usize = NUM_GAME_LOOPS;

/// The sentinel thread id naming the main thread.
pub const MAIN_THREAD_ID: usize = MAX_RUNNERS;

/// Worker slots plus the main thread.
pub const NUM_THREADS: usize = MAX_RUNNERS + 1;

/// How long the pump may idle when the main thread owns no loop.
pub const IDLE_WAIT_MILLIS: u64 = 100;

/// A marker capability for data a loop unit carries along: such data
/// needs no teardown action beyond being dropped.
pub trait DropData {
    fn do_nothing(&self) {
    }
}

/// What the pump-driving callback should request for the next pump
/// iteration: a bounded idle wait (the main thread owns no loop and
/// need only wake for events or after `IDLE_WAIT_MILLIS`), or an
/// immediate return after each event so ticking is never starved.
#[derive(Clone, Copy, PartialEq, Eq, Structural, Debug)]
pub enum WaitPolicy {
    IdleWait,
    Poll,
}

/// What one pump iteration did, for the caller driving the pump.
#[derive(Clone, Copy, PartialEq, Eq, Structural, Debug)]
pub struct IterationOutcome {
    /// A `Stop` message was drained: the pump should terminate.
    pub exit_requested: bool,
    /// The main-thread loop set was ticked this iteration.
    pub ticked: bool,
}

/// The mathematical content of a manager: the per-slot runner state,
/// the main-thread loop set, and the mode currently in effect.
#[verifier::ext_equal]
pub struct ManagerView<L> {
    pub runners: Seq<Option<RunnerView<L>>>,
    pub loops: ContainerView<L>,
    pub exec_mode: ModeView,
}

impl<L> ManagerView<L> {
    /// The state of the runner in slot `t`.
    pub open spec fn runner_at(self, t: int) -> RunnerView<L>
        recommends
            0 <= t < self.runners.len(),
            self.runners[t] is Some,
    {
        self.runners[t]->Some_0
    }

    /// Every component has its fixed shape.
    pub open spec fn wf_shape(self) -> bool {
        &&& self.runners.len() == MAX_RUNNERS
        &&& self.loops.wf()
        &&& self.exec_mode.wf()
        &&& forall|t: int|
            0 <= t < MAX_RUNNERS && self.runners[t] is Some ==> (
            #[trigger] self.runners[t])->Some_0.wf()
    }

    /// Whether the container of thread `t` (a worker slot, or the main
    /// thread for the sentinel id) currently holds kind index `k`.
    pub open spec fn owned_by(self, t: int, k: int) -> bool {
        if t == MAIN_THREAD_ID {
            self.loops.owns(k)
        } else {
            self.runners[t] is Some && self.runner_at(t).owns(k)
        }
    }

    /// The mode in effect tells the truth about ownership: each kind
    /// is held by the container of its assigned thread and by no other.
    pub open spec fn ownership_ok(self) -> bool {
        forall|k: int, t: int|
            0 <= k < NUM_GAME_LOOPS && 0 <= t < NUM_THREADS ==> (#[trigger] self.owned_by(t, k)
                <==> t == self.exec_mode.thread_ids[k])
    }

    /// Each kind's owning container carries the relative frequency the
    /// mode in effect prescribes for it.
    pub open spec fn rel_freq_ok(self) -> bool {
        forall|k: int|
            0 <= k < NUM_GAME_LOOPS ==> {
                let t = #[trigger] self.exec_mode.thread_ids[k] as int;
                if t == MAIN_THREAD_ID {
                    self.loops.relative_frequencies[k] == self.exec_mode.relative_frequencies[k]
                } else {
                    self.runner_at(t).loops.relative_frequencies[k]
                        == self.exec_mode.relative_frequencies[k]
                }
            }
    }

    /// Every existing runner is paced as the mode in effect prescribes.
    pub open spec fn thread_freq_ok(self) -> bool {
        forall|t: int|
            0 <= t < MAX_RUNNERS && self.runners[t] is Some ==> (
            #[trigger] self.runners[t])->Some_0.frequency == self.exec_mode.thread_frequencies[t]
    }

    /// The manager's invariant: well shaped, the mode in effect is
    /// valid, and it is the single source of truth for ownership and
    /// frequencies.
    pub open spec fn wf(self) -> bool {
        &&& self.wf_shape()
        &&& self.exec_mode.valid()
        &&& self.ownership_ok()
        &&& self.rel_freq_ok()
        &&& self.thread_freq_ok()
    }

    /// The container of kind `k`'s currently assigned thread holds a
    /// unit for `k` (and, off the main thread, that runner exists).
    pub open spec fn owner_holds(self, k: int) -> bool {
        let t = self.exec_mode.thread_ids[k] as int;
        &&& t <= MAIN_THREAD_ID
        &&& self.owned_by(t, k)
    }

    /// The unit currently owned for kind `k`, wherever it resides.
    pub open spec fn owner_unit(self, k: int) -> L
        recommends
            self.owner_holds(k),
    {
        let t = self.exec_mode.thread_ids[k] as int;
        if t == MAIN_THREAD_ID {
            self.loops.units[k]->Some_0
        } else {
            self.runner_at(t).loops.units[k]->Some_0
        }
    }

    /// Lazy creation: slot `t` gets a fresh runner if it has none.
    pub open spec fn with_runner_created(self, t: int) -> ManagerView<L> {
        if self.runners[t] is Some {
            self
        } else {
            ManagerView { runners: self.runners.update(t, Some(RunnerView::new_view())), ..self }
        }
    }

    /// Consuming removal of kind `k` from the container of thread `t`.
    pub open spec fn after_remove_from(self, t: int, k: int) -> ManagerView<L> {
        if t == MAIN_THREAD_ID {
            ManagerView { loops: self.loops.removed(k), ..self }
        } else {
            ManagerView {
                runners: self.runners.update(
                    t,
                    Some(RunnerView { loops: self.runner_at(t).loops.removed(k), ..self.runner_at(t) }),
                ),
                ..self
            }
        }
    }

    /// Hand-off of a unit for kind `k` to the container of thread `t`,
    /// lazily creating the target runner.
    pub open spec fn after_send_loop(self, k: int, unit: L, t: int, rf: FreqBits) -> ManagerView<
        L,
    > {
        if t == MAIN_THREAD_ID {
            ManagerView { loops: self.loops.inserted(k, unit, rf), ..self }
        } else {
            let v = self.with_runner_created(t);
            ManagerView {
                runners: v.runners.update(
                    t,
                    Some(
                        RunnerView {
                            loops: v.runner_at(t).loops.inserted(k, unit, rf),
                            ..v.runner_at(t)
                        },
                    ),
                ),
                ..v
            }
        }
    }

    /// Kind `k`'s relative frequency is pushed to thread `t`'s container.
    pub open spec fn after_set_relative_frequency(self, k: int, t: int, rf: FreqBits) -> ManagerView<
        L,
    > {
        if t == MAIN_THREAD_ID {
            ManagerView { loops: self.loops.with_relative_frequency(k, rf), ..self }
        } else {
            ManagerView {
                runners: self.runners.update(
                    t,
                    Some(
                        RunnerView {
                            loops: self.runner_at(t).loops.with_relative_frequency(k, rf),
                            ..self.runner_at(t)
                        },
                    ),
                ),
                ..self
            }
        }
    }

    /// Slot `t` (created if need be) is reprogrammed to frequency `f`.
    pub open spec fn after_thread_frequency(self, t: int, f: FreqBits) -> ManagerView<L> {
        let v = self.with_runner_created(t);
        ManagerView {
            runners: v.runners.update(t, Some(RunnerView { frequency: f, ..v.runner_at(t) })),
            ..v
        }
    }

    /// One kind's step of a mode transition: if the assigned thread
    /// changed, the unit is removed fully intact from its current owner
    /// and handed to the new one with the new relative frequency; if
    /// not, only the relative frequency is pushed to the current owner.
    pub open spec fn after_apply_kind(self, m: ModeView, k: int) -> ManagerView<L> {
        let old_t = self.exec_mode.thread_ids[k] as int;
        let new_t = m.thread_ids[k] as int;
        let rf = m.relative_frequencies[k];
        if new_t != old_t {
            self.after_remove_from(old_t, k).after_send_loop(k, self.owner_unit(k), new_t, rf)
        } else {
            self.after_set_relative_frequency(k, new_t, rf)
        }
    }

    /// Kind `k` is owned exactly by the thread the mode in effect
    /// assigns it to, and by no other container.
    pub open spec fn kind_exclusive(self, k: int) -> bool {
        forall|t2: int|
            0 <= t2 < NUM_THREADS ==> (#[trigger] self.owned_by(t2, k) <==> t2
                == self.exec_mode.thread_ids[k] as int)
    }

    /// Kind `k` is owned exactly by the thread `m` assigns it to, and
    /// its owning container carries the relative frequency `m` gives it.
    pub open spec fn kind_settled(self, m: ModeView, k: int) -> bool {
        let t = m.thread_ids[k] as int;
        &&& forall|t2: int|
            0 <= t2 < NUM_THREADS ==> (#[trigger] self.owned_by(t2, k) <==> t2 == t)
        &&& if t == MAIN_THREAD_ID {
            self.loops.relative_frequencies[k] == m.relative_frequencies[k]
        } else {
            &&& self.runners[t] is Some
            &&& self.runner_at(t).loops.relative_frequencies[k] == m.relative_frequencies[k]
        }
    }

    /// The state of a freshly constructed manager holding these three
    /// units: all of them on the main thread at relative frequency one,
    /// no runner yet, the default mode in effect.
    pub open spec fn initial(u: L, r: L, a: L) -> ManagerView<L> {
        ManagerView {
            runners: Seq::new(MAX_RUNNERS as nat, |i: int| None),
            loops: ContainerView::empty_view().inserted(0, u, FREQ_BITS_ONE).inserted(
                1,
                r,
                FREQ_BITS_ONE,
            ).inserted(2, a, FREQ_BITS_ONE),
            exec_mode: ModeView::default_view(),
        }
    }

    /// The state after one drained burst of control messages, in FIFO
    /// order: each `SetMode` is a whole mode transition; `Stop` only
    /// requests pump termination and does not touch the state.
    pub open spec fn after_messages(self, msgs: Seq<ELGLMMsg>) -> ManagerView<L>
        decreases msgs.len(),
    {
        if msgs.len() == 0 {
            self
        } else {
            match msgs[0] {
                ELGLMMsg::SetMode(mode) => self.after_set_mode(mode@).after_messages(
                    msgs.drop_first(),
                ),
                ELGLMMsg::Stop => self.after_messages(msgs.drop_first()),
            }
        }
    }

    /// A whole mode transition: each kind's step in the fixed order,
    /// then the per-thread frequency push over every worker slot, then
    /// the mode in effect is replaced wholesale.
    pub open spec fn after_set_mode(self, m: ModeView) -> ManagerView<L> {
        let v = self.after_apply_kind(m, 0).after_apply_kind(m, 1).after_apply_kind(m, 2);
        let v = v.after_thread_frequency(0, m.thread_frequencies[0]).after_thread_frequency(
            1,
            m.thread_frequencies[1],
        ).after_thread_frequency(2, m.thread_frequencies[2]);
        ManagerView { exec_mode: m, ..v }
    }
}

/// Every `SetMode` message in the burst carries a valid mode.
pub open spec fn valid_msgs(msgs: Seq<ELGLMMsg>) -> bool {
    forall|i: int|
        0 <= i < msgs.len() ==> ((#[trigger] msgs[i]) matches ELGLMMsg::SetMode(mode)
            ==> mode@.valid())
}

/// Whether the burst contains a `Stop` message.
pub open spec fn stop_requested(msgs: Seq<ELGLMMsg>) -> bool {
    exists|i: int| 0 <= i < msgs.len() && (#[trigger] msgs[i]) is Stop
}

/// The manager state: one optional runner per worker slot, the
/// main-thread loop set, and the mode currently in effect.
pub struct GameLoopManager<L> {
    runners: Vec<Option<Runner<L>>>,
    loops: GameLoopContainer<L>,
    exec_mode: Mode,
}

impl<L> View for GameLoopManager<L> {
    type V = ManagerView<L>;

    closed spec fn view(&self) -> ManagerView<L> {
        ManagerView {
            runners: Seq::new(
                self.runners@.len(),
                |i: int|
                    match self.runners@[i] {
                        Some(r) => Some(r@),
                        None => None,
                    },
            ),
            loops: self.loops@,
            exec_mode: self.exec_mode@,
        }
    }
}

impl<L> GameLoopManager<L> {
    /// Create the runner for `thread_id` if that slot has never been
    /// used; an existing runner is left untouched.
    fn get_or_create_runner(&mut self, thread_id: usize)
        requires
            old(self)@.runners.len() == MAX_RUNNERS,
            thread_id < MAX_RUNNERS,
        ensures
            final(self)@ == old(self)@.with_runner_created(thread_id as int),
    {
        if self.runners[thread_id].is_none() {
            let _ = self.runners.remove(thread_id);
            self.runners.insert(thread_id, Some(Runner::new()));
            proof {
                assert(self@.runners =~= old(self)@.runners.update(
                    thread_id as int,
                    Some(RunnerView::<L>::new_view()),
                ));
                assert(self@ =~= old(self)@.with_runner_created(thread_id as int));
            }
        } else {
            proof {
                assert(self@ =~= old(self)@.with_runner_created(thread_id as int));
            }
        }
    }

    /// Consuming removal of kind `kind`'s unit from its current owner,
    /// as named by the mode in effect.
    fn request_loop(&mut self, kind: GameLoopKind) -> (gl: L)
        requires
            old(self)@.wf_shape(),
            old(self)@.owner_holds(kind.index_spec()),
        ensures
            final(self)@ == old(self)@.after_remove_from(
                old(self)@.exec_mode.thread_ids[kind.index_spec()] as int,
                kind.index_spec(),
            ),
            gl == old(self)@.owner_unit(kind.index_spec()),
    {
        let (thread_id, _rf) = self.exec_mode.get(kind);
        if thread_id == MAIN_THREAD_ID {
            let gl = self.loops.remove(kind);
            proof {
                assert(self@ =~= old(self)@.after_remove_from(
                    old(self)@.exec_mode.thread_ids[kind.index_spec()] as int,
                    kind.index_spec(),
                ));
            }
            gl
        } else {
            proof {
                assert(self.runners@.len() == self@.runners.len());
                assert(self@.runners[thread_id as int] is Some);
            }
            let slot = self.runners.remove(thread_id);
            match slot {
                Some(mut r) => {
                    proof {
                        assert(r@ == old(self)@.runner_at(thread_id as int));
                    }
                    let gl = r.remove(kind);
                    self.runners.insert(thread_id, Some(r));
                    proof {
                        assert(self@.runners =~= old(self)@.runners.update(
                            thread_id as int,
                            Some(
                                RunnerView {
                                    loops: old(self)@.runner_at(thread_id as int).loops.removed(
                                        kind.index_spec(),
                                    ),
                                    ..old(self)@.runner_at(thread_id as int)
                                },
                            ),
                        ));
                        assert(self@ =~= old(self)@.after_remove_from(
                            old(self)@.exec_mode.thread_ids[kind.index_spec()] as int,
                            kind.index_spec(),
                        ));
                    }
                    gl
                },
                None => vstd::pervasive::unreached(),
            }
        }
    }

    /// Hand a unit for `kind`, fully intact, to the container of
    /// `thread_id`, at the given relative frequency; the target runner
    /// is created lazily if that slot has never been used.
    fn send_loop(&mut self, kind: GameLoopKind, gl: L, thread_id: usize, relative_frequency: FreqBits)
        requires
            old(self)@.wf_shape(),
            thread_id <= MAIN_THREAD_ID,
        ensures
            final(self)@ == old(self)@.after_send_loop(
                kind.index_spec(),
                gl,
                thread_id as int,
                relative_frequency,
            ),
    {
        if thread_id == MAIN_THREAD_ID {
            self.loops.insert(kind, gl, relative_frequency);
            proof {
                assert(self@ =~= old(self)@.after_send_loop(
                    kind.index_spec(),
                    gl,
                    thread_id as int,
                    relative_frequency,
                ));
            }
        } else {
            self.get_or_create_runner(thread_id);
            let ghost mid = self@;
            proof {
                assert(ContainerView::<L>::empty_view().wf());
                assert(self.runners@.len() == self@.runners.len());
                assert(mid.runners.len() == old(self)@.runners.len());
                assert(mid.runners[thread_id as int] is Some);
                assert(mid.runner_at(thread_id as int).wf());
            }
            let slot = self.runners.remove(thread_id);
            match slot {
                Some(mut r) => {
                    proof {
                        assert(r@ == mid.runner_at(thread_id as int));
                    }
                    r.insert(kind, gl, relative_frequency);
                    self.runners.insert(thread_id, Some(r));
                    proof {
                        assert(self@.runners =~= mid.runners.update(
                            thread_id as int,
                            Some(
                                RunnerView {
                                    loops: mid.runner_at(thread_id as int).loops.inserted(
                                        kind.index_spec(),
                                        gl,
                                        relative_frequency,
                                    ),
                                    ..mid.runner_at(thread_id as int)
                                },
                            ),
                        ));
                        assert(self@ =~= old(self)@.after_send_loop(
                            kind.index_spec(),
                            gl,
                            thread_id as int,
                            relative_frequency,
                        ));
                    }
                },
                None => vstd::pervasive::unreached(),
            }
        }
    }

    /// Push kind `kind`'s new relative frequency to the container of
    /// `thread_id`, which must already exist.
    fn set_relative_frequency(
        &mut self,
        kind: GameLoopKind,
        thread_id: usize,
        relative_frequency: FreqBits,
    )
        requires
            old(self)@.wf_shape(),
            thread_id <= MAIN_THREAD_ID,
            thread_id < MAIN_THREAD_ID ==> old(self)@.runners[thread_id as int] is Some,
        ensures
            final(self)@ == old(self)@.after_set_relative_frequency(
                kind.index_spec(),
                thread_id as int,
                relative_frequency,
            ),
    {
        if thread_id == MAIN_THREAD_ID {
            self.loops.set_relative_frequency(kind, relative_frequency);
            proof {
                assert(self@ =~= old(self)@.after_set_relative_frequency(
                    kind.index_spec(),
                    thread_id as int,
                    relative_frequency,
                ));
            }
        } else {
            proof {
                assert(self.runners@.len() == self@.runners.len());
                assert(self@.runners[thread_id as int] is Some);
            }
            let slot = self.runners.remove(thread_id);
            match slot {
                Some(mut r) => {
                    proof {
                        assert(r@ == old(self)@.runner_at(thread_id as int));
                    }
                    r.set_relative_frequency(kind, relative_frequency);
                    self.runners.insert(thread_id, Some(r));
                    proof {
                        assert(self@.runners =~= old(self)@.runners.update(
                            thread_id as int,
                            Some(
                                RunnerView {
                                    loops: old(self)@.runner_at(
                                        thread_id as int,
                                    ).loops.with_relative_frequency(
                                        kind.index_spec(),
                                        relative_frequency,
                                    ),
                                    ..old(self)@.runner_at(thread_id as int)
                                },
                            ),
                        ));
                        assert(self@ =~= old(self)@.after_set_relative_frequency(
                            kind.index_spec(),
                            thread_id as int,
                            relative_frequency,
                        ));
                    }
                },
                None => vstd::pervasive::unreached(),
            }
        }
    }

    /// Reprogram the target tick frequency of worker slot `thread_id`,
    /// creating its runner purely to hold the value if need be.
    fn set_thread_frequency(&mut self, thread_id: usize, frequency: FreqBits)
        requires
            old(self)@.runners.len() == MAX_RUNNERS,
            thread_id < MAX_RUNNERS,
        ensures
            final(self)@ == old(self)@.after_thread_frequency(thread_id as int, frequency),
    {
        self.get_or_create_runner(thread_id);
        let ghost mid = self@;
        proof {
            assert(self.runners@.len() == self@.runners.len());
            assert(mid.runners.len() == old(self)@.runners.len());
            assert(mid.runners[thread_id as int] is Some);
        }
        let slot = self.runners.remove(thread_id);
        match slot {
            Some(mut r) => {
                proof {
                    assert(r@ == mid.runner_at(thread_id as int));
                }
                r.set_frequency(frequency);
                self.runners.insert(thread_id, Some(r));
                proof {
                    assert(self@.runners =~= mid.runners.update(
                        thread_id as int,
                        Some(RunnerView { frequency, ..mid.runner_at(thread_id as int) }),
                    ));
                    assert(self@ =~= old(self)@.after_thread_frequency(
                        thread_id as int,
                        frequency,
                    ));
                }
            },
            None => vstd::pervasive::unreached(),
        }
    }
}

impl<L> GameLoopManager<L> {
    /// A freshly constructed manager: the three loop units live in the
    /// main-thread loop set at relative frequency one, no runner exists
    /// yet, and the default mode is in effect.
    pub fn new(update_loop: L, render_loop: L, audio_loop: L) -> (mgr: GameLoopManager<L>)
        ensures
            mgr@ == ManagerView::initial(update_loop, render_loop, audio_loop),
            mgr@.wf(),
    {
        let mut loops = GameLoopContainer::new();
        loops.insert(GameLoopKind::Update, update_loop, FREQ_BITS_ONE);
        loops.insert(GameLoopKind::Render, render_loop, FREQ_BITS_ONE);
        loops.insert(GameLoopKind::Audio, audio_loop, FREQ_BITS_ONE);
        let mut runners: Vec<Option<Runner<L>>> = Vec::new();
        runners.push(None);
        runners.push(None);
        runners.push(None);
        let exec_mode = Mode::new();
        let mgr = GameLoopManager { runners, loops, exec_mode };
        proof {
            let iv = ManagerView::initial(update_loop, render_loop, audio_loop);
            assert(mgr@.runners =~= iv.runners);
            assert(mgr@ =~= iv);
            assert(mgr@.wf()) by {
                assert(ContainerView::<L>::empty_view().wf());
                assert forall|k: int, t2: int|
                    0 <= k < NUM_GAME_LOOPS && 0 <= t2 < NUM_THREADS implies (
                #[trigger] mgr@.owned_by(t2, k) <==> t2 == mgr@.exec_mode.thread_ids[k]) by {
                    if t2 < MAX_RUNNERS {
                        assert(mgr@.runners[t2] is None);
                        assert(!mgr@.owned_by(t2, k));
                    } else {
                        assert(mgr@.loops.owns(k));
                    }
                }
            }
        }
        mgr
    }

    /// A manager constructed and immediately driven through a mode
    /// transition to the given mode.
    pub fn new_moded(
        update_loop: L,
        render_loop: L,
        audio_loop: L,
        exec_mode: Mode,
    ) -> (mgr: GameLoopManager<L>)
        requires
            exec_mode@.valid(),
        ensures
            mgr@ == ManagerView::initial(update_loop, render_loop, audio_loop).after_set_mode(
                exec_mode@,
            ),
            mgr@.wf(),
    {
        let mut manager = Self::new(update_loop, render_loop, audio_loop);
        manager.set_mode(exec_mode);
        manager
    }

    /// Apply a mode transition. For each loop kind in the fixed order:
    /// if the assigned thread changed, its unit is removed fully intact
    /// from the current owner and handed to the new one (created lazily
    /// if need be) with the new relative frequency; if not, only the
    /// relative frequency is pushed to the current owner. Then every
    /// worker slot is reprogrammed to the mode's per-thread frequency,
    /// and the mode in effect is replaced wholesale.
    pub fn set_mode(&mut self, new_mode: Mode)
        requires
            old(self)@.wf(),
            new_mode@.valid(),
        ensures
            final(self)@ == old(self)@.after_set_mode(new_mode@),
            final(self)@.wf(),
    {
        let ghost v0 = self@;
        proof {
            assert forall|k: int, t2: int|
                0 <= k < NUM_GAME_LOOPS && 0 <= t2 < NUM_THREADS implies (#[trigger] v0.owned_by(
                t2,
                k,
            ) <==> t2 == v0.exec_mode.thread_ids[k] as int) by {
                assert(v0.owned_by(t2, k) <==> t2 == v0.exec_mode.thread_ids[k]);
            }
            lemma_apply_kind_step(v0, new_mode@, 0);
        }
        let desired = new_mode.get(GameLoopKind::Update);
        let current = self.exec_mode.get(GameLoopKind::Update);
        if desired.0 != current.0 {
            let gl = self.request_loop(GameLoopKind::Update);
            self.send_loop(GameLoopKind::Update, gl, desired.0, desired.1);
        } else {
            self.set_relative_frequency(GameLoopKind::Update, desired.0, desired.1);
        }
        let ghost v1 = v0.after_apply_kind(new_mode@, 0);
        proof {
            assert(self@ == v1);
            lemma_apply_kind_step(v1, new_mode@, 1);
        }
        let desired = new_mode.get(GameLoopKind::Render);
        let current = self.exec_mode.get(GameLoopKind::Render);
        if desired.0 != current.0 {
            let gl = self.request_loop(GameLoopKind::Render);
            self.send_loop(GameLoopKind::Render, gl, desired.0, desired.1);
        } else {
            self.set_relative_frequency(GameLoopKind::Render, desired.0, desired.1);
        }
        let ghost v2 = v1.after_apply_kind(new_mode@, 1);
        proof {
            assert(self@ == v2);
            lemma_apply_kind_step(v2, new_mode@, 2);
        }
        let desired = new_mode.get(GameLoopKind::Audio);
        let current = self.exec_mode.get(GameLoopKind::Audio);
        if desired.0 != current.0 {
            let gl = self.request_loop(GameLoopKind::Audio);
            self.send_loop(GameLoopKind::Audio, gl, desired.0, desired.1);
        } else {
            self.set_relative_frequency(GameLoopKind::Audio, desired.0, desired.1);
        }
        let ghost v3 = v2.after_apply_kind(new_mode@, 2);
        proof {
            assert(self@ == v3);
        }
        self.set_thread_frequency(0, new_mode.thread_frequency(0));
        self.set_thread_frequency(1, new_mode.thread_frequency(1));
        self.set_thread_frequency(2, new_mode.thread_frequency(2));
        let ghost v6 = v3.after_thread_frequency(0, new_mode@.thread_frequencies[0])
            .after_thread_frequency(1, new_mode@.thread_frequencies[1]).after_thread_frequency(
            2,
            new_mode@.thread_frequencies[2],
        );
        proof {
            assert(self@ == v6);
        }
        self.exec_mode = new_mode;
        proof {
            assert(self@.runners =~= v6.runners);
            assert(self@ =~= v0.after_set_mode(new_mode@));
            lemma_set_mode_wf(v0, new_mode@);
        }
    }
}

impl<L> GameLoopManager<L> {
    /// Drain one burst of control messages in FIFO order: each
    /// `SetMode` applies a whole mode transition; `Stop` records that
    /// pump termination was requested, and touches nothing.
    pub fn process_messages(&mut self, msgs: Vec<ELGLMMsg>) -> (stop: bool)
        requires
            old(self)@.wf(),
            valid_msgs(msgs@),
        ensures
            final(self)@ == old(self)@.after_messages(msgs@),
            final(self)@.wf(),
            stop == stop_requested(msgs@),
    {
        let mut msgs = msgs;
        let mut stop = false;
        let ghost orig = msgs@;
        let ghost v0 = self@;
        proof {
            assert(v0.after_messages(orig) == self@.after_messages(msgs@));
        }
        while msgs.len() > 0
            invariant
                self@.wf(),
                valid_msgs(msgs@),
                v0.after_messages(orig) == self@.after_messages(msgs@),
                stop_requested(orig) == (stop || stop_requested(msgs@)),
            decreases msgs@.len(),
        {
            let ghost pre = msgs@;
            let ghost vpre = self@;
            let ghost stop_pre = stop;
            let msg = msgs.remove(0);
            proof {
                assert(msgs@ =~= pre.drop_first());
                lemma_stop_requested_unfold(pre);
                assert forall|i: int|
                    0 <= i < msgs@.len() implies ((#[trigger] msgs@[i]) matches ELGLMMsg::SetMode(
                    mode,
                ) ==> mode@.valid()) by {
                    assert(msgs@[i] == pre[i + 1]);
                }
            }
            match msg {
                ELGLMMsg::SetMode(mode) => {
                    proof {
                        assert(pre[0] matches ELGLMMsg::SetMode(mm) && mm == mode);
                    }
                    self.set_mode(mode);
                    proof {
                        assert(vpre.after_messages(pre) == self@.after_messages(msgs@));
                    }
                },
                ELGLMMsg::Stop => {
                    stop = true;
                    proof {
                        assert(vpre.after_messages(pre) == self@.after_messages(msgs@));
                        assert(stop_requested(pre));
                    }
                },
            }
        }
        proof {
            assert(self@.after_messages(msgs@) == self@);
            assert(!stop_requested(msgs@));
        }
        stop
    }

    /// The wait policy the pump-driving callback should request at the
    /// start of an iteration: a bounded idle wait exactly when the
    /// main-thread loop set owns no loop kind, else an immediate
    /// re-poll so ticking is never starved.
    pub fn control_flow_request(&self) -> (w: WaitPolicy)
        requires
            self@.loops.wf(),
        ensures
            (w == WaitPolicy::IdleWait) <==> (forall|k: int|
                0 <= k < NUM_GAME_LOOPS ==> !(#[trigger] self@.loops.owns(k))),
    {
        if self.loops.is_empty() {
            WaitPolicy::IdleWait
        } else {
            WaitPolicy::Poll
        }
    }

    /// The mode currently in effect.
    pub fn current_mode(&self) -> (m: &Mode)
        ensures
            m@ == self@.exec_mode,
    {
        &self.exec_mode
    }

    /// The main thread's configured target tick frequency.
    pub fn main_thread_frequency(&self) -> (f: FreqBits)
        requires
            self@.exec_mode.wf(),
        ensures
            f == self@.exec_mode.thread_frequencies[MAIN_THREAD_ID as int],
    {
        self.exec_mode.thread_frequency(MAIN_THREAD_ID)
    }

    /// Whether a runner has been created for this worker slot.
    pub fn has_runner(&self, thread_id: usize) -> (b: bool)
        requires
            self@.runners.len() == MAX_RUNNERS,
            thread_id < MAX_RUNNERS,
        ensures
            b == (self@.runners[thread_id as int] is Some),
    {
        proof {
            assert(self.runners@.len() == self@.runners.len());
        }
        self.runners[thread_id].is_some()
    }

    /// The target tick frequency this worker slot's runner was
    /// reprogrammed to, if the slot has ever been used.
    pub fn runner_frequency(&self, thread_id: usize) -> (f: Option<FreqBits>)
        requires
            self@.runners.len() == MAX_RUNNERS,
            thread_id < MAX_RUNNERS,
        ensures
            f matches Some(x) ==> self@.runners[thread_id as int] is Some && x == self@.runner_at(
                thread_id as int,
            ).frequency,
            (f is None) <==> (self@.runners[thread_id as int] is None),
    {
        proof {
            assert(self.runners@.len() == self@.runners.len());
        }
        match &self.runners[thread_id] {
            Some(r) => Some(r.frequency()),
            None => None,
        }
    }

    /// Whether the main-thread loop set currently owns this kind.
    pub fn main_owns(&self, kind: GameLoopKind) -> (b: bool)
        requires
            self@.loops.wf(),
        ensures
            b == self@.loops.owns(kind.index_spec()),
    {
        self.loops.owns_kind(kind)
    }

    /// Whether this worker slot has a runner that owns this kind.
    pub fn runner_owns(&self, thread_id: usize, kind: GameLoopKind) -> (b: bool)
        requires
            self@.wf_shape(),
            thread_id < MAX_RUNNERS,
        ensures
            b == (self@.runners[thread_id as int] is Some && self@.runner_at(
                thread_id as int,
            ).owns(kind.index_spec())),
    {
        proof {
            assert(self.runners@.len() == self@.runners.len());
        }
        match &self.runners[thread_id] {
            Some(r) => {
                proof {
                    assert(r@ == self@.runner_at(thread_id as int));
                }
                r.owns_kind(kind)
            },
            None => false,
        }
    }
}

impl<L: GameLoop> GameLoopManager<L> {
    /// One whole pump iteration, given the burst drained from the
    /// control queue: process the messages in FIFO order; then, unless
    /// a `Stop` was observed, tick every main-thread-resident loop kind
    /// exactly once. After a `Stop` no tick runs, and an earlier mode
    /// in the burst is never the one a tick observes: ticking always
    /// happens after the full drain. Only a loop unit's own tick can
    /// fail: an iteration that leaves the main-thread loop set empty
    /// succeeds.
    pub fn pump_iteration(&mut self, msgs: Vec<ELGLMMsg>) -> (r: Result<
        IterationOutcome,
        LoopError,
    >)
        requires
            old(self)@.wf(),
            valid_msgs(msgs@),
        ensures
            final(self)@.wf(),
            ({
                let drained = old(self)@.after_messages(msgs@);
                let stop = stop_requested(msgs@);
                &&& (r matches Ok(o) ==> o.exit_requested == stop && o.ticked == !stop)
                &&& (r is Err ==> !stop)
                &&& (stop ==> r is Ok && final(self)@ == drained)
                &&& ((forall|k: int|
                    0 <= k < NUM_GAME_LOOPS ==> !(#[trigger] drained.loops.owns(k))) ==> r is Ok)
                &&& (!stop ==> {
                    &&& final(self)@.exec_mode == drained.exec_mode
                    &&& final(self)@.runners == drained.runners
                    &&& final(self)@.loops.relative_frequencies
                        == drained.loops.relative_frequencies
                    &&& forall|k: int|
                        0 <= k < NUM_GAME_LOOPS ==> #[trigger] final(self)@.loops.owns(k)
                            == drained.loops.owns(k)
                })
            }),
    {
        let stop = self.process_messages(msgs);
        if stop {
            return Ok(IterationOutcome { exit_requested: true, ticked: false });
        }
        let ghost mid = self@;
        let tick = self.loops.run_all();
        proof {
            assert(self@.runners =~= mid.runners);
            assert(self@.wf()) by {
                assert forall|k: int, t2: int|
                    0 <= k < NUM_GAME_LOOPS && 0 <= t2 < NUM_THREADS implies (
                #[trigger] self@.owned_by(t2, k) <==> t2 == self@.exec_mode.thread_ids[k]) by {
                    assert(self@.owned_by(t2, k) == mid.owned_by(t2, k));
                    assert(mid.owned_by(t2, k) <==> t2 == mid.exec_mode.thread_ids[k]);
                }
            }
        }
        match tick {
            Ok(()) => Ok(IterationOutcome { exit_requested: false, ticked: true }),
            Err(e) => Err(e),
        }
    }
}

/// Emptying a burst from the front: it requests a stop exactly when
/// its first message is `Stop` or the rest of it requests one.
proof fn lemma_stop_requested_unfold(msgs: Seq<ELGLMMsg>)
    requires
        msgs.len() > 0,
    ensures
        stop_requested(msgs) == (msgs[0] is Stop || stop_requested(msgs.drop_first())),
{
    if stop_requested(msgs) {
        let i = choose|i: int| 0 <= i < msgs.len() && (#[trigger] msgs[i]) is Stop;
        if i > 0 {
            assert(msgs.drop_first()[i - 1] is Stop);
        }
    }
    if msgs[0] is Stop {
        assert(stop_requested(msgs));
    }
    if stop_requested(msgs.drop_first()) {
        let i = choose|i: int|
            0 <= i < msgs.drop_first().len() && (#[trigger] msgs.drop_first()[i]) is Stop;
        assert(msgs[i + 1] is Stop);
    }
}

/// One kind's transition step leaves the state well shaped, does not
/// touch the mode in effect, settles that kind where `m` assigns it,
/// and leaves every other kind's ownership and settledness alone.
proof fn lemma_apply_kind_step<L>(v: ManagerView<L>, m: ModeView, k: int)
    requires
        v.wf_shape(),
        v.exec_mode.valid(),
        m.valid(),
        0 <= k < NUM_GAME_LOOPS,
        v.kind_exclusive(k),
    ensures
        ({
            let v2 = v.after_apply_kind(m, k);
            &&& v2.wf_shape()
            &&& v2.exec_mode == v.exec_mode
            &&& v.after_remove_from(v.exec_mode.thread_ids[k] as int, k).wf_shape()
            &&& v.owner_holds(k)
            &&& v2.kind_settled(m, k)
            &&& forall|j: int|
                0 <= j < NUM_GAME_LOOPS && j != k && v.kind_exclusive(j)
                    ==> #[trigger] v2.kind_exclusive(j)
            &&& forall|j: int|
                0 <= j < NUM_GAME_LOOPS && j != k && v.kind_settled(m, j) ==> #[trigger] v2.kind_settled(
                    m,
                    j,
                )
        }),
{
    let old_t = v.exec_mode.thread_ids[k] as int;
    let new_t = m.thread_ids[k] as int;
    assert(v.owned_by(old_t, k));
    assert(v.owner_holds(k));
    let v2 = v.after_apply_kind(m, k);
    if new_t != old_t {
        let vr = v.after_remove_from(old_t, k);
        assert(vr.wf_shape());
        assert forall|t2: int| 0 <= t2 < NUM_THREADS implies !(#[trigger] vr.owned_by(t2, k)) by {
            if t2 == old_t {
                assert(!vr.owned_by(t2, k));
            } else {
                assert(vr.owned_by(t2, k) == v.owned_by(t2, k));
                assert(!v.owned_by(t2, k));
            }
        }
        assert(v2 == vr.after_send_loop(k, v.owner_unit(k), new_t, m.relative_frequencies[k]));
        assert(v2.wf_shape());
        assert forall|t2: int| 0 <= t2 < NUM_THREADS implies (#[trigger] v2.owned_by(t2, k)
            <==> t2 == new_t) by {
            if t2 == new_t {
                assert(v2.owned_by(t2, k));
            } else {
                assert(v2.owned_by(t2, k) == vr.owned_by(t2, k));
            }
        }
        assert(v2.kind_settled(m, k));
    } else {
        assert(v2.wf_shape());
        assert forall|t2: int| 0 <= t2 < NUM_THREADS implies (#[trigger] v2.owned_by(t2, k)
            <==> t2 == new_t) by {
            assert(v2.owned_by(t2, k) == v.owned_by(t2, k));
        }
        assert(v2.kind_settled(m, k));
    }
    assert forall|j: int|
        0 <= j < NUM_GAME_LOOPS && j != k && v.kind_exclusive(j) implies #[trigger] v2.kind_exclusive(
        j,
    ) by {
        assert forall|t2: int| 0 <= t2 < NUM_THREADS implies (#[trigger] v2.owned_by(t2, j)
            <==> t2 == v2.exec_mode.thread_ids[j] as int) by {
            assert(v2.owned_by(t2, j) == v.owned_by(t2, j));
        }
    }
    assert forall|j: int|
        0 <= j < NUM_GAME_LOOPS && j != k && v.kind_settled(m, j) implies #[trigger] v2.kind_settled(
        m,
        j,
    ) by {
        assert forall|t2: int| 0 <= t2 < NUM_THREADS implies (#[trigger] v2.owned_by(t2, j)
            <==> t2 == m.thread_ids[j] as int) by {
            assert(v2.owned_by(t2, j) == v.owned_by(t2, j));
        }
    }
}

/// One slot's frequency push leaves the state well shaped, touches no
/// loop unit and no relative frequency, leaves the other slots alone,
/// and leaves that slot's runner existing at the pushed frequency.
proof fn lemma_thread_frequency_step<L>(v: ManagerView<L>, m: ModeView, t: int, f: FreqBits)
    requires
        v.wf_shape(),
        m.valid(),
        0 <= t < MAX_RUNNERS,
    ensures
        ({
            let v2 = v.after_thread_frequency(t, f);
            &&& v2.wf_shape()
            &&& v2.exec_mode == v.exec_mode
            &&& v2.loops == v.loops
            &&& v2.runners[t] is Some
            &&& v2.runner_at(t).frequency == f
            &&& forall|i: int| 0 <= i < MAX_RUNNERS && i != t ==> v2.runners[i] == v.runners[i]
            &&& forall|j: int|
                0 <= j < NUM_GAME_LOOPS && v.kind_settled(m, j) ==> #[trigger] v2.kind_settled(
                    m,
                    j,
                )
        }),
{
    let v2 = v.after_thread_frequency(t, f);
    assert(ContainerView::<L>::empty_view().wf());
    assert(v2.wf_shape());
    assert forall|j: int|
        0 <= j < NUM_GAME_LOOPS && v.kind_settled(m, j) implies #[trigger] v2.kind_settled(
        m,
        j,
    ) by {
        assert forall|t2: int| 0 <= t2 < NUM_THREADS implies (#[trigger] v2.owned_by(t2, j)
            <==> t2 == m.thread_ids[j] as int) by {
            assert(v2.owned_by(t2, j) == v.owned_by(t2, j));
        }
        let towner = m.thread_ids[j] as int;
        if towner != MAIN_THREAD_ID {
            if towner == t {
                assert(v.runners[t] is Some);
                assert(v2.runner_at(t).loops == v.runner_at(t).loops);
            } else {
                assert(v2.runners[towner] == v.runners[towner]);
            }
        }
    }
}

/// The heart of the transition algorithm: applied to a state that
/// satisfies the manager invariant and to a valid mode, a whole mode
/// transition yields a state that satisfies the invariant again, with
/// the new mode in effect.
pub proof fn lemma_set_mode_wf<L>(v: ManagerView<L>, m: ModeView)
    requires
        v.wf(),
        m.valid(),
    ensures
        v.after_set_mode(m).wf(),
        v.after_set_mode(m).exec_mode == m,
        forall|t: int| 0 <= t < MAX_RUNNERS ==> (#[trigger] v.after_set_mode(m).runners[t]) is Some,
{
    assert(v.kind_exclusive(0) && v.kind_exclusive(1) && v.kind_exclusive(2)) by {
        assert forall|k: int, t2: int|
            0 <= k < NUM_GAME_LOOPS && 0 <= t2 < NUM_THREADS implies (#[trigger] v.owned_by(t2, k)
            <==> t2 == v.exec_mode.thread_ids[k] as int) by {
            assert(v.owned_by(t2, k) <==> t2 == v.exec_mode.thread_ids[k]);
        }
    }
    let v1 = v.after_apply_kind(m, 0);
    lemma_apply_kind_step(v, m, 0);
    let v2 = v1.after_apply_kind(m, 1);
    lemma_apply_kind_step(v1, m, 1);
    let v3 = v2.after_apply_kind(m, 2);
    lemma_apply_kind_step(v2, m, 2);
    assert(v3.kind_settled(m, 0) && v3.kind_settled(m, 1) && v3.kind_settled(m, 2));
    let v4 = v3.after_thread_frequency(0, m.thread_frequencies[0]);
    lemma_thread_frequency_step(v3, m, 0, m.thread_frequencies[0]);
    let v5 = v4.after_thread_frequency(1, m.thread_frequencies[1]);
    lemma_thread_frequency_step(v4, m, 1, m.thread_frequencies[1]);
    let v6 = v5.after_thread_frequency(2, m.thread_frequencies[2]);
    lemma_thread_frequency_step(v5, m, 2, m.thread_frequencies[2]);
    let w = v.after_set_mode(m);
    assert(w == ManagerView { exec_mode: m, ..v6 });
    assert(v6.kind_settled(m, 0) && v6.kind_settled(m, 1) && v6.kind_settled(m, 2));
    assert(w.ownership_ok()) by {
        assert forall|k: int, t2: int|
            0 <= k < NUM_GAME_LOOPS && 0 <= t2 < NUM_THREADS implies (#[trigger] w.owned_by(t2, k)
            <==> t2 == w.exec_mode.thread_ids[k]) by {
            assert(w.owned_by(t2, k) == v6.owned_by(t2, k));
            assert(v6.kind_settled(m, k));
        }
    }
    assert(w.rel_freq_ok());
    assert(w.thread_freq_ok()) by {
        assert(v6.runners[0] is Some && v6.runner_at(0).frequency == m.thread_frequencies[0]);
        assert(v6.runners[1] is Some && v6.runner_at(1).frequency == m.thread_frequencies[1]);
        assert(v6.runners[2] is Some && v6.runner_at(2).frequency == m.thread_frequencies[2]);
    }
    assert(w.wf_shape());
    assert forall|t: int| 0 <= t < MAX_RUNNERS implies (#[trigger] w.runners[t]) is Some by {
        assert(v6.runners[0] is Some && v6.runners[1] is Some && v6.runners[2] is Some);
    }
}

/// A transition step whose kind already sits on its assigned thread at
/// the assigned relative frequency changes nothing.
proof fn lemma_apply_kind_noop<L>(w: ManagerView<L>, m: ModeView, k: int)
    requires
        w.wf(),
        w.exec_mode == m,
        0 <= k < NUM_GAME_LOOPS,
    ensures
        w.after_apply_kind(m, k) == w,
{
    let t = m.thread_ids[k] as int;
    let rf = m.relative_frequencies[k];
    assert(w.after_apply_kind(m, k) == w.after_set_relative_frequency(k, t, rf));
    if t == MAIN_THREAD_ID {
        assert(w.loops.relative_frequencies[k] == rf);
        assert(w.loops.with_relative_frequency(k, rf).relative_frequencies
            =~= w.loops.relative_frequencies);
        assert(w.loops.with_relative_frequency(k, rf) =~= w.loops);
        assert(w.after_set_relative_frequency(k, t, rf) =~= w);
    } else {
        assert(w.owned_by(t, k));
        assert(w.runners[t] is Some);
        let r = w.runner_at(t);
        assert(r.loops.relative_frequencies[k] == rf);
        let r2 = RunnerView { loops: r.loops.with_relative_frequency(k, rf), ..r };
        assert(r2.loops.relative_frequencies =~= r.loops.relative_frequencies);
        assert(r2 =~= r);
        assert(w.runners[t] == Some(r));
        assert(w.runners.update(t, Some(r2)) =~= w.runners);
        assert(w.after_set_relative_frequency(k, t, rf) =~= w);
    }
}

/// A frequency push to a slot whose runner exists and is already paced
/// at the pushed value changes nothing.
proof fn lemma_thread_frequency_noop<L>(w: ManagerView<L>, m: ModeView, t: int)
    requires
        w.wf(),
        w.exec_mode == m,
        0 <= t < MAX_RUNNERS,
        w.runners[t] is Some,
    ensures
        w.after_thread_frequency(t, m.thread_frequencies[t]) == w,
{
    let f = m.thread_frequencies[t];
    let r = w.runner_at(t);
    assert(r.frequency == f);
    let r2 = RunnerView { frequency: f, ..r };
    assert(r2 =~= r);
    assert(w.with_runner_created(t) == w);
    assert(w.runners[t] == Some(r));
    assert(w.runners.update(t, Some(r2)) =~= w.runners);
    assert(w.after_thread_frequency(t, f) =~= w);
}

/// Applying the same mode twice in a row migrates nothing and changes
/// nothing on the second application: every kind already sits where
/// the mode assigns it, so the second transition only rewrites each
/// frequency with the value it already has.
pub proof fn lemma_set_mode_idempotent<L>(v: ManagerView<L>, m: ModeView)
    requires
        v.wf(),
        m.valid(),
    ensures
        v.after_set_mode(m).after_set_mode(m) == v.after_set_mode(m),
{
    lemma_set_mode_wf(v, m);
    let w = v.after_set_mode(m);
    lemma_apply_kind_noop(w, m, 0);
    lemma_apply_kind_noop(w, m, 1);
    lemma_apply_kind_noop(w, m, 2);
    assert(w.runners[0] is Some && w.runners[1] is Some && w.runners[2] is Some);
    lemma_thread_frequency_noop(w, m, 0);
    lemma_thread_frequency_noop(w, m, 1);
    lemma_thread_frequency_noop(w, m, 2);
    assert(w.after_set_mode(m) == ManagerView { exec_mode: m, ..w });
    assert(ManagerView { exec_mode: m, ..w } =~= w);
}

/// After a transition to `m`, each loop kind is owned by exactly one
/// container: that of the thread `m` assigns it to, and no other.
pub proof fn lemma_set_mode_exclusive_ownership<L>(v: ManagerView<L>, m: ModeView, k: int, t: int)
    requires
        v.wf(),
        m.valid(),
        0 <= k < NUM_GAME_LOOPS,
        0 <= t < NUM_THREADS,
    ensures
        v.after_set_mode(m).owned_by(t, k) <==> t == m.thread_ids[k] as int,
{
    lemma_set_mode_wf(v, m);
    assert(v.after_set_mode(m).owned_by(t, k) <==> t == v.after_set_mode(m).exec_mode.thread_ids[k]);
}

/// Migrating a kind to a worker slot that has never been used creates
/// the one runner for that slot, which then owns that kind, while no
/// other container does.
pub proof fn lemma_migration_creates_runner<L>(v: ManagerView<L>, m: ModeView, k: int, t: int)
    requires
        v.wf(),
        m.valid(),
        0 <= k < NUM_GAME_LOOPS,
        0 <= t < MAX_RUNNERS,
        v.runners[t] is None,
        m.thread_ids[k] == t,
    ensures
        v.after_set_mode(m).runners[t] is Some,
        v.after_set_mode(m).runner_at(t).owns(k),
        forall|t2: int|
            0 <= t2 < NUM_THREADS && t2 != t ==> !(#[trigger] v.after_set_mode(m).owned_by(t2, k)),
{
    lemma_set_mode_wf(v, m);
    let w = v.after_set_mode(m);
    assert(w.owned_by(t, k) <==> t == w.exec_mode.thread_ids[k]);
    assert(w.owned_by(t, k));
    assert forall|t2: int| 0 <= t2 < NUM_THREADS && t2 != t implies !(#[trigger] w.owned_by(
        t2,
        k,
    )) by {
        assert(w.owned_by(t2, k) <==> t2 == w.exec_mode.thread_ids[k]);
    }
}

} // verus!
