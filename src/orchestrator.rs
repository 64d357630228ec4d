use vstd::prelude::*;
use crate::error::FeroxError;
use crate::target::{depth_of, get_current_depth};
use crate::wordlist::Wordlist;

verus! {

/// One top-level scan task: a base target and the depth its recursion starts from.
pub struct ScanJob {
    pub target: String,
    pub base_depth: usize,
}

/// What the orchestrator asks its driver to do next.
pub enum ScanStep {
    /// Load the wordlist and report it with `on_wordlist`.
    LoadWordlist,
    /// Check which of these candidate targets are reachable, and report the
    /// live ones with `on_live_targets`.
    CheckConnectivity(Vec<String>),
    /// Spawn one concurrent task that scans this job's target.
    Spawn(ScanJob),
    /// Await the spawned tasks, reporting each with `on_task_finished`.
    AwaitTasks,
    /// The scan is over, with this outcome.
    Finished(Result<(), FeroxError>),
}

/// A `ScanStep` as a mathematical value.
pub enum StepView {
    LoadWordlist,
    CheckConnectivity(Seq<Seq<char>>),
    Spawn(Seq<char>, nat),
    AwaitTasks,
    Finished(Result<(), FeroxError>),
}

impl View for ScanStep {
    type V = StepView;

    open spec fn view(&self) -> StepView {
        match self {
            ScanStep::LoadWordlist => StepView::LoadWordlist,
            ScanStep::CheckConnectivity(ts) => StepView::CheckConnectivity(ts@.map_values(|t: String| t@)),
            ScanStep::Spawn(job) => StepView::Spawn(job.target@, job.base_depth as nat),
            ScanStep::AwaitTasks => StepView::AwaitTasks,
            ScanStep::Finished(r) => StepView::Finished(*r),
        }
    }
}

/// Where a scan stands.
#[derive(Debug, Clone, Copy, PartialEq, Eq, Structural)]
pub enum Phase {
    /// Waiting for the wordlist.
    Loading,
    /// Waiting for the connectivity check of the candidate targets.
    Filtering,
    /// Spawning one task per live target, in target order.
    Spawning,
    /// Every task spawned; waiting for them to finish.
    Joining,
    /// Every task finished.
    Complete,
    /// Stopped before any task was spawned.
    Failed(FeroxError),
}

/// The state of an orchestrator: its targets, its phase, and how many top-level
/// tasks it spawned and saw finish.
pub struct OrchestratorView {
    pub targets: Seq<Seq<char>>,
    pub phase: Phase,
    pub spawned: nat,
    pub finished: nat,
}

/// The states that an orchestrator can be in.
pub open spec fn valid_state(v: OrchestratorView) -> bool {
    &&& v.spawned <= v.targets.len()
    &&& v.finished <= v.spawned
    &&& (v.phase is Loading || v.phase is Filtering || v.phase is Failed) ==> v.spawned == 0
    &&& v.phase is Joining ==> v.spawned == v.targets.len()
    &&& v.phase is Complete ==> v.spawned == v.targets.len() && v.finished == v.spawned
}

/// The state in which a freshly created orchestrator over `targets` is.
pub open spec fn initial_state(targets: Seq<Seq<char>>) -> OrchestratorView {
    OrchestratorView { targets, phase: Phase::Loading, spawned: 0, finished: 0 }
}

/// The state after the wordlist was reported: a load failure and an empty
/// wordlist stop the scan, any other wordlist leads to the connectivity check.
pub open spec fn after_wordlist(v: OrchestratorView, loaded: Result<Set<Seq<char>>, FeroxError>) -> OrchestratorView {
    if v.phase is Loading {
        match loaded {
            Err(e) => OrchestratorView { phase: Phase::Failed(e), ..v },
            Ok(words) => if words.len() == 0 {
                OrchestratorView { phase: Phase::Failed(FeroxError::WordlistEmpty), ..v }
            } else {
                OrchestratorView { phase: Phase::Filtering, ..v }
            },
        }
    } else {
        v
    }
}

/// The state after the connectivity check reported the live targets, which
/// replace the candidates and are then spawned.
pub open spec fn after_live_targets(v: OrchestratorView, live: Seq<Seq<char>>) -> OrchestratorView {
    if v.phase is Filtering {
        OrchestratorView { targets: live, phase: Phase::Spawning, ..v }
    } else {
        v
    }
}

/// The state after one spawned task was seen to finish.
pub open spec fn after_task_finished(v: OrchestratorView) -> OrchestratorView {
    if v.phase is Joining && v.finished < v.spawned {
        OrchestratorView { finished: v.finished + 1, ..v }
    } else {
        v
    }
}

/// The step an orchestrator in state `v` asks for, and the state it moves to.
pub open spec fn next_state(v: OrchestratorView) -> (OrchestratorView, StepView) {
    match v.phase {
        Phase::Loading => (v, StepView::LoadWordlist),
        Phase::Filtering => (v, StepView::CheckConnectivity(v.targets)),
        Phase::Spawning => if v.spawned < v.targets.len() {
            (
                OrchestratorView { spawned: v.spawned + 1, ..v },
                StepView::Spawn(v.targets[v.spawned as int], depth_of(v.targets[v.spawned as int])),
            )
        } else {
            (OrchestratorView { phase: Phase::Joining, ..v }, StepView::AwaitTasks)
        },
        Phase::Joining => if v.finished < v.spawned {
            (v, StepView::AwaitTasks)
        } else {
            (OrchestratorView { phase: Phase::Complete, ..v }, StepView::Finished(Ok(())))
        },
        Phase::Complete => (v, StepView::Finished(Ok(()))),
        Phase::Failed(e) => (v, StepView::Finished(Err(e))),
    }
}

/// The state reached from `v` after `k` steps with no event in between.
pub open spec fn state_after_steps(v: OrchestratorView, k: nat) -> OrchestratorView
    decreases k,
{
    if k == 0 {
        v
    } else {
        next_state(state_after_steps(v, (k - 1) as nat)).0
    }
}

/// The state reached once the wordlist was reported as `loaded`.
pub open spec fn loaded_state(targets: Seq<Seq<char>>, loaded: Result<Set<Seq<char>>, FeroxError>) -> OrchestratorView {
    after_wordlist(initial_state(targets), loaded)
}

/// The state reached once a non-empty wordlist `words` was loaded for the
/// candidates and the connectivity check kept `live`.
pub open spec fn live_state(
    candidates: Seq<Seq<char>>,
    words: Set<Seq<char>>,
    live: Seq<Seq<char>>,
) -> OrchestratorView {
    after_live_targets(loaded_state(candidates, Ok(words)), live)
}

proof fn lemma_spawning_prefix(candidates: Seq<Seq<char>>, words: Set<Seq<char>>, live: Seq<Seq<char>>, k: nat)
    requires
        words.len() > 0,
        k <= live.len(),
    ensures
        state_after_steps(live_state(candidates, words, live), k) == (OrchestratorView {
            targets: live,
            phase: Phase::Spawning,
            spawned: k,
            finished: 0,
        }),
    decreases k,
{
    if k > 0 {
        lemma_spawning_prefix(candidates, words, live, (k - 1) as nat);
    }
}

/// With a non-empty wordlist, the connectivity check is asked for on the
/// candidates; then, for `N` live targets, the orchestrator asks step by step
/// for exactly one task per live target, in order and each with its target's
/// depth, and then to await them.
pub proof fn lemma_one_task_per_target(candidates: Seq<Seq<char>>, words: Set<Seq<char>>, live: Seq<Seq<char>>)
    requires
        words.len() > 0,
    ensures
        next_state(loaded_state(candidates, Ok(words))).1 == StepView::CheckConnectivity(candidates),
        forall|k: nat| #![trigger state_after_steps(live_state(candidates, words, live), k)]
            k < live.len() ==> next_state(state_after_steps(live_state(candidates, words, live), k)).1
                == StepView::Spawn(live[k as int], depth_of(live[k as int])),
        next_state(state_after_steps(live_state(candidates, words, live), live.len())).1 == StepView::AwaitTasks,
        state_after_steps(live_state(candidates, words, live), live.len() + 1) == (OrchestratorView {
            targets: live,
            phase: Phase::Joining,
            spawned: live.len(),
            finished: 0,
        }),
{
    assert forall|k: nat| #![trigger state_after_steps(live_state(candidates, words, live), k)]
        k < live.len() implies next_state(state_after_steps(live_state(candidates, words, live), k)).1
            == StepView::Spawn(live[k as int], depth_of(live[k as int])) by {
        lemma_spawning_prefix(candidates, words, live, k);
    }
    lemma_spawning_prefix(candidates, words, live, live.len());
}

/// No step spawns more tasks than there are targets, and a scan reports
/// success only once every target's task was spawned and seen to finish.
pub proof fn lemma_success_awaits_every_task(v: OrchestratorView)
    requires
        valid_state(v),
    ensures
        valid_state(next_state(v).0),
        next_state(v).0.spawned <= v.targets.len(),
        next_state(v).1 is Spawn ==> v.spawned < v.targets.len(),
        next_state(v).1 == StepView::Finished(Ok(())) ==> v.spawned == v.targets.len() && v.finished
            == v.targets.len(),
{
}

/// A wordlist that fails to load, or holds no word, ends the scan before any
/// connectivity check and before any task is spawned, whatever the targets.
pub proof fn lemma_bad_wordlist_spawns_nothing(
    targets: Seq<Seq<char>>,
    loaded: Result<Set<Seq<char>>, FeroxError>,
    k: nat,
)
    requires
        loaded is Err || loaded->Ok_0.len() == 0,
    ensures
        state_after_steps(loaded_state(targets, loaded), k) == loaded_state(targets, loaded),
        state_after_steps(loaded_state(targets, loaded), k).spawned == 0,
        next_state(state_after_steps(loaded_state(targets, loaded), k)).1 == StepView::Finished(
            Err(
                match loaded {
                    Err(e) => e,
                    Ok(_) => FeroxError::WordlistEmpty,
                },
            ),
        ),
    decreases k,
{
    if k > 0 {
        lemma_bad_wordlist_spawns_nothing(targets, loaded, (k - 1) as nat);
    }
}

fn clone_targets(targets: &Vec<String>) -> (r: Vec<String>)
    ensures
        r@.map_values(|t: String| t@) == targets@.map_values(|t: String| t@),
{
    let mut r: Vec<String> = Vec::new();
    let mut i: usize = 0;
    while i < targets.len()
        invariant
            i <= targets.len(),
            r@.len() == i,
            forall|j: int| 0 <= j < i ==> r@[j]@ == targets@[j]@,
        decreases targets.len() - i,
    {
        r.push(targets[i].clone());
        i = i + 1;
    }
    proof {
        assert(r@.map_values(|t: String| t@) =~= targets@.map_values(|t: String| t@));
    }
    r
}

/// Drives the scan of the candidate targets: loads the wordlist once, has the
/// candidates checked for connectivity only when the wordlist holds words, then
/// spawns exactly one top-level task per live target and waits for all of them.
pub struct Orchestrator {
    targets: Vec<String>,
    phase: Phase,
    spawned: usize,
    finished: usize,
}

impl View for Orchestrator {
    type V = OrchestratorView;

    closed spec fn view(&self) -> OrchestratorView {
        OrchestratorView {
            targets: self.targets@.map_values(|t: String| t@),
            phase: self.phase,
            spawned: self.spawned as nat,
            finished: self.finished as nat,
        }
    }
}

impl Orchestrator {
    #[verifier::type_invariant]
    spec fn inv(self) -> bool {
        valid_state(self@)
    }

    /// An orchestrator over the candidate targets.
    pub fn new(targets: Vec<String>) -> (o: Orchestrator)
        ensures
            o@ == initial_state(targets@.map_values(|t: String| t@)),
    {
        Orchestrator { targets, phase: Phase::Loading, spawned: 0, finished: 0 }
    }

    /// Where the scan stands.
    pub fn phase(&self) -> (p: Phase)
        ensures
            p == self@.phase,
    {
        self.phase
    }

    /// How many top-level tasks were spawned so far.
    pub fn spawned(&self) -> (n: usize)
        ensures
            n == self@.spawned,
    {
        self.spawned
    }

    /// How many spawned tasks were seen to finish so far.
    pub fn finished(&self) -> (n: usize)
        ensures
            n == self@.finished,
    {
        self.finished
    }

    /// Reports the outcome of loading the wordlist.
    pub fn on_wordlist(&mut self, loaded: &Result<Wordlist, FeroxError>)
        ensures
            final(self)@ == after_wordlist(old(self)@, match loaded {
                Ok(w) => Ok(w@),
                Err(e) => Err(*e),
            }),
    {
        proof {
            use_type_invariant(&*self);
        }
        if self.phase == Phase::Loading {
            match loaded {
                Err(e) => {
                    self.phase = Phase::Failed(*e);
                }
                Ok(w) => {
                    if w.is_empty() {
                        self.phase = Phase::Failed(FeroxError::WordlistEmpty);
                    } else {
                        self.phase = Phase::Filtering;
                    }
                }
            }
        }
    }

    /// Reports the targets that the connectivity check found reachable.
    pub fn on_live_targets(&mut self, live: Vec<String>)
        ensures
            final(self)@ == after_live_targets(old(self)@, live@.map_values(|t: String| t@)),
    {
        proof {
            use_type_invariant(&*self);
        }
        if self.phase == Phase::Filtering {
            self.targets = live;
            self.phase = Phase::Spawning;
        }
    }

    /// Reports that one spawned task finished, whether it ended normally or not:
    /// a failed task is no reason to stop waiting for its siblings.
    pub fn on_task_finished(&mut self)
        ensures
            final(self)@ == after_task_finished(old(self)@),
    {
        proof {
            use_type_invariant(&*self);
        }
        if self.phase == Phase::Joining && self.finished < self.spawned {
            self.finished = self.finished + 1;
        }
    }

    /// The next thing to do, and the state it leads to.
    pub fn next_step(&mut self) -> (s: ScanStep)
        ensures
            (final(self)@, s@) == next_state(old(self)@),
    {
        proof {
            use_type_invariant(&*self);
        }
        match self.phase {
            Phase::Loading => ScanStep::LoadWordlist,
            Phase::Filtering => {
                let candidates = clone_targets(&self.targets);
                ScanStep::CheckConnectivity(candidates)
            }
            Phase::Spawning => {
                if self.spawned < self.targets.len() {
                    let target = self.targets[self.spawned].clone();
                    let base_depth = get_current_depth(target.as_str());
                    self.spawned = self.spawned + 1;
                    ScanStep::Spawn(ScanJob { target, base_depth })
                } else {
                    self.phase = Phase::Joining;
                    ScanStep::AwaitTasks
                }
            }
            Phase::Joining => {
                if self.finished < self.spawned {
                    ScanStep::AwaitTasks
                } else {
                    self.phase = Phase::Complete;
                    ScanStep::Finished(Ok(()))
                }
            }
            Phase::Complete => ScanStep::Finished(Ok(())),
            Phase::Failed(e) => ScanStep::Finished(Err(e)),
        }
    }
}

} // verus!
