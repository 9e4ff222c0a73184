//! The orchestrator: walks a plan forward, and on the first failure walks back
//! over what it had passed, in reverse.

use vstd::prelude::*;

use crate::action::base::configure_systemd::{
    service_plan, ConfigureSystemdService, ConfigureSystemdServiceView, ServiceProbe,
    ServiceProbeView, SERVICE_DESTINATION, SERVICE_TEMPLATE,
};
use crate::action::base::create_directory::{
    directory_plan, CreateDirectory, DirectoryProbe, DirectoryProbeView,
};
use crate::action::base::create_user::{user_plan, CreateUser, UserProbe};
use crate::action::base::install_minecraft::{
    plan_specific_actions, plan_view, specific_plan, working_directory, Planned, ServerProbes,
    ServerProbesView,
};
use crate::action::base::{BaseAction, BaseActionView};
use crate::action::stateful::{ActionErrorKind, ActionErrorView, ActionState, StatefulAction};
use crate::action::Action;
use crate::cache::CacheManager;
use crate::cli::InitArgs;
use crate::host::HostOs;
use crate::modpack::MinecraftProfile;
use crate::text::{hex_text, join_path, joined_path};
use crate::version::GameVersionView;

verus! {

/// One call that the orchestrator made into an action of its plan.
///
/// Attempts on actions whose state made them no-ops are not calls and leave no
/// step behind.
#[derive(Clone, Debug, PartialEq, Eq)]
pub enum Step {
    /// The action at this index was executed and succeeded.
    Executed(usize),
    /// The action at this index was executed and failed; the run's result
    /// carries the error.
    ExecuteFailed(usize),
    /// The action at this index was reverted and the compensation succeeded.
    Reverted(usize),
    /// The action at this index was reverted and the compensation failed with
    /// this error, which is recorded here and goes no further.
    RevertFailed(usize, ActionErrorKind),
}

impl Step {
    /// Index in the plan of the action that was called.
    pub open spec fn index(self) -> usize {
        match self {
            Step::Executed(i) => i,
            Step::ExecuteFailed(i) => i,
            Step::Reverted(i) => i,
            Step::RevertFailed(i, _) => i,
        }
    }

    /// Whether the call was a compensation.
    pub open spec fn is_revert(self) -> bool {
        self is Reverted || self is RevertFailed
    }

    /// Index in the plan of the action that was called.
    pub fn position(&self) -> (r: usize)
        ensures
            r == self.index(),
    {
        match self {
            Step::Executed(i) => *i,
            Step::ExecuteFailed(i) => *i,
            Step::Reverted(i) => *i,
            Step::RevertFailed(i, _) => *i,
        }
    }

    /// Whether the call was a compensation.
    pub fn reverts(&self) -> (r: bool)
        ensures
            r == self.is_revert(),
    {
        match self {
            Step::Executed(_) => false,
            Step::ExecuteFailed(_) => false,
            Step::Reverted(_) => true,
            Step::RevertFailed(_, _) => true,
        }
    }
}

/// The successful executions of a forward pass over `states[0..upto]`: one step
/// for every action that was not completed or skipped, in plan order.
pub open spec fn executed_steps(states: Seq<ActionState>, upto: int) -> Seq<Step>
    decreases upto,
{
    if upto <= 0 {
        Seq::empty()
    } else if states[upto - 1].skips_execute() {
        executed_steps(states, upto - 1)
    } else {
        executed_steps(states, upto - 1).push(Step::Executed((upto - 1) as usize))
    }
}

/// The indices that a backward pass over `states[from..to]` compensates: every
/// index whose action is neither uncompleted nor skipped, highest first.
pub open spec fn reverted_indices(states: Seq<ActionState>, from: int, to: int) -> Seq<int>
    decreases to - from,
{
    if from >= to {
        Seq::empty()
    } else if states[from].skips_revert() {
        reverted_indices(states, from + 1, to)
    } else {
        reverted_indices(states, from + 1, to).push(from)
    }
}

/// Whether `steps` are compensations of exactly `indices`, in that order.
pub open spec fn reverts_of(steps: Seq<Step>, indices: Seq<int>) -> bool {
    &&& steps.len() == indices.len()
    &&& forall|j: int|
        0 <= j < steps.len() ==> (#[trigger] steps[j]).is_revert() && steps[j].index() == indices[j]
}

/// Whether the call that `step` records can have been made on the action of
/// `actions` that it names: whether that action says that the call can take a
/// host from `before` to `after` and report what the step records. A failed
/// execution reports `failure`, the result of the run.
pub open spec fn step_taken<H, A: Action<H>>(
    actions: Seq<A>,
    step: Step,
    before: H,
    after: H,
    failure: Result<(), ActionErrorKind>,
) -> bool {
    match step {
        Step::Executed(i) => actions[i as int].executed(
            before,
            after,
            Ok::<(), ActionErrorKind>(()),
        ),
        Step::ExecuteFailed(i) => failure is Err && actions[i as int].executed(
            before,
            after,
            failure,
        ),
        Step::Reverted(i) => actions[i as int].reverted(
            before,
            after,
            Ok::<(), ActionErrorKind>(()),
        ),
        Step::RevertFailed(i, error) => actions[i as int].reverted(
            before,
            after,
            Err::<(), ActionErrorKind>(error),
        ),
    }
}

/// Whether `steps` are calls made one after the other on a host that passed
/// through `hosts`: the host was `hosts[j]` before the call of `steps[j]` and
/// `hosts[j + 1]` after it, and each call is one that its action allows.
pub open spec fn run_of<H, A: Action<H>>(
    actions: Seq<A>,
    steps: Seq<Step>,
    hosts: Seq<H>,
    failure: Result<(), ActionErrorKind>,
) -> bool {
    &&& hosts.len() == steps.len() + 1
    &&& forall|j: int|
        0 <= j < steps.len() ==> step_taken(
            actions,
            #[trigger] steps[j],
            hosts[j],
            hosts[j + 1],
            failure,
        )
}

/// Whether `steps` are what was done to a host between `before` and `after`:
/// calls made one after the other, each allowed by its action, the first on
/// the host as it was `before`, the last leaving it as it is `after`. Where
/// there is no step, the host is as it was.
pub open spec fn done_between<H, A: Action<H>>(
    actions: Seq<A>,
    steps: Seq<Step>,
    before: H,
    after: H,
    failure: Result<(), ActionErrorKind>,
) -> bool {
    exists|hosts: Seq<H>|
        #[trigger] run_of(actions, steps, hosts, failure) && hosts[0] == before && hosts.last()
            == after
}

/// States of a plan after a forward pass in which every executed action
/// succeeded.
pub open spec fn states_after_success(states: Seq<ActionState>) -> Seq<ActionState> {
    Seq::new(states.len(), |i: int| states[i].after_execute(true))
}

/// States of a plan after a forward pass that failed at index `k` and the
/// rollback that followed: what lies before `k` was executed where needed and
/// then reverted where needed, `k` itself settled on failure, what lies behind
/// `k` was never reached.
pub open spec fn states_after_failure(states: Seq<ActionState>, k: int) -> Seq<ActionState> {
    Seq::new(
        states.len(),
        |i: int|
            if i < k {
                states[i].after_execute(true).after_revert()
            } else if i == k {
                states[i].after_execute(false)
            } else {
                states[i]
            },
    )
}

/// States of a plan after a full rollback.
pub open spec fn states_after_revert(states: Seq<ActionState>) -> Seq<ActionState> {
    Seq::new(states.len(), |i: int| states[i].after_revert())
}

/// Owns a plan, the ordered list of stateful actions, and drives it.
///
/// The order of the plan is the dependency order chosen when it was made: an
/// action may rely on the effects of those before it and on nothing behind it.
#[derive(Clone, Debug)]
pub struct ServerSetupManager<A> {
    actions: Vec<StatefulAction<A>>,
    journal: Vec<Step>,
}

impl<A> ServerSetupManager<A> {
    /// The actions of the plan, in order.
    pub closed spec fn actions(&self) -> Seq<A> {
        Seq::new(self.actions.len() as nat, |i: int| self.actions[i].action())
    }

    /// The states of the plan's actions, in order.
    pub closed spec fn states(&self) -> Seq<ActionState> {
        Seq::new(self.actions.len() as nat, |i: int| self.actions[i].state())
    }

    /// Every call made into the plan's actions so far, oldest first.
    pub closed spec fn journal(&self) -> Seq<Step> {
        self.journal@
    }

    /// A manager for `actions`, in that order, with an empty journal.
    pub fn from_actions(actions: Vec<StatefulAction<A>>) -> (r: Self)
        ensures
            r.actions().len() == actions.len(),
            r.states().len() == actions.len(),
            forall|i: int|
                0 <= i < actions.len() ==> r.actions()[i] == (#[trigger] actions[i]).action()
                    && r.states()[i] == actions[i].state(),
            r.journal() == Seq::<Step>::empty(),
    {
        Self { actions, journal: Vec::new() }
    }

    /// Number of actions in the plan.
    pub fn len(&self) -> (n: usize)
        ensures
            n == self.actions().len(),
            n == self.states().len(),
    {
        self.actions.len()
    }

    /// The action at `index` with its state, if the plan is that long.
    pub fn get(&self, index: usize) -> (r: Option<&StatefulAction<A>>)
        ensures
            index < self.actions().len() ==> r is Some && r->0.action()
                == self.actions()[index as int] && r->0.state() == self.states()[index as int],
            index >= self.actions().len() ==> r is None,
    {
        if index < self.actions.len() {
            Some(&self.actions[index])
        } else {
            None
        }
    }

    /// Every call made into the plan's actions so far, oldest first.
    pub fn steps(&self) -> (r: &Vec<Step>)
        ensures
            r@ == self.journal(),
    {
        &self.journal
    }

    /// Reverts the actions before `up_to_index`, in strict reverse order, and
    /// touches nothing at or behind it. A failing compensation is recorded in
    /// the journal and does not stop the walk.
    fn revert_up_to<H>(&mut self, host: &mut H, up_to_index: usize) where A: Action<H>
        requires
            up_to_index <= old(self).actions().len(),
        ensures
            final(self).actions() == old(self).actions(),
            final(self).states().len() == old(self).states().len(),
            forall|i: int|
                0 <= i < up_to_index ==> (#[trigger] final(self).states()[i]) == old(
                    self
                ).states()[i].after_revert(),
            forall|i: int|
                up_to_index <= i < old(self).states().len() ==> (#[trigger] final(
                    self
                ).states()[i]) == old(self).states()[i],
            final(self).journal().len() >= old(self).journal().len(),
            final(self).journal().subrange(0, old(self).journal().len() as int) == old(
                self
            ).journal(),
            reverts_of(
                final(self).journal().subrange(
                    old(self).journal().len() as int,
                    final(self).journal().len() as int,
                ),
                reverted_indices(old(self).states(), 0, up_to_index as int),
            ),
            forall|failure: Result<(), ActionErrorKind>|
                #[trigger] done_between(
                    old(self).actions(),
                    final(self).journal().subrange(
                        old(self).journal().len() as int,
                        final(self).journal().len() as int,
                    ),
                    *old(host),
                    *final(host),
                    failure,
                ),
    {
        let ghost before = old(self).states();
        let ghost base = old(self).journal();
        let ghost mut hosts: Seq<H> = seq![*host];
        let mut i: usize = up_to_index;
        while i > 0
            invariant
                hosts[0] == *old(host),
                hosts.last() == *host,
                run_of(
                    old(self).actions(),
                    self.journal().subrange(base.len() as int, self.journal().len() as int),
                    hosts,
                    Ok::<(), ActionErrorKind>(()),
                ),
                i <= up_to_index,
                up_to_index <= self.actions.len(),
                self.actions() == old(self).actions(),
                self.states().len() == before.len(),
                before == old(self).states(),
                base == old(self).journal(),
                forall|j: int| 0 <= j < i ==> (#[trigger] self.states()[j]) == before[j],
                forall|j: int|
                    i <= j < up_to_index ==> (#[trigger] self.states()[j])
                        == before[j].after_revert(),
                forall|j: int|
                    up_to_index <= j < before.len() ==> (#[trigger] self.states()[j]) == before[j],
                self.journal().len() >= base.len(),
                self.journal().subrange(0, base.len() as int) == base,
                reverts_of(
                    self.journal().subrange(base.len() as int, self.journal().len() as int),
                    reverted_indices(before, i as int, up_to_index as int),
                ),
            decreases i,
        {
            i = i - 1;
            let ghost prev_actions = self.actions@;
            let ghost prev_journal = self.journal@;
            let ghost prev_states = self.states();
            assert(self.states()[i as int] == before[i as int]);
            let ghost acting = self.actions@[i as int].action();
            let ghost host_before = *host;
            assert(acting == old(self).actions()[i as int]);
            let ran = self.actions[i].current_state().needs_revert();
            let outcome = self.actions[i].try_revert(host);
            if ran {
                let ghost reported = outcome;
                assert(acting.reverted(host_before, *host, reported));
                match outcome {
                    Ok(()) => {
                        self.journal.push(Step::Reverted(i));
                        assert(reported->Ok_0 == ());
                        assert(reported == Ok::<(), ActionErrorKind>(()));
                    },
                    Err(error) => {
                        assert(reported == Err::<(), ActionErrorKind>(error));
                        self.journal.push(Step::RevertFailed(i, error));
                    },
                }
                proof {
                    assert(step_taken(
                        old(self).actions(),
                        self.journal@.last(),
                        host_before,
                        *host,
                        Ok::<(), ActionErrorKind>(()),
                    ));
                    lemma_run_push(
                        old(self).actions(),
                        prev_journal.subrange(base.len() as int, prev_journal.len() as int),
                        hosts,
                        self.journal@.last(),
                        *host,
                        Ok::<(), ActionErrorKind>(()),
                    );
                    hosts = hosts.push(*host);
                }
            }
            proof {
                assert(self.actions() =~= old(self).actions()) by {
                    assert forall|j: int| 0 <= j < self.actions@.len() implies (
                    #[trigger] self.actions@[j]).action() == prev_actions[j].action() by {}
                }
                assert forall|j: int| 0 <= j < self.states().len() && j != i implies (
                #[trigger] self.states()[j]) == prev_states[j] by {}
                let tail = self.journal().subrange(base.len() as int, self.journal().len() as int);
                let prev_tail = prev_journal.subrange(base.len() as int, prev_journal.len() as int);
                let want = reverted_indices(before, i as int, up_to_index as int);
                if ran {
                    assert(tail =~= prev_tail.push(self.journal@.last()));
                    assert(want == reverted_indices(before, i as int + 1, up_to_index as int).push(
                        i as int,
                    ));
                }
            }
        }
        proof {
            let added = self.journal().subrange(base.len() as int, self.journal().len() as int);
            assert forall|failure: Result<(), ActionErrorKind>| #[trigger]
                done_between(old(self).actions(), added, *old(host), *host, failure) by {
                lemma_run_whatever_failed(old(self).actions(), added, hosts, failure);
            }
        }
    }

    /// Executes the plan.
    ///
    /// Walks the plan from the front and executes each action that is not
    /// completed or skipped. If all succeed the result is `Ok`. At the first
    /// failure, at index `k`, the walk stops: the actions before `k` are
    /// reverted in strict reverse order, `k` itself and everything behind it
    /// are left alone, and the failure of `k` is returned: the very error that
    /// the action at `k` reported, whatever the compensations report. Every
    /// call made is appended to the journal, and the calls of the journal are
    /// all that is done to the host.
    pub fn install<H>(&mut self, host: &mut H) -> (r: Result<(), ActionErrorKind>) where
        A: Action<H>,

        ensures
            final(self).actions() == old(self).actions(),
            final(self).states().len() == old(self).states().len(),
            r is Ok ==> {
                &&& final(self).states() == states_after_success(old(self).states())
                &&& final(self).journal() == old(self).journal() + executed_steps(
                    old(self).states(),
                    old(self).states().len() as int,
                )
                &&& done_between(
                    old(self).actions(),
                    executed_steps(old(self).states(), old(self).states().len() as int),
                    *old(host),
                    *final(host),
                    r,
                )
            },
            r is Err ==> exists|k: int, undo: Seq<Step>, met: H, left: H|
                {
                    &&& 0 <= k < old(self).states().len()
                    &&& !old(self).states()[k].skips_execute()
                    &&& final(self).states() == states_after_failure(old(self).states(), k)
                    &&& #[trigger] reverts_of(
                        undo,
                        reverted_indices(states_after_success(old(self).states()), 0, k),
                    )
                    &&& final(self).journal() == old(self).journal() + executed_steps(
                        old(self).states(),
                        k,
                    ).push(Step::ExecuteFailed(k as usize)) + undo
                    &&& #[trigger] old(self).actions()[k].executed(met, left, r)
                    &&& done_between(
                        old(self).actions(),
                        executed_steps(old(self).states(), k).push(Step::ExecuteFailed(k as usize))
                            + undo,
                        *old(host),
                        *final(host),
                        r,
                    )
                },
    {
        let ghost before = old(self).states();
        let ghost base = old(self).journal();
        let ghost mut hosts: Seq<H> = seq![*host];
        let n = self.actions.len();
        let mut i: usize = 0;
        while i < n
            invariant
                hosts[0] == *old(host),
                hosts.last() == *host,
                run_of(
                    old(self).actions(),
                    self.journal().subrange(base.len() as int, self.journal().len() as int),
                    hosts,
                    Ok::<(), ActionErrorKind>(()),
                ),
                i <= n,
                n == self.actions.len(),
                before == old(self).states(),
                base == old(self).journal(),
                self.actions() == old(self).actions(),
                self.states().len() == before.len(),
                n == before.len(),
                forall|j: int|
                    0 <= j < i ==> (#[trigger] self.states()[j]) == before[j].after_execute(true),
                forall|j: int| i <= j < n ==> (#[trigger] self.states()[j]) == before[j],
                self.journal() == base + executed_steps(before, i as int),
            decreases n - i,
        {
            let ghost prev_actions = self.actions@;
            let ghost prev_states = self.states();
            assert(self.states()[i as int] == before[i as int]);
            let ghost prev_journal = self.journal@;
            let ghost acting = self.actions@[i as int].action();
            let ghost host_before = *host;
            assert(acting == old(self).actions()[i as int]);
            let ran = self.actions[i].current_state().needs_execute();
            let outcome = self.actions[i].try_execute(host);
            let ghost reported = outcome;
            proof {
                assert(self.actions() =~= old(self).actions()) by {
                    assert forall|j: int| 0 <= j < self.actions@.len() implies (
                    #[trigger] self.actions@[j]).action() == prev_actions[j].action() by {}
                }
                assert forall|j: int| 0 <= j < self.states().len() && j != i implies (
                #[trigger] self.states()[j]) == prev_states[j] by {}
            }
            match outcome {
                Ok(()) => {
                    if ran {
                        self.journal.push(Step::Executed(i));
                        proof {
                            assert(reported->Ok_0 == ());
                            assert(reported == Ok::<(), ActionErrorKind>(()));
                            assert(step_taken(
                                old(self).actions(),
                                Step::Executed(i),
                                host_before,
                                *host,
                                Ok::<(), ActionErrorKind>(()),
                            ));
                            lemma_run_push(
                                old(self).actions(),
                                prev_journal.subrange(base.len() as int, prev_journal.len() as int),
                                hosts,
                                Step::Executed(i),
                                *host,
                                Ok::<(), ActionErrorKind>(()),
                            );
                            hosts = hosts.push(*host);
                            assert(self.journal().subrange(
                                base.len() as int,
                                self.journal().len() as int,
                            ) =~= prev_journal.subrange(
                                base.len() as int,
                                prev_journal.len() as int,
                            ).push(Step::Executed(i)));
                        }
                    }
                    proof {
                        assert forall|j: int| 0 <= j < self.states().len() implies (
                        #[trigger] self.states()[j]) == (if j == i {
                            before[j].after_execute(true)
                        } else {
                            prev_states[j]
                        }) by {}
                    }
                },
                Err(error) => {
                    self.journal.push(Step::ExecuteFailed(i));
                    let ghost mid_journal = self.journal();
                    let ghost mid_states = self.states();
                    let ghost mid_host = *host;
                    proof {
                        assert(reported == Err::<(), ActionErrorKind>(error));
                        let forward = prev_journal.subrange(
                            base.len() as int,
                            prev_journal.len() as int,
                        );
                        lemma_run_whatever_failed(old(self).actions(), forward, hosts, reported);
                        lemma_run_push(
                            old(self).actions(),
                            forward,
                            hosts,
                            Step::ExecuteFailed(i),
                            mid_host,
                            reported,
                        );
                        hosts = hosts.push(mid_host);
                        assert(mid_journal.subrange(base.len() as int, mid_journal.len() as int)
                            =~= forward.push(Step::ExecuteFailed(i)));
                    }
                    proof {
                        assert forall|j: int| 0 <= j < mid_states.len() implies (
                        #[trigger] mid_states[j]) == (if j == i {
                            before[j].after_execute(false)
                        } else {
                            prev_states[j]
                        }) by {}
                    }
                    self.revert_up_to(host, i);
                    proof {
                        let k = i as int;
                        let undo = self.journal().subrange(
                            mid_journal.len() as int,
                            self.journal().len() as int,
                        );
                        let succeeded = states_after_success(before);
                        assert(mid_journal =~= base + executed_steps(before, k).push(
                            Step::ExecuteFailed(i),
                        ));
                        assert(self.journal() =~= self.journal().subrange(
                            0,
                            mid_journal.len() as int,
                        ) + undo);
                        lemma_reverted_indices_agree(mid_states, succeeded, 0, k);
                        assert(done_between(old(self).actions(), undo, mid_host, *host, reported));
                        let undone = choose|undone: Seq<H>|
                            #[trigger] run_of(old(self).actions(), undo, undone, reported)
                                && undone[0] == mid_host && undone.last() == *host;
                        let forward = mid_journal.subrange(
                            base.len() as int,
                            mid_journal.len() as int,
                        );
                        lemma_run_append(
                            old(self).actions(),
                            forward,
                            hosts,
                            undo,
                            undone,
                            reported,
                        );
                        assert(forward =~= executed_steps(before, k).push(Step::ExecuteFailed(i)));
                        assert(run_of(
                            old(self).actions(),
                            executed_steps(before, k).push(Step::ExecuteFailed(i)) + undo,
                            hosts + undone.drop_first(),
                            reported,
                        ));
                        assert(old(self).actions()[k].executed(host_before, mid_host, reported));
                    }
                    return Err(error);
                },
            }
            i = i + 1;
        }
        proof {
            assert(self.journal().subrange(base.len() as int, self.journal().len() as int)
                =~= executed_steps(before, n as int));
            assert(run_of(
                old(self).actions(),
                executed_steps(before, n as int),
                hosts,
                Ok::<(), ActionErrorKind>(()),
            ));
        }
        Ok(())
    }

    /// Rolls the whole plan back.
    ///
    /// Walks the plan from the back and reverts each action that is neither
    /// uncompleted nor skipped. A failing compensation is recorded in the
    /// journal and does not stop the walk, so the result is always `Ok`. The
    /// calls of the journal are all that is done to the host.
    pub fn revert<H>(&mut self, host: &mut H) -> (r: Result<(), ActionErrorKind>) where
        A: Action<H>,

        ensures
            r is Ok,
            final(self).actions() == old(self).actions(),
            final(self).states() == states_after_revert(old(self).states()),
            final(self).journal().len() >= old(self).journal().len(),
            final(self).journal().subrange(0, old(self).journal().len() as int) == old(
                self
            ).journal(),
            reverts_of(
                final(self).journal().subrange(
                    old(self).journal().len() as int,
                    final(self).journal().len() as int,
                ),
                reverted_indices(old(self).states(), 0, old(self).states().len() as int),
            ),
            done_between(
                old(self).actions(),
                final(self).journal().subrange(
                    old(self).journal().len() as int,
                    final(self).journal().len() as int,
                ),
                *old(host),
                *final(host),
                r,
            ),
    {
        let n = self.actions.len();
        self.revert_up_to(host, n);
        Ok(())
    }
}

/// A run grows by one call that its action allows.
pub proof fn lemma_run_push<H, A: Action<H>>(
    actions: Seq<A>,
    steps: Seq<Step>,
    hosts: Seq<H>,
    step: Step,
    after: H,
    failure: Result<(), ActionErrorKind>,
)
    requires
        run_of(actions, steps, hosts, failure),
        step_taken(actions, step, hosts.last(), after, failure),
    ensures
        run_of(actions, steps.push(step), hosts.push(after), failure),
{
    let longer = steps.push(step);
    let passed = hosts.push(after);
    assert forall|j: int| 0 <= j < longer.len() implies step_taken(
        actions,
        #[trigger] longer[j],
        passed[j],
        passed[j + 1],
        failure,
    ) by {
        if j < steps.len() {
            assert(longer[j] == steps[j]);
        }
    }
}

/// A run in which no execution failed is a run whatever the result of the
/// whole was.
pub proof fn lemma_run_whatever_failed<H, A: Action<H>>(
    actions: Seq<A>,
    steps: Seq<Step>,
    hosts: Seq<H>,
    failure: Result<(), ActionErrorKind>,
)
    requires
        run_of(actions, steps, hosts, Ok::<(), ActionErrorKind>(())),
    ensures
        run_of(actions, steps, hosts, failure),
{
    assert forall|j: int| 0 <= j < steps.len() implies step_taken(
        actions,
        #[trigger] steps[j],
        hosts[j],
        hosts[j + 1],
        failure,
    ) by {
        assert(step_taken(
            actions,
            steps[j],
            hosts[j],
            hosts[j + 1],
            Ok::<(), ActionErrorKind>(()),
        ));
    }
}

/// Two runs, the second beginning where the first ended, are one run.
pub proof fn lemma_run_append<H, A: Action<H>>(
    actions: Seq<A>,
    first: Seq<Step>,
    first_hosts: Seq<H>,
    second: Seq<Step>,
    second_hosts: Seq<H>,
    failure: Result<(), ActionErrorKind>,
)
    requires
        run_of(actions, first, first_hosts, failure),
        run_of(actions, second, second_hosts, failure),
        first_hosts.last() == second_hosts[0],
    ensures
        run_of(actions, first + second, first_hosts + second_hosts.drop_first(), failure),
        (first_hosts + second_hosts.drop_first())[0] == first_hosts[0],
        (first_hosts + second_hosts.drop_first()).last() == second_hosts.last(),
{
    let steps = first + second;
    let hosts = first_hosts + second_hosts.drop_first();
    assert forall|j: int| 0 <= j < steps.len() implies step_taken(
        actions,
        #[trigger] steps[j],
        hosts[j],
        hosts[j + 1],
        failure,
    ) by {
        if j < first.len() {
            assert(steps[j] == first[j]);
            assert(hosts[j] == first_hosts[j]);
            if j + 1 < first_hosts.len() {
                assert(hosts[j + 1] == first_hosts[j + 1]);
            }
        } else {
            assert(steps[j] == second[j - first.len()]);
            assert(hosts[j + 1] == second_hosts[j - first.len() + 1]);
            if j == first.len() {
                assert(hosts[j] == first_hosts.last());
            } else {
                assert(hosts[j] == second_hosts[j - first.len()]);
            }
        }
    }
}

/// The indices that a backward pass compensates depend only on the states it
/// walks over.
pub proof fn lemma_reverted_indices_agree(
    a: Seq<ActionState>,
    b: Seq<ActionState>,
    from: int,
    to: int,
)
    requires
        0 <= from,
        to <= a.len(),
        to <= b.len(),
        forall|i: int| from <= i < to ==> a[i] == b[i],
    ensures
        reverted_indices(a, from, to) == reverted_indices(b, from, to),
    decreases to - from,
{
    if from < to {
        lemma_reverted_indices_agree(a, b, from + 1, to);
    }
}

/// A rollback walks backwards and stays in front of the failure.
///
/// The compensations of a backward pass over `states[from..to]` concern only
/// indices inside that range, come in strictly decreasing order of index, and
/// cover exactly the actions in the range that are neither uncompleted nor
/// skipped. For the rollback after a failure at index `k` the range is
/// `[0, k)`: the failed action and everything behind it are never touched, and
/// what is in front of it is compensated in strict reverse order.
pub proof fn lemma_rollback_order(states: Seq<ActionState>, from: int, to: int)
    requires
        0 <= from <= to <= states.len(),
    ensures
        forall|j: int|
            0 <= j < reverted_indices(states, from, to).len() ==> from <= (
            #[trigger] reverted_indices(states, from, to)[j]) < to,
        forall|a: int, b: int|
            0 <= a < b < reverted_indices(states, from, to).len() ==> (
            #[trigger] reverted_indices(states, from, to)[a]) > (#[trigger] reverted_indices(
                states,
                from,
                to,
            )[b]),
        forall|i: int|
            from <= i < to ==> (reverted_indices(states, from, to).contains(i)
                <==> !(#[trigger] states[i]).skips_revert()),
    decreases to - from,
{
    if from < to {
        lemma_rollback_order(states, from + 1, to);
        let rest = reverted_indices(states, from + 1, to);
        let all = reverted_indices(states, from, to);
        if states[from].skips_revert() {
            assert(!all.contains(from)) by {
                if all.contains(from) {
                    let j = choose|j: int| 0 <= j < all.len() && all[j] == from;
                    assert(from + 1 <= rest[j]);
                }
            }
        } else {
            assert(all[all.len() - 1] == from);
            assert forall|i: int| from < i < to implies (all.contains(i) <==> rest.contains(i)) by {
                if rest.contains(i) {
                    let j = choose|j: int| 0 <= j < rest.len() && rest[j] == i;
                    assert(all[j] == i);
                }
                if all.contains(i) {
                    let j = choose|j: int| 0 <= j < all.len() && all[j] == i;
                    assert(rest[j] == i);
                }
            }
        }
    }
}

/// After a failure at index `k` the rollback compensates, highest index first,
/// exactly the actions before `k` that the plan did not mark as skipped: those
/// are the ones that the forward pass had executed or had found completed.
pub proof fn lemma_failed_install_rollback(states: Seq<ActionState>, k: int)
    requires
        0 <= k <= states.len(),
    ensures
        forall|i: int|
            0 <= i < k ==> (reverted_indices(states_after_success(states), 0, k).contains(i) <==> (
            #[trigger] states[i]) != ActionState::Skipped),
        forall|i: int| k <= i ==> !reverted_indices(states_after_success(states), 0, k).contains(i),
        forall|a: int, b: int|
            0 <= a < b < reverted_indices(states_after_success(states), 0, k).len() ==> (
            #[trigger] reverted_indices(states_after_success(states), 0, k)[a]) > (
            #[trigger] reverted_indices(states_after_success(states), 0, k)[b]),
{
    let done = states_after_success(states);
    lemma_rollback_order(done, 0, k);
    let undo = reverted_indices(done, 0, k);
    assert forall|i: int| 0 <= i < k implies (undo.contains(i) <==> (#[trigger] states[i])
        != ActionState::Skipped) by {
        assert(done[i] == states[i].after_execute(true));
    }
    assert forall|i: int| k <= i implies !undo.contains(i) by {
        if undo.contains(i) {
            let j = choose|j: int| 0 <= j < undo.len() && undo[j] == i;
            assert(undo[j] < k);
        }
    }
}

/// What planning a whole setup needs to know about the host.
#[derive(Clone, Debug)]
pub struct SetupProbes {
    /// What the host says about the service user.
    pub user: UserProbe,
    /// What is at the cache directory of the Java runtimes.
    pub java_cache_dir: DirectoryProbe,
    /// What is at the directory that holds the servers.
    pub servers_root: DirectoryProbe,
    /// What belongs to the one server that is set up.
    pub server: ServerProbes,
    /// What the host says about the service unit.
    pub service: ServiceProbe,
}

/// What [`SetupProbes`] looks like to contracts: the same value with every text as a
/// sequence of characters.
pub struct SetupProbesView {
    pub user: UserProbe,
    pub java_cache_dir: DirectoryProbeView,
    pub servers_root: DirectoryProbeView,
    pub server: ServerProbesView,
    pub service: ServiceProbeView,
}

impl View for SetupProbes {
    type V = SetupProbesView;

    open spec fn view(&self) -> SetupProbesView {
        SetupProbesView {
            user: self.user,
            java_cache_dir: self.java_cache_dir@,
            servers_root: self.servers_root@,
            server: self.server@,
            service: self.service@,
        }
    }
}

/// The user that owns everything the setup creates.
pub const SERVICE_USER: &'static str = "feather";

/// The service unit as a setup plans it.
pub open spec fn default_service() -> ConfigureSystemdServiceView {
    ConfigureSystemdServiceView {
        service_dest: SERVICE_DESTINATION@,
        start_daemon: false,
        content: SERVICE_TEMPLATE@,
    }
}

/// The plan of a whole setup, or the first conflict that making it runs
/// into.
///
/// The service user comes first, so that what follows can be given to it;
/// then the directories, outermost first; then the actions of the server,
/// which write into them; and last the service unit, when the working
/// directory it points at is populated. Starting the unit is no part of the
/// plan.
pub open spec fn setup_plan(
    java_args: Seq<Seq<char>>,
    version: GameVersionView,
    loader_version: Option<GameVersionView>,
    java_cache_dir: Seq<char>,
    servers_root: Seq<char>,
    working_dir: Seq<char>,
    os: HostOs,
    probes: SetupProbesView,
) -> Result<Seq<Planned>, ActionErrorView> {
    match user_plan(SERVICE_USER@, probes.user) {
        Err(e) => Err(e),
        Ok(user_state) => match directory_plan(
            working_directory(java_cache_dir),
            probes.java_cache_dir,
        ) {
            Err(e) => Err(e),
            Ok(cache_state) => match directory_plan(
                working_directory(servers_root),
                probes.servers_root,
            ) {
                Err(e) => Err(e),
                Ok(root_state) => match specific_plan(
                    java_args,
                    version,
                    loader_version,
                    working_dir,
                    java_cache_dir,
                    os,
                    probes.server,
                ) {
                    Err(e) => Err(e),
                    Ok(server) => match service_plan(default_service(), probes.service) {
                        Err(e) => Err(e),
                        Ok(service_state) => Ok(
                            seq![
                                (BaseActionView::CreateUser(SERVICE_USER@), user_state),
                                (
                                    BaseActionView::CreateDirectory(
                                        working_directory(java_cache_dir),
                                    ),
                                    cache_state,
                                ),
                                (
                                    BaseActionView::CreateDirectory(working_directory(servers_root)),
                                    root_state,
                                ),
                            ] + server + seq![
                                (
                                    BaseActionView::ConfigureSystemdService(default_service()),
                                    service_state,
                                ),
                            ],
                        ),
                    },
                },
            },
        },
    }
}

/// The working directory of the server that `profile` describes: the
/// directory under `minecraft_servers_root_dir` that is named after the hash
/// of the profile, whatever that hash is.
pub fn server_working_dir(minecraft_servers_root_dir: &str, profile: &MinecraftProfile) -> (r:
    String)
    ensures
        exists|h: u64|
            r@ == joined_path(minecraft_servers_root_dir@, #[trigger] hex_text(h as nat)),
{
    join_path(minecraft_servers_root_dir, profile.hash().as_str())
}

impl ServerSetupManager<BaseAction> {
    /// The plan as it stands: every action with its state, in order.
    pub open spec fn planned(&self) -> Seq<Planned> {
        Seq::new(self.actions().len(), |i: int| (self.actions()[i]@, self.states()[i]))
    }

    /// Plans the setup of the server that `profile` describes.
    ///
    /// The server's working directory is the one that
    /// [`server_working_dir`] names; the plan is the one that [`setup_plan`]
    /// gives for it, and planning fails with the first conflict that
    /// [`setup_plan`] finds.
    pub fn new(
        args: &InitArgs,
        profile: &MinecraftProfile,
        java_cache_dir: &str,
        minecraft_servers_root_dir: &str,
        os: HostOs,
        probes: &SetupProbes,
    ) -> (r: Result<Self, ActionErrorKind>)
        requires
            os != HostOs::Other,
        ensures
            exists|h: u64|
                match setup_plan(
                    args.java_args.deep_view(),
                    profile.version@,
                    profile.loader_version(),
                    java_cache_dir@,
                    minecraft_servers_root_dir@,
                    joined_path(minecraft_servers_root_dir@, #[trigger] hex_text(h as nat)),
                    os,
                    probes@,
                ) {
                    Ok(planned) => r is Ok && r->Ok_0.planned() == planned && r->Ok_0.journal()
                        == Seq::<Step>::empty(),
                    Err(e) => r is Err && r->Err_0@ == e,
                },
    {
        let mut actions: Vec<StatefulAction<BaseAction>> = Vec::new();
        let server_working_dir = server_working_dir(minecraft_servers_root_dir, profile);
        let ghost h = choose|h: u64|
            server_working_dir@ == joined_path(
                minecraft_servers_root_dir@,
                #[trigger] hex_text(h as nat),
            );

        match CreateUser::plan(SERVICE_USER, &probes.user) {
            Ok(planned) => {
                actions.push(planned.boxed());
            },
            Err(e) => {
                return Err(e);
            },
        }
        match CreateDirectory::default(java_cache_dir, &probes.java_cache_dir) {
            Ok(planned) => {
                actions.push(planned.boxed());
            },
            Err(e) => {
                return Err(e);
            },
        }
        match CreateDirectory::default(minecraft_servers_root_dir, &probes.servers_root) {
            Ok(planned) => {
                actions.push(planned.boxed());
            },
            Err(e) => {
                return Err(e);
            },
        }

        let cache_manager = CacheManager::new(java_cache_dir);
        match plan_specific_actions(
            args,
            profile,
            server_working_dir,
            cache_manager,
            os,
            &probes.server,
        ) {
            Ok(mut mc_specific_actions) => {
                actions.append(&mut mc_specific_actions);
            },
            Err(e) => {
                return Err(e);
            },
        }

        match ConfigureSystemdService::default(&probes.service) {
            Ok(planned) => {
                actions.push(planned.boxed());
            },
            Err(e) => {
                return Err(e);
            },
        }
        let ghost listed = plan_view(actions@);
        let manager = Self::from_actions(actions);
        proof {
            let want = setup_plan(
                args.java_args.deep_view(),
                profile.version@,
                profile.loader_version(),
                java_cache_dir@,
                minecraft_servers_root_dir@,
                joined_path(minecraft_servers_root_dir@, hex_text(h as nat)),
                os,
                probes@,
            )->Ok_0;
            assert(listed =~= want);
        }
        Ok(manager)
    }
}

/// A setup is planned in dependency order: the service user first, then the
/// three directories from the outermost in, the service unit last, and
/// nowhere the start of a unit.
pub proof fn lemma_setup_plan_order(
    java_args: Seq<Seq<char>>,
    version: GameVersionView,
    loader_version: Option<GameVersionView>,
    java_cache_dir: Seq<char>,
    servers_root: Seq<char>,
    working_dir: Seq<char>,
    os: HostOs,
    probes: SetupProbesView,
)
    requires
        setup_plan(
            java_args,
            version,
            loader_version,
            java_cache_dir,
            servers_root,
            working_dir,
            os,
            probes,
        ) is Ok,
    ensures
        ({
            let plan = setup_plan(
                java_args,
                version,
                loader_version,
                java_cache_dir,
                servers_root,
                working_dir,
                os,
                probes,
            )->Ok_0;
            &&& plan.len() >= 8
            &&& plan[0].0 == BaseActionView::CreateUser(SERVICE_USER@)
            &&& plan[1].0 == BaseActionView::CreateDirectory(working_directory(java_cache_dir))
            &&& plan[2].0 == BaseActionView::CreateDirectory(working_directory(servers_root))
            &&& plan[3].0 == BaseActionView::CreateDirectory(working_directory(working_dir))
            &&& plan[4].0 is InstallJava
            &&& plan[plan.len() - 3].0 is CreateFile
            &&& plan[plan.len() - 2].0 is CreateFeatherEnv
            &&& plan.last().0 is ConfigureSystemdService
            &&& forall|i: int| 0 <= i < plan.len() ==> !((#[trigger] plan[i]).0 is StartSystemd)
        }),
{
}

/// A forward pass walks forwards and executes each action at most once: its
/// executions come in strictly increasing order of index, stay before `upto`,
/// and are exactly the actions before `upto` that are neither completed nor
/// skipped. So when an action is executed, every action before it has been
/// looked at, and none behind it.
pub proof fn lemma_execution_order(states: Seq<ActionState>, upto: int)
    requires
        0 <= upto <= states.len(),
        upto <= usize::MAX,
    ensures
        forall|j: int|
            0 <= j < executed_steps(states, upto).len() ==> (#[trigger] executed_steps(
                states,
                upto,
            )[j]) is Executed && executed_steps(states, upto)[j].index() < upto && !states[executed_steps(
                states,
                upto,
            )[j].index() as int].skips_execute(),
        forall|a: int, b: int|
            0 <= a < b < executed_steps(states, upto).len() ==> (#[trigger] executed_steps(
                states,
                upto,
            )[a]).index() < (#[trigger] executed_steps(states, upto)[b]).index(),
        forall|i: int|
            0 <= i < upto && !(#[trigger] states[i]).skips_execute() ==> executed_steps(
                states,
                upto,
            ).contains(Step::Executed(i as usize)),
    decreases upto,
{
    if upto > 0 {
        lemma_execution_order(states, upto - 1);
        let rest = executed_steps(states, upto - 1);
        let all = executed_steps(states, upto);
        if !states[upto - 1].skips_execute() {
            assert(all[all.len() - 1] == Step::Executed((upto - 1) as usize));
            assert forall|i: int| 0 <= i < upto && !(#[trigger] states[i]).skips_execute() implies all.contains(
                Step::Executed(i as usize),
            ) by {
                if i < upto - 1 {
                    let j = choose|j: int|
                        0 <= j < rest.len() && rest[j] == Step::Executed(i as usize);
                    assert(all[j] == Step::Executed(i as usize));
                }
            }
        }
    }
}

/// The error of a failed run is the error of its last execution, and every
/// execution before it succeeded.
///
/// Where the calls of a run that failed at index `k` are what was done to a
/// host, the action at `k` allows the result of the run as its own, that
/// result is an error, and every action before `k` that was executed allows a
/// success as its own. What the compensations of `undo` reported has no part in
/// the result.
pub proof fn lemma_failure_is_the_last_execution<H, A: Action<H>>(
    actions: Seq<A>,
    states: Seq<ActionState>,
    k: int,
    undo: Seq<Step>,
    before: H,
    after: H,
    r: Result<(), ActionErrorKind>,
)
    requires
        0 <= k < states.len(),
        states.len() <= usize::MAX,
        done_between(
            actions,
            executed_steps(states, k).push(Step::ExecuteFailed(k as usize)) + undo,
            before,
            after,
            r,
        ),
    ensures
        r is Err,
        exists|met: H, left: H| #[trigger] actions[k].executed(met, left, r),
        forall|i: int|
            0 <= i < k && !(#[trigger] states[i]).skips_execute() ==> exists|met: H, left: H|
                #[trigger] actions[i].executed(met, left, Ok::<(), ActionErrorKind>(())),
{
    let forward = executed_steps(states, k);
    let steps = forward.push(Step::ExecuteFailed(k as usize)) + undo;
    let hosts = choose|hosts: Seq<H>|
        #[trigger] run_of(actions, steps, hosts, r) && hosts[0] == before && hosts.last() == after;
    lemma_execution_order(states, k);
    let at = forward.len() as int;
    assert(steps[at] == Step::ExecuteFailed(k as usize));
    assert(step_taken(actions, steps[at], hosts[at], hosts[at + 1], r));
    assert(actions[k].executed(hosts[at], hosts[at + 1], r));
    assert forall|i: int| 0 <= i < k && !(#[trigger] states[i]).skips_execute() implies exists|
        met: H,
        left: H,
    | #[trigger] actions[i].executed(met, left, Ok::<(), ActionErrorKind>(())) by {
        let j = choose|j: int| 0 <= j < forward.len() && forward[j] == Step::Executed(i as usize);
        assert(steps[j] == forward[j]);
        assert(step_taken(actions, steps[j], hosts[j], hosts[j + 1], r));
        assert(actions[i].executed(hosts[j], hosts[j + 1], Ok::<(), ActionErrorKind>(())));
    }
}

} // verus!
