//! Laws over whole runs of the storage miner's off-chain worker.
//!
//! A run is what `DataWorker::new`, `start` and a sequence of `resume` calls
//! go through: `DataWorker::new` gives the initial state, `start` the step
//! `run_state(.., 0)` with action `run_action(.., 0)`, and the `i`-th
//! `resume` (counting from one) the step `i`, on feedback `fbs[i - 1]`.

use vstd::prelude::*;
use crate::offchain::{IpfsRequestView, IpfsResponseView};
use crate::primitives::{AccountId, Balance};
use crate::storage_miner::CommandView;
use crate::storage_worker::{
    advance, command_start, feedback_fits, lemma_worker_progress, remaining_steps, start_next,
    ActionView, AwaitingView, FeedbackView, WorkerState,
};

verus! {

/// The worker's state after step `i` of the run from `init` on feedback
/// `fbs`, with storage fee `fee`.
pub open spec fn run_state(init: WorkerState, fbs: Seq<FeedbackView>, fee: Balance, i: nat) -> WorkerState
    decreases i,
{
    if i == 0 {
        start_next(init).0
    } else {
        advance(run_state(init, fbs, fee, (i - 1) as nat), fbs[i - 1], fee).0
    }
}

/// The action handed out at step `i` of the run.
pub open spec fn run_action(init: WorkerState, fbs: Seq<FeedbackView>, fee: Balance, i: nat) -> ActionView {
    if i == 0 {
        start_next(init).1
    } else {
        advance(run_state(init, fbs, fee, (i - 1) as nat), fbs[i - 1], fee).1
    }
}

/// A run from a fresh worker on which every feedback is one the worker
/// accepts at that point.
pub open spec fn fitting_run(init: WorkerState, fbs: Seq<FeedbackView>, fee: Balance) -> bool {
    &&& init.next == 0
    &&& init.awaiting == AwaitingView::Idle
    &&& forall|i: nat|
        i < fbs.len() ==> feedback_fits(#[trigger] run_state(init, fbs, fee, i).awaiting, fbs[i as int])
}

/// The queued command that step `i` takes up, if it takes one up.
pub open spec fn started_at(init: WorkerState, fbs: Seq<FeedbackView>, fee: Balance, i: nat) -> Option<nat> {
    if i == 0 {
        if init.commands.len() > 0 {
            Some(0)
        } else {
            None
        }
    } else if run_state(init, fbs, fee, i).next == run_state(init, fbs, fee, (i - 1) as nat).next + 1 {
        Some(run_state(init, fbs, fee, (i - 1) as nat).next)
    } else {
        None
    }
}

/// Whether some step of the run takes up command `k`.
pub open spec fn taken_up(init: WorkerState, fbs: Seq<FeedbackView>, fee: Balance, k: nat) -> bool {
    exists|i: nat| i <= fbs.len() && #[trigger] started_at(init, fbs, fee, i) == Some(k)
}

/// Whether `r` is an IPFS request that command `c` calls for.
pub open spec fn request_for(c: CommandView, r: IpfsRequestView) -> bool {
    match c {
        CommandView::AddBytes(_, data) => r == IpfsRequestView::AddBytes(data) || (r matches IpfsRequestView::InsertPin(_, recursive) && !recursive),
        CommandView::RemovePin(cid) => r == IpfsRequestView::RemovePin(cid, false),
        CommandView::CatBytes(cid) => r == IpfsRequestView::CatBytes(cid),
    }
}

/// Whether `a` is an action that the command being handled in `s` calls
/// for: an IPFS request with the run's deadline, the recording of a pin for
/// the payer or of a check, a refund of the storage fee `fee` to the payer,
/// or the end of the run once every command was taken up.
pub open spec fn action_for(s: WorkerState, a: ActionView, fee: Balance) -> bool {
    match a {
        ActionView::Finished => s.next == s.commands.len(),
        ActionView::Ipfs { request, deadline } => s.next >= 1 && deadline == s.deadline && request_for(
            s.commands[s.next - 1],
            request,
        ),
        ActionView::Refund { to, amount } => s.next >= 1 && amount == fee && (s.commands[s.next
            - 1] matches CommandView::AddBytes(payer, _) && payer == to),
        ActionView::UpdateStorage { initiator, response, remark } => s.next >= 1 && match s.commands[s.next - 1] {
            CommandView::AddBytes(payer, _) => initiator == Some(payer) && response is AddBytes && !remark,
            CommandView::CatBytes(cid) => initiator is None && response == IpfsResponseView::CatBytes(cid),
            CommandView::RemovePin(_) => false,
        },
    }
}

/// The payer of `c`, when it stores paid data.
pub open spec fn pays(c: CommandView, payer: AccountId) -> bool {
    c matches CommandView::AddBytes(p, _) && p == payer
}

/// What the worker waits for fits the command being handled.
pub open spec fn consistent(s: WorkerState) -> bool {
    &&& s.next <= s.commands.len()
    &&& s.awaiting != AwaitingView::Idle ==> s.next >= 1
    &&& match s.awaiting {
        AwaitingView::Idle => true,
        AwaitingView::Added { initiator } => pays(s.commands[s.next - 1], initiator),
        AwaitingView::Pinned { initiator, .. } => pays(s.commands[s.next - 1], initiator),
        AwaitingView::Recorded { initiator } => pays(s.commands[s.next - 1], initiator),
        AwaitingView::Refunded => s.commands[s.next - 1] is AddBytes,
        AwaitingView::Unpinned => s.commands[s.next - 1] is RemovePin,
        AwaitingView::Fetched { cid } => s.commands[s.next - 1] == CommandView::CatBytes(cid),
        AwaitingView::Checked => s.commands[s.next - 1] is CatBytes,
    }
}

proof fn lemma_start_step(s: WorkerState, fee: Balance)
    requires
        s.next <= s.commands.len(),
    ensures
        consistent(start_next(s).0),
        action_for(start_next(s).0, start_next(s).1, fee),
        start_next(s).0.commands == s.commands,
        start_next(s).0.deadline == s.deadline,
        s.next < s.commands.len() ==> start_next(s).0.next == s.next + 1 && start_next(s).1
            == command_start(s.commands[s.next as int], s.deadline).1,
        s.next == s.commands.len() ==> start_next(s).0.next == s.next && start_next(s).1
            == ActionView::Finished && start_next(s).0.awaiting == AwaitingView::Idle,
{
}

proof fn lemma_resume_step(s: WorkerState, f: FeedbackView, fee: Balance)
    requires
        consistent(s),
        feedback_fits(s.awaiting, f),
    ensures
        consistent(advance(s, f, fee).0),
        action_for(advance(s, f, fee).0, advance(s, f, fee).1, fee),
        advance(s, f, fee).0.commands == s.commands,
        advance(s, f, fee).0.deadline == s.deadline,
        advance(s, f, fee).0.next == s.next || advance(s, f, fee).0.next == s.next + 1,
        advance(s, f, fee).0.next == s.next + 1 ==> advance(s, f, fee).1 == command_start(
            s.commands[s.next as int],
            s.deadline,
        ).1,
        advance(s, f, fee).1 == ActionView::Finished ==> advance(s, f, fee).0.awaiting
            == AwaitingView::Idle,
{
    let idle = WorkerState { awaiting: AwaitingView::Idle, ..s };
    lemma_start_step(idle, fee);
}

proof fn lemma_run_step(init: WorkerState, fbs: Seq<FeedbackView>, fee: Balance, i: nat)
    requires
        fitting_run(init, fbs, fee),
        i <= fbs.len(),
    ensures
        consistent(run_state(init, fbs, fee, i)),
        action_for(run_state(init, fbs, fee, i), run_action(init, fbs, fee, i), fee),
        run_state(init, fbs, fee, i).commands == init.commands,
        run_state(init, fbs, fee, i).deadline == init.deadline,
        i > 0 ==> (run_state(init, fbs, fee, i).next == run_state(init, fbs, fee, (i - 1) as nat).next
            || run_state(init, fbs, fee, i).next == run_state(init, fbs, fee, (i - 1) as nat).next + 1),
        run_action(init, fbs, fee, i) == ActionView::Finished ==> run_state(init, fbs, fee, i).awaiting
            == AwaitingView::Idle,
        started_at(init, fbs, fee, i) matches Some(k) ==> k < init.commands.len() && run_state(init, fbs, fee, i).next == k + 1
            && run_action(init, fbs, fee, i) == command_start(init.commands[k as int], init.deadline).1,
    decreases i,
{
    if i == 0 {
        lemma_start_step(init, fee);
    } else {
        let p = (i - 1) as nat;
        lemma_run_step(init, fbs, fee, p);
        assert(feedback_fits(run_state(init, fbs, fee, p).awaiting, fbs[p as int]));
        lemma_resume_step(run_state(init, fbs, fee, p), fbs[p as int], fee);
    }
}

proof fn lemma_next_monotone(init: WorkerState, fbs: Seq<FeedbackView>, fee: Balance, i: nat, j: nat)
    requires
        fitting_run(init, fbs, fee),
        i <= j <= fbs.len(),
    ensures
        run_state(init, fbs, fee, i).next <= run_state(init, fbs, fee, j).next,
    decreases j - i,
{
    if i < j {
        lemma_run_step(init, fbs, fee, j);
        lemma_next_monotone(init, fbs, fee, i, (j - 1) as nat);
    }
}

proof fn lemma_started_exists(init: WorkerState, fbs: Seq<FeedbackView>, fee: Balance, m: nat, k: nat)
    requires
        fitting_run(init, fbs, fee),
        m <= fbs.len(),
        k < run_state(init, fbs, fee, m).next,
    ensures
        exists|i: nat| i <= m && #[trigger] started_at(init, fbs, fee, i) == Some(k),
    decreases m,
{
    if m == 0 {
        lemma_start_step(init, fee);
        assert(started_at(init, fbs, fee, 0) == Some(k));
    } else {
        let p = (m - 1) as nat;
        lemma_run_step(init, fbs, fee, m);
        if k < run_state(init, fbs, fee, p).next {
            lemma_started_exists(init, fbs, fee, p, k);
            let i = choose|i: nat| i <= p && #[trigger] started_at(init, fbs, fee, i) == Some(k);
            assert(i <= m && started_at(init, fbs, fee, i) == Some(k));
        } else {
            assert(started_at(init, fbs, fee, m) == Some(k));
        }
    }
}

proof fn lemma_remaining_bound(init: WorkerState, fbs: Seq<FeedbackView>, fee: Balance, i: nat)
    requires
        fitting_run(init, fbs, fee),
        i < fbs.len(),
    ensures
        0 <= remaining_steps(run_state(init, fbs, fee, i)) <= remaining_steps(run_state(init, fbs, fee, 0)) - i,
    decreases i,
{
    lemma_run_step(init, fbs, fee, i);
    if i > 0 {
        let p = (i - 1) as nat;
        lemma_remaining_bound(init, fbs, fee, p);
        lemma_run_step(init, fbs, fee, p);
        assert(feedback_fits(run_state(init, fbs, fee, p).awaiting, fbs[p as int]));
        assert(feedback_fits(run_state(init, fbs, fee, i).awaiting, fbs[i as int]));
        lemma_worker_progress(run_state(init, fbs, fee, p), fbs[p as int], fee);
    }
}

/// A run takes up every queued command exactly once, in queue order, and
/// whatever fails it goes on: no failed IPFS request, signed transaction or
/// refund skips or aborts a later command. Precisely, on a run where every
/// feedback fits:
/// - the commands and the one deadline set at creation never change;
/// - every step before the last hands out an action, never the end of the run;
/// - the run ends only once every command was taken up;
/// - each step takes up at most the next command in order, with the IPFS
///   request that command calls for, and every command taken up by the last
///   step was taken up at exactly one step, the earlier ones first;
/// - a run takes at most as many resumes as `remaining_steps` of its first
///   state, plus one: it always terminates.
pub proof fn lemma_run_takes_each_command_once_in_order(
    init: WorkerState,
    fbs: Seq<FeedbackView>,
    fee: Balance,
)
    requires
        fitting_run(init, fbs, fee),
    ensures
        forall|i: nat|
            i <= fbs.len() ==> (#[trigger] run_state(init, fbs, fee, i)).commands == init.commands
                && run_state(init, fbs, fee, i).deadline == init.deadline,
        forall|i: nat| i < fbs.len() ==> #[trigger] run_action(init, fbs, fee, i) != ActionView::Finished,
        run_action(init, fbs, fee, fbs.len()) == ActionView::Finished ==> run_state(init, fbs, fee, fbs.len()).next
            == init.commands.len(),
        forall|i: nat|
            i <= fbs.len() && (#[trigger] started_at(init, fbs, fee, i)) is Some ==> started_at(init, fbs, fee, i)->0
                < init.commands.len() && run_action(init, fbs, fee, i) == command_start(
                init.commands[started_at(init, fbs, fee, i)->0 as int],
                init.deadline,
            ).1,
        forall|k: nat|
            k < run_state(init, fbs, fee, fbs.len()).next ==> #[trigger] taken_up(init, fbs, fee, k),
        forall|i: nat, j: nat|
            i < j <= fbs.len() && (#[trigger] started_at(init, fbs, fee, i)) is Some && (#[trigger] started_at(
                init,
                fbs,
                fee,
                j,
            )) is Some ==> started_at(init, fbs, fee, i)->0 < started_at(init, fbs, fee, j)->0,
        fbs.len() <= remaining_steps(run_state(init, fbs, fee, 0)) + 1,
{
    assert forall|i: nat| i <= fbs.len() implies (#[trigger] run_state(init, fbs, fee, i)).commands
        == init.commands && run_state(init, fbs, fee, i).deadline == init.deadline by {
        lemma_run_step(init, fbs, fee, i);
    }
    assert forall|i: nat| i < fbs.len() implies #[trigger] run_action(init, fbs, fee, i) != ActionView::Finished by {
        lemma_run_step(init, fbs, fee, i);
        assert(feedback_fits(run_state(init, fbs, fee, i).awaiting, fbs[i as int]));
    }
    lemma_run_step(init, fbs, fee, fbs.len());
    assert forall|i: nat|
        i <= fbs.len() && (#[trigger] started_at(init, fbs, fee, i)) is Some implies started_at(init, fbs, fee, i)->0
            < init.commands.len() && run_action(init, fbs, fee, i) == command_start(
            init.commands[started_at(init, fbs, fee, i)->0 as int],
            init.deadline,
        ).1 by {
        lemma_run_step(init, fbs, fee, i);
    }
    assert forall|k: nat| k < run_state(init, fbs, fee, fbs.len()).next implies #[trigger] taken_up(
        init,
        fbs,
        fee,
        k,
    ) by {
        lemma_started_exists(init, fbs, fee, fbs.len(), k);
    }
    assert forall|i: nat, j: nat|
        i < j <= fbs.len() && (#[trigger] started_at(init, fbs, fee, i)) is Some && (#[trigger] started_at(
            init,
            fbs,
            fee,
            j,
        )) is Some implies started_at(init, fbs, fee, i)->0 < started_at(init, fbs, fee, j)->0 by {
        lemma_run_step(init, fbs, fee, i);
        lemma_run_step(init, fbs, fee, j);
        lemma_next_monotone(init, fbs, fee, i, (j - 1) as nat);
    }
    if fbs.len() > 0 {
        lemma_remaining_bound(init, fbs, fee, (fbs.len() - 1) as nat);
    }
}

/// Every action of a run is one that the command being handled calls for:
/// an IPFS request carrying the run's one deadline, the recording of a pin
/// for its payer or of a check, a refund of the storage fee to the payer of
/// the data being stored, or the end of the run once every command was taken
/// up. None of them writes the module's state: the worker holds a copy of the
/// queue, and a refund is paid through `Module::refund`, which reads the
/// module only.
pub proof fn lemma_run_actions(init: WorkerState, fbs: Seq<FeedbackView>, fee: Balance)
    requires
        fitting_run(init, fbs, fee),
    ensures
        forall|i: nat|
            i <= fbs.len() ==> action_for(
                #[trigger] run_state(init, fbs, fee, i),
                run_action(init, fbs, fee, i),
                fee,
            ),
{
    assert forall|i: nat| i <= fbs.len() implies action_for(
        #[trigger] run_state(init, fbs, fee, i),
        run_action(init, fbs, fee, i),
        fee,
    ) by {
        lemma_run_step(init, fbs, fee, i);
    }
}

} // verus!
