//! Laws over whole runs of Mugwort's off-chain worker.
//!
//! A run is what `ArtWorker::new`, `start` and a sequence of `resume` calls
//! go through: `start` is step `art_run_state(.., 0)` with action
//! `art_run_action(.., 0)`, and the `i`-th `resume` (counting from one) is
//! step `i`, on feedback `fbs[i - 1]`.

use vstd::prelude::*;
use crate::art_worker::{
    art_advance, art_feedback_fits, art_remaining_steps, art_start_next, lemma_art_start_next,
    lemma_art_worker_progress, ArtActionView, ArtAwaitingView, ArtFeedbackView, ArtWorkerState,
};
use crate::mugwort_ipfs::ArtCommandView;
use crate::offchain::IpfsRequestView;

verus! {

/// The worker's state after step `i` of the run from `init` on feedback `fbs`.
pub open spec fn art_run_state(init: ArtWorkerState, fbs: Seq<ArtFeedbackView>, i: nat) -> ArtWorkerState
    decreases i,
{
    if i == 0 {
        art_start_next(init).0
    } else {
        art_advance(art_run_state(init, fbs, (i - 1) as nat), fbs[i - 1]).0
    }
}

/// The action handed out at step `i` of the run.
pub open spec fn art_run_action(init: ArtWorkerState, fbs: Seq<ArtFeedbackView>, i: nat) -> ArtActionView {
    if i == 0 {
        art_start_next(init).1
    } else {
        art_advance(art_run_state(init, fbs, (i - 1) as nat), fbs[i - 1]).1
    }
}

/// A run from a fresh worker on which every feedback is one the worker
/// accepts at that point.
pub open spec fn art_fitting_run(init: ArtWorkerState, fbs: Seq<ArtFeedbackView>) -> bool {
    &&& init.next == 0
    &&& init.awaiting == ArtAwaitingView::Idle
    &&& forall|i: nat|
        i < fbs.len() ==> art_feedback_fits(#[trigger] art_run_state(init, fbs, i).awaiting, fbs[i as int])
}

/// The queued command whose data step `i` asks to store, if it asks.
pub open spec fn art_taken_at(init: ArtWorkerState, fbs: Seq<ArtFeedbackView>, i: nat) -> Option<nat> {
    if art_run_action(init, fbs, i) is Ipfs {
        Some((art_run_state(init, fbs, i).next - 1) as nat)
    } else {
        None
    }
}

/// Whether some step of the run asks to store the data of command `k`.
pub open spec fn art_taken_up(init: ArtWorkerState, fbs: Seq<ArtFeedbackView>, k: nat) -> bool {
    exists|i: nat| i <= fbs.len() && #[trigger] art_taken_at(init, fbs, i) == Some(k)
}

/// Whether `a` is an action that the command being handled in `s` calls
/// for: storing its data by the run's deadline, submitting a content
/// identifier as the metadata of its artwork, or the end of the run once
/// every command was taken up.
pub open spec fn art_action_for(s: ArtWorkerState, a: ArtActionView) -> bool {
    match a {
        ArtActionView::Finished => s.next == s.commands.len(),
        ArtActionView::Ipfs { request, deadline } => s.next >= 1 && deadline == s.deadline && (
        s.commands[s.next - 1] matches ArtCommandView::AddBytes(_, data) && request
            == IpfsRequestView::AddBytes(data)),
        ArtActionView::TransfigureArt { id, .. } => s.next >= 1 && (s.commands[s.next
            - 1] matches ArtCommandView::AddBytes(art_id, _) && art_id == id),
    }
}

/// What the worker waits for fits the command being handled.
pub open spec fn art_consistent(s: ArtWorkerState) -> bool {
    &&& s.next <= s.commands.len()
    &&& s.awaiting != ArtAwaitingView::Idle ==> s.next >= 1
    &&& match s.awaiting {
        ArtAwaitingView::Idle => true,
        ArtAwaitingView::Added { art_id } => s.commands[s.next - 1] matches ArtCommandView::AddBytes(
            id,
            _,
        ) && id == art_id,
        ArtAwaitingView::Transfigured => s.commands[s.next - 1] is AddBytes,
    }
}

proof fn lemma_art_run_step(init: ArtWorkerState, fbs: Seq<ArtFeedbackView>, i: nat)
    requires
        art_fitting_run(init, fbs),
        i <= fbs.len(),
    ensures
        art_consistent(art_run_state(init, fbs, i)),
        art_action_for(art_run_state(init, fbs, i), art_run_action(init, fbs, i)),
        art_run_state(init, fbs, i).commands == init.commands,
        art_run_state(init, fbs, i).deadline == init.deadline,
        art_run_action(init, fbs, i) == ArtActionView::Finished ==> art_run_state(init, fbs, i).awaiting
            == ArtAwaitingView::Idle,
        ({
            let prev = if i == 0 { 0 } else { art_run_state(init, fbs, (i - 1) as nat).next };
            let cur = art_run_state(init, fbs, i).next;
            &&& prev <= cur
            &&& art_run_action(init, fbs, i) is Ipfs ==> prev < cur
            &&& !(art_run_action(init, fbs, i) is Ipfs) && !(art_run_action(init, fbs, i) is Finished) ==> prev == cur
            &&& forall|j: int|
                prev <= j < (if art_run_action(init, fbs, i) is Finished { cur as int } else { cur - 1 })
                    ==> #[trigger] init.commands[j] is CatBytes
        }),
    decreases i,
{
    if i == 0 {
        lemma_art_start_next(init);
    } else {
        let p = (i - 1) as nat;
        lemma_art_run_step(init, fbs, p);
        let s = art_run_state(init, fbs, p);
        assert(art_feedback_fits(s.awaiting, fbs[p as int]));
        lemma_art_start_next(ArtWorkerState { awaiting: ArtAwaitingView::Idle, ..s });
    }
}

proof fn lemma_art_next_monotone(init: ArtWorkerState, fbs: Seq<ArtFeedbackView>, i: nat, j: nat)
    requires
        art_fitting_run(init, fbs),
        i <= j <= fbs.len(),
    ensures
        art_run_state(init, fbs, i).next <= art_run_state(init, fbs, j).next,
    decreases j - i,
{
    if i < j {
        lemma_art_run_step(init, fbs, j);
        lemma_art_next_monotone(init, fbs, i, (j - 1) as nat);
    }
}

proof fn lemma_art_taken_exists(init: ArtWorkerState, fbs: Seq<ArtFeedbackView>, m: nat, k: nat)
    requires
        art_fitting_run(init, fbs),
        m <= fbs.len(),
        k < art_run_state(init, fbs, m).next,
        init.commands[k as int] is AddBytes,
    ensures
        exists|i: nat| i <= m && #[trigger] art_taken_at(init, fbs, i) == Some(k),
    decreases m,
{
    lemma_art_run_step(init, fbs, m);
    if m == 0 {
        assert(init.commands[k as int] is AddBytes);
        assert(art_taken_at(init, fbs, 0) == Some(k));
    } else {
        let p = (m - 1) as nat;
        if k < art_run_state(init, fbs, p).next {
            lemma_art_taken_exists(init, fbs, p, k);
            let i = choose|i: nat| i <= p && #[trigger] art_taken_at(init, fbs, i) == Some(k);
            assert(i <= m && art_taken_at(init, fbs, i) == Some(k));
        } else {
            assert(init.commands[k as int] is AddBytes);
            assert(art_taken_at(init, fbs, m) == Some(k));
        }
    }
}

proof fn lemma_art_remaining_bound(init: ArtWorkerState, fbs: Seq<ArtFeedbackView>, i: nat)
    requires
        art_fitting_run(init, fbs),
        i < fbs.len(),
    ensures
        0 <= art_remaining_steps(art_run_state(init, fbs, i)) <= art_remaining_steps(art_run_state(init, fbs, 0)) - i,
    decreases i,
{
    lemma_art_run_step(init, fbs, i);
    if i > 0 {
        let p = (i - 1) as nat;
        lemma_art_remaining_bound(init, fbs, p);
        lemma_art_run_step(init, fbs, p);
        assert(art_feedback_fits(art_run_state(init, fbs, p).awaiting, fbs[p as int]));
        assert(art_feedback_fits(art_run_state(init, fbs, i).awaiting, fbs[i as int]));
        lemma_art_worker_progress(art_run_state(init, fbs, p), fbs[p as int]);
    }
}

/// A run passes over fetch commands and asks to store the data of every
/// other command exactly once, in queue order, going on whatever fails: a
/// failed store or a failed submission never skips or aborts a later
/// command. Precisely, on a run where every feedback fits:
/// - the commands and the one deadline set at creation never change;
/// - every action is one that the command being handled calls for: storing
///   its data by the run's deadline, or submitting a content identifier as
///   the metadata of its artwork;
/// - every step before the last hands out an action, never the end of the
///   run, and the run ends only once every command was taken up;
/// - no step asks anything of a fetch command, and every command that stores
///   artwork data and was reached is asked for at exactly one step, the
///   earlier ones first;
/// - a run takes at most `art_remaining_steps` of its first state, plus one,
///   resumes: it always terminates.
pub proof fn lemma_art_run_laws(init: ArtWorkerState, fbs: Seq<ArtFeedbackView>)
    requires
        art_fitting_run(init, fbs),
    ensures
        forall|i: nat|
            i <= fbs.len() ==> (#[trigger] art_run_state(init, fbs, i)).commands == init.commands
                && art_run_state(init, fbs, i).deadline == init.deadline
                && art_action_for(art_run_state(init, fbs, i), art_run_action(init, fbs, i)),
        forall|i: nat| i < fbs.len() ==> #[trigger] art_run_action(init, fbs, i) != ArtActionView::Finished,
        art_run_action(init, fbs, fbs.len()) == ArtActionView::Finished ==> art_run_state(init, fbs, fbs.len()).next
            == init.commands.len(),
        forall|i: nat|
            i <= fbs.len() && (#[trigger] art_taken_at(init, fbs, i)) is Some ==> init.commands[art_taken_at(
                init,
                fbs,
                i,
            )->0 as int] is AddBytes,
        forall|k: nat|
            k < art_run_state(init, fbs, fbs.len()).next && init.commands[k as int] is AddBytes
                ==> #[trigger] art_taken_up(init, fbs, k),
        forall|i: nat, j: nat|
            i < j <= fbs.len() && (#[trigger] art_taken_at(init, fbs, i)) is Some && (#[trigger] art_taken_at(
                init,
                fbs,
                j,
            )) is Some ==> art_taken_at(init, fbs, i)->0 < art_taken_at(init, fbs, j)->0,
        fbs.len() <= art_remaining_steps(art_run_state(init, fbs, 0)) + 1,
{
    assert forall|i: nat| i <= fbs.len() implies (#[trigger] art_run_state(init, fbs, i)).commands
        == init.commands && art_run_state(init, fbs, i).deadline == init.deadline && art_action_for(
        art_run_state(init, fbs, i),
        art_run_action(init, fbs, i),
    ) by {
        lemma_art_run_step(init, fbs, i);
    }
    assert forall|i: nat| i < fbs.len() implies #[trigger] art_run_action(init, fbs, i)
        != ArtActionView::Finished by {
        lemma_art_run_step(init, fbs, i);
        assert(art_feedback_fits(art_run_state(init, fbs, i).awaiting, fbs[i as int]));
    }
    lemma_art_run_step(init, fbs, fbs.len());
    assert forall|i: nat|
        i <= fbs.len() && (#[trigger] art_taken_at(init, fbs, i)) is Some implies init.commands[art_taken_at(
            init,
            fbs,
            i,
        )->0 as int] is AddBytes by {
        lemma_art_run_step(init, fbs, i);
    }
    assert forall|k: nat|
        k < art_run_state(init, fbs, fbs.len()).next && init.commands[k as int] is AddBytes
            implies #[trigger] art_taken_up(init, fbs, k) by {
        lemma_art_taken_exists(init, fbs, fbs.len(), k);
    }
    assert forall|i: nat, j: nat|
        i < j <= fbs.len() && (#[trigger] art_taken_at(init, fbs, i)) is Some && (#[trigger] art_taken_at(
            init,
            fbs,
            j,
        )) is Some implies art_taken_at(init, fbs, i)->0 < art_taken_at(init, fbs, j)->0 by {
        lemma_art_run_step(init, fbs, i);
        lemma_art_run_step(init, fbs, j);
        lemma_art_next_monotone(init, fbs, i, (j - 1) as nat);
    }
    if fbs.len() > 0 {
        lemma_art_remaining_bound(init, fbs, (fbs.len() - 1) as nat);
    }
}

} // verus!
