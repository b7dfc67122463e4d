//! Mugwort's off-chain worker: for each piece of artwork conjured in the
//! block it stores the artwork's data on IPFS and submits the content
//! identifier as the artwork's metadata.

use vstd::prelude::*;
use crate::mugwort_ipfs::{ArtCommandView, DataCommand, Error, Module};
use crate::offchain::{
    saturating_sum, Duration, IpfsRequest, IpfsRequestView, IpfsResponse, IpfsResponseView,
    Timestamp, DATA_REQUEST_TIMEOUT_MS,
};
use crate::primitives::copy_bytes;

verus! {

/// What the worker waits for.
#[derive(Debug)]
pub enum ArtAwaiting {
    /// Nothing: no command started yet, or all done.
    Idle,
    /// The node's answer to storing the data of artwork `art_id`.
    Added { art_id: u64 },
    /// The submission of the transaction that records the metadata.
    Transfigured,
}

/// The mathematical form of [`ArtAwaiting`].
pub enum ArtAwaitingView {
    Idle,
    Added { art_id: u64 },
    Transfigured,
}

impl View for ArtAwaiting {
    type V = ArtAwaitingView;

    open spec fn view(&self) -> ArtAwaitingView {
        match self {
            ArtAwaiting::Idle => ArtAwaitingView::Idle,
            ArtAwaiting::Added { art_id } => ArtAwaitingView::Added { art_id: *art_id },
            ArtAwaiting::Transfigured => ArtAwaitingView::Transfigured,
        }
    }
}

/// How the last action handed out ended.
#[derive(Debug)]
pub enum ArtFeedback {
    /// The IPFS request ended with this answer or error.
    Ipfs(Result<IpfsResponse, Error>),
    /// The signed transaction was submitted, or not.
    Submitted(Result<(), Error>),
}

/// The mathematical form of [`ArtFeedback`].
pub enum ArtFeedbackView {
    Ipfs(Result<IpfsResponseView, Error>),
    Submitted(Result<(), Error>),
}

impl View for ArtFeedback {
    type V = ArtFeedbackView;

    open spec fn view(&self) -> ArtFeedbackView {
        match self {
            ArtFeedback::Ipfs(Ok(resp)) => ArtFeedbackView::Ipfs(Ok(resp@)),
            ArtFeedback::Ipfs(Err(e)) => ArtFeedbackView::Ipfs(Err(*e)),
            ArtFeedback::Submitted(r) => ArtFeedbackView::Submitted(*r),
        }
    }
}

/// What the caller is to do next.
#[derive(Debug)]
pub enum ArtAction {
    /// Send `request` to the IPFS node, to be answered by `deadline`.
    Ipfs { request: IpfsRequest, deadline: Timestamp },
    /// Submit a signed `transfigure_art` transaction with these arguments.
    TransfigureArt { id: u64, cid: Vec<u8> },
    /// All queued commands are done.
    Finished,
}

/// The mathematical form of [`ArtAction`].
pub enum ArtActionView {
    Ipfs { request: IpfsRequestView, deadline: Timestamp },
    TransfigureArt { id: u64, cid: Seq<u8> },
    Finished,
}

impl View for ArtAction {
    type V = ArtActionView;

    open spec fn view(&self) -> ArtActionView {
        match self {
            ArtAction::Ipfs { request, deadline } => ArtActionView::Ipfs {
                request: request@,
                deadline: *deadline,
            },
            ArtAction::TransfigureArt { id, cid } => ArtActionView::TransfigureArt {
                id: *id,
                cid: cid@,
            },
            ArtAction::Finished => ArtActionView::Finished,
        }
    }
}

/// The mathematical state of the worker.
pub struct ArtWorkerState {
    /// The queued commands, in order.
    pub commands: Seq<ArtCommandView>,
    /// How many of them were taken up.
    pub next: nat,
    /// What the worker waits for.
    pub awaiting: ArtAwaitingView,
    /// The deadline of every IPFS request of this run.
    pub deadline: Timestamp,
}

/// Starts the next command that stores artwork data, passing over the others,
/// or finishes when none is left.
pub open spec fn art_start_next(s: ArtWorkerState) -> (ArtWorkerState, ArtActionView)
    decreases s.commands.len() - s.next,
{
    if s.next < s.commands.len() {
        match s.commands[s.next as int] {
            ArtCommandView::AddBytes(art_id, data) => (
                ArtWorkerState {
                    next: s.next + 1,
                    awaiting: ArtAwaitingView::Added { art_id },
                    ..s
                },
                ArtActionView::Ipfs { request: IpfsRequestView::AddBytes(data), deadline: s.deadline },
            ),
            ArtCommandView::CatBytes(_) => art_start_next(ArtWorkerState { next: s.next + 1, ..s }),
        }
    } else {
        (ArtWorkerState { awaiting: ArtAwaitingView::Idle, ..s }, ArtActionView::Finished)
    }
}

/// The feedback that the worker accepts in each state: the outcome of the
/// action it handed out, where an IPFS answer is of the kind that the request
/// calls for.
pub open spec fn art_feedback_fits(a: ArtAwaitingView, f: ArtFeedbackView) -> bool {
    match a {
        ArtAwaitingView::Idle => false,
        ArtAwaitingView::Added { .. } => f matches ArtFeedbackView::Ipfs(r) && (r matches Ok(resp)
            ==> resp is AddBytes),
        ArtAwaitingView::Transfigured => f is Submitted,
    }
}

/// One step of the worker on feedback `f`: stored data has its content
/// identifier submitted as the artwork's metadata; a failed store, or a
/// submitted transaction, ends the command.
pub open spec fn art_advance(s: ArtWorkerState, f: ArtFeedbackView) -> (ArtWorkerState, ArtActionView) {
    match (s.awaiting, f) {
        (ArtAwaitingView::Added { art_id }, ArtFeedbackView::Ipfs(Ok(IpfsResponseView::AddBytes(cid)))) => (
            ArtWorkerState { awaiting: ArtAwaitingView::Transfigured, ..s },
            ArtActionView::TransfigureArt { id: art_id, cid },
        ),
        _ => art_start_next(ArtWorkerState { awaiting: ArtAwaitingView::Idle, ..s }),
    }
}

/// Starting the next command either finishes, with every queued command
/// taken up and all those left being fetch commands, or passes over fetch
/// commands and asks to store the data of the first command that stores
/// artwork data.
pub proof fn lemma_art_start_next(s: ArtWorkerState)
    requires
        s.next <= s.commands.len(),
    ensures
        art_start_next(s).0.commands == s.commands,
        art_start_next(s).0.deadline == s.deadline,
        s.next <= art_start_next(s).0.next <= s.commands.len(),
        ({
            let (t, action) = art_start_next(s);
            ||| (action == ArtActionView::Finished && t.next == s.commands.len()
                && t.awaiting == ArtAwaitingView::Idle && forall|j: int|
                s.next <= j < s.commands.len() ==> #[trigger] s.commands[j] is CatBytes)
            ||| (t.next > s.next && (s.commands[t.next - 1] matches ArtCommandView::AddBytes(id, data)
                && t.awaiting == (ArtAwaitingView::Added { art_id: id }) && action == (ArtActionView::Ipfs {
                request: IpfsRequestView::AddBytes(data),
                deadline: s.deadline,
            })) && forall|j: int| s.next <= j < t.next - 1 ==> #[trigger] s.commands[j] is CatBytes)
        }),
    decreases s.commands.len() - s.next,
{
    if s.next < s.commands.len() {
        if s.commands[s.next as int] is CatBytes {
            lemma_art_start_next(ArtWorkerState { next: s.next + 1, ..s });
        }
    }
}

/// A transfigure transaction is submitted only as the reaction to the
/// node's answer to storing that artwork's data, and carries exactly the
/// content identifier the node answered with.
pub proof fn lemma_transfigure_only_with_stored_cid(s: ArtWorkerState, f: ArtFeedbackView)
    requires
        s.next <= s.commands.len(),
        art_feedback_fits(s.awaiting, f),
    ensures
        art_advance(s, f).1 is TransfigureArt ==> s.awaiting == (ArtAwaitingView::Added {
            art_id: art_advance(s, f).1->TransfigureArt_id,
        }),
        art_advance(s, f).1 is TransfigureArt ==> f == ArtFeedbackView::Ipfs(
            Ok(IpfsResponseView::AddBytes(art_advance(s, f).1->TransfigureArt_cid)),
        ),
        !(art_start_next(s).1 is TransfigureArt),
{
    lemma_art_start_next(s);
    lemma_art_start_next(ArtWorkerState { awaiting: ArtAwaitingView::Idle, ..s });
}

/// After a failed store of an artwork's data nothing is submitted for it:
/// the worker asks to store the data of the next artwork, with the run's
/// deadline, or finishes when none is left.
pub proof fn lemma_failed_store_moves_on(s: ArtWorkerState, e: Error)
    requires
        s.next <= s.commands.len(),
        s.awaiting is Added,
    ensures
        art_advance(s, ArtFeedbackView::Ipfs(Err(e))).1 is Ipfs || art_advance(
            s,
            ArtFeedbackView::Ipfs(Err(e)),
        ).1 is Finished,
        art_advance(s, ArtFeedbackView::Ipfs(Err(e))).1 is Ipfs ==> art_advance(
            s,
            ArtFeedbackView::Ipfs(Err(e)),
        ).1->Ipfs_deadline == s.deadline && art_advance(s, ArtFeedbackView::Ipfs(Err(e))).0.next
            > s.next && s.commands[art_advance(s, ArtFeedbackView::Ipfs(Err(e))).0.next - 1]
            == ArtCommandView::AddBytes(
            art_advance(s, ArtFeedbackView::Ipfs(Err(e))).0.awaiting->Added_art_id,
            art_advance(s, ArtFeedbackView::Ipfs(Err(e))).1->Ipfs_request->AddBytes_0,
        ),
{
    lemma_art_start_next(ArtWorkerState { awaiting: ArtAwaitingView::Idle, ..s });
}

/// An upper bound on the steps left to the worker.
pub open spec fn art_remaining_steps(s: ArtWorkerState) -> int {
    (s.commands.len() - s.next) * 2 + if s.awaiting is Added { 1int } else { 0int }
}

/// Each step of the worker either finishes the run, with every queued
/// command taken up, or brings it closer to its end: the worker always
/// terminates.
pub proof fn lemma_art_worker_progress(s: ArtWorkerState, f: ArtFeedbackView)
    requires
        s.next <= s.commands.len(),
        art_feedback_fits(s.awaiting, f),
    ensures
        art_advance(s, f).0.next <= s.commands.len(),
        ({
            let (t, action) = art_advance(s, f);
            ||| (action == ArtActionView::Finished && t.next == s.commands.len())
            ||| (0 <= art_remaining_steps(t) < art_remaining_steps(s))
        }),
{
    lemma_art_start_next(ArtWorkerState { awaiting: ArtAwaitingView::Idle, ..s });
}

/// Stored artwork data has its content identifier submitted as the metadata
/// of that artwork.
pub proof fn lemma_art_store_then_transfigure(s: ArtWorkerState, art_id: u64, cid: Seq<u8>)
    requires
        s.awaiting == (ArtAwaitingView::Added { art_id }),
    ensures
        art_advance(s, ArtFeedbackView::Ipfs(Ok(IpfsResponseView::AddBytes(cid)))).1
            == (ArtActionView::TransfigureArt { id: art_id, cid }),
{
}

/// The worker for one block's queue.
pub struct ArtWorker {
    commands: Vec<DataCommand>,
    next: usize,
    awaiting: ArtAwaiting,
    deadline: Timestamp,
}

impl View for ArtWorker {
    type V = ArtWorkerState;

    closed spec fn view(&self) -> ArtWorkerState {
        ArtWorkerState {
            commands: self.commands@.map_values(|c: DataCommand| c@),
            next: self.next as nat,
            awaiting: self.awaiting@,
            deadline: self.deadline,
        }
    }
}

impl ArtWorker {
    /// The internal invariant: no more commands taken up than queued.
    pub closed spec fn wf(&self) -> bool {
        self.next <= self.commands@.len()
    }

    /// The worker for `queue`, started at `now`; its IPFS requests are due
    /// one second later.
    pub fn new(queue: Vec<DataCommand>, now: Timestamp) -> (w: Self)
        ensures
            w.wf(),
            w@.commands == queue@.map_values(|c: DataCommand| c@),
            w@.next == 0,
            w@.awaiting == ArtAwaitingView::Idle,
            w@.deadline@ == saturating_sum(now@, DATA_REQUEST_TIMEOUT_MS),
    {
        ArtWorker {
            commands: queue,
            next: 0,
            awaiting: ArtAwaiting::Idle,
            deadline: now.add(Duration::from_millis(DATA_REQUEST_TIMEOUT_MS)),
        }
    }

    /// The worker for the work that `module` has queued, started at `now`;
    /// it holds its own copy of the queue.
    pub fn new_for(module: &Module, now: Timestamp) -> (w: Self)
        ensures
            w.wf(),
            w@.commands == module@.data_queue,
            w@.next == 0,
            w@.awaiting == ArtAwaitingView::Idle,
            w@.deadline@ == saturating_sum(now@, DATA_REQUEST_TIMEOUT_MS),
    {
        let queue = module.data_queue();
        let mut copy: Vec<DataCommand> = Vec::new();
        let mut i: usize = 0;
        while i < queue.len()
            invariant
                i <= queue@.len(),
                copy@.len() == i,
                forall|j: int| 0 <= j < i ==> #[trigger] copy@[j]@ == queue@[j]@,
            decreases queue@.len() - i,
        {
            copy.push(queue[i].duplicate());
            i = i + 1;
        }
        assert(copy@.map_values(|c: DataCommand| c@) =~= queue@.map_values(|c: DataCommand| c@));
        Self::new(copy, now)
    }

    fn start_next_command(&mut self) -> (action: ArtAction)
        requires
            old(self).wf(),
        ensures
            final(self).wf(),
            (final(self)@, action@) == art_start_next(old(self)@),
    {
        loop
            invariant
                self.wf(),
                art_start_next(self@) == art_start_next(old(self)@),
            decreases self.commands@.len() - self.next,
        {
            if self.next >= self.commands.len() {
                self.awaiting = ArtAwaiting::Idle;
                return ArtAction::Finished;
            }
            match &self.commands[self.next] {
                DataCommand::AddBytes(art_id, data) => {
                    let action = ArtAction::Ipfs {
                        request: IpfsRequest::AddBytes(copy_bytes(data)),
                        deadline: self.deadline,
                    };
                    self.awaiting = ArtAwaiting::Added { art_id: *art_id };
                    self.next = self.next + 1;
                    return action;
                },
                DataCommand::CatBytes(_) => {
                    self.next = self.next + 1;
                },
            }
        }
    }

    /// Starts the run with the first command that stores artwork data.
    pub fn start(&mut self) -> (action: ArtAction)
        requires
            old(self).wf(),
            old(self)@.awaiting == ArtAwaitingView::Idle,
        ensures
            final(self).wf(),
            (final(self)@, action@) == art_start_next(old(self)@),
    {
        self.start_next_command()
    }

    /// Resumes the run with how the last action ended.
    pub fn resume(&mut self, feedback: ArtFeedback) -> (action: ArtAction)
        requires
            old(self).wf(),
            art_feedback_fits(old(self)@.awaiting, feedback@),
        ensures
            final(self).wf(),
            (final(self)@, action@) == art_advance(old(self)@, feedback@),
            action is TransfigureArt ==> feedback@ == ArtFeedbackView::Ipfs(
                Ok(IpfsResponseView::AddBytes(action@->TransfigureArt_cid)),
            ),
    {
        proof {
            lemma_transfigure_only_with_stored_cid(self@, feedback@);
        }
        let mut awaiting = ArtAwaiting::Idle;
        std::mem::swap(&mut awaiting, &mut self.awaiting);
        match awaiting {
            ArtAwaiting::Added { art_id } => match feedback {
                ArtFeedback::Ipfs(Ok(IpfsResponse::AddBytes(cid))) => {
                    self.awaiting = ArtAwaiting::Transfigured;
                    ArtAction::TransfigureArt { id: art_id, cid }
                },
                _ => self.start_next_command(),
            },
            _ => self.start_next_command(),
        }
    }
}

} // verus!
