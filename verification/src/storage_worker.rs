//! The storage miner's off-chain worker: it carries out, one after the
//! other, the commands queued during the block. Each step hands the caller
//! one action (an IPFS request, a signed `update_storage` transaction, or a
//! refund of the storage fee) and is resumed with how that action ended.

use std::marker::PhantomData;
use vstd::prelude::*;
use crate::offchain::{
    saturating_sum, Duration, IpfsRequest, IpfsRequestView, IpfsResponse, IpfsResponseView,
    Timestamp, DATA_REQUEST_TIMEOUT_MS,
};
use crate::primitives::{copy_bytes, AccountId, Balance};
use crate::storage_miner::{CommandView, DataCommand, Error, Module, Trait};

verus! {

/// What the worker waits for.
#[derive(Debug)]
pub enum Awaiting {
    /// Nothing: no command started yet, or all done.
    Idle,
    /// The node's answer to storing the data paid by `initiator`.
    Added { initiator: AccountId },
    /// The node's answer to pinning `cid`, paid by `initiator`.
    Pinned { initiator: AccountId, cid: Vec<u8> },
    /// The submission of the transaction that records the pin.
    Recorded { initiator: AccountId },
    /// The node's answer to unpinning.
    Unpinned,
    /// The node's answer to fetching `cid`.
    Fetched { cid: Vec<u8> },
    /// The submission of the transaction that records the check.
    Checked,
    /// The refund of the storage fee.
    Refunded,
}

/// The mathematical form of [`Awaiting`].
pub enum AwaitingView {
    Idle,
    Added { initiator: AccountId },
    Pinned { initiator: AccountId, cid: Seq<u8> },
    Recorded { initiator: AccountId },
    Unpinned,
    Fetched { cid: Seq<u8> },
    Checked,
    Refunded,
}

impl View for Awaiting {
    type V = AwaitingView;

    open spec fn view(&self) -> AwaitingView {
        match self {
            Awaiting::Idle => AwaitingView::Idle,
            Awaiting::Added { initiator } => AwaitingView::Added { initiator: *initiator },
            Awaiting::Pinned { initiator, cid } => AwaitingView::Pinned {
                initiator: *initiator,
                cid: cid@,
            },
            Awaiting::Recorded { initiator } => AwaitingView::Recorded { initiator: *initiator },
            Awaiting::Unpinned => AwaitingView::Unpinned,
            Awaiting::Fetched { cid } => AwaitingView::Fetched { cid: cid@ },
            Awaiting::Checked => AwaitingView::Checked,
            Awaiting::Refunded => AwaitingView::Refunded,
        }
    }
}

/// How the last action handed out ended.
#[derive(Debug)]
pub enum Feedback {
    /// The IPFS request ended with this answer or error.
    Ipfs(Result<IpfsResponse, Error>),
    /// The signed transaction was submitted, or not.
    Submitted(Result<(), Error>),
    /// The refund was made, or not.
    Refunded(Result<(), Error>),
}

/// The mathematical form of [`Feedback`].
pub enum FeedbackView {
    Ipfs(Result<IpfsResponseView, Error>),
    Submitted(Result<(), Error>),
    Refunded(Result<(), Error>),
}

impl View for Feedback {
    type V = FeedbackView;

    open spec fn view(&self) -> FeedbackView {
        match self {
            Feedback::Ipfs(Ok(resp)) => FeedbackView::Ipfs(Ok(resp@)),
            Feedback::Ipfs(Err(e)) => FeedbackView::Ipfs(Err(*e)),
            Feedback::Submitted(r) => FeedbackView::Submitted(*r),
            Feedback::Refunded(r) => FeedbackView::Refunded(*r),
        }
    }
}

/// What the caller is to do next.
#[derive(Debug)]
pub enum Action {
    /// Send `request` to the IPFS node, to be answered by `deadline`.
    Ipfs { request: IpfsRequest, deadline: Timestamp },
    /// Submit a signed `update_storage` transaction with these arguments.
    UpdateStorage { initiator: Option<AccountId>, response: IpfsResponse, remark: bool },
    /// Refund `amount` to `to` from the off-chain worker's account.
    Refund { to: AccountId, amount: Balance },
    /// All queued commands are done.
    Finished,
}

/// The mathematical form of [`Action`].
pub enum ActionView {
    Ipfs { request: IpfsRequestView, deadline: Timestamp },
    UpdateStorage { initiator: Option<AccountId>, response: IpfsResponseView, remark: bool },
    Refund { to: AccountId, amount: Balance },
    Finished,
}

impl View for Action {
    type V = ActionView;

    open spec fn view(&self) -> ActionView {
        match self {
            Action::Ipfs { request, deadline } => ActionView::Ipfs {
                request: request@,
                deadline: *deadline,
            },
            Action::UpdateStorage { initiator, response, remark } => ActionView::UpdateStorage {
                initiator: *initiator,
                response: response@,
                remark: *remark,
            },
            Action::Refund { to, amount } => ActionView::Refund { to: *to, amount: *amount },
            Action::Finished => ActionView::Finished,
        }
    }
}

/// The mathematical state of the worker.
pub struct WorkerState {
    /// The queued commands, in order.
    pub commands: Seq<CommandView>,
    /// How many of them were started.
    pub next: nat,
    /// What the worker waits for.
    pub awaiting: AwaitingView,
    /// The deadline of every IPFS request of this run.
    pub deadline: Timestamp,
}

/// The first step of command `c`: storing data, unpinning, or fetching.
pub open spec fn command_start(c: CommandView, deadline: Timestamp) -> (AwaitingView, ActionView) {
    match c {
        CommandView::AddBytes(initiator, data) => (
            AwaitingView::Added { initiator },
            ActionView::Ipfs { request: IpfsRequestView::AddBytes(data), deadline },
        ),
        CommandView::RemovePin(cid) => (
            AwaitingView::Unpinned,
            ActionView::Ipfs { request: IpfsRequestView::RemovePin(cid, false), deadline },
        ),
        CommandView::CatBytes(cid) => (
            AwaitingView::Fetched { cid },
            ActionView::Ipfs { request: IpfsRequestView::CatBytes(cid), deadline },
        ),
    }
}

/// Starts the next queued command, or finishes when none is left.
pub open spec fn start_next(s: WorkerState) -> (WorkerState, ActionView) {
    if s.next < s.commands.len() {
        let (awaiting, action) = command_start(s.commands[s.next as int], s.deadline);
        (WorkerState { next: s.next + 1, awaiting, ..s }, action)
    } else {
        (WorkerState { awaiting: AwaitingView::Idle, ..s }, ActionView::Finished)
    }
}

/// The feedback that the worker accepts in each state: the outcome of the
/// action it handed out, where an IPFS answer is of the kind that the request
/// calls for.
pub open spec fn feedback_fits(a: AwaitingView, f: FeedbackView) -> bool {
    match a {
        AwaitingView::Idle => false,
        AwaitingView::Added { .. } => f matches FeedbackView::Ipfs(r) && (r matches Ok(resp)
            ==> resp is AddBytes),
        AwaitingView::Pinned { .. } => f matches FeedbackView::Ipfs(r) && (r matches Ok(resp)
            ==> resp is Success),
        AwaitingView::Recorded { .. } => f is Submitted,
        AwaitingView::Unpinned => f matches FeedbackView::Ipfs(r) && (r matches Ok(resp)
            ==> resp is Success),
        AwaitingView::Fetched { .. } => f matches FeedbackView::Ipfs(r) && (r matches Ok(resp)
            ==> resp is CatBytes),
        AwaitingView::Checked => f is Submitted,
        AwaitingView::Refunded => f is Refunded,
    }
}

/// The worker's answer to `f` within the current command, or `None` when the
/// command is done. Storing data goes on to pinning its content identifier,
/// and pinning to recording it on chain; a failure at any of the three steps
/// refunds the storage fee `fee` to the payer. Fetching is recorded on chain
/// as seen available exactly when the node answered.
pub open spec fn reaction(a: AwaitingView, f: FeedbackView, deadline: Timestamp, fee: Balance) -> Option<
    (AwaitingView, ActionView),
> {
    match a {
        AwaitingView::Added { initiator } => match f {
            FeedbackView::Ipfs(Ok(IpfsResponseView::AddBytes(cid))) => Some(
                (
                    AwaitingView::Pinned { initiator, cid },
                    ActionView::Ipfs { request: IpfsRequestView::InsertPin(cid, false), deadline },
                ),
            ),
            _ => Some((AwaitingView::Refunded, ActionView::Refund { to: initiator, amount: fee })),
        },
        AwaitingView::Pinned { initiator, cid } => match f {
            FeedbackView::Ipfs(Ok(_)) => Some(
                (
                    AwaitingView::Recorded { initiator },
                    ActionView::UpdateStorage {
                        initiator: Some(initiator),
                        response: IpfsResponseView::AddBytes(cid),
                        remark: false,
                    },
                ),
            ),
            _ => Some((AwaitingView::Refunded, ActionView::Refund { to: initiator, amount: fee })),
        },
        AwaitingView::Recorded { initiator } => match f {
            FeedbackView::Submitted(Ok(_)) => None,
            _ => Some((AwaitingView::Refunded, ActionView::Refund { to: initiator, amount: fee })),
        },
        AwaitingView::Fetched { cid } => match f {
            FeedbackView::Ipfs(r) => Some(
                (
                    AwaitingView::Checked,
                    ActionView::UpdateStorage {
                        initiator: None,
                        response: IpfsResponseView::CatBytes(cid),
                        remark: r is Ok,
                    },
                ),
            ),
            _ => None,
        },
        _ => None,
    }
}

/// One step of the worker on feedback `f`, with storage fee `fee`.
pub open spec fn advance(s: WorkerState, f: FeedbackView, fee: Balance) -> (WorkerState, ActionView) {
    match reaction(s.awaiting, f, s.deadline, fee) {
        Some((awaiting, action)) => (WorkerState { awaiting, ..s }, action),
        None => start_next(WorkerState { awaiting: AwaitingView::Idle, ..s }),
    }
}

/// A pin that was stored, pinned and recorded on chain ends its command
/// with no refund: the worker goes on to store, unpin or fetch for the next
/// queued command, with the run's deadline, or finishes when none is left.
pub proof fn lemma_recorded_pin_moves_on(s: WorkerState, payer: AccountId, fee: Balance)
    requires
        s.awaiting == (AwaitingView::Recorded { initiator: payer }),
    ensures
        !(advance(s, FeedbackView::Submitted(Ok(())), fee).1 is Refund),
        s.next >= s.commands.len() ==> advance(s, FeedbackView::Submitted(Ok(())), fee).1
            == ActionView::Finished,
        s.next < s.commands.len() ==> advance(s, FeedbackView::Submitted(Ok(())), fee).0.next == s.next + 1,
        s.next < s.commands.len() ==> (match s.commands[s.next as int] {
            CommandView::AddBytes(_, data) => advance(s, FeedbackView::Submitted(Ok(())), fee).1
                == (ActionView::Ipfs { request: IpfsRequestView::AddBytes(data), deadline: s.deadline }),
            CommandView::RemovePin(cid) => advance(s, FeedbackView::Submitted(Ok(())), fee).1
                == (ActionView::Ipfs { request: IpfsRequestView::RemovePin(cid, false), deadline: s.deadline }),
            CommandView::CatBytes(cid) => advance(s, FeedbackView::Submitted(Ok(())), fee).1
                == (ActionView::Ipfs { request: IpfsRequestView::CatBytes(cid), deadline: s.deadline }),
        }),
{
}

/// A refund is handed out only after a failed step of storing paid data
/// (storing it on the node, pinning it, or recording it on chain), to the
/// payer of that data, of the storage fee.
pub proof fn lemma_refund_only_after_failure(s: WorkerState, f: FeedbackView, fee: Balance)
    requires
        feedback_fits(s.awaiting, f),
    ensures
        advance(s, f, fee).1 is Refund ==> advance(s, f, fee).1->Refund_amount == fee,
        advance(s, f, fee).1 is Refund ==> (f matches FeedbackView::Ipfs(Err(_))) || (
        f matches FeedbackView::Submitted(Err(_))),
        advance(s, f, fee).1 is Refund ==> ((s.awaiting is Added && s.awaiting->Added_initiator
            == advance(s, f, fee).1->Refund_to) || (s.awaiting is Pinned && s.awaiting->Pinned_initiator
            == advance(s, f, fee).1->Refund_to) || (s.awaiting is Recorded
            && s.awaiting->Recorded_initiator == advance(s, f, fee).1->Refund_to)),
{
}

/// How many steps a command at each stage may still take.
pub open spec fn stage_rank(a: AwaitingView) -> nat {
    match a {
        AwaitingView::Added { .. } => 3,
        AwaitingView::Pinned { .. } => 2,
        AwaitingView::Recorded { .. } => 1,
        AwaitingView::Fetched { .. } => 1,
        _ => 0,
    }
}

/// An upper bound on the steps left to the worker.
pub open spec fn remaining_steps(s: WorkerState) -> int {
    (s.commands.len() - s.next) * 4 + stage_rank(s.awaiting)
}

/// Each step of the worker either finishes the run, with every queued
/// command taken up, or brings it closer to its end: the worker takes up the
/// queued commands one after the other and always terminates.
pub proof fn lemma_worker_progress(s: WorkerState, f: FeedbackView, fee: Balance)
    requires
        s.next <= s.commands.len(),
        feedback_fits(s.awaiting, f),
    ensures
        advance(s, f, fee).0.commands == s.commands,
        advance(s, f, fee).0.next <= s.commands.len(),
        ({
            let (t, action) = advance(s, f, fee);
            ||| (action == ActionView::Finished && t.next == s.commands.len())
            ||| (0 <= remaining_steps(t) < remaining_steps(s))
        }),
{
}

/// A failure at any step of storing paid data (storing it on the node,
/// pinning it, or recording it on chain) refunds the full storage fee to the
/// payer.
pub proof fn lemma_pin_failure_refunds(s: WorkerState, f: FeedbackView, fee: Balance, payer: AccountId)
    requires
        feedback_fits(s.awaiting, f),
        (s.awaiting matches AwaitingView::Added { initiator } && initiator == payer)
            || (s.awaiting matches AwaitingView::Pinned { initiator, .. } && initiator == payer)
            || (s.awaiting matches AwaitingView::Recorded { initiator } && initiator == payer),
        (f matches FeedbackView::Ipfs(Err(_))) || (f matches FeedbackView::Submitted(Err(_))),
    ensures
        advance(s, f, fee).1 == (ActionView::Refund { to: payer, amount: fee }),
        advance(s, f, fee).0.awaiting == AwaitingView::Refunded,
{
}

/// Paid data is stored, then its content identifier is pinned, then the pin
/// is recorded on chain under that identifier with the payer as initiator.
pub proof fn lemma_pin_sequence(s: WorkerState, payer: AccountId, cid: Seq<u8>, fee: Balance)
    requires
        s.awaiting == (AwaitingView::Added { initiator: payer }),
    ensures
        ({
            let (s1, a1) = advance(s, FeedbackView::Ipfs(Ok(IpfsResponseView::AddBytes(cid))), fee);
            let (s2, a2) = advance(s1, FeedbackView::Ipfs(Ok(IpfsResponseView::Success)), fee);
            &&& a1 == (ActionView::Ipfs {
                request: IpfsRequestView::InsertPin(cid, false),
                deadline: s.deadline,
            })
            &&& a2 == (ActionView::UpdateStorage {
                initiator: Some(payer),
                response: IpfsResponseView::AddBytes(cid),
                remark: false,
            })
            &&& s2.awaiting == (AwaitingView::Recorded { initiator: payer })
        }),
{
}

/// The availability check is recorded on chain as seen available exactly
/// when the node returned the data.
pub proof fn lemma_check_recorded(s: WorkerState, r: Result<IpfsResponseView, Error>, fee: Balance)
    requires
        s.awaiting is Fetched,
        feedback_fits(s.awaiting, FeedbackView::Ipfs(r)),
    ensures
        advance(s, FeedbackView::Ipfs(r), fee).1 == (ActionView::UpdateStorage {
            initiator: None,
            response: IpfsResponseView::CatBytes(s.awaiting->Fetched_cid),
            remark: r is Ok,
        }),
{
}

/// The worker for one block's queue.
pub struct DataWorker<T: Trait> {
    commands: Vec<DataCommand>,
    next: usize,
    awaiting: Awaiting,
    deadline: Timestamp,
    config: PhantomData<T>,
}

impl<T: Trait> View for DataWorker<T> {
    type V = WorkerState;

    closed spec fn view(&self) -> WorkerState {
        WorkerState {
            commands: self.commands@.map_values(|c: DataCommand| c@),
            next: self.next as nat,
            awaiting: self.awaiting@,
            deadline: self.deadline,
        }
    }
}

impl<T: Trait> DataWorker<T> {
    /// The internal invariant: no more commands started than queued.
    pub closed spec fn wf(&self) -> bool {
        self.next <= self.commands@.len()
    }

    /// The worker for `queue`, started at `now`; its IPFS requests are due
    /// one second later.
    pub fn new(queue: Vec<DataCommand>, now: Timestamp) -> (w: Self)
        ensures
            w.wf(),
            w@.commands == queue@.map_values(|c: DataCommand| c@),
            w@.next == 0,
            w@.awaiting == AwaitingView::Idle,
            w@.deadline@ == saturating_sum(now@, DATA_REQUEST_TIMEOUT_MS),
    {
        DataWorker {
            commands: queue,
            next: 0,
            awaiting: Awaiting::Idle,
            deadline: now.add(Duration::from_millis(DATA_REQUEST_TIMEOUT_MS)),
            config: PhantomData,
        }
    }

    /// The worker for the work that `module` has queued, started at `now`;
    /// it holds its own copy of the queue.
    pub fn new_for(module: &Module<T>, now: Timestamp) -> (w: Self)
        ensures
            w.wf(),
            w@.commands == module@.queue,
            w@.next == 0,
            w@.awaiting == AwaitingView::Idle,
            w@.deadline@ == saturating_sum(now@, DATA_REQUEST_TIMEOUT_MS),
    {
        let queue = module.queue();
        let mut copy: Vec<DataCommand> = Vec::new();
        let mut i: usize = 0;
        while i < queue.len()
            invariant
                i <= queue@.len(),
                copy@.len() == i,
                forall|j: int| 0 <= j < i ==> #[trigger] copy@[j]@ == queue@[j]@,
            decreases queue@.len() - i,
        {
            copy.push(queue[i].duplicate());
            i = i + 1;
        }
        assert(copy@.map_values(|c: DataCommand| c@) =~= queue@.map_values(|c: DataCommand| c@));
        Self::new(copy, now)
    }

    fn start_next_command(&mut self) -> (action: Action)
        requires
            old(self).wf(),
        ensures
            final(self).wf(),
            (final(self)@, action@) == start_next(old(self)@),
    {
        if self.next < self.commands.len() {
            let (awaiting, action) = match &self.commands[self.next] {
                DataCommand::AddBytes(initiator, data) => (
                    Awaiting::Added { initiator: *initiator },
                    Action::Ipfs {
                        request: IpfsRequest::AddBytes(copy_bytes(data)),
                        deadline: self.deadline,
                    },
                ),
                DataCommand::RemovePin(cid) => (
                    Awaiting::Unpinned,
                    Action::Ipfs {
                        request: IpfsRequest::RemovePin(copy_bytes(cid), false),
                        deadline: self.deadline,
                    },
                ),
                DataCommand::CatBytes(cid) => (
                    Awaiting::Fetched { cid: copy_bytes(cid) },
                    Action::Ipfs {
                        request: IpfsRequest::CatBytes(copy_bytes(cid)),
                        deadline: self.deadline,
                    },
                ),
            };
            self.awaiting = awaiting;
            self.next = self.next + 1;
            action
        } else {
            self.awaiting = Awaiting::Idle;
            Action::Finished
        }
    }

    /// Starts the run with the first queued command.
    pub fn start(&mut self) -> (action: Action)
        requires
            old(self).wf(),
            old(self)@.awaiting == AwaitingView::Idle,
        ensures
            final(self).wf(),
            (final(self)@, action@) == start_next(old(self)@),
    {
        self.start_next_command()
    }

    /// Resumes the run with how the last action ended.
    pub fn resume(&mut self, feedback: Feedback) -> (action: Action)
        requires
            old(self).wf(),
            feedback_fits(old(self)@.awaiting, feedback@),
        ensures
            final(self).wf(),
            (final(self)@, action@) == advance(old(self)@, feedback@, T::storage_fee_spec()),
            old(self)@.awaiting is Recorded && feedback@ == FeedbackView::Submitted(Ok(())) ==> !(action is Refund),
            action is Refund ==> (feedback@ matches FeedbackView::Ipfs(Err(_))) || (
            feedback@ matches FeedbackView::Submitted(Err(_))),
    {
        let mut awaiting = Awaiting::Idle;
        std::mem::swap(&mut awaiting, &mut self.awaiting);
        match awaiting {
            Awaiting::Added { initiator } => match feedback {
                Feedback::Ipfs(Ok(IpfsResponse::AddBytes(cid))) => {
                    self.awaiting = Awaiting::Pinned { initiator, cid: copy_bytes(&cid) };
                    Action::Ipfs { request: IpfsRequest::InsertPin(cid, false), deadline: self.deadline }
                },
                _ => {
                    self.awaiting = Awaiting::Refunded;
                    Action::Refund { to: initiator, amount: T::storage_fee() }
                },
            },
            Awaiting::Pinned { initiator, cid } => match feedback {
                Feedback::Ipfs(Ok(_)) => {
                    self.awaiting = Awaiting::Recorded { initiator };
                    Action::UpdateStorage {
                        initiator: Some(initiator),
                        response: IpfsResponse::AddBytes(cid),
                        remark: false,
                    }
                },
                _ => {
                    self.awaiting = Awaiting::Refunded;
                    Action::Refund { to: initiator, amount: T::storage_fee() }
                },
            },
            Awaiting::Recorded { initiator } => match feedback {
                Feedback::Submitted(Ok(_)) => self.start_next_command(),
                _ => {
                    self.awaiting = Awaiting::Refunded;
                    Action::Refund { to: initiator, amount: T::storage_fee() }
                },
            },
            Awaiting::Fetched { cid } => match feedback {
                Feedback::Ipfs(r) => {
                    let remark = r.is_ok();
                    self.awaiting = Awaiting::Checked;
                    Action::UpdateStorage {
                        initiator: None,
                        response: IpfsResponse::CatBytes(cid),
                        remark,
                    }
                },
                _ => self.start_next_command(),
            },
            _ => self.start_next_command(),
        }
    }
}

} // verus!
