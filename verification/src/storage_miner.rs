//! The storage miner: other accounts pay a flat fee to have data stored and
//! pinned on the miner's IPFS node, may have it unpinned for a flat refund,
//! may ask for its availability to be checked, and are refunded when stored
//! data is reported unavailable.
//!
//! Dispatchable calls take the signed origin's account as `who`. A balance
//! transfer is done by the `transfer` closure the caller hands in (from, to,
//! amount); the contracts say which transfer is asked for and what follows
//! from each of its outcomes.

use std::marker::PhantomData;
use vstd::prelude::*;
use crate::byte_map::ByteMap;
use crate::offchain::{IpfsReply, IpfsResponse, IpfsResponseView, SignedSubmission, Timestamp};
use crate::primitives::{copy_bytes, AccountId, Balance, BlockNumber};

verus! {

/// The configuration of the module: the two flat fees.
pub trait Trait {
    /// The flat fee for storing and pinning data.
    spec fn storage_fee_spec() -> Balance;

    /// The flat refund for unpinned or unavailable data.
    spec fn refund_fee_spec() -> Balance;

    /// The flat fee for storing and pinning data.
    fn storage_fee() -> (fee: Balance)
        ensures
            fee == Self::storage_fee_spec(),
    ;

    /// The flat refund for unpinned or unavailable data.
    fn refund_fee() -> (fee: Balance)
        ensures
            fee == Self::refund_fee_spec(),
    ;
}

/// What the chain knows of a stored content identifier.
#[derive(Clone, Copy, PartialEq, Eq, Structural, Debug)]
pub struct Record {
    /// The account that paid for the data, if known.
    pub initiator: Option<AccountId>,
    /// When the data was last seen available, if it was.
    pub avail: Option<Timestamp>,
}

/// The record of a content identifier that has none stored.
pub open spec fn empty_record() -> Record {
    Record { initiator: None, avail: None }
}

impl Default for Record {
    fn default() -> (r: Self)
        ensures
            r == empty_record(),
    {
        Record { initiator: None, avail: None }
    }
}

/// Work queued for the off-chain worker.
#[derive(Debug)]
pub enum DataCommand {
    /// Store and pin the data, paid by the account.
    AddBytes(AccountId, Vec<u8>),
    /// Check that the content identifier can be fetched.
    CatBytes(Vec<u8>),
    /// Unpin the content identifier.
    RemovePin(Vec<u8>),
}

/// The mathematical form of a [`DataCommand`].
pub enum CommandView {
    AddBytes(AccountId, Seq<u8>),
    CatBytes(Seq<u8>),
    RemovePin(Seq<u8>),
}

impl View for DataCommand {
    type V = CommandView;

    open spec fn view(&self) -> CommandView {
        match self {
            DataCommand::AddBytes(a, d) => CommandView::AddBytes(*a, d@),
            DataCommand::CatBytes(c) => CommandView::CatBytes(c@),
            DataCommand::RemovePin(c) => CommandView::RemovePin(c@),
        }
    }
}

impl DataCommand {
    /// A copy of this command.
    pub fn duplicate(&self) -> (c: DataCommand)
        ensures
            c@ == self@,
    {
        match self {
            DataCommand::AddBytes(a, d) => DataCommand::AddBytes(*a, copy_bytes(d)),
            DataCommand::CatBytes(c) => DataCommand::CatBytes(copy_bytes(c)),
            DataCommand::RemovePin(c) => DataCommand::RemovePin(copy_bytes(c)),
        }
    }
}

/// What the module reports of a successful call.
#[derive(Debug)]
pub enum Event {
    /// The account asked for data to be pinned.
    PinRequest(AccountId),
    /// The account asked for the content identifier to be unpinned.
    RemovePinRequest(AccountId, Vec<u8>),
    /// The account reported the content identifier unavailable, and its
    /// payer was refunded.
    RefundDueToMissingData(AccountId, Vec<u8>),
    /// The account asked for the content identifier to be checked.
    CheckRequest(AccountId, Vec<u8>),
    /// The off-chain worker recorded the node's answer.
    StorageUpdated(IpfsResponse),
    /// Data was stored under a content identifier.
    Stored(u64, Vec<u8>),
}

/// The mathematical form of an [`Event`].
pub enum EventView {
    PinRequest(AccountId),
    RemovePinRequest(AccountId, Seq<u8>),
    RefundDueToMissingData(AccountId, Seq<u8>),
    CheckRequest(AccountId, Seq<u8>),
    StorageUpdated(IpfsResponseView),
    Stored(u64, Seq<u8>),
}

impl View for Event {
    type V = EventView;

    open spec fn view(&self) -> EventView {
        match self {
            Event::PinRequest(a) => EventView::PinRequest(*a),
            Event::RemovePinRequest(a, c) => EventView::RemovePinRequest(*a, c@),
            Event::RefundDueToMissingData(a, c) => EventView::RefundDueToMissingData(*a, c@),
            Event::CheckRequest(a, c) => EventView::CheckRequest(*a, c@),
            Event::StorageUpdated(r) => EventView::StorageUpdated(r@),
            Event::Stored(n, c) => EventView::Stored(*n, c@),
        }
    }
}

/// Why a call of the module failed.
#[derive(Clone, Copy, PartialEq, Eq, Structural, Debug)]
pub enum Error {
    /// The caller is not the off-chain worker's account.
    InvalidOW,
    /// The IPFS request could not be created.
    CantCreateRequest,
    /// The IPFS request passed its deadline.
    RequestTimeout,
    /// The IPFS node reported an error.
    RequestFailed,
    /// The signed transaction could not be submitted.
    OffchainSignedTxError,
    /// No local account could sign the transaction.
    OffchainSignerError,
    /// The content identifier has no payer on record.
    Unpinned,
    /// The caller is not the payer on record.
    NotInitiator,
    /// The content identifier is not stored.
    NotInStorage,
    /// The reported data was seen available.
    ReportAvailabelData,
    /// The refund transfer failed.
    RefundError,
}

/// The mathematical state of the module.
pub struct MinerState {
    /// The account of the off-chain worker, which alone may record results.
    pub ow_account_id: AccountId,
    /// The record of each stored content identifier.
    pub storage: Map<Seq<u8>, Record>,
    /// The work queued for this block's off-chain worker.
    pub queue: Seq<CommandView>,
}

/// The record that the chain holds for `cid`: the empty record where none is
/// stored.
pub open spec fn record_of(storage: Map<Seq<u8>, Record>, cid: Seq<u8>) -> Record {
    if storage.dom().contains(cid) {
        storage[cid]
    } else {
        empty_record()
    }
}

/// The on-chain state of the storage miner.
pub struct Module<T: Trait> {
    ow_account_id: AccountId,
    storage: ByteMap<Record>,
    queue: Vec<DataCommand>,
    config: PhantomData<T>,
}

impl<T: Trait> View for Module<T> {
    type V = MinerState;

    closed spec fn view(&self) -> MinerState {
        MinerState {
            ow_account_id: self.ow_account_id,
            storage: self.storage@,
            queue: self.queue@.map_values(|c: DataCommand| c@),
        }
    }
}

/// The transfer closure may answer `Ok` on these arguments.
pub open spec fn transfer_succeeds<E, F: FnOnce(AccountId, AccountId, Balance) -> Result<(), E>>(
    transfer: F,
    from: AccountId,
    to: AccountId,
    amount: Balance,
) -> bool {
    call_ensures(transfer, (from, to, amount), Ok::<(), E>(()))
}

/// The transfer closure may answer with an error on these arguments.
pub open spec fn transfer_fails<E, F: FnOnce(AccountId, AccountId, Balance) -> Result<(), E>>(
    transfer: F,
    from: AccountId,
    to: AccountId,
    amount: Balance,
) -> bool {
    exists|e: E| call_ensures(transfer, (from, to, amount), Err::<(), E>(e))
}

/// The state with `c` queued after the work already queued.
pub open spec fn queued(s: MinerState, c: CommandView) -> MinerState {
    MinerState { queue: s.queue.push(c), ..s }
}

/// The storage after the off-chain worker records `response`: a new content
/// identifier is stored with its payer and seen available now; a checked one,
/// if stored, keeps its payer and is seen available now, or not at all,
/// according to `remark`. Other answers change nothing.
pub open spec fn updated_storage(
    storage: Map<Seq<u8>, Record>,
    initiator: Option<AccountId>,
    response: IpfsResponseView,
    remark: bool,
    now: Timestamp,
) -> Map<Seq<u8>, Record> {
    match response {
        IpfsResponseView::AddBytes(cid) => storage.insert(
            cid,
            Record { initiator, avail: Some(now) },
        ),
        IpfsResponseView::CatBytes(cid) => if storage.dom().contains(cid) {
            storage.insert(
                cid,
                Record { avail: if remark { Some(now) } else { None }, ..storage[cid] },
            )
        } else {
            storage
        },
        _ => storage,
    }
}

/// What removing the pin of `cid` for `from` does, with `fee` the refund:
/// the record of `cid` is dropped in every case; without a payer on record
/// the call fails with `Unpinned`, with another payer with `NotInitiator`;
/// otherwise `fee` is transferred from the off-chain worker's account to
/// `from`, and on success the unpinning is queued, on failure the call fails
/// with `RefundError`.
pub open spec fn unpin_outcome<E, F: FnOnce(AccountId, AccountId, Balance) -> Result<(), E>>(
    pre: MinerState,
    post: MinerState,
    from: AccountId,
    cid: Seq<u8>,
    fee: Balance,
    transfer: F,
    r: Result<(), Error>,
) -> bool {
    let dropped = MinerState { storage: pre.storage.remove(cid), ..pre };
    match record_of(pre.storage, cid).initiator {
        None => r == Err::<(), Error>(Error::Unpinned) && post == dropped,
        Some(i) => if i != from {
            r == Err::<(), Error>(Error::NotInitiator) && post == dropped
        } else {
            ||| (r is Ok && transfer_succeeds(transfer, pre.ow_account_id, from, fee) && post
                == queued(dropped, CommandView::RemovePin(cid)))
            ||| (r == Err::<(), Error>(Error::RefundError) && transfer_fails(
                transfer,
                pre.ow_account_id,
                from,
                fee,
            ) && post == dropped)
        },
    }
}

/// Whether reporting `cid` could hand the refund to nobody: its record is
/// stored, not seen available, and has no payer.
pub open spec fn report_has_no_payee(s: MinerState, cid: Seq<u8>) -> bool {
    s.storage.dom().contains(cid) && s.storage[cid].avail is None && s.storage[cid].initiator is None
}

/// What reporting `cid` unavailable does, with `fee` the refund: it fails
/// with `NotInStorage` when nothing is stored for `cid`, with
/// `ReportAvailabelData` when the data was seen available; otherwise `fee` is
/// transferred from the off-chain worker's account to the payer on record,
/// and on success the record is removed, on failure the call fails with
/// `RefundError`. Only a successful refund changes the state.
pub open spec fn report_outcome<E, F: FnOnce(AccountId, AccountId, Balance) -> Result<(), E>>(
    pre: MinerState,
    post: MinerState,
    cid: Seq<u8>,
    fee: Balance,
    transfer: F,
    r: Result<(), Error>,
) -> bool {
    if !pre.storage.dom().contains(cid) {
        r == Err::<(), Error>(Error::NotInStorage) && post == pre
    } else if pre.storage[cid].avail is Some {
        r == Err::<(), Error>(Error::ReportAvailabelData) && post == pre
    } else {
        let payee = pre.storage[cid].initiator.unwrap();
        ||| (r is Ok && transfer_succeeds(transfer, pre.ow_account_id, payee, fee) && post
            == MinerState { storage: pre.storage.remove(cid), ..pre })
        ||| (r == Err::<(), Error>(Error::RefundError) && transfer_fails(
            transfer,
            pre.ow_account_id,
            payee,
            fee,
        ) && post == pre)
    }
}

/// The error that an IPFS request ended with, or the node's answer.
pub open spec fn ipfs_request_outcome(reply: IpfsReply, r: Result<IpfsResponse, Error>) -> bool {
    match reply {
        IpfsReply::NotCreated => r == Err::<IpfsResponse, Error>(Error::CantCreateRequest),
        IpfsReply::DeadlineReached => r == Err::<IpfsResponse, Error>(Error::RequestTimeout),
        IpfsReply::Failed => r == Err::<IpfsResponse, Error>(Error::RequestFailed),
        IpfsReply::Answered(resp) => r == Ok::<IpfsResponse, Error>(resp),
    }
}

/// The result of submitting a signed transaction.
pub open spec fn submission_outcome(s: SignedSubmission) -> Result<(), Error> {
    match s {
        SignedSubmission::NoAccount => Err(Error::OffchainSignerError),
        SignedSubmission::Rejected => Err(Error::OffchainSignedTxError),
        SignedSubmission::Accepted => Ok(()),
    }
}

/// Once the worker records stored and pinned data, its record names the
/// payer and shows the data available now; reporting it then fails with
/// `ReportAvailabelData` and changes nothing.
pub proof fn lemma_recorded_pin_not_reportable<E, F: FnOnce(AccountId, AccountId, Balance) -> Result<(), E>>(
    s: MinerState,
    payer: AccountId,
    cid: Seq<u8>,
    now: Timestamp,
    fee: Balance,
    transfer: F,
    post: MinerState,
    r: Result<(), Error>,
)
    requires
        report_outcome(
            MinerState {
                storage: updated_storage(s.storage, Some(payer), IpfsResponseView::AddBytes(cid), false, now),
                ..s
            },
            post,
            cid,
            fee,
            transfer,
            r,
        ),
    ensures
        record_of(
            updated_storage(s.storage, Some(payer), IpfsResponseView::AddBytes(cid), false, now),
            cid,
        ) == (Record { initiator: Some(payer), avail: Some(now) }),
        r == Err::<(), Error>(Error::ReportAvailabelData),
        post == (MinerState {
            storage: updated_storage(s.storage, Some(payer), IpfsResponseView::AddBytes(cid), false, now),
            ..s
        }),
{
}

/// Stored data that a check found unavailable is refunded to its payer when
/// reported, and its record is then removed; or the refund fails, the report
/// fails with `RefundError`, and nothing changes.
pub proof fn lemma_unavailable_report_refunds<E, F: FnOnce(AccountId, AccountId, Balance) -> Result<(), E>>(
    s: MinerState,
    payer: AccountId,
    cid: Seq<u8>,
    now: Timestamp,
    fee: Balance,
    transfer: F,
    post: MinerState,
    r: Result<(), Error>,
)
    requires
        s.storage.dom().contains(cid),
        s.storage[cid].initiator == Some(payer),
        report_outcome(
            MinerState {
                storage: updated_storage(s.storage, None, IpfsResponseView::CatBytes(cid), false, now),
                ..s
            },
            post,
            cid,
            fee,
            transfer,
            r,
        ),
    ensures
        ({
            ||| (r is Ok && transfer_succeeds(transfer, s.ow_account_id, payer, fee)
                && post == (MinerState {
                storage: updated_storage(s.storage, None, IpfsResponseView::CatBytes(cid), false, now)
                    .remove(cid),
                ..s
            }))
            ||| (r == Err::<(), Error>(Error::RefundError) && transfer_fails(
                transfer,
                s.ow_account_id,
                payer,
                fee,
            ) && post == (MinerState {
                storage: updated_storage(s.storage, None, IpfsResponseView::CatBytes(cid), false, now),
                ..s
            }))
        }),
{
}

/// Removing a pin drops the record of the content identifier whatever the
/// outcome, and succeeds only for the payer on record, who then got the
/// refund, with the unpinning queued.
pub proof fn lemma_unpin_refunds_payer<E, F: FnOnce(AccountId, AccountId, Balance) -> Result<(), E>>(
    pre: MinerState,
    post: MinerState,
    from: AccountId,
    cid: Seq<u8>,
    fee: Balance,
    transfer: F,
    r: Result<(), Error>,
)
    requires
        unpin_outcome(pre, post, from, cid, fee, transfer, r),
    ensures
        !post.storage.dom().contains(cid),
        r is Ok ==> record_of(pre.storage, cid).initiator == Some(from) && transfer_succeeds(
            transfer,
            pre.ow_account_id,
            from,
            fee,
        ) && post.queue == pre.queue.push(CommandView::RemovePin(cid)),
        r is Err ==> post.queue == pre.queue,
{
}

/// The unpin refund for a content identifier is paid at most once: right
/// after a successful unpin of `cid`, another unpin of `cid`, by any account,
/// fails with `Unpinned` and changes nothing.
pub proof fn lemma_unpin_refunded_once<
    E,
    F: FnOnce(AccountId, AccountId, Balance) -> Result<(), E>,
    G: FnOnce(AccountId, AccountId, Balance) -> Result<(), E>,
>(
    pre: MinerState,
    mid: MinerState,
    post: MinerState,
    from: AccountId,
    other: AccountId,
    cid: Seq<u8>,
    fee: Balance,
    first: F,
    second: G,
    r1: Result<(), Error>,
    r2: Result<(), Error>,
)
    requires
        unpin_outcome(pre, mid, from, cid, fee, first, r1),
        r1 is Ok,
        unpin_outcome(mid, post, other, cid, fee, second, r2),
    ensures
        r2 == Err::<(), Error>(Error::Unpinned),
        post == mid,
{
    assert(!mid.storage.dom().contains(cid));
    assert(mid.storage.remove(cid) =~= mid.storage);
}

/// A missing content identifier is refunded at most once: right after a
/// successful report of `cid`, another report of `cid` fails with
/// `NotInStorage` and changes nothing.
pub proof fn lemma_report_refunded_once<
    E,
    F: FnOnce(AccountId, AccountId, Balance) -> Result<(), E>,
    G: FnOnce(AccountId, AccountId, Balance) -> Result<(), E>,
>(
    pre: MinerState,
    mid: MinerState,
    post: MinerState,
    cid: Seq<u8>,
    fee: Balance,
    first: F,
    second: G,
    r1: Result<(), Error>,
    r2: Result<(), Error>,
)
    requires
        report_outcome(pre, mid, cid, fee, first, r1),
        r1 is Ok,
        report_outcome(mid, post, cid, fee, second, r2),
    ensures
        r2 == Err::<(), Error>(Error::NotInStorage),
        post == mid,
{
}

/// Queuing a command keeps every command queued before it, in order, and
/// adds exactly that command after them; nothing else changes.
pub proof fn lemma_queued_appends(s: MinerState, c: CommandView)
    ensures
        queued(s, c).queue.len() == s.queue.len() + 1,
        forall|i: int| 0 <= i < s.queue.len() ==> #[trigger] queued(s, c).queue[i] == s.queue[i],
        queued(s, c).queue[s.queue.len() as int] == c,
        queued(s, c).storage == s.storage,
        queued(s, c).ow_account_id == s.ow_account_id,
{
}

/// Two successful pins in a block queue both pieces of data, in order,
/// after what was queued before.
pub proof fn lemma_two_pins_both_queued(
    s: MinerState,
    first: AccountId,
    a: Seq<u8>,
    second: AccountId,
    b: Seq<u8>,
)
    ensures
        queued(queued(s, CommandView::AddBytes(first, a)), CommandView::AddBytes(second, b)).queue
            =~= s.queue + seq![CommandView::AddBytes(first, a), CommandView::AddBytes(second, b)],
{
}

/// Recording a check of a stored content identifier keeps its payer and
/// sets when its data was seen available: now when the node returned the
/// data, whatever was recorded before, and never otherwise. No other
/// content identifier changes, and a check of one that is not stored stores
/// nothing.
pub proof fn lemma_check_recorded_on_chain(
    storage: Map<Seq<u8>, Record>,
    initiator: Option<AccountId>,
    cid: Seq<u8>,
    remark: bool,
    now: Timestamp,
)
    ensures
        updated_storage(storage, initiator, IpfsResponseView::CatBytes(cid), remark, now).dom()
            == storage.dom(),
        storage.dom().contains(cid) ==> updated_storage(storage, initiator, IpfsResponseView::CatBytes(cid), remark, now)[cid].initiator
            == storage[cid].initiator,
        storage.dom().contains(cid) && remark ==> updated_storage(storage, initiator, IpfsResponseView::CatBytes(cid), remark, now)[cid].avail
            == Some(now),
        storage.dom().contains(cid) && !remark ==> updated_storage(storage, initiator, IpfsResponseView::CatBytes(cid), remark, now)[cid].avail
            is None,
        forall|q: Seq<u8>|
            q != cid && storage.dom().contains(q) ==> #[trigger] updated_storage(
                storage,
                initiator,
                IpfsResponseView::CatBytes(cid),
                remark,
                now,
            )[q] == storage[q],
{
    assert(updated_storage(storage, initiator, IpfsResponseView::CatBytes(cid), remark, now).dom() =~= storage.dom());
}

/// Recording a new pin stores its content identifier with its payer, seen
/// available now, in place of what was stored for it; no other content
/// identifier changes.
pub proof fn lemma_pin_recorded_on_chain(
    storage: Map<Seq<u8>, Record>,
    initiator: Option<AccountId>,
    cid: Seq<u8>,
    remark: bool,
    now: Timestamp,
)
    ensures
        updated_storage(storage, initiator, IpfsResponseView::AddBytes(cid), remark, now).dom()
            == storage.dom().insert(cid),
        updated_storage(storage, initiator, IpfsResponseView::AddBytes(cid), remark, now)[cid]
            == (Record { initiator, avail: Some(now) }),
        forall|q: Seq<u8>|
            q != cid && storage.dom().contains(q) ==> #[trigger] updated_storage(
                storage,
                initiator,
                IpfsResponseView::AddBytes(cid),
                remark,
                now,
            )[q] == storage[q],
{
}

/// Data found available by a check cannot be reported afterwards: after a
/// pin is recorded and a later check finds the data, a report fails with
/// `ReportAvailabelData` and changes nothing.
pub proof fn lemma_available_after_check_not_reportable<E, F: FnOnce(AccountId, AccountId, Balance) -> Result<(), E>>(
    s: MinerState,
    payer: AccountId,
    cid: Seq<u8>,
    stored_at: Timestamp,
    checked_at: Timestamp,
    fee: Balance,
    transfer: F,
    post: MinerState,
    r: Result<(), Error>,
)
    requires
        report_outcome(
            MinerState {
                storage: updated_storage(
                    updated_storage(s.storage, Some(payer), IpfsResponseView::AddBytes(cid), false, stored_at),
                    None,
                    IpfsResponseView::CatBytes(cid),
                    true,
                    checked_at,
                ),
                ..s
            },
            post,
            cid,
            fee,
            transfer,
            r,
        ),
    ensures
        r == Err::<(), Error>(Error::ReportAvailabelData),
        record_of(post.storage, cid) == (Record { initiator: Some(payer), avail: Some(checked_at) }),
{
}

/// Maps how an IPFS request ended to its answer or the module's error.
pub fn ipfs_request_result(reply: IpfsReply) -> (r: Result<IpfsResponse, Error>)
    ensures
        ipfs_request_outcome(reply, r),
{
    match reply {
        IpfsReply::NotCreated => Err(Error::CantCreateRequest),
        IpfsReply::DeadlineReached => Err(Error::RequestTimeout),
        IpfsReply::Failed => Err(Error::RequestFailed),
        IpfsReply::Answered(resp) => Ok(resp),
    }
}

/// Maps the submission of the off-chain worker's signed `update_storage`
/// transaction to its result.
pub fn ocw_update_storage_result(submission: SignedSubmission) -> (r: Result<(), Error>)
    ensures
        r == submission_outcome(submission),
{
    match submission {
        SignedSubmission::NoAccount => Err(Error::OffchainSignerError),
        SignedSubmission::Rejected => Err(Error::OffchainSignedTxError),
        SignedSubmission::Accepted => Ok(()),
    }
}

impl<T: Trait> Module<T> {
    /// The internal invariant of the state.
    pub closed spec fn wf(&self) -> bool {
        self.storage.wf()
    }

    /// The state at genesis: nothing stored, nothing queued.
    pub fn new(ow_account_id: AccountId) -> (m: Self)
        ensures
            m.wf(),
            m@.ow_account_id == ow_account_id,
            m@.storage == Map::<Seq<u8>, Record>::empty(),
            m@.queue == Seq::<CommandView>::empty(),
    {
        let m = Module {
            ow_account_id,
            storage: ByteMap::new(),
            queue: Vec::new(),
            config: PhantomData,
        };
        assert(m@.queue =~= Seq::<CommandView>::empty());
        m
    }

    /// The account of the off-chain worker.
    pub fn ow_account_id(&self) -> (a: AccountId)
        ensures
            a == self@.ow_account_id,
    {
        self.ow_account_id
    }

    /// The record stored for `cid`, or the empty record.
    pub fn storage(&self, cid: &Vec<u8>) -> (r: Record)
        requires
            self.wf(),
        ensures
            r == record_of(self@.storage, cid@),
    {
        match self.storage.get(cid) {
            Some(r) => *r,
            None => Record::default(),
        }
    }

    /// Whether a record is stored for `cid`.
    pub fn storage_contains_key(&self, cid: &Vec<u8>) -> (r: bool)
        requires
            self.wf(),
        ensures
            r == self@.storage.dom().contains(cid@),
    {
        self.storage.contains_key(cid)
    }

    /// The work queued for the off-chain worker.
    pub fn queue(&self) -> (q: &Vec<DataCommand>)
        ensures
            q@.map_values(|c: DataCommand| c@) == self@.queue,
    {
        &self.queue
    }

    fn push_command(&mut self, c: DataCommand)
        requires
            old(self).wf(),
        ensures
            final(self).wf(),
            final(self)@ == (MinerState { queue: old(self)@.queue.push(c@), ..old(self)@ }),
    {
        let ghost pre = self@;
        self.queue.push(c);
        assert(self@.queue =~= pre.queue.push(c@));
    }

    /// Start of a block: the previous block's queue is dropped. Returns the
    /// weight used.
    pub fn on_initialize(&mut self, block_number: BlockNumber) -> (weight: u64)
        requires
            old(self).wf(),
        ensures
            final(self).wf(),
            weight == 0,
            final(self)@ == (MinerState { queue: Seq::<CommandView>::empty(), ..old(self)@ }),
    {
        self.queue = Vec::new();
        assert(self@.queue =~= Seq::<CommandView>::empty());
        0
    }

    /// Transfers `amount` from the off-chain worker's account to `to`.
    pub fn refund<E, F: FnOnce(AccountId, AccountId, Balance) -> Result<(), E>>(
        &self,
        to: AccountId,
        amount: Balance,
        transfer: F,
    ) -> (r: Result<(), Error>)
        requires
            call_requires(transfer, (self@.ow_account_id, to, amount)),
        ensures
            r is Ok ==> transfer_succeeds(transfer, self@.ow_account_id, to, amount),
            r is Err ==> r == Err::<(), Error>(Error::RefundError) && transfer_fails(
                transfer,
                self@.ow_account_id,
                to,
                amount,
            ),
    {
        let res = transfer(self.ow_account_id, to, amount);
        match res {
            Ok(u) => {
                assert(u == ());
                assert(res == Ok::<(), E>(()));
                Ok(())
            },
            Err(e) => {
                assert(call_ensures(transfer, (self@.ow_account_id, to, amount), Err::<(), E>(e)));
                Err(Error::RefundError)
            },
        }
    }

    /// Charges `from` the storage fee, paid to the off-chain worker's
    /// account, and on success queues `data` to be stored and pinned. The
    /// transfer's error is the call's error.
    pub fn add_and_pin_data<E, F: FnOnce(AccountId, AccountId, Balance) -> Result<(), E>>(
        &mut self,
        from: AccountId,
        data: Vec<u8>,
        transfer: F,
    ) -> (r: Result<(), E>)
        requires
            old(self).wf(),
            call_requires(transfer, (from, old(self)@.ow_account_id, T::storage_fee_spec())),
        ensures
            final(self).wf(),
            call_ensures(transfer, (from, old(self)@.ow_account_id, T::storage_fee_spec()), r),
            r is Ok ==> final(self)@ == queued(old(self)@, CommandView::AddBytes(from, data@)),
            r is Ok ==> final(self)@.queue.len() == old(self)@.queue.len() + 1 && final(self)@.queue.last()
                == CommandView::AddBytes(from, data@) && final(self)@.queue.take(
                old(self)@.queue.len() as int,
            ) == old(self)@.queue,
            r is Err ==> final(self)@ == old(self)@,
    {
        let fee = T::storage_fee();
        let res = transfer(from, self.ow_account_id, fee);
        match res {
            Ok(u) => {
                assert(u == ());
                self.push_command(DataCommand::AddBytes(from, data));
                Ok(())
            },
            Err(e) => Err(e),
        }
    }

    /// Drops the record of `cid` and, when `from` paid for it, refunds
    /// `from` and queues the unpinning.
    pub fn remove_pinned_data<E, F: FnOnce(AccountId, AccountId, Balance) -> Result<(), E>>(
        &mut self,
        from: AccountId,
        cid: Vec<u8>,
        transfer: F,
    ) -> (r: Result<(), Error>)
        requires
            old(self).wf(),
            call_requires(transfer, (old(self)@.ow_account_id, from, T::refund_fee_spec())),
        ensures
            final(self).wf(),
            unpin_outcome(old(self)@, final(self)@, from, cid@, T::refund_fee_spec(), transfer, r),
    {
        let ghost pre = self@;
        let record = match self.storage.remove(&cid) {
            Some(rec) => rec,
            None => Record::default(),
        };
        match record.initiator {
            Some(initiator) => {
                if initiator == from {
                    let fee = T::refund_fee();
                    match self.refund(from, fee, transfer) {
                        Ok(()) => {
                            self.push_command(DataCommand::RemovePin(cid));
                            Ok(())
                        },
                        Err(e) => Err(e),
                    }
                } else {
                    Err(Error::NotInitiator)
                }
            },
            None => Err(Error::Unpinned),
        }
    }

    /// Queues the availability check of `cid`.
    pub fn check_avail(&mut self, cid: Vec<u8>)
        requires
            old(self).wf(),
        ensures
            final(self).wf(),
            final(self)@ == queued(old(self)@, CommandView::CatBytes(cid@)),
    {
        self.push_command(DataCommand::CatBytes(cid));
    }

    /// Refunds the payer of `cid` when its data was not seen available, and
    /// then removes its record.
    pub fn report_unavailable<E, F: FnOnce(AccountId, AccountId, Balance) -> Result<(), E>>(
        &mut self,
        cid: Vec<u8>,
        transfer: F,
    ) -> (r: Result<(), Error>)
        requires
            old(self).wf(),
            !report_has_no_payee(old(self)@, cid@),
            record_of(old(self)@.storage, cid@).initiator matches Some(payee) ==> call_requires(
                transfer,
                (old(self)@.ow_account_id, payee, T::refund_fee_spec()),
            ),
        ensures
            final(self).wf(),
            report_outcome(old(self)@, final(self)@, cid@, T::refund_fee_spec(), transfer, r),
    {
        if self.storage.contains_key(&cid) {
            let record = self.storage(&cid);
            match record.avail {
                Some(_) => Err(Error::ReportAvailabelData),
                None => {
                    let payee = record.initiator.unwrap();
                    let fee = T::refund_fee();
                    match self.refund(payee, fee, transfer) {
                        Ok(()) => {
                            let _ = self.storage.remove(&cid);
                            Ok(())
                        },
                        Err(e) => Err(e),
                    }
                },
            }
        } else {
            Err(Error::NotInStorage)
        }
    }

    /// Records an answer of the IPFS node; only the off-chain worker's
    /// account may call it. `now` is the time of the call.
    pub fn update_storage(
        &mut self,
        who: AccountId,
        initiator: Option<AccountId>,
        response: IpfsResponse,
        remark: bool,
        now: Timestamp,
    ) -> (r: Result<Event, Error>)
        requires
            old(self).wf(),
        ensures
            final(self).wf(),
            who != old(self)@.ow_account_id ==> (r matches Err(e) && e == Error::InvalidOW
                && final(self)@ == old(self)@),
            who == old(self)@.ow_account_id ==> (r matches Ok(ev) && ev@
                == EventView::StorageUpdated(response@)),
            who == old(self)@.ow_account_id ==> final(self)@ == (MinerState {
                storage: updated_storage(old(self)@.storage, initiator, response@, remark, now),
                ..old(self)@
            }),
            who == old(self)@.ow_account_id && response@ is CatBytes && old(self)@.storage.dom().contains(
                response@->CatBytes_0,
            ) ==> final(self)@.storage[response@->CatBytes_0].initiator == old(self)@.storage[response@->CatBytes_0].initiator
                && final(self)@.storage[response@->CatBytes_0].avail == (if remark {
                Some(now)
            } else {
                None
            }),
            who == old(self)@.ow_account_id && response@ is AddBytes ==> final(self)@.storage[response@->AddBytes_0]
                == (Record { initiator, avail: Some(now) }),
    {
        if who != self.ow_account_id {
            return Err(Error::InvalidOW);
        }
        match &response {
            IpfsResponse::AddBytes(cid) => {
                self.storage.insert(copy_bytes(cid), Record { initiator, avail: Some(now) });
            },
            IpfsResponse::CatBytes(cid) => {
                if self.storage.contains_key(cid) {
                    let mut record = self.storage(cid);
                    record.avail = if remark {
                        Some(now)
                    } else {
                        None
                    };
                    self.storage.insert(copy_bytes(cid), record);
                }
            },
            _ => {},
        }
        Ok(Event::StorageUpdated(response))
    }

    /// Dispatchable: `who` pays the storage fee to have `data` stored and
    /// pinned.
    pub fn pin<E, F: FnOnce(AccountId, AccountId, Balance) -> Result<(), E>>(
        &mut self,
        who: AccountId,
        data: Vec<u8>,
        transfer: F,
    ) -> (r: Result<Event, E>)
        requires
            old(self).wf(),
            call_requires(transfer, (who, old(self)@.ow_account_id, T::storage_fee_spec())),
        ensures
            final(self).wf(),
            match r {
                Ok(ev) => ev@ == EventView::PinRequest(who) && transfer_succeeds(
                    transfer,
                    who,
                    old(self)@.ow_account_id,
                    T::storage_fee_spec(),
                ) && final(self)@ == queued(old(self)@, CommandView::AddBytes(who, data@))
                    && final(self)@.queue.len() == old(self)@.queue.len() + 1 && final(self)@.queue.last()
                    == CommandView::AddBytes(who, data@) && final(self)@.queue.take(
                    old(self)@.queue.len() as int,
                ) == old(self)@.queue,
                Err(e) => call_ensures(
                    transfer,
                    (who, old(self)@.ow_account_id, T::storage_fee_spec()),
                    Err::<(), E>(e),
                ) && final(self)@ == old(self)@,
            },
    {
        match self.add_and_pin_data(who, data, transfer) {
            Ok(u) => {
                assert(u == ());
                Ok(Event::PinRequest(who))
            },
            Err(e) => Err(e),
        }
    }

    /// Dispatchable: `who` asks for the pin of `cid` to be removed, with the
    /// refund of the flat refund fee.
    pub fn remove_pin<E, F: FnOnce(AccountId, AccountId, Balance) -> Result<(), E>>(
        &mut self,
        who: AccountId,
        cid: Vec<u8>,
        transfer: F,
    ) -> (r: Result<Event, Error>)
        requires
            old(self).wf(),
            call_requires(transfer, (old(self)@.ow_account_id, who, T::refund_fee_spec())),
        ensures
            final(self).wf(),
            unpin_outcome(
                old(self)@,
                final(self)@,
                who,
                cid@,
                T::refund_fee_spec(),
                transfer,
                match r {
                    Ok(_) => Ok::<(), Error>(()),
                    Err(e) => Err::<(), Error>(e),
                },
            ),
            r matches Ok(ev) ==> ev@ == EventView::RemovePinRequest(who, cid@),
    {
        match self.remove_pinned_data(who, copy_bytes(&cid), transfer) {
            Ok(()) => Ok(Event::RemovePinRequest(who, cid)),
            Err(e) => Err(e),
        }
    }

    /// Dispatchable: `who` asks for the availability of `cid` to be checked.
    pub fn check_availability(&mut self, who: AccountId, cid: Vec<u8>) -> (ev: Event)
        requires
            old(self).wf(),
        ensures
            final(self).wf(),
            final(self)@ == queued(old(self)@, CommandView::CatBytes(cid@)),
            ev@ == EventView::CheckRequest(who, cid@),
    {
        self.check_avail(copy_bytes(&cid));
        Event::CheckRequest(who, cid)
    }

    /// Dispatchable: `who` reports `cid` unavailable.
    pub fn report<E, F: FnOnce(AccountId, AccountId, Balance) -> Result<(), E>>(
        &mut self,
        who: AccountId,
        cid: Vec<u8>,
        transfer: F,
    ) -> (r: Result<Event, Error>)
        requires
            old(self).wf(),
            !report_has_no_payee(old(self)@, cid@),
            record_of(old(self)@.storage, cid@).initiator matches Some(payee) ==> call_requires(
                transfer,
                (old(self)@.ow_account_id, payee, T::refund_fee_spec()),
            ),
        ensures
            final(self).wf(),
            report_outcome(
                old(self)@,
                final(self)@,
                cid@,
                T::refund_fee_spec(),
                transfer,
                match r {
                    Ok(_) => Ok::<(), Error>(()),
                    Err(e) => Err::<(), Error>(e),
                },
            ),
            r matches Ok(ev) ==> ev@ == EventView::RefundDueToMissingData(who, cid@),
    {
        match self.report_unavailable(copy_bytes(&cid), transfer) {
            Ok(()) => Ok(Event::RefundDueToMissingData(who, cid)),
            Err(e) => Err(e),
        }
    }
}

} // verus!
