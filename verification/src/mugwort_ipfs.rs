//! Mugwort: accounts conjure artwork by handing in data, which is stored
//! under the next id as artwork owned by the account; the off-chain worker
//! stores the data on IPFS and submits its content identifier, which is
//! recorded as metadata of artwork still in the spell-cast state.

use std::collections::HashMap;
use vstd::prelude::*;
use crate::offchain::{IpfsReply, IpfsResponse, SignedSubmission};
use crate::primitives::{copy_bytes, AccountId, BlockNumber};

verus! {

broadcast use vstd::std_specs::hash::group_hash_axioms;

/// The state of a piece of artwork.
#[derive(Debug)]
pub enum State {
    /// Asked for by the account; its metadata is not known yet.
    SpellCast(AccountId),
    /// Owned by `owner`, with `metadata` the content identifier of its data.
    ConjuredArt { owner: AccountId, metadata: Vec<u8> },
}

/// The mathematical form of a [`State`].
pub enum StateView {
    SpellCast(AccountId),
    ConjuredArt { owner: AccountId, metadata: Seq<u8> },
}

/// A piece of artwork.
#[derive(Debug)]
pub struct Conjuration(pub State);

impl View for Conjuration {
    type V = StateView;

    open spec fn view(&self) -> StateView {
        match self.0 {
            State::SpellCast(a) => StateView::SpellCast(a),
            State::ConjuredArt { owner, metadata } => StateView::ConjuredArt {
                owner,
                metadata: metadata@,
            },
        }
    }
}

/// The artwork that an unused id stands for: a spell cast by the default
/// account.
pub open spec fn default_art() -> StateView {
    StateView::SpellCast(0)
}

impl Default for Conjuration {
    fn default() -> (c: Self)
        ensures
            c@ == default_art(),
    {
        Conjuration(State::SpellCast(0))
    }
}

impl Conjuration {
    /// A copy of this artwork.
    pub fn duplicate(&self) -> (c: Conjuration)
        ensures
            c@ == self@,
    {
        match &self.0 {
            State::SpellCast(a) => Conjuration(State::SpellCast(*a)),
            State::ConjuredArt { owner, metadata } => Conjuration(
                State::ConjuredArt { owner: *owner, metadata: copy_bytes(metadata) },
            ),
        }
    }
}

/// Work queued for the off-chain worker.
#[derive(Debug)]
pub enum DataCommand {
    /// Store the data of the artwork with this id.
    AddBytes(u64, Vec<u8>),
    /// Fetch the content identifier.
    CatBytes(Vec<u8>),
}

/// The mathematical form of a [`DataCommand`].
pub enum ArtCommandView {
    AddBytes(u64, Seq<u8>),
    CatBytes(Seq<u8>),
}

impl View for DataCommand {
    type V = ArtCommandView;

    open spec fn view(&self) -> ArtCommandView {
        match self {
            DataCommand::AddBytes(id, d) => ArtCommandView::AddBytes(*id, d@),
            DataCommand::CatBytes(c) => ArtCommandView::CatBytes(c@),
        }
    }
}

impl DataCommand {
    /// A copy of this command.
    pub fn duplicate(&self) -> (c: DataCommand)
        ensures
            c@ == self@,
    {
        match self {
            DataCommand::AddBytes(id, d) => DataCommand::AddBytes(*id, copy_bytes(d)),
            DataCommand::CatBytes(c) => DataCommand::CatBytes(copy_bytes(c)),
        }
    }
}

/// What the module reports of a successful call.
#[derive(Debug)]
pub enum Event {
    /// The account asked for artwork.
    SpellCast(AccountId),
    /// The artwork with this id got this content identifier as metadata.
    Conjured(u64, Vec<u8>),
}

/// The mathematical form of an [`Event`].
pub enum EventView {
    SpellCast(AccountId),
    Conjured(u64, Seq<u8>),
}

impl View for Event {
    type V = EventView;

    open spec fn view(&self) -> EventView {
        match self {
            Event::SpellCast(a) => EventView::SpellCast(*a),
            Event::Conjured(id, c) => EventView::Conjured(*id, c@),
        }
    }
}

/// Why a call of the module failed.
#[derive(Clone, Copy, PartialEq, Eq, Structural, Debug)]
pub enum Error {
    /// No artwork id is left.
    Overflow,
    /// The caller is not the off-chain worker's account.
    InvalidOW,
    /// The IPFS request could not be created.
    CantCreateRequest,
    /// The IPFS request passed its deadline.
    RequestTimeout,
    /// The IPFS node reported an error.
    RequestFailed,
    /// The signed transaction could not be submitted.
    OffchainSignedTxError,
    /// No local account could sign the transaction.
    OffchainSignerError,
}

/// The mathematical state of the module.
pub struct ArtState {
    /// The account of the off-chain worker, which alone may record metadata.
    pub ow_account_id: AccountId,
    /// The last artwork id handed out.
    pub current_art_id: u64,
    /// The artwork stored under each id.
    pub artwork: Map<u64, StateView>,
    /// The work queued for this block's off-chain worker.
    pub data_queue: Seq<ArtCommandView>,
}

/// The artwork under `id`: the default artwork where none is stored.
pub open spec fn art_of(artwork: Map<u64, StateView>, id: u64) -> StateView {
    if artwork.contains_key(id) {
        artwork[id]
    } else {
        default_art()
    }
}

/// The artwork after `cid` is recorded as the metadata of `id`: a spell cast
/// by an account becomes artwork owned by that account; conjured artwork
/// stays as it is.
pub open spec fn transfigured(artwork: Map<u64, StateView>, id: u64, cid: Seq<u8>) -> Map<
    u64,
    StateView,
> {
    match art_of(artwork, id) {
        StateView::SpellCast(owner) => artwork.insert(
            id,
            StateView::ConjuredArt { owner, metadata: cid },
        ),
        StateView::ConjuredArt { .. } => artwork,
    }
}

/// The state after `who` conjures artwork from `data`: the next id is taken,
/// artwork owned by `who` with empty metadata is stored under it, and the
/// data is queued for the off-chain worker.
pub open spec fn conjured(s: ArtState, who: AccountId, data: Seq<u8>) -> ArtState {
    let id = (s.current_art_id + 1) as u64;
    ArtState {
        current_art_id: id,
        artwork: s.artwork.insert(id, StateView::ConjuredArt { owner: who, metadata: Seq::empty() }),
        data_queue: s.data_queue.push(ArtCommandView::AddBytes(id, data)),
        ..s
    }
}

/// Conjuring queues the artwork's data under the new id and stores, under
/// that id, artwork owned by the conjurer with empty metadata; as that
/// artwork is already conjured, a content identifier recorded later for the
/// id leaves it as it is.
pub proof fn lemma_conjure_then_transfigure(s: ArtState, who: AccountId, data: Seq<u8>, cid: Seq<u8>)
    requires
        s.current_art_id < u64::MAX,
    ensures
        conjured(s, who, data).data_queue.last() == ArtCommandView::AddBytes(
            conjured(s, who, data).current_art_id,
            data,
        ),
        art_of(conjured(s, who, data).artwork, conjured(s, who, data).current_art_id) == (
        StateView::ConjuredArt { owner: who, metadata: Seq::empty() }),
        transfigured(conjured(s, who, data).artwork, conjured(s, who, data).current_art_id, cid)
            == conjured(s, who, data).artwork,
{
}

/// Conjuring takes the next id, keeps every command queued before it, in
/// order, and adds exactly the store of the data under the new id after
/// them; the artwork under the new id is owned by the conjurer with empty
/// metadata, and no other artwork changes.
pub proof fn lemma_conjure_appends(s: ArtState, who: AccountId, data: Seq<u8>)
    requires
        s.current_art_id < u64::MAX,
    ensures
        conjured(s, who, data).current_art_id == s.current_art_id + 1,
        conjured(s, who, data).data_queue.len() == s.data_queue.len() + 1,
        forall|i: int|
            0 <= i < s.data_queue.len() ==> #[trigger] conjured(s, who, data).data_queue[i] == s.data_queue[i],
        conjured(s, who, data).data_queue[s.data_queue.len() as int] == ArtCommandView::AddBytes(
            (s.current_art_id + 1) as u64,
            data,
        ),
        forall|id: u64| id != s.current_art_id + 1 ==> #[trigger] art_of(conjured(s, who, data).artwork, id)
            == art_of(s.artwork, id),
        conjured(s, who, data).ow_account_id == s.ow_account_id,
{
}

/// Two artworks conjured in a block get consecutive ids, and the data of
/// both is queued, in order, after what was queued before.
pub proof fn lemma_two_conjures_both_queued(s: ArtState, first: AccountId, a: Seq<u8>, second: AccountId, b: Seq<u8>)
    requires
        s.current_art_id + 2 <= u64::MAX,
    ensures
        conjured(conjured(s, first, a), second, b).current_art_id == s.current_art_id + 2,
        conjured(conjured(s, first, a), second, b).data_queue =~= s.data_queue + seq![
            ArtCommandView::AddBytes((s.current_art_id + 1) as u64, a),
            ArtCommandView::AddBytes((s.current_art_id + 2) as u64, b),
        ],
{
}

/// Recorded metadata is final: recording another content identifier for
/// conjured artwork changes nothing.
pub proof fn lemma_conjured_art_is_final(artwork: Map<u64, StateView>, id: u64, cid: Seq<u8>)
    requires
        art_of(artwork, id) is ConjuredArt,
    ensures
        transfigured(artwork, id, cid) == artwork,
{
}

/// The error that an IPFS request ended with, or the node's answer.
pub open spec fn ipfs_request_outcome(reply: IpfsReply, r: Result<IpfsResponse, Error>) -> bool {
    match reply {
        IpfsReply::NotCreated => r == Err::<IpfsResponse, Error>(Error::CantCreateRequest),
        IpfsReply::DeadlineReached => r == Err::<IpfsResponse, Error>(Error::RequestTimeout),
        IpfsReply::Failed => r == Err::<IpfsResponse, Error>(Error::RequestFailed),
        IpfsReply::Answered(resp) => r == Ok::<IpfsResponse, Error>(resp),
    }
}

/// The result of submitting a signed transaction.
pub open spec fn submission_outcome(s: SignedSubmission) -> Result<(), Error> {
    match s {
        SignedSubmission::NoAccount => Err(Error::OffchainSignerError),
        SignedSubmission::Rejected => Err(Error::OffchainSignedTxError),
        SignedSubmission::Accepted => Ok(()),
    }
}

/// Maps how an IPFS request ended to its answer or the module's error.
pub fn ipfs_request_result(reply: IpfsReply) -> (r: Result<IpfsResponse, Error>)
    ensures
        ipfs_request_outcome(reply, r),
{
    match reply {
        IpfsReply::NotCreated => Err(Error::CantCreateRequest),
        IpfsReply::DeadlineReached => Err(Error::RequestTimeout),
        IpfsReply::Failed => Err(Error::RequestFailed),
        IpfsReply::Answered(resp) => Ok(resp),
    }
}

/// Maps the submission of the off-chain worker's signed `transfigure_art`
/// transaction to its result.
pub fn transfigure_with_cid_result(submission: SignedSubmission) -> (r: Result<(), Error>)
    ensures
        r == submission_outcome(submission),
{
    match submission {
        SignedSubmission::NoAccount => Err(Error::OffchainSignerError),
        SignedSubmission::Rejected => Err(Error::OffchainSignedTxError),
        SignedSubmission::Accepted => Ok(()),
    }
}

/// The on-chain state of the module.
pub struct Module {
    ow_account_id: AccountId,
    current_art_id: u64,
    artwork: HashMap<u64, Conjuration>,
    data_queue: Vec<DataCommand>,
}

impl View for Module {
    type V = ArtState;

    closed spec fn view(&self) -> ArtState {
        ArtState {
            ow_account_id: self.ow_account_id,
            current_art_id: self.current_art_id,
            artwork: self.artwork@.map_values(|c: Conjuration| c@),
            data_queue: self.data_queue@.map_values(|c: DataCommand| c@),
        }
    }
}

impl Module {
    /// The state at genesis: no artwork, nothing queued.
    pub fn new(ow_account_id: AccountId) -> (m: Self)
        ensures
            m@ == (ArtState {
                ow_account_id,
                current_art_id: 0,
                artwork: Map::empty(),
                data_queue: Seq::empty(),
            }),
    {
        let m = Module {
            ow_account_id,
            current_art_id: 0,
            artwork: HashMap::new(),
            data_queue: Vec::new(),
        };
        assert(m@.artwork =~= Map::<u64, StateView>::empty());
        assert(m@.data_queue =~= Seq::<ArtCommandView>::empty());
        m
    }

    /// The account of the off-chain worker.
    pub fn ow_account_id(&self) -> (a: AccountId)
        ensures
            a == self@.ow_account_id,
    {
        self.ow_account_id
    }

    /// The last artwork id handed out.
    pub fn current_art_id(&self) -> (id: u64)
        ensures
            id == self@.current_art_id,
    {
        self.current_art_id
    }

    /// The artwork under `id`, or the default artwork.
    pub fn art_work(&self, id: u64) -> (c: Conjuration)
        ensures
            c@ == art_of(self@.artwork, id),
    {
        match self.artwork.get(&id) {
            Some(c) => c.duplicate(),
            None => Conjuration::default(),
        }
    }

    /// The work queued for the off-chain worker.
    pub fn data_queue(&self) -> (q: &Vec<DataCommand>)
        ensures
            q@.map_values(|c: DataCommand| c@) == self@.data_queue,
    {
        &self.data_queue
    }

    fn store_art(&mut self, id: u64, c: Conjuration)
        ensures
            final(self)@ == (ArtState { artwork: old(self)@.artwork.insert(id, c@), ..old(self)@ }),
    {
        let ghost pre = self@;
        self.artwork.insert(id, c);
        assert(self@.artwork =~= pre.artwork.insert(id, c@));
    }

    /// Start of a block: the previous block's queue is dropped. Returns the
    /// weight used.
    pub fn on_initialize(&mut self, block_number: BlockNumber) -> (weight: u64)
        ensures
            weight == 0,
            final(self)@ == (ArtState { data_queue: Seq::empty(), ..old(self)@ }),
    {
        self.data_queue = Vec::new();
        assert(self@.data_queue =~= Seq::<ArtCommandView>::empty());
        0
    }

    /// Dispatchable: `who` asks for artwork made of `data`. The next id is
    /// taken, artwork owned by `who` with empty metadata is stored under it,
    /// and the data is queued for the off-chain worker.
    pub fn conjure_art(&mut self, who: AccountId, data: Vec<u8>) -> (r: Result<Event, Error>)
        ensures
            old(self)@.current_art_id == u64::MAX ==> (r matches Err(e) && e == Error::Overflow
                && final(self)@ == old(self)@),
            old(self)@.current_art_id < u64::MAX ==> (r matches Ok(ev) && ev@
                == EventView::SpellCast(who)),
            old(self)@.current_art_id < u64::MAX ==> final(self)@ == conjured(old(self)@, who, data@),
            old(self)@.current_art_id < u64::MAX ==> final(self)@.data_queue.len() == old(self)@.data_queue.len()
                + 1 && final(self)@.data_queue.last() == ArtCommandView::AddBytes(
                final(self)@.current_art_id,
                data@,
            ) && final(self)@.data_queue.take(old(self)@.data_queue.len() as int) == old(self)@.data_queue
                && final(self)@.current_art_id == old(self)@.current_art_id + 1,
    {
        let new_id = match self.current_art_id.checked_add(1) {
            Some(id) => id,
            None => {
                return Err(Error::Overflow);
            },
        };
        self.current_art_id = new_id;
        let art = Conjuration(State::ConjuredArt { owner: who, metadata: Vec::new() });
        proof {
            assert(art@ == (StateView::ConjuredArt { owner: who, metadata: Seq::<u8>::empty() }));
        }
        self.store_art(new_id, art);
        let ghost pre = self@;
        self.data_queue.push(DataCommand::AddBytes(new_id, data));
        assert(self@.data_queue =~= pre.data_queue.push(ArtCommandView::AddBytes(new_id, data@)));
        Ok(Event::SpellCast(who))
    }

    /// Dispatchable for the off-chain worker's account: records `cid` as the
    /// metadata of the artwork `id`.
    pub fn transfigure_art(&mut self, who: AccountId, id: u64, cid: Vec<u8>) -> (r: Result<
        Event,
        Error,
    >)
        ensures
            who != old(self)@.ow_account_id ==> (r matches Err(e) && e == Error::InvalidOW
                && final(self)@ == old(self)@),
            who == old(self)@.ow_account_id ==> (r matches Ok(ev) && ev@ == EventView::Conjured(
                id,
                cid@,
            )),
            who == old(self)@.ow_account_id ==> final(self)@ == (ArtState {
                artwork: transfigured(old(self)@.artwork, id, cid@),
                ..old(self)@
            }),
    {
        if who != self.ow_account_id {
            return Err(Error::InvalidOW);
        }
        let current = self.art_work(id);
        match current.0 {
            State::SpellCast(owner) => {
                self.store_art(
                    id,
                    Conjuration(State::ConjuredArt { owner, metadata: copy_bytes(&cid) }),
                );
            },
            State::ConjuredArt { .. } => {},
        }
        Ok(Event::Conjured(id, cid))
    }
}

} // verus!
