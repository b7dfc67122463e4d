//! Values exchanged with the off-chain worker environment: time, and the
//! requests to and answers from the local IPFS node.

use vstd::prelude::*;

verus! {

/// An instant, in milliseconds since the UNIX epoch.
#[derive(Clone, Copy, PartialEq, Eq, Structural, Debug)]
pub struct Timestamp(u64);

/// A span of time, in milliseconds.
#[derive(Clone, Copy, PartialEq, Eq, Structural, Debug)]
pub struct Duration(u64);

impl View for Timestamp {
    type V = u64;

    closed spec fn view(&self) -> u64 {
        self.0
    }
}

impl View for Duration {
    type V = u64;

    closed spec fn view(&self) -> u64 {
        self.0
    }
}

/// `a + b`, saturated at `u64::MAX`.
pub open spec fn saturating_sum(a: u64, b: u64) -> u64 {
    if a + b > u64::MAX {
        u64::MAX
    } else {
        (a + b) as u64
    }
}

impl Duration {
    /// The duration of `millis` milliseconds.
    pub fn from_millis(millis: u64) -> (d: Duration)
        ensures
            d@ == millis,
    {
        Duration(millis)
    }

    /// The number of milliseconds of this duration.
    pub fn millis(&self) -> (m: u64)
        ensures
            m == self@,
    {
        self.0
    }
}

impl Timestamp {
    /// The instant `millis` milliseconds after the UNIX epoch.
    pub fn from_unix_millis(millis: u64) -> (t: Timestamp)
        ensures
            t@ == millis,
    {
        Timestamp(millis)
    }

    /// This instant moved forward by `duration`; it saturates at the largest
    /// representable instant.
    pub fn add(&self, duration: Duration) -> (t: Timestamp)
        ensures
            t@ == saturating_sum(self@, duration@),
    {
        Timestamp(self.0.saturating_add(duration.0))
    }

    /// The number of milliseconds since the UNIX epoch.
    pub fn unix_millis(&self) -> (m: u64)
        ensures
            m == self@,
    {
        self.0
    }
}

} // verus!

verus! {

/// A request to the local IPFS node.
#[derive(Debug)]
pub enum IpfsRequest {
    /// Store the bytes; the node answers with their content identifier.
    AddBytes(Vec<u8>),
    /// Fetch the bytes behind a content identifier.
    CatBytes(Vec<u8>),
    /// Pin the content identifier, recursively or not.
    InsertPin(Vec<u8>, bool),
    /// Unpin the content identifier, recursively or not.
    RemovePin(Vec<u8>, bool),
    /// List the connected peers.
    Peers,
}

/// The mathematical form of an [`IpfsRequest`].
pub enum IpfsRequestView {
    AddBytes(Seq<u8>),
    CatBytes(Seq<u8>),
    InsertPin(Seq<u8>, bool),
    RemovePin(Seq<u8>, bool),
    Peers,
}

impl View for IpfsRequest {
    type V = IpfsRequestView;

    open spec fn view(&self) -> IpfsRequestView {
        match self {
            IpfsRequest::AddBytes(d) => IpfsRequestView::AddBytes(d@),
            IpfsRequest::CatBytes(c) => IpfsRequestView::CatBytes(c@),
            IpfsRequest::InsertPin(c, r) => IpfsRequestView::InsertPin(c@, *r),
            IpfsRequest::RemovePin(c, r) => IpfsRequestView::RemovePin(c@, *r),
            IpfsRequest::Peers => IpfsRequestView::Peers,
        }
    }
}

/// An answer of the local IPFS node.
#[derive(Debug)]
pub enum IpfsResponse {
    /// The content identifier of stored bytes.
    AddBytes(Vec<u8>),
    /// The bytes behind a content identifier.
    CatBytes(Vec<u8>),
    /// The addresses of the connected peers.
    Peers(Vec<Vec<u8>>),
    /// The request was carried out.
    Success,
}

/// The mathematical form of an [`IpfsResponse`].
pub enum IpfsResponseView {
    AddBytes(Seq<u8>),
    CatBytes(Seq<u8>),
    Peers(Seq<Seq<u8>>),
    Success,
}

impl View for IpfsResponse {
    type V = IpfsResponseView;

    open spec fn view(&self) -> IpfsResponseView {
        match self {
            IpfsResponse::AddBytes(c) => IpfsResponseView::AddBytes(c@),
            IpfsResponse::CatBytes(d) => IpfsResponseView::CatBytes(d@),
            IpfsResponse::Peers(p) => IpfsResponseView::Peers(p@.map_values(|a: Vec<u8>| a@)),
            IpfsResponse::Success => IpfsResponseView::Success,
        }
    }
}

/// How a request to the IPFS node ended.
#[derive(Debug)]
pub enum IpfsReply {
    /// The request could not be created.
    NotCreated,
    /// The deadline passed before the node answered.
    DeadlineReached,
    /// The node reported an error.
    Failed,
    /// The node answered.
    Answered(IpfsResponse),
}

/// What sending a signed transaction from the off-chain worker gave.
#[derive(Clone, Copy, PartialEq, Eq, Structural, Debug)]
pub enum SignedSubmission {
    /// No local account was available to sign with.
    NoAccount,
    /// The transaction was signed, and its submission failed.
    Rejected,
    /// The transaction was signed and submitted.
    Accepted,
}

/// How long a request for queued data work may take, in milliseconds.
pub const DATA_REQUEST_TIMEOUT_MS: u64 = 1_000;

/// How long the request for node statistics may take, in milliseconds.
pub const METADATA_REQUEST_TIMEOUT_MS: u64 = 200;

/// Every how many blocks the worker reports node statistics.
pub const METADATA_PERIOD: u64 = 5;

/// Whether the off-chain worker of this block reports the node's statistics.
pub fn metadata_due(block_number: u64) -> (due: bool)
    ensures
        due == (block_number % METADATA_PERIOD == 0),
{
    block_number % METADATA_PERIOD == 0
}

/// The request for the node's statistics, made at `now`, and its deadline.
pub fn metadata_request(now: Timestamp) -> (r: (IpfsRequest, Timestamp))
    ensures
        r.0@ == IpfsRequestView::Peers,
        r.1@ == saturating_sum(now@, METADATA_REQUEST_TIMEOUT_MS),
{
    (IpfsRequest::Peers, now.add(Duration::from_millis(METADATA_REQUEST_TIMEOUT_MS)))
}

/// The number of connected peers, from the answer to the statistics request,
/// or the error that the request ended with.
pub fn peer_count<E>(answer: Result<IpfsResponse, E>) -> (r: Result<usize, E>)
    requires
        answer matches Ok(resp) ==> resp is Peers,
    ensures
        match answer {
            Ok(IpfsResponse::Peers(p)) => r == Ok::<usize, E>(p.len()),
            Ok(_) => false,
            Err(e) => r == Err::<usize, E>(e),
        },
{
    match answer {
        Ok(IpfsResponse::Peers(p)) => Ok(p.len()),
        Ok(_) => {
            assert(false);
            Ok(0)
        },
        Err(e) => Err(e),
    }
}

} // verus!
