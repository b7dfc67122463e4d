use ipfs_pallets::offchain::{metadata_due, metadata_request, peer_count, Duration, IpfsReply, IpfsRequest, IpfsResponse, SignedSubmission, Timestamp};
use ipfs_pallets::primitives::{bytes_eq, copy_bytes};
use ipfs_pallets::{mugwort_ipfs, storage_miner};

#[test]
fn timestamp_add_saturates() {
    let t = Timestamp::from_unix_millis(1_000);
    assert_eq!(t.add(Duration::from_millis(250)).unix_millis(), 1_250);
    let late = Timestamp::from_unix_millis(u64::MAX - 5);
    assert_eq!(late.add(Duration::from_millis(10)).unix_millis(), u64::MAX);
    assert_eq!(Duration::from_millis(42).millis(), 42);
}

#[test]
fn metadata_every_fifth_block() {
    assert!(metadata_due(0));
    assert!(!metadata_due(4));
    assert!(metadata_due(5));
    assert!(!metadata_due(11));
    assert!(metadata_due(20));
}

#[test]
fn metadata_request_asks_peers_within_200ms() {
    let (req, deadline) = metadata_request(Timestamp::from_unix_millis(1_000));
    assert!(matches!(req, IpfsRequest::Peers));
    assert_eq!(deadline, Timestamp::from_unix_millis(1_200));
}

#[test]
fn peer_count_counts_or_passes_error() {
    let ok: Result<IpfsResponse, &str> = Ok(IpfsResponse::Peers(vec![vec![1], vec![2], vec![3]]));
    assert_eq!(peer_count(ok), Ok(3));
    let err: Result<IpfsResponse, &str> = Err("timeout");
    assert_eq!(peer_count(err), Err("timeout"));
}

#[test]
fn ipfs_request_results_map_to_errors() {
    assert_eq!(storage_miner::ipfs_request_result(IpfsReply::NotCreated).err(), Some(storage_miner::Error::CantCreateRequest));
    assert_eq!(storage_miner::ipfs_request_result(IpfsReply::DeadlineReached).err(), Some(storage_miner::Error::RequestTimeout));
    assert_eq!(storage_miner::ipfs_request_result(IpfsReply::Failed).err(), Some(storage_miner::Error::RequestFailed));
    assert!(matches!(storage_miner::ipfs_request_result(IpfsReply::Answered(IpfsResponse::Success)), Ok(IpfsResponse::Success)));
    assert_eq!(mugwort_ipfs::ipfs_request_result(IpfsReply::NotCreated).err(), Some(mugwort_ipfs::Error::CantCreateRequest));
    assert_eq!(mugwort_ipfs::ipfs_request_result(IpfsReply::DeadlineReached).err(), Some(mugwort_ipfs::Error::RequestTimeout));
    assert_eq!(mugwort_ipfs::ipfs_request_result(IpfsReply::Failed).err(), Some(mugwort_ipfs::Error::RequestFailed));
}

#[test]
fn signed_submission_results() {
    assert_eq!(storage_miner::ocw_update_storage_result(SignedSubmission::NoAccount), Err(storage_miner::Error::OffchainSignerError));
    assert_eq!(storage_miner::ocw_update_storage_result(SignedSubmission::Rejected), Err(storage_miner::Error::OffchainSignedTxError));
    assert_eq!(storage_miner::ocw_update_storage_result(SignedSubmission::Accepted), Ok(()));
    assert_eq!(mugwort_ipfs::transfigure_with_cid_result(SignedSubmission::NoAccount), Err(mugwort_ipfs::Error::OffchainSignerError));
    assert_eq!(mugwort_ipfs::transfigure_with_cid_result(SignedSubmission::Rejected), Err(mugwort_ipfs::Error::OffchainSignedTxError));
    assert_eq!(mugwort_ipfs::transfigure_with_cid_result(SignedSubmission::Accepted), Ok(()));
}

#[test]
fn byte_helpers() {
    assert!(bytes_eq(&vec![1, 2, 3], &vec![1, 2, 3]));
    assert!(!bytes_eq(&vec![1, 2, 3], &vec![1, 2]));
    assert!(!bytes_eq(&vec![1, 2, 3], &vec![1, 2, 4]));
    assert_eq!(copy_bytes(&vec![9, 8]), vec![9, 8]);
}
