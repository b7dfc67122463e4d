use ipfs_pallets::mock::{Test, STORAGE_FEE};
use ipfs_pallets::offchain::{IpfsRequest, IpfsResponse, Timestamp};
use ipfs_pallets::storage_miner::{DataCommand, Error};
use ipfs_pallets::storage_worker::{Action, DataWorker, Feedback};

fn worker(cmds: Vec<DataCommand>) -> DataWorker<Test> {
    DataWorker::<Test>::new(cmds, Timestamp::from_unix_millis(10_000))
}

fn deadline() -> Timestamp {
    Timestamp::from_unix_millis(11_000)
}

#[test]
fn empty_queue_finishes_at_once() {
    let mut w = worker(vec![]);
    assert!(matches!(w.start(), Action::Finished));
}

#[test]
fn pin_flow_stores_pins_and_records() {
    let mut w = worker(vec![DataCommand::AddBytes(4, b"data".to_vec())]);
    let a = w.start();
    assert!(matches!(a, Action::Ipfs { request: IpfsRequest::AddBytes(ref d), deadline: t } if d == b"data" && t == deadline()));
    let a = w.resume(Feedback::Ipfs(Ok(IpfsResponse::AddBytes(b"Qm1".to_vec()))));
    assert!(matches!(a, Action::Ipfs { request: IpfsRequest::InsertPin(ref c, false), .. } if c == b"Qm1"));
    let a = w.resume(Feedback::Ipfs(Ok(IpfsResponse::Success)));
    assert!(matches!(a, Action::UpdateStorage { initiator: Some(4), response: IpfsResponse::AddBytes(ref c), remark: false } if c == b"Qm1"));
    let a = w.resume(Feedback::Submitted(Ok(())));
    assert!(matches!(a, Action::Finished));
}

#[test]
fn failed_store_refunds_storage_fee() {
    let mut w = worker(vec![DataCommand::AddBytes(4, b"data".to_vec())]);
    w.start();
    let a = w.resume(Feedback::Ipfs(Err(Error::RequestTimeout)));
    assert!(matches!(a, Action::Refund { to: 4, amount } if amount == STORAGE_FEE));
    assert!(matches!(w.resume(Feedback::Refunded(Ok(()))), Action::Finished));
}

#[test]
fn failed_pin_refunds_storage_fee() {
    let mut w = worker(vec![DataCommand::AddBytes(4, b"data".to_vec())]);
    w.start();
    w.resume(Feedback::Ipfs(Ok(IpfsResponse::AddBytes(b"Qm1".to_vec()))));
    let a = w.resume(Feedback::Ipfs(Err(Error::RequestFailed)));
    assert!(matches!(a, Action::Refund { to: 4, amount } if amount == STORAGE_FEE));
}

#[test]
fn failed_record_refunds_storage_fee() {
    let mut w = worker(vec![DataCommand::AddBytes(4, b"data".to_vec()), DataCommand::RemovePin(b"x".to_vec())]);
    w.start();
    w.resume(Feedback::Ipfs(Ok(IpfsResponse::AddBytes(b"Qm1".to_vec()))));
    w.resume(Feedback::Ipfs(Ok(IpfsResponse::Success)));
    let a = w.resume(Feedback::Submitted(Err(Error::OffchainSignerError)));
    assert!(matches!(a, Action::Refund { to: 4, amount } if amount == STORAGE_FEE));
    let a = w.resume(Feedback::Refunded(Err(Error::RefundError)));
    assert!(matches!(a, Action::Ipfs { request: IpfsRequest::RemovePin(ref c, false), .. } if c == b"x"));
    assert!(matches!(w.resume(Feedback::Ipfs(Ok(IpfsResponse::Success))), Action::Finished));
}

#[test]
fn unpin_failure_moves_on() {
    let mut w = worker(vec![DataCommand::RemovePin(b"x".to_vec()), DataCommand::CatBytes(b"y".to_vec())]);
    w.start();
    let a = w.resume(Feedback::Ipfs(Err(Error::RequestFailed)));
    assert!(matches!(a, Action::Ipfs { request: IpfsRequest::CatBytes(ref c), .. } if c == b"y"));
}

#[test]
fn check_records_availability() {
    let mut w = worker(vec![DataCommand::CatBytes(b"y".to_vec()), DataCommand::CatBytes(b"z".to_vec())]);
    w.start();
    let a = w.resume(Feedback::Ipfs(Ok(IpfsResponse::CatBytes(b"content".to_vec()))));
    assert!(matches!(a, Action::UpdateStorage { initiator: None, response: IpfsResponse::CatBytes(ref c), remark: true } if c == b"y"));
    let a = w.resume(Feedback::Submitted(Ok(())));
    assert!(matches!(a, Action::Ipfs { request: IpfsRequest::CatBytes(ref c), .. } if c == b"z"));
    let a = w.resume(Feedback::Ipfs(Err(Error::RequestTimeout)));
    assert!(matches!(a, Action::UpdateStorage { initiator: None, response: IpfsResponse::CatBytes(ref c), remark: false } if c == b"z"));
    assert!(matches!(w.resume(Feedback::Submitted(Err(Error::OffchainSignedTxError))), Action::Finished));
}
