use ipfs_pallets::art_worker::{ArtAction, ArtFeedback, ArtWorker};
use ipfs_pallets::mock::{Test, STORAGE_FEE};
use ipfs_pallets::mugwort_ipfs;
use ipfs_pallets::offchain::{IpfsRequest, IpfsResponse, Timestamp};
use ipfs_pallets::storage_miner::{DataCommand, Error, Module};
use ipfs_pallets::storage_worker::{Action, DataWorker, Feedback};

const OW: u64 = 7;

#[test]
fn failing_run_still_takes_every_command_in_order_with_one_deadline() {
    let mut m = Module::<Test>::new(OW);
    m.pin(1, b"a".to_vec(), |_, _, _| -> Result<(), ()> { Ok(()) }).unwrap();
    m.check_avail(b"c".to_vec());
    m.pin(2, b"b".to_vec(), |_, _, _| -> Result<(), ()> { Ok(()) }).unwrap();
    let mut w = DataWorker::<Test>::new_for(&m, Timestamp::from_unix_millis(500));
    let deadline = Timestamp::from_unix_millis(1_500);
    let mut requests = Vec::new();
    let mut refunds = Vec::new();
    let mut action = w.start();
    let mut steps = 0;
    loop {
        steps += 1;
        assert!(steps < 100);
        let feedback = match action {
            Action::Finished => break,
            Action::Ipfs { request, deadline: d } => {
                assert_eq!(d, deadline);
                requests.push(request);
                Feedback::Ipfs(Err(Error::RequestTimeout))
            }
            Action::UpdateStorage { .. } => Feedback::Submitted(Err(Error::OffchainSignerError)),
            Action::Refund { to, amount } => {
                refunds.push((to, amount));
                Feedback::Refunded(Err(Error::RefundError))
            }
        };
        action = w.resume(feedback);
    }
    assert_eq!(requests.len(), 3);
    assert!(matches!(&requests[0], IpfsRequest::AddBytes(d) if d == b"a"));
    assert!(matches!(&requests[1], IpfsRequest::CatBytes(c) if c == b"c"));
    assert!(matches!(&requests[2], IpfsRequest::AddBytes(d) if d == b"b"));
    assert_eq!(refunds, vec![(1, STORAGE_FEE), (2, STORAGE_FEE)]);
    assert_eq!(m.queue().len(), 3);
}

#[test]
fn art_run_passes_over_fetches_and_goes_on_after_failures() {
    let mut m = mugwort_ipfs::Module::new(OW);
    m.conjure_art(3, b"x".to_vec()).unwrap();
    m.conjure_art(4, b"y".to_vec()).unwrap();
    let mut w = ArtWorker::new_for(&m, Timestamp::from_unix_millis(0));
    let mut stored = Vec::new();
    let mut submitted = Vec::new();
    let mut action = w.start();
    loop {
        let feedback = match action {
            ArtAction::Finished => break,
            ArtAction::Ipfs { request, .. } => {
                let data = match request {
                    IpfsRequest::AddBytes(d) => d,
                    other => panic!("unexpected request {:?}", other),
                };
                stored.push(data.clone());
                ArtFeedback::Ipfs(Ok(IpfsResponse::AddBytes(data)))
            }
            ArtAction::TransfigureArt { id, .. } => {
                submitted.push(id);
                ArtFeedback::Submitted(Err(mugwort_ipfs::Error::OffchainSignedTxError))
            }
        };
        action = w.resume(feedback);
    }
    assert_eq!(stored, vec![b"x".to_vec(), b"y".to_vec()]);
    assert_eq!(submitted, vec![1, 2]);
    assert_eq!(m.data_queue().len(), 2);
    assert_eq!(m.current_art_id(), 2);
}

#[test]
fn worker_copies_queue_of_module() {
    let mut m = Module::<Test>::new(OW);
    m.check_avail(b"c".to_vec());
    let mut w = DataWorker::<Test>::new_for(&m, Timestamp::from_unix_millis(0));
    assert!(matches!(w.start(), Action::Ipfs { request: IpfsRequest::CatBytes(ref c), .. } if c == b"c"));
    assert!(matches!(&m.queue()[0], DataCommand::CatBytes(c) if c == b"c"));
}
