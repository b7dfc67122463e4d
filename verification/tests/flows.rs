use ipfs_pallets::mock::{Test, REFUND_FEE, STORAGE_FEE};
use ipfs_pallets::mugwort_ipfs;
use ipfs_pallets::art_worker::{ArtAction, ArtFeedback, ArtWorker};
use ipfs_pallets::offchain::{IpfsResponse, Timestamp};
use ipfs_pallets::storage_miner::{DataCommand, Error, Module, Record};
use ipfs_pallets::storage_worker::{Action, DataWorker, Feedback};
use std::cell::RefCell;

const OW: u64 = 7;

fn own_queue(m: &Module<Test>) -> Vec<DataCommand> {
    m.queue()
        .iter()
        .map(|c| match c {
            DataCommand::AddBytes(a, d) => DataCommand::AddBytes(*a, d.clone()),
            DataCommand::CatBytes(c) => DataCommand::CatBytes(c.clone()),
            DataCommand::RemovePin(c) => DataCommand::RemovePin(c.clone()),
        })
        .collect()
}

#[test]
fn pinned_data_ends_recorded_and_cannot_be_reported() {
    let mut m = Module::<Test>::new(OW);
    let paid = RefCell::new(Vec::new());
    m.pin(2, b"payload".to_vec(), |f, t, a| -> Result<(), ()> {
        paid.borrow_mut().push((f, t, a));
        Ok(())
    })
    .unwrap();
    assert_eq!(*paid.borrow(), vec![(2, OW, STORAGE_FEE)]);

    let mut w = DataWorker::<Test>::new(own_queue(&m), Timestamp::from_unix_millis(100));
    w.start();
    w.resume(Feedback::Ipfs(Ok(IpfsResponse::AddBytes(b"Qm".to_vec()))));
    let a = w.resume(Feedback::Ipfs(Ok(IpfsResponse::Success)));
    let now = Timestamp::from_unix_millis(150);
    match a {
        Action::UpdateStorage { initiator, response, remark } => {
            m.update_storage(OW, initiator, response, remark, now).unwrap();
        }
        other => panic!("unexpected action {:?}", other),
    }
    assert_eq!(m.storage(&b"Qm".to_vec()), Record { initiator: Some(2), avail: Some(now) });
    let r = m.report(5, b"Qm".to_vec(), |_, _, _| -> Result<(), ()> { Ok(()) });
    assert_eq!(r.err(), Some(Error::ReportAvailabelData));
}

#[test]
fn failed_check_makes_data_refundable() {
    let mut m = Module::<Test>::new(OW);
    m.update_storage(OW, Some(2), IpfsResponse::AddBytes(b"Qm".to_vec()), false, Timestamp::from_unix_millis(1)).unwrap();
    m.check_availability(9, b"Qm".to_vec());
    let mut w = DataWorker::<Test>::new(own_queue(&m), Timestamp::from_unix_millis(100));
    w.start();
    let a = w.resume(Feedback::Ipfs(Err(ipfs_pallets::storage_miner::Error::RequestTimeout)));
    match a {
        Action::UpdateStorage { initiator, response, remark } => {
            assert!(!remark);
            m.update_storage(OW, initiator, response, remark, Timestamp::from_unix_millis(120)).unwrap();
        }
        other => panic!("unexpected action {:?}", other),
    }
    assert_eq!(m.storage(&b"Qm".to_vec()), Record { initiator: Some(2), avail: None });
    let refunds = RefCell::new(Vec::new());
    m.report(9, b"Qm".to_vec(), |f, t, a| -> Result<(), ()> {
        refunds.borrow_mut().push((f, t, a));
        Ok(())
    })
    .unwrap();
    assert_eq!(*refunds.borrow(), vec![(OW, 2, REFUND_FEE)]);
    assert!(!m.storage_contains_key(&b"Qm".to_vec()));
}

#[test]
fn conjured_art_keeps_empty_metadata_after_worker_run() {
    let mut m = mugwort_ipfs::Module::new(OW);
    m.conjure_art(3, b"art".to_vec()).unwrap();
    let queue: Vec<mugwort_ipfs::DataCommand> = m
        .data_queue()
        .iter()
        .map(|c| match c {
            mugwort_ipfs::DataCommand::AddBytes(id, d) => mugwort_ipfs::DataCommand::AddBytes(*id, d.clone()),
            mugwort_ipfs::DataCommand::CatBytes(c) => mugwort_ipfs::DataCommand::CatBytes(c.clone()),
        })
        .collect();
    let mut w = ArtWorker::new(queue, Timestamp::from_unix_millis(0));
    w.start();
    match w.resume(ArtFeedback::Ipfs(Ok(IpfsResponse::AddBytes(b"QmArt".to_vec())))) {
        ArtAction::TransfigureArt { id, cid } => {
            m.transfigure_art(OW, id, cid).unwrap();
        }
        other => panic!("unexpected action {:?}", other),
    }
    let art = m.art_work(1);
    assert!(matches!(&art.0, mugwort_ipfs::State::ConjuredArt { owner: 3, metadata } if metadata.is_empty()));
}
