use ipfs_pallets::mock::{new_test_ext, Test, ENDOWMENT, REFUND_FEE, STORAGE_FEE};
use ipfs_pallets::offchain::{IpfsResponse, Timestamp};
use ipfs_pallets::storage_miner::{DataCommand, Error, Event, Module, Record};
use std::cell::RefCell;

const OW: u64 = 7;

/// Records every transfer asked for and answers with `outcome`.
fn recording<'a>(
    log: &'a RefCell<Vec<(u64, u64, u128)>>,
    outcome: Result<(), &'static str>,
) -> impl FnOnce(u64, u64, u128) -> Result<(), &'static str> + 'a {
    move |from, to, amount| {
        log.borrow_mut().push((from, to, amount));
        outcome
    }
}

fn stored(m: &mut Module<Test>, cid: &[u8], payer: Option<u64>, at: u64) {
    let r = m.update_storage(OW, payer, IpfsResponse::AddBytes(cid.to_vec()), false, Timestamp::from_unix_millis(at));
    assert!(r.is_ok());
}

#[test]
fn pin_charges_storage_fee_and_queues_data() {
    let mut m = Module::<Test>::new(OW);
    let log = RefCell::new(Vec::new());
    let r = m.pin(1, b"hello".to_vec(), recording(&log, Ok(())));
    assert!(matches!(r, Ok(Event::PinRequest(1))));
    assert_eq!(*log.borrow(), vec![(1, OW, STORAGE_FEE)]);
    assert_eq!(m.queue().len(), 1);
    assert!(matches!(&m.queue()[0], DataCommand::AddBytes(1, d) if d == b"hello"));
}

#[test]
fn pin_without_funds_changes_nothing() {
    let mut m = Module::<Test>::new(OW);
    let log = RefCell::new(Vec::new());
    let r = m.pin(1, b"hello".to_vec(), recording(&log, Err("InsufficientBalance")));
    assert_eq!(r.err(), Some("InsufficientBalance"));
    assert!(m.queue().is_empty());
}

#[test]
fn add_and_pin_data_passes_transfer_error_through() {
    let mut m = Module::<Test>::new(OW);
    let log = RefCell::new(Vec::new());
    assert_eq!(m.add_and_pin_data(3, vec![1, 2], recording(&log, Err("KeepAlive"))), Err("KeepAlive"));
    assert_eq!(m.add_and_pin_data(3, vec![1, 2], recording(&log, Ok(()))), Ok(()));
    assert_eq!(*log.borrow(), vec![(3, OW, STORAGE_FEE), (3, OW, STORAGE_FEE)]);
    assert_eq!(m.queue().len(), 1);
}

#[test]
fn update_storage_only_from_offchain_account() {
    let mut m = Module::<Test>::new(OW);
    let r = m.update_storage(1, Some(1), IpfsResponse::AddBytes(b"cid".to_vec()), false, Timestamp::from_unix_millis(5));
    assert_eq!(r.err(), Some(Error::InvalidOW));
    assert!(!m.storage_contains_key(&b"cid".to_vec()));
}

#[test]
fn update_storage_records_new_cid_as_available() {
    let mut m = Module::<Test>::new(OW);
    let r = m.update_storage(OW, Some(1), IpfsResponse::AddBytes(b"cid".to_vec()), false, Timestamp::from_unix_millis(5));
    assert!(matches!(r, Ok(Event::StorageUpdated(IpfsResponse::AddBytes(ref c))) if c == b"cid"));
    assert_eq!(
        m.storage(&b"cid".to_vec()),
        Record { initiator: Some(1), avail: Some(Timestamp::from_unix_millis(5)) }
    );
}

#[test]
fn update_storage_check_sets_or_clears_availability() {
    let mut m = Module::<Test>::new(OW);
    stored(&mut m, b"cid", Some(1), 5);
    let r = m.update_storage(OW, None, IpfsResponse::CatBytes(b"cid".to_vec()), false, Timestamp::from_unix_millis(9));
    assert!(r.is_ok());
    assert_eq!(m.storage(&b"cid".to_vec()), Record { initiator: Some(1), avail: None });
    let r = m.update_storage(OW, None, IpfsResponse::CatBytes(b"cid".to_vec()), true, Timestamp::from_unix_millis(11));
    assert!(r.is_ok());
    assert_eq!(
        m.storage(&b"cid".to_vec()),
        Record { initiator: Some(1), avail: Some(Timestamp::from_unix_millis(11)) }
    );
}

#[test]
fn update_storage_check_of_unknown_cid_stores_nothing() {
    let mut m = Module::<Test>::new(OW);
    let r = m.update_storage(OW, None, IpfsResponse::CatBytes(b"other".to_vec()), true, Timestamp::from_unix_millis(9));
    assert!(r.is_ok());
    assert!(!m.storage_contains_key(&b"other".to_vec()));
    let r = m.update_storage(OW, Some(2), IpfsResponse::Success, true, Timestamp::from_unix_millis(9));
    assert!(r.is_ok());
}

#[test]
fn remove_pin_by_payer_refunds_and_queues() {
    let mut m = Module::<Test>::new(OW);
    stored(&mut m, b"cid", Some(1), 5);
    let log = RefCell::new(Vec::new());
    let r = m.remove_pin(1, b"cid".to_vec(), recording(&log, Ok(())));
    assert!(matches!(r, Ok(Event::RemovePinRequest(1, ref c)) if c == b"cid"));
    assert_eq!(*log.borrow(), vec![(OW, 1, REFUND_FEE)]);
    assert!(!m.storage_contains_key(&b"cid".to_vec()));
    assert!(matches!(&m.queue()[0], DataCommand::RemovePin(c) if c == b"cid"));
}

#[test]
fn remove_pin_by_other_account_fails_and_drops_record() {
    let mut m = Module::<Test>::new(OW);
    stored(&mut m, b"cid", Some(1), 5);
    let log = RefCell::new(Vec::new());
    let r = m.remove_pin(2, b"cid".to_vec(), recording(&log, Ok(())));
    assert_eq!(r.err(), Some(Error::NotInitiator));
    assert!(log.borrow().is_empty());
    assert!(!m.storage_contains_key(&b"cid".to_vec()));
    assert!(m.queue().is_empty());
}

#[test]
fn remove_pin_of_unknown_cid_is_unpinned() {
    let mut m = Module::<Test>::new(OW);
    let log = RefCell::new(Vec::new());
    let r = m.remove_pinned_data(1, b"nothing".to_vec(), recording(&log, Ok(())));
    assert_eq!(r, Err(Error::Unpinned));
    assert!(log.borrow().is_empty());
}

#[test]
fn remove_pin_with_failed_refund_is_refund_error() {
    let mut m = Module::<Test>::new(OW);
    stored(&mut m, b"cid", Some(1), 5);
    let log = RefCell::new(Vec::new());
    let r = m.remove_pinned_data(1, b"cid".to_vec(), recording(&log, Err("broke")));
    assert_eq!(r, Err(Error::RefundError));
    assert!(m.queue().is_empty());
    assert!(!m.storage_contains_key(&b"cid".to_vec()));
}

#[test]
fn check_availability_queues_check() {
    let mut m = Module::<Test>::new(OW);
    let ev = m.check_availability(4, b"cid".to_vec());
    assert!(matches!(ev, Event::CheckRequest(4, ref c) if c == b"cid"));
    assert!(matches!(&m.queue()[0], DataCommand::CatBytes(c) if c == b"cid"));
    m.check_avail(b"x".to_vec());
    assert_eq!(m.queue().len(), 2);
}

#[test]
fn report_of_unknown_cid_is_not_in_storage() {
    let mut m = Module::<Test>::new(OW);
    let log = RefCell::new(Vec::new());
    let r = m.report(1, b"cid".to_vec(), recording(&log, Ok(())));
    assert_eq!(r.err(), Some(Error::NotInStorage));
    assert!(log.borrow().is_empty());
}

#[test]
fn report_of_available_data_fails() {
    let mut m = Module::<Test>::new(OW);
    stored(&mut m, b"cid", Some(1), 5);
    let log = RefCell::new(Vec::new());
    let r = m.report_unavailable(b"cid".to_vec(), recording(&log, Ok(())));
    assert_eq!(r, Err(Error::ReportAvailabelData));
    assert!(m.storage_contains_key(&b"cid".to_vec()));
    assert!(log.borrow().is_empty());
}

#[test]
fn report_of_unavailable_data_refunds_payer_and_removes_record() {
    let mut m = Module::<Test>::new(OW);
    stored(&mut m, b"cid", Some(1), 5);
    m.update_storage(OW, None, IpfsResponse::CatBytes(b"cid".to_vec()), false, Timestamp::from_unix_millis(6)).unwrap();
    let log = RefCell::new(Vec::new());
    let r = m.report(9, b"cid".to_vec(), recording(&log, Ok(())));
    assert!(matches!(r, Ok(Event::RefundDueToMissingData(9, ref c)) if c == b"cid"));
    assert_eq!(*log.borrow(), vec![(OW, 1, REFUND_FEE)]);
    assert!(!m.storage_contains_key(&b"cid".to_vec()));
}

#[test]
fn report_with_failed_refund_keeps_record() {
    let mut m = Module::<Test>::new(OW);
    stored(&mut m, b"cid", Some(1), 5);
    m.update_storage(OW, None, IpfsResponse::CatBytes(b"cid".to_vec()), false, Timestamp::from_unix_millis(6)).unwrap();
    let log = RefCell::new(Vec::new());
    let r = m.report_unavailable(b"cid".to_vec(), recording(&log, Err("broke")));
    assert_eq!(r, Err(Error::RefundError));
    assert!(m.storage_contains_key(&b"cid".to_vec()));
}

#[test]
fn refund_maps_transfer_outcome() {
    let m = Module::<Test>::new(OW);
    let log = RefCell::new(Vec::new());
    assert_eq!(m.refund(3, 10, recording(&log, Ok(()))), Ok(()));
    assert_eq!(m.refund(3, 10, recording(&log, Err("x"))), Err(Error::RefundError));
    assert_eq!(*log.borrow(), vec![(OW, 3, 10), (OW, 3, 10)]);
}

#[test]
fn on_initialize_drops_queue_and_keeps_storage() {
    let mut m = Module::<Test>::new(OW);
    stored(&mut m, b"cid", Some(1), 5);
    m.check_avail(b"cid".to_vec());
    assert_eq!(m.on_initialize(3), 0);
    assert!(m.queue().is_empty());
    assert!(m.storage_contains_key(&b"cid".to_vec()));
    assert_eq!(m.ow_account_id(), OW);
}

#[test]
fn storage_of_missing_cid_is_default_record() {
    let m = Module::<Test>::new(OW);
    assert_eq!(m.storage(&b"none".to_vec()), Record::default());
    assert_eq!(Record::default(), Record { initiator: None, avail: None });
}

#[test]
fn test_ext_endows_two_accounts() {
    let ext = new_test_ext();
    assert_eq!(ext.balances, vec![(0, ENDOWMENT), (1, ENDOWMENT)]);
    assert_eq!(ext.storage_miner.ow_account_id(), 0);
    assert!(ext.storage_miner.queue().is_empty());
}

#[test]
fn unpin_refund_paid_once() {
    let mut m = Module::<Test>::new(OW);
    stored(&mut m, b"cid", Some(1), 5);
    let log = RefCell::new(Vec::new());
    assert!(m.remove_pin(1, b"cid".to_vec(), recording(&log, Ok(()))).is_ok());
    let r = m.remove_pin(1, b"cid".to_vec(), recording(&log, Ok(())));
    assert_eq!(r.err(), Some(Error::Unpinned));
    assert_eq!(*log.borrow(), vec![(OW, 1, REFUND_FEE)]);
    assert_eq!(m.queue().len(), 1);
}

#[test]
fn report_refund_paid_once() {
    let mut m = Module::<Test>::new(OW);
    stored(&mut m, b"cid", Some(1), 5);
    m.update_storage(OW, None, IpfsResponse::CatBytes(b"cid".to_vec()), false, Timestamp::from_unix_millis(6)).unwrap();
    let log = RefCell::new(Vec::new());
    assert!(m.report_unavailable(b"cid".to_vec(), recording(&log, Ok(()))).is_ok());
    let r = m.report_unavailable(b"cid".to_vec(), recording(&log, Ok(())));
    assert_eq!(r, Err(Error::NotInStorage));
    assert_eq!(*log.borrow(), vec![(OW, 1, REFUND_FEE)]);
}
