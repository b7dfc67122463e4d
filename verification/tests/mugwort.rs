use ipfs_pallets::art_worker::{ArtAction, ArtFeedback, ArtWorker};
use ipfs_pallets::mugwort_ipfs::{Conjuration, DataCommand, Error, Event, Module, State};
use ipfs_pallets::offchain::{IpfsRequest, IpfsResponse, Timestamp};

const OW: u64 = 7;

fn is_spell(c: &Conjuration, who: u64) -> bool {
    matches!(c.0, State::SpellCast(a) if a == who)
}

fn is_art(c: &Conjuration, who: u64, cid: &[u8]) -> bool {
    matches!(&c.0, State::ConjuredArt { owner, metadata } if *owner == who && metadata == cid)
}

#[test]
fn conjure_takes_next_id_and_queues_data() {
    let mut m = Module::new(OW);
    let r = m.conjure_art(3, b"art".to_vec());
    assert!(matches!(r, Ok(Event::SpellCast(3))));
    assert_eq!(m.current_art_id(), 1);
    assert!(is_art(&m.art_work(1), 3, b""));
    assert!(matches!(&m.data_queue()[0], DataCommand::AddBytes(1, d) if d == b"art"));
    m.conjure_art(4, b"more".to_vec()).unwrap();
    assert_eq!(m.current_art_id(), 2);
    assert!(matches!(&m.data_queue()[1], DataCommand::AddBytes(2, d) if d == b"more"));
}

#[test]
fn transfigure_leaves_conjured_art() {
    let mut m = Module::new(OW);
    m.conjure_art(3, b"art".to_vec()).unwrap();
    let r = m.transfigure_art(OW, 1, b"Qm1".to_vec());
    assert!(matches!(r, Ok(Event::Conjured(1, ref c)) if c == b"Qm1"));
    assert!(is_art(&m.art_work(1), 3, b""));
}

#[test]
fn transfigure_records_metadata_of_spell_once() {
    let mut m = Module::new(OW);
    m.transfigure_art(OW, 9, b"Qm1".to_vec()).unwrap();
    assert!(is_art(&m.art_work(9), 0, b"Qm1"));
    m.transfigure_art(OW, 9, b"Qm2".to_vec()).unwrap();
    assert!(is_art(&m.art_work(9), 0, b"Qm1"));
}

#[test]
fn transfigure_only_from_offchain_account() {
    let mut m = Module::new(OW);
    m.conjure_art(3, b"art".to_vec()).unwrap();
    assert_eq!(m.transfigure_art(3, 5, b"Qm1".to_vec()).err(), Some(Error::InvalidOW));
    assert!(is_spell(&m.art_work(5), 0));
    assert!(is_art(&m.art_work(1), 3, b""));
}

#[test]
fn transfigure_unknown_id_uses_default_artwork() {
    let mut m = Module::new(OW);
    assert!(is_spell(&m.art_work(5), 0));
    m.transfigure_art(OW, 5, b"Qm".to_vec()).unwrap();
    assert!(is_art(&m.art_work(5), 0, b"Qm"));
    assert!(is_spell(&Conjuration::default(), 0));
}

#[test]
fn on_initialize_drops_art_queue() {
    let mut m = Module::new(OW);
    m.conjure_art(3, b"art".to_vec()).unwrap();
    assert_eq!(m.on_initialize(1), 0);
    assert!(m.data_queue().is_empty());
    assert_eq!(m.current_art_id(), 1);
    assert_eq!(m.ow_account_id(), OW);
}

#[test]
fn art_worker_stores_then_transfigures() {
    let cmds = vec![
        DataCommand::CatBytes(b"skip".to_vec()),
        DataCommand::AddBytes(1, b"art".to_vec()),
        DataCommand::AddBytes(2, b"more".to_vec()),
    ];
    let mut w = ArtWorker::new(cmds, Timestamp::from_unix_millis(0));
    let a = w.start();
    assert!(matches!(a, ArtAction::Ipfs { request: IpfsRequest::AddBytes(ref d), deadline } if d == b"art" && deadline == Timestamp::from_unix_millis(1_000)));
    let a = w.resume(ArtFeedback::Ipfs(Ok(IpfsResponse::AddBytes(b"Qm1".to_vec()))));
    assert!(matches!(a, ArtAction::TransfigureArt { id: 1, ref cid } if cid == b"Qm1"));
    let a = w.resume(ArtFeedback::Submitted(Err(Error::OffchainSignerError)));
    assert!(matches!(a, ArtAction::Ipfs { request: IpfsRequest::AddBytes(ref d), .. } if d == b"more"));
    let a = w.resume(ArtFeedback::Ipfs(Err(Error::RequestFailed)));
    assert!(matches!(a, ArtAction::Finished));
}

#[test]
fn art_worker_with_nothing_to_store_finishes() {
    let mut w = ArtWorker::new(vec![DataCommand::CatBytes(b"x".to_vec())], Timestamp::from_unix_millis(0));
    assert!(matches!(w.start(), ArtAction::Finished));
}
