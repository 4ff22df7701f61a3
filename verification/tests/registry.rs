use pallet_stream::DispatchError;
use pallet_stream::Error;
use pallet_stream::Event;
use pallet_stream::Pallet;
use pallet_stream::SchemaError;
use pallet_stream::StreamCommitOf;

fn stream_err(e: Error) -> DispatchError {
    DispatchError::Stream(e)
}

#[test]
fn create_anchors_record_with_one_genesis_commit() {
    let mut p = Pallet::new();
    let r = p.create(1, 10, 20, Some(vec![1, 2, 3]), true, None, Ok(()), None, 5);
    assert_eq!(r, Ok(Event::TxAdd(10, 20, 1)));

    let d = p.streams(10).expect("record must exist");
    assert_eq!(d.hash, 20);
    assert_eq!(d.cid, Some(vec![1, 2, 3]));
    assert_eq!(d.parent_cid, None);
    assert_eq!(d.schema, None);
    assert_eq!(d.link, None);
    assert_eq!(d.controller, 1);
    assert_eq!(d.block, 5);
    assert!(!d.revoked);

    let h = p.history(10);
    assert_eq!(h.len(), 1);
    assert!(matches!(h[0].commit, StreamCommitOf::Genesis));
    assert_eq!(h[0].hash, 20);
    assert_eq!(h[0].cid, Some(vec![1, 2, 3]));
    assert_eq!(h[0].block, 5);

    assert_eq!(p.lookup(20), Some(10));
    assert_eq!(p.last_block(), 5);
}

#[test]
fn update_chains_parent_locator_and_extends_history() {
    let mut p = Pallet::new();
    assert!(p.create(1, 10, 20, Some(vec![7, 7]), true, None, Ok(()), None, 1).is_ok());

    let r = p.update(1, 10, 30, Some(vec![8, 8]), true, 2);
    assert_eq!(r, Ok(Event::TxUpdate(10, 30, 1)));

    let d = p.streams(10).expect("record must exist");
    assert_eq!(d.hash, 30);
    assert_eq!(d.cid, Some(vec![8, 8]));
    assert_eq!(d.parent_cid, Some(vec![7, 7]));
    assert_eq!(d.controller, 1);
    assert_eq!(d.block, 2);
    assert!(!d.revoked);

    let h = p.history(10);
    assert_eq!(h.len(), 2);
    assert!(matches!(h[0].commit, StreamCommitOf::Genesis));
    assert!(matches!(h[1].commit, StreamCommitOf::Update));
    assert_eq!(h[1].hash, 30);
    assert_eq!(h[1].cid, Some(vec![8, 8]));
    assert_eq!(h[1].block, 2);
}

#[test]
fn full_lifecycle_scenario() {
    let mut p = Pallet::new();
    assert_eq!(
        p.create(1, 100, 201, None, true, None, Ok(()), None, 1),
        Ok(Event::TxAdd(100, 201, 1))
    );
    let d = p.streams(100).expect("record must exist");
    assert!(!d.revoked);
    assert_eq!(p.history(100).len(), 1);
    assert!(matches!(p.history(100)[0].commit, StreamCommitOf::Genesis));

    assert_eq!(
        p.update(1, 100, 202, None, true, 2),
        Ok(Event::TxUpdate(100, 202, 1))
    );
    let d = p.streams(100).expect("record must exist");
    assert_eq!(d.hash, 202);
    assert_eq!(d.parent_cid, None);
    assert_eq!(p.history(100).len(), 2);

    assert_eq!(p.set_status(1, 100, true, 3), Ok(Event::TxStatus(100, 1)));
    let d = p.streams(100).expect("record must exist");
    assert!(d.revoked);
    assert_eq!(p.history(100).len(), 3);
    assert!(matches!(p.history(100)[2].commit, StreamCommitOf::StatusChange));

    assert_eq!(
        p.set_status(1, 100, true, 4),
        Err(stream_err(Error::StatusChangeNotRequired))
    );
    assert_eq!(p.history(100).len(), 3);
}

#[test]
fn create_rejects_hash_equal_to_identifier() {
    let mut p = Pallet::new();
    let r = p.create(1, 10, 10, None, true, None, Ok(()), None, 1);
    assert_eq!(r, Err(stream_err(Error::SameIdentifierAndHash)));
    assert!(p.streams(10).is_none());
    assert_eq!(p.history(10).len(), 0);
    assert_eq!(p.lookup(10), None);
}

#[test]
fn create_rejects_duplicate_identifier() {
    let mut p = Pallet::new();
    assert!(p.create(1, 10, 20, None, true, None, Ok(()), None, 1).is_ok());
    let r = p.create(2, 10, 30, None, true, None, Ok(()), None, 2);
    assert_eq!(r, Err(stream_err(Error::StreamAlreadyAnchored)));
    let d = p.streams(10).expect("first record must stay");
    assert_eq!(d.hash, 20);
    assert_eq!(d.controller, 1);
}

#[test]
fn create_rejects_invalid_locator_encoding() {
    let mut p = Pallet::new();
    let r = p.create(1, 10, 20, Some(vec![0]), false, None, Ok(()), None, 1);
    assert_eq!(r, Err(stream_err(Error::InvalidCidEncoding)));
    assert!(p.streams(10).is_none());
}

#[test]
fn create_without_locator_ignores_locator_verdict() {
    let mut p = Pallet::new();
    let r = p.create(1, 10, 20, None, false, None, Ok(()), None, 1);
    assert_eq!(r, Ok(Event::TxAdd(10, 20, 1)));
}

#[test]
fn create_propagates_schema_error_unmodified() {
    let mut p = Pallet::new();
    let verdict = SchemaError { code: 42 };
    let r = p.create(1, 10, 20, None, true, Some(99), Err(verdict), None, 1);
    assert_eq!(r, Err(DispatchError::Schema(verdict)));
    assert!(p.streams(10).is_none());
}

#[test]
fn create_without_schema_ignores_schema_verdict() {
    let mut p = Pallet::new();
    let verdict = SchemaError { code: 42 };
    let r = p.create(1, 10, 20, None, true, None, Err(verdict), None, 1);
    assert_eq!(r, Ok(Event::TxAdd(10, 20, 1)));
}

#[test]
fn create_rejects_missing_link_target() {
    let mut p = Pallet::new();
    let r = p.create(1, 10, 20, None, true, None, Ok(()), Some(77), 1);
    assert_eq!(r, Err(stream_err(Error::StreamLinkNotFound)));
    assert!(p.streams(10).is_none());
}

#[test]
fn create_records_link_under_target() {
    let mut p = Pallet::new();
    assert!(p.create(1, 10, 20, None, true, None, Ok(()), None, 1).is_ok());
    let r = p.create(2, 11, 21, None, true, None, Ok(()), Some(10), 2);
    assert_eq!(r, Ok(Event::TxAdd(11, 21, 2)));

    let links = p.links_of(10);
    assert_eq!(links.len(), 1);
    assert_eq!(links[0].identifier, 11);
    assert_eq!(links[0].controller, 2);
    let d = p.streams(11).expect("source record must exist");
    assert_eq!(d.link, Some(10));
}

#[test]
fn create_rejects_link_to_revoked_target_without_side_effects() {
    let mut p = Pallet::new();
    assert!(p.create(1, 10, 20, None, true, None, Ok(()), None, 1).is_ok());
    assert!(p.set_status(1, 10, true, 2).is_ok());

    let r = p.create(2, 11, 30, None, true, None, Ok(()), Some(10), 3);
    assert_eq!(r, Err(stream_err(Error::StreamLinkRevoked)));

    assert!(p.streams(11).is_none());
    assert_eq!(p.history(11).len(), 0);
    assert_eq!(p.lookup(30), None);
    assert_eq!(p.links_of(10).len(), 0);
}

#[test]
fn links_survive_later_revocation_of_target() {
    let mut p = Pallet::new();
    assert!(p.create(1, 10, 20, None, true, None, Ok(()), None, 1).is_ok());
    assert!(p.create(2, 11, 21, None, true, None, Ok(()), Some(10), 2).is_ok());
    assert!(p.set_status(1, 10, true, 3).is_ok());
    let links = p.links_of(10);
    assert_eq!(links.len(), 1);
    assert_eq!(links[0].identifier, 11);
}

#[test]
fn update_rejects_hash_equal_to_identifier_before_any_store() {
    let mut p = Pallet::new();
    assert!(p.create(1, 10, 20, None, true, None, Ok(()), None, 1).is_ok());
    let r = p.update(1, 10, 10, None, true, 2);
    assert_eq!(r, Err(stream_err(Error::SameIdentifierAndHash)));
    let d = p.streams(10).expect("record must stay");
    assert_eq!(d.hash, 20);
    assert_eq!(p.history(10).len(), 1);
}

#[test]
fn update_rejects_unknown_record() {
    let mut p = Pallet::new();
    let r = p.update(1, 10, 20, None, true, 1);
    assert_eq!(r, Err(stream_err(Error::StreamNotFound)));
}

#[test]
fn update_rejects_unchanged_locator() {
    let mut p = Pallet::new();
    assert!(p.create(1, 10, 20, Some(vec![5, 6]), true, None, Ok(()), None, 1).is_ok());
    let r = p.update(1, 10, 30, Some(vec![5, 6]), true, 2);
    assert_eq!(r, Err(stream_err(Error::CidAlreadyAnchored)));
    let d = p.streams(10).expect("record must stay");
    assert_eq!(d.hash, 20);
}

#[test]
fn update_accepts_locator_when_record_had_none() {
    let mut p = Pallet::new();
    assert!(p.create(1, 10, 20, None, true, None, Ok(()), None, 1).is_ok());
    let r = p.update(1, 10, 30, Some(vec![5]), true, 2);
    assert_eq!(r, Ok(Event::TxUpdate(10, 30, 1)));
    let d = p.streams(10).expect("record must exist");
    assert_eq!(d.cid, Some(vec![5]));
    assert_eq!(d.parent_cid, None);
}

#[test]
fn update_rejects_invalid_locator_encoding() {
    let mut p = Pallet::new();
    assert!(p.create(1, 10, 20, Some(vec![5]), true, None, Ok(()), None, 1).is_ok());
    let r = p.update(1, 10, 30, Some(vec![6]), false, 2);
    assert_eq!(r, Err(stream_err(Error::InvalidCidEncoding)));
}

#[test]
fn update_rejects_revoked_record() {
    let mut p = Pallet::new();
    assert!(p.create(1, 10, 20, None, true, None, Ok(()), None, 1).is_ok());
    assert!(p.set_status(1, 10, true, 2).is_ok());
    let r = p.update(1, 10, 30, None, true, 3);
    assert_eq!(r, Err(stream_err(Error::StreamRevoked)));
}

#[test]
fn update_rejects_foreign_controller() {
    let mut p = Pallet::new();
    assert!(p.create(1, 10, 20, None, true, None, Ok(()), None, 1).is_ok());
    let r = p.update(2, 10, 30, None, true, 2);
    assert_eq!(r, Err(stream_err(Error::UnauthorizedOperation)));
    let d = p.streams(10).expect("record must stay");
    assert_eq!(d.controller, 1);
    assert_eq!(d.hash, 20);
    assert_eq!(p.history(10).len(), 1);
}

#[test]
fn update_hands_record_to_updating_controller() {
    let mut p = Pallet::new();
    assert!(p.create(1, 10, 20, None, true, None, Ok(()), None, 1).is_ok());
    assert!(p.update(1, 10, 30, None, true, 2).is_ok());
    let d = p.streams(10).expect("record must exist");
    assert_eq!(d.controller, 1);
    let r = p.update(2, 10, 40, None, true, 3);
    assert_eq!(r, Err(stream_err(Error::UnauthorizedOperation)));
}

#[test]
fn set_status_rejects_unknown_record() {
    let mut p = Pallet::new();
    let r = p.set_status(1, 10, true, 1);
    assert_eq!(r, Err(stream_err(Error::StreamNotFound)));
}

#[test]
fn set_status_rejects_foreign_controller() {
    let mut p = Pallet::new();
    assert!(p.create(1, 10, 20, None, true, None, Ok(()), None, 1).is_ok());
    let r = p.set_status(2, 10, true, 2);
    assert_eq!(r, Err(stream_err(Error::UnauthorizedOperation)));
    let d = p.streams(10).expect("record must stay");
    assert!(!d.revoked);
}

#[test]
fn set_status_restores_a_revoked_record() {
    let mut p = Pallet::new();
    assert!(p.create(1, 10, 20, None, true, None, Ok(()), None, 1).is_ok());
    assert!(p.set_status(1, 10, true, 2).is_ok());
    let r = p.set_status(1, 10, false, 3);
    assert_eq!(r, Ok(Event::TxStatus(10, 1)));
    let d = p.streams(10).expect("record must exist");
    assert!(!d.revoked);
    assert_eq!(p.history(10).len(), 3);
}

#[test]
fn set_status_reuses_current_hash_and_locator_in_commit() {
    let mut p = Pallet::new();
    assert!(p.create(1, 10, 20, Some(vec![9]), true, None, Ok(()), None, 1).is_ok());
    assert!(p.set_status(1, 10, true, 2).is_ok());
    let h = p.history(10);
    assert_eq!(h[1].hash, 20);
    assert_eq!(h[1].cid, Some(vec![9]));
    assert_eq!(h[1].block, 2);
}

#[test]
fn hash_index_keeps_stale_mapping_after_update() {
    // The index is written on every create and update but never cleaned:
    // a superseded hash keeps pointing at the record that anchored it.
    let mut p = Pallet::new();
    assert!(p.create(1, 10, 20, None, true, None, Ok(()), None, 1).is_ok());
    assert!(p.update(1, 10, 30, None, true, 2).is_ok());
    assert_eq!(p.lookup(30), Some(10));
    assert_eq!(p.lookup(20), Some(10));
}

#[test]
fn hash_index_overwrites_without_uniqueness_check() {
    // Two records may claim the same hash; the index keeps the last writer.
    let mut p = Pallet::new();
    assert!(p.create(1, 10, 20, None, true, None, Ok(()), None, 1).is_ok());
    assert!(p.create(2, 11, 20, None, true, None, Ok(()), None, 2).is_ok());
    assert_eq!(p.lookup(20), Some(11));
    assert!(p.streams(10).is_some());
    assert!(p.streams(11).is_some());
}

#[test]
fn histories_of_distinct_records_stay_apart() {
    let mut p = Pallet::new();
    assert!(p.create(1, 10, 20, None, true, None, Ok(()), None, 1).is_ok());
    assert!(p.create(2, 11, 21, None, true, None, Ok(()), None, 2).is_ok());
    assert!(p.update(1, 10, 30, None, true, 3).is_ok());
    assert_eq!(p.history(10).len(), 2);
    assert_eq!(p.history(11).len(), 1);
    assert_eq!(p.last_block(), 3);
}

#[test]
fn history_blocks_are_ordered() {
    let mut p = Pallet::new();
    assert!(p.create(1, 10, 20, None, true, None, Ok(()), None, 4).is_ok());
    assert!(p.update(1, 10, 30, None, true, 4).is_ok());
    assert!(p.set_status(1, 10, true, 9).is_ok());
    let h = p.history(10);
    assert_eq!(h.len(), 3);
    assert!(h[0].block <= h[1].block && h[1].block <= h[2].block);
    assert_eq!(p.last_block(), 9);
}
