use im_online::heartbeat::AuthorityId;
use im_online::module::{Module, TransactionValidity};
use im_online::offchain::{
    check_not_yet_gossipped, compare_and_set_worker_status, set_worker_status, worker_status_bytes,
    OffchainErr, StatusStore,
};
use schnorrkel::{ExpansionMode, Keypair, MiniSecretKey};

fn keypair(seed: u8) -> Keypair {
    MiniSecretKey::from_bytes(&[seed; 32])
        .unwrap()
        .expand_to_keypair(ExpansionMode::Ed25519)
}

#[test]
fn never_started_is_not_yet_gossipped() {
    assert_eq!(check_not_yet_gossipped(5, 1, &None), Ok(true));
}

#[test]
fn in_progress_at_this_block_skips() {
    // Another worker is submitting at this very block: do nothing this tick.
    let stored = Some(worker_status_bytes(false, 5));
    assert_eq!(check_not_yet_gossipped(5, 1, &stored), Ok(false));
}

#[test]
fn aborted_attempt_is_retried() {
    // A previous attempt started at an earlier block and never completed.
    let stored = Some(worker_status_bytes(false, 3));
    assert_eq!(check_not_yet_gossipped(5, 1, &stored), Ok(true));
}

#[test]
fn done_stale_is_retried() {
    // The last attempt completed before the next scheduled round began.
    let stored = Some(worker_status_bytes(true, 3));
    assert_eq!(check_not_yet_gossipped(9, 4, &stored), Ok(true));
}

#[test]
fn done_current_skips() {
    // Already satisfied for the current round.
    let stored = Some(worker_status_bytes(true, 5));
    assert_eq!(check_not_yet_gossipped(9, 4, &stored), Ok(false));
}

#[test]
fn undecodable_status_is_an_error() {
    // A bad boolean byte.
    assert_eq!(
        check_not_yet_gossipped(5, 1, &Some(vec![2, 0, 0, 0, 0])),
        Err(OffchainErr::DecodeWorkerStatus)
    );
    // Too short.
    assert_eq!(
        check_not_yet_gossipped(5, 1, &Some(vec![1, 0])),
        Err(OffchainErr::DecodeWorkerStatus)
    );
    assert_eq!(
        check_not_yet_gossipped(5, 1, &Some(Vec::new())),
        Err(OffchainErr::DecodeWorkerStatus)
    );
    // Trailing bytes are ignored.
    assert_eq!(
        check_not_yet_gossipped(5, 1, &Some(vec![1, 3, 0, 0, 0, 77])),
        Ok(false)
    );
}

#[test]
fn concurrent_ticks_one_compare_and_set_wins() {
    // Two simulated concurrent worker ticks at the same block, both observing
    // the worker status as absent.
    let mut store = StatusStore::new();
    let observed_by_first = store.get();
    let observed_by_second = store.get();
    assert!(observed_by_first.is_none() && observed_by_second.is_none());

    // Exactly one compare-and-set succeeds.
    let first = compare_and_set_worker_status(&mut store, 5, false, &observed_by_first);
    let second = compare_and_set_worker_status(&mut store, 5, false, &observed_by_second);
    assert!(first);
    assert!(!second);
    // The loser performed no submission attempt; the winner's claim stands.
    assert_eq!(store.get(), Some(worker_status_bytes(false, 5)));
}

#[test]
fn offchain_tick_claims_then_skips() {
    let mut module = Module::new();
    module.on_new_session(0, 3, vec![AuthorityId { key: vec![1; 32] }]);
    let mut store = StatusStore::new();

    // Round due (gossip scheduled at block 3, now block 5), never gossipped:
    // the tick claims the round.
    assert_eq!(module.offchain(&mut store, 5), Ok(true));
    assert_eq!(store.get(), Some(worker_status_bytes(false, 5)));

    // A tick at the same block now sees a worker in progress and skips.
    assert_eq!(module.offchain(&mut store, 5), Ok(false));

    // The attempt completes (however it went): the status is marked done.
    set_worker_status(&mut store, 5, true);
    assert_eq!(store.get(), Some(worker_status_bytes(true, 5)));

    // Done for the current round: later ticks of the same round skip.
    assert_eq!(module.offchain(&mut store, 6), Ok(false));

    // A new session schedules a new round; the old done status is stale.
    module.on_new_session(1, 7, vec![AuthorityId { key: vec![1; 32] }]);
    assert_eq!(module.offchain(&mut store, 9), Ok(true));
    assert_eq!(store.get(), Some(worker_status_bytes(false, 9)));
}

#[test]
fn offchain_tick_not_due_before_schedule() {
    let mut module = Module::new();
    module.on_new_session(0, 8, Vec::new());
    let mut store = StatusStore::new();
    // now == gossip_at is not yet due; the round starts strictly after.
    assert_eq!(module.offchain(&mut store, 8), Ok(false));
    assert!(store.get().is_none());
}

#[test]
fn offchain_tick_reports_undecodable_status() {
    let module = Module::new();
    let mut store = StatusStore::new();
    store.set(vec![9, 9]);
    assert_eq!(
        module.offchain(&mut store, 5),
        Err(OffchainErr::DecodeWorkerStatus)
    );
    // The bad record is left in place.
    assert_eq!(store.get(), Some(vec![9, 9]));
}

#[test]
fn prepare_heartbeat_finds_local_authority_and_signs() {
    let pair0 = keypair(20);
    let pair1 = keypair(21);
    let mut module = Module::new();
    module.on_new_session(
        3,
        10,
        vec![
            AuthorityId { key: pair0.public.to_bytes().to_vec() },
            AuthorityId { key: pair1.public.to_bytes().to_vec() },
        ],
    );
    let local_key = pair1.public.to_bytes().to_vec();
    let prepared = module
        .prepare_heartbeat(&pair1, &local_key, 11, 4, vec![8, 8])
        .expect("signing a fresh heartbeat must not fail");
    let (heartbeat, signature) = prepared.expect("the local key is in the roster");
    assert_eq!(heartbeat.block_number, 11);
    assert_eq!(heartbeat.network_state, vec![8, 8]);
    assert_eq!(heartbeat.session_index, 4);
    assert_eq!(heartbeat.authority_index, 1);
    assert_eq!(signature.len(), 64);
    // The prepared submission passes the admission checks end to end.
    assert!(matches!(
        module.validate_unsigned(&heartbeat, &signature, 4),
        TransactionValidity::Valid(_)
    ));
}

#[test]
fn prepare_heartbeat_first_match_wins() {
    // A key held at several roster positions resolves, deterministically, to
    // the first of them.
    let pair = keypair(20);
    let key = pair.public.to_bytes().to_vec();
    let mut module = Module::new();
    module.on_new_session(
        3,
        10,
        vec![
            AuthorityId { key: vec![0; 32] },
            AuthorityId { key: key.clone() },
            AuthorityId { key: key.clone() },
        ],
    );
    let (heartbeat, _) = module
        .prepare_heartbeat(&pair, &key, 11, 4, Vec::new())
        .expect("signing a fresh heartbeat must not fail")
        .expect("the local key is in the roster");
    assert_eq!(heartbeat.authority_index, 1);
}

#[test]
fn prepare_heartbeat_skips_non_authority() {
    let roster_pair = keypair(20);
    let outsider = keypair(30);
    let mut module = Module::new();
    module.on_new_session(
        3,
        10,
        vec![AuthorityId { key: roster_pair.public.to_bytes().to_vec() }],
    );
    let local_key = outsider.public.to_bytes().to_vec();
    assert!(matches!(
        module.prepare_heartbeat(&outsider, &local_key, 11, 4, Vec::new()),
        Ok(None)
    ));
}

#[test]
fn offchain_error_messages_are_fixed() {
    assert_eq!(
        OffchainErr::DecodeWorkerStatus.message(),
        "Offchain error: decoding WorkerStatus failed!"
    );
    assert_eq!(
        OffchainErr::NoKeys.message(),
        "Offchain error: could not find local keys!"
    );
    assert_eq!(
        OffchainErr::SubmitTransaction.message(),
        "Offchain error: submitting transaction failed!"
    );
}
