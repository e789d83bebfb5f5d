use ocw_pipeline::fetch::{decode_body, fetch_result, quote_from_field, FetchError, HttpOutcome, PriceQuote};
use ocw_pipeline::key::derive_key;
use ocw_pipeline::pallet::{Call, Origin, Pallet};
use ocw_pipeline::key::BlockNumber;
use ocw_pipeline::store::{IndexingData, LocalStore};
use ocw_pipeline::worker::{
    index_block, plan_block, record_outcomes, send_signed_tx, QueueError, SigningError, Submission, Submitting,
};

fn ok_response(body: &str) -> HttpOutcome {
    HttpOutcome::Response { code: 200, body: body.as_bytes().to_vec() }
}

fn expected_key(height: u32) -> Vec<u8> {
    let mut k = b"my_pallet::indexing1/".to_vec();
    k.extend_from_slice(&height.to_le_bytes());
    k
}

fn record_bytes(tag: &[u8], value: u64) -> Vec<u8> {
    let mut v = vec![(tag.len() as u8) << 2];
    v.extend_from_slice(tag);
    v.extend_from_slice(&value.to_le_bytes());
    v
}

#[test]
fn derive_key_is_namespace_separator_and_le_height() {
    assert_eq!(derive_key(100), expected_key(100));
    assert_eq!(derive_key(0x0102_0304), expected_key(0x0102_0304));
    assert_eq!(derive_key(100)[21..], [100u8, 0, 0, 0]);
}

#[test]
fn derive_key_distinct_heights_distinct_keys() {
    assert_ne!(derive_key(100), derive_key(101));
    assert_ne!(derive_key(0), derive_key(256));
    assert_ne!(derive_key(u32::MAX), derive_key(0));
}

#[test]
fn derive_key_repeatable() {
    assert_eq!(derive_key(42), derive_key(42));
    assert_eq!(derive_key(u32::MAX), derive_key(u32::MAX));
}

#[test]
fn record_encoding_is_scale() {
    let data = IndexingData(b"price".to_vec(), 725);
    assert_eq!(data.encode(), record_bytes(b"price", 725));
}

#[test]
fn decode_body_reads_price() {
    let body = br#"{"data":{"price_usd": 725}}"#.to_vec();
    assert_eq!(decode_body(&body), Ok(PriceQuote { price_usd: 725 }));
    let extra = br#"{"data":{"id":"polkadot","price_usd":6}}"#.to_vec();
    assert_eq!(decode_body(&extra), Ok(PriceQuote { price_usd: 6 }));
}

#[test]
fn decode_body_rejects_bad_bodies() {
    assert_eq!(decode_body(&vec![0xff, 0xfe, 0x7b]), Err(FetchError::Decode));
    assert_eq!(decode_body(&b"not json".to_vec()), Err(FetchError::Decode));
    assert_eq!(decode_body(&br#"{"data":{"price":1}}"#.to_vec()), Err(FetchError::Decode));
    assert_eq!(decode_body(&br#"{"data":{"price_usd":"7"}}"#.to_vec()), Err(FetchError::Decode));
    assert_eq!(decode_body(&br#"{"data":{"price_usd":-7}}"#.to_vec()), Err(FetchError::Decode));
    assert_eq!(decode_body(&br#"{"data":{"price_usd":4294967296}}"#.to_vec()), Err(FetchError::Decode));
}

#[test]
fn quote_from_field_bounds() {
    assert_eq!(quote_from_field(Some(4294967295)), Ok(PriceQuote { price_usd: u32::MAX }));
    assert_eq!(quote_from_field(Some(4294967296)), Err(FetchError::Decode));
    assert_eq!(quote_from_field(None), Err(FetchError::Decode));
}

#[test]
fn fetch_result_classifies_transport() {
    assert_eq!(fetch_result(&HttpOutcome::IoFailed), Err(FetchError::Io));
    assert_eq!(fetch_result(&HttpOutcome::DeadlineReached), Err(FetchError::Timeout));
    let unavailable = HttpOutcome::Response { code: 503, body: br#"{"data":{"price_usd":1}}"#.to_vec() };
    assert_eq!(fetch_result(&unavailable), Err(FetchError::HttpStatus));
    assert_eq!(fetch_result(&ok_response(r#"{"data":{"price_usd":725}}"#)), Ok(PriceQuote { price_usd: 725 }));
}

#[test]
fn signer_one_submission_per_identity() {
    let subs = send_signed_tx(&vec![7, 8, 9], 725).unwrap();
    assert_eq!(subs.len(), 3);
    for (sub, id) in subs.iter().zip([7u64, 8, 9]) {
        assert_eq!(*sub, Submission { signer: id, call: Call::SubmitData { payload: 725 } });
    }
    assert_eq!(send_signed_tx(&vec![], 725), Err(SigningError::NoIdentities));
}

#[test]
fn outcomes_follow_submissions() {
    let subs = send_signed_tx(&vec![1, 2], 5).unwrap();
    let out = record_outcomes(&subs, &vec![Ok(()), Err(QueueError::Rejected)]);
    assert_eq!(out.len(), 2);
    assert_eq!((out[0].identity, out[0].result), (1, Ok(())));
    assert_eq!((out[1].identity, out[1].result), (2, Err(QueueError::Rejected)));
}

/// Runs the worker for one block against `store` and applies every submission to `pallet`.
fn run(store: &mut LocalStore, pallet: &mut Pallet, height: BlockNumber, outcome: &HttpOutcome, ids: &Vec<u64>) -> (Submitting, Option<Vec<u8>>) {
    let plan = plan_block(height, outcome, ids);
    assert_eq!(plan.block_number, height);
    if let Submitting::Dispatch(subs) = &plan.submitting {
        for sub in subs {
            assert_eq!(pallet.dispatch(Origin::Signed(sub.signer), sub.call), Ok(()));
        }
    }
    let report = index_block(store, height, &plan.fetched);
    assert_eq!(report.key, expected_key(height));
    assert_eq!(store.get(&report.key), Some(report.written.clone()));
    (plan.submitting, report.previous)
}

#[test]
fn scenario_a_price_reaches_ledger() {
    let plan = plan_block(7, &ok_response(r#"{"data":{"price_usd": 725}}"#), &vec![1, 2]);
    assert_eq!(plan.fetched, Ok(PriceQuote { price_usd: 725 }));
    let subs = match plan.submitting {
        Submitting::Dispatch(v) => v,
        other => panic!("unexpected {:?}", other),
    };
    assert_eq!(subs.len(), 2);
    let mut pallet = Pallet::new(8);
    pallet.prices = Some(3);
    for sub in &subs {
        assert_eq!(sub.call, Call::SubmitData { payload: 725 });
        assert_eq!(pallet.dispatch(Origin::Signed(sub.signer), sub.call), Ok(()));
        assert_eq!(pallet.prices, Some(725));
    }
    let mut store = LocalStore::new();
    let report = index_block(&mut store, 7, &plan.fetched);
    assert_eq!(report.written, record_bytes(b"price", 725));
    assert_eq!(store.get(&derive_key(7)), Some(record_bytes(b"price", 725)));
}

#[test]
fn scenario_b_timeout_skips_but_indexes() {
    let mut store = LocalStore::new();
    let mut pallet = Pallet::new(5);
    let (submitting, previous) = run(&mut store, &mut pallet, 5, &HttpOutcome::DeadlineReached, &vec![1, 2]);
    assert!(matches!(submitting, Submitting::Skipped(FetchError::Timeout)));
    assert_eq!(previous, None);
    assert_eq!(pallet.prices, None);
    assert_eq!(store.get(&derive_key(5)), Some(record_bytes(b"skipped", 0)));
}

#[test]
fn scenario_c_bad_status_skips_but_indexes() {
    let mut store = LocalStore::new();
    let mut pallet = Pallet::new(6);
    pallet.prices = Some(4);
    let outcome = HttpOutcome::Response { code: 503, body: Vec::new() };
    let (submitting, _) = run(&mut store, &mut pallet, 6, &outcome, &vec![1]);
    assert!(matches!(submitting, Submitting::Skipped(FetchError::HttpStatus)));
    assert_eq!(pallet.prices, Some(4));
    assert_eq!(store.get(&derive_key(6)), Some(record_bytes(b"skipped", 0)));
}

#[test]
fn scenario_d_last_write_wins_two_records() {
    let mut store = LocalStore::new();
    let mut pallet = Pallet::new(100);
    let (first, _) = run(&mut store, &mut pallet, 100, &ok_response(r#"{"data":{"price_usd":10}}"#), &vec![4]);
    let (second, _) = run(&mut store, &mut pallet, 101, &ok_response(r#"{"data":{"price_usd":20}}"#), &vec![4]);
    assert!(matches!(first, Submitting::Dispatch(_)));
    assert!(matches!(second, Submitting::Dispatch(_)));
    assert_eq!(pallet.prices, Some(20));
    assert_ne!(derive_key(100), derive_key(101));
    assert_eq!(store.get(&derive_key(100)), Some(record_bytes(b"price", 10)));
    assert_eq!(store.get(&derive_key(101)), Some(record_bytes(b"price", 20)));
}

#[test]
fn no_identities_still_indexes() {
    let mut store = LocalStore::new();
    let mut pallet = Pallet::new(9);
    let (submitting, _) = run(&mut store, &mut pallet, 9, &ok_response(r#"{"data":{"price_usd":3}}"#), &vec![]);
    assert!(matches!(submitting, Submitting::NoIdentities(PriceQuote { price_usd: 3 })));
    assert_eq!(pallet.prices, None);
    assert_eq!(store.get(&derive_key(9)), Some(record_bytes(b"price", 3)));
}

#[test]
fn rerun_reads_previous_record() {
    let mut store = LocalStore::new();
    let mut pallet = Pallet::new(11);
    run(&mut store, &mut pallet, 11, &HttpOutcome::IoFailed, &vec![1]);
    let (_, previous) = run(&mut store, &mut pallet, 11, &ok_response(r#"{"data":{"price_usd":8}}"#), &vec![1]);
    assert_eq!(previous, Some(record_bytes(b"skipped", 0)));
    assert_eq!(store.get(&derive_key(11)), Some(record_bytes(b"price", 8)));
}

#[test]
fn worker_reads_what_extrinsic_indexed() {
    let mut pallet = Pallet::new(12);
    assert_eq!(pallet.extrinsic(Origin::Signed(1), 9), Ok(()));
    let plan = plan_block(12, &HttpOutcome::IoFailed, &vec![1]);
    let report = index_block(&mut pallet.offchain_index, 12, &plan.fetched);
    assert_eq!(report.previous, Some(record_bytes(b"submit_number_unsigned", 9)));
}

#[test]
fn local_store_overwrites_and_misses() {
    let mut store = LocalStore::new();
    assert_eq!(store.get(&vec![1]), None);
    store.put(vec![1], vec![10]);
    store.put(vec![2], vec![20]);
    store.put(vec![1], vec![11]);
    assert_eq!(store.get(&vec![1]), Some(vec![11]));
    assert_eq!(store.get(&vec![2]), Some(vec![20]));
    assert_eq!(store.get(&vec![3]), None);
}
