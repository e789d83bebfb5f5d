use ocw_pipeline::key::derive_key;
use ocw_pipeline::pallet::{DispatchError, Error, Event, Origin, Pallet};
use ocw_pipeline::store::IndexingData;

#[test]
fn do_something_stores_and_emits() {
    let mut p = Pallet::new(1);
    assert_eq!(p.do_something(Origin::Signed(3), 42), Ok(()));
    assert_eq!(p.something(), Some(42));
    assert_eq!(p.events, vec![Event::SomethingStored(42, 3)]);
    assert_eq!(p.do_something(Origin::Unsigned, 1), Err(DispatchError::BadOrigin));
    assert_eq!(p.something(), Some(42));
}

#[test]
fn cause_error_cases() {
    let mut p = Pallet::new(1);
    assert_eq!(p.cause_error(Origin::Signed(1)), Err(DispatchError::Module(Error::NoneValue)));
    p.something = Some(5);
    assert_eq!(p.cause_error(Origin::Signed(1)), Ok(()));
    assert_eq!(p.something, Some(6));
    p.something = Some(u32::MAX);
    assert_eq!(p.cause_error(Origin::Signed(1)), Err(DispatchError::Module(Error::StorageOverflow)));
    assert_eq!(p.something, Some(u32::MAX));
    assert_eq!(p.cause_error(Origin::Root), Err(DispatchError::BadOrigin));
}

#[test]
fn submit_data_overwrites_price() {
    let mut p = Pallet::new(1);
    assert_eq!(p.submit_data(Origin::Signed(1), 10), Ok(()));
    assert_eq!(p.prices, Some(10));
    assert_eq!(p.submit_data(Origin::Signed(2), 4), Ok(()));
    assert_eq!(p.prices, Some(4));
    assert_eq!(p.submit_data(Origin::Signed(2), 4), Ok(()));
    assert_eq!(p.prices, Some(4));
    assert_eq!(p.submit_data(Origin::Unsigned, 99), Err(DispatchError::BadOrigin));
    assert_eq!(p.prices, Some(4));
}

#[test]
fn extrinsic_indexes_record() {
    let mut p = Pallet::new(77);
    assert_eq!(p.extrinsic(Origin::Signed(1), 9), Ok(()));
    let expected = IndexingData(b"submit_number_unsigned".to_vec(), 9).encode();
    assert_eq!(p.offchain_index.get(&derive_key(77)), Some(expected));
    assert_eq!(p.extrinsic(Origin::Root, 9), Err(DispatchError::BadOrigin));
}
