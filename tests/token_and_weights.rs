use ocw_pipeline::erc20::{Approval, Error, Transfer, ERC20};
use ocw_pipeline::weights::{create_claim, revoke_claim, transfer_claim, RuntimeDbWeight, SubstrateWeight, WeightInfo};

#[test]
fn claim_weights_rocks_db() {
    let db = RuntimeDbWeight::rocks_db();
    assert_eq!(create_claim(0, db), 138_317_000);
    assert_eq!(create_claim(512, db), 141_389_000);
    assert_eq!(revoke_claim(10, db), 137_876_000);
    assert_eq!(transfer_claim(1, db), 132_729_000);
    let w = SubstrateWeight { db };
    assert_eq!(w.create_claim(512), 141_389_000);
    assert_eq!(w.revoke_claim(0), 137_796_000);
    assert_eq!(w.transfer_claim(0), 132_722_000);
    assert_eq!(().create_claim(512), 141_389_000);
    assert_eq!(().transfer_claim(2), 132_736_000);
}

#[test]
fn claim_weights_saturate() {
    let db = RuntimeDbWeight { read: u64::MAX, write: 1 };
    assert_eq!(create_claim(3, db), u64::MAX);
    assert_eq!(db.reads(2), u64::MAX);
    assert_eq!(db.writes(2), 2);
}

#[test]
fn token_transfer_and_allowance() {
    let _events = (Transfer { from: 0, to: 1, value: 1 }, Approval { owner: 1, spender: 2, value: 3 });
    let mut t = ERC20::new(1, 1000);
    assert_eq!(t.total_supply(), 1000);
    assert_eq!(t.balance_of(1), 1000);
    assert_eq!(t.balance_of(2), 0);
    assert_eq!(t.transfer(1, 2, 300), Ok(()));
    assert_eq!((t.balance_of(1), t.balance_of(2)), (700, 300));
    assert_eq!(t.transfer(2, 3, 301), Err(Error::InsufficientBalance));
    assert_eq!(t.transfer_from(3, 1, 3, 10), Err(Error::InsufficientAllowance));
    assert_eq!(t.approve(1, 3, 50), Ok(()));
    assert_eq!(t.allowance_of(1, 3), 50);
    assert_eq!(t.transfer_from(3, 1, 4, 20), Ok(()));
    assert_eq!((t.balance_of(1), t.balance_of(4), t.allowance_of(1, 3)), (680, 20, 30));
    assert_eq!(t.approve(2, 3, 1000), Ok(()));
    assert_eq!(t.transfer_from(3, 2, 4, 900), Err(Error::InsufficientBalance));
    assert_eq!(t.allowance_of(2, 3), 1000);
    assert_eq!(t.transfer(2, 3, u128::MAX), Err(Error::InsufficientBalance));
    assert_eq!(t.transfer_from(3, 1, 4, u128::MAX), Err(Error::InsufficientAllowance));
    assert_eq!(t.approve(1, 3, u128::MAX), Ok(()));
    assert_eq!(t.transfer_from(3, 1, 4, u128::MAX), Err(Error::InsufficientBalance));
    assert_eq!(t.allowance_of(1, 3), u128::MAX);
    assert_eq!((t.balance_of(1), t.balance_of(4)), (680, 20));
}
