use rust_decimal::Decimal;
use trading_ledger::amount::{Amount, MAX_MANTISSA, MAX_SCALE};
use trading_ledger::asset::{Asset, AssetEnum};
use trading_ledger::asset_service::AssetService;
use trading_ledger::transfer::{TransferError, TransferType};

fn amt(mantissa: i128, scale: u32) -> Amount {
    Amount::new(mantissa, scale).unwrap()
}

fn dec(a: Amount) -> Decimal {
    Decimal::from_i128_with_scale(a.mantissa(), a.scale())
}

fn seeded(user: usize, asset: AssetEnum, available: i128, frozen: i128) -> AssetService {
    let mut s = AssetService::new();
    seed(&mut s, user, asset, available, frozen);
    s
}

fn seed(s: &mut AssetService, user: usize, asset: AssetEnum, available: i128, frozen: i128) {
    let bank = 1_000_000usize;
    let total = available + frozen;
    assert_eq!(
        s.try_transfer(TransferType::AvailableToAvailable, bank, user, asset, amt(total, 0), false),
        Ok(())
    );
    assert_eq!(
        s.try_transfer(TransferType::AvailableToFrozen, user, user, asset, amt(frozen, 0), false),
        Ok(())
    );
}

#[test]
fn test_try_transfer() {
    let mut asset_service = AssetService::new();
    let user1 = 1;
    let user2 = 2;
    let asset = AssetEnum::Usdt;
    let amount = amt(100, 0);

    asset_service
        .try_transfer(TransferType::AvailableToAvailable, user1, user2, asset, amount, false)
        .unwrap();
    assert_eq!(
        dec(asset_service.get_asset(user1, asset).get_available()),
        Decimal::new(-100, 0)
    );
    assert_eq!(
        dec(asset_service.get_asset(user2, asset).get_available()),
        Decimal::new(100, 0)
    );
    assert_eq!(asset_service.get_asset(user1, asset).get_available(), amt(-100, 0));
    assert_eq!(asset_service.get_asset(user2, asset).get_available(), amt(100, 0));
}

#[test]
fn zero_amount_is_a_no_op() {
    for kind in [
        TransferType::AvailableToAvailable,
        TransferType::AvailableToFrozen,
        TransferType::FrozenToAvailable,
    ] {
        let mut s = seeded(1, AssetEnum::Btc, 100, 7);
        let before_a = s.balance(1, AssetEnum::Btc);
        let before_b = s.balance(2, AssetEnum::Btc);
        assert_eq!(s.try_transfer(kind, 1, 2, AssetEnum::Btc, Amount::zero(), true), Ok(()));
        assert_eq!(s.try_transfer(kind, 1, 2, AssetEnum::Btc, amt(0, 5), true), Ok(()));
        assert_eq!(s.balance(1, AssetEnum::Btc), before_a);
        assert_eq!(s.balance(2, AssetEnum::Btc), before_b);
    }
}

#[test]
fn negative_amount_is_rejected() {
    for kind in [
        TransferType::AvailableToAvailable,
        TransferType::AvailableToFrozen,
        TransferType::FrozenToAvailable,
    ] {
        let mut s = seeded(1, AssetEnum::Usdt, 100, 20);
        let before_a = s.balance(1, AssetEnum::Usdt);
        let before_b = s.balance(2, AssetEnum::Usdt);
        assert_eq!(
            s.try_transfer(kind, 1, 2, AssetEnum::Usdt, amt(-5, 0), true),
            Err(TransferError::InvalidAmount)
        );
        assert_eq!(
            s.try_transfer(kind, 1, 2, AssetEnum::Usdt, amt(-5, 0), false),
            Err(TransferError::InvalidAmount)
        );
        assert_eq!(s.balance(1, AssetEnum::Usdt), before_a);
        assert_eq!(s.balance(2, AssetEnum::Usdt), before_b);
    }
}

#[test]
fn balance_is_enforced() {
    let x = AssetEnum::Usdt;
    let mut s = seeded(1, x, 100, 0);
    let before_b = s.balance(2, x);
    assert_eq!(
        s.try_transfer(TransferType::AvailableToAvailable, 1, 2, x, amt(150, 0), true),
        Err(TransferError::InsufficientBalance)
    );
    assert_eq!(dec(s.get_available(1, x)), Decimal::from(100));
    assert_eq!(s.balance(2, x), before_b);
    assert_eq!(dec(s.get_available(2, x)), Decimal::ZERO);
}

#[test]
fn frozen_balance_is_enforced() {
    let x = AssetEnum::Btc;
    let mut s = seeded(1, x, 100, 30);
    assert_eq!(
        s.try_transfer(TransferType::FrozenToAvailable, 1, 2, x, amt(31, 0), true),
        Err(TransferError::InsufficientBalance)
    );
    assert_eq!(dec(s.get_frozen(1, x)), Decimal::from(30));
    assert_eq!(s.try_transfer(TransferType::FrozenToAvailable, 1, 2, x, amt(30, 0), true), Ok(()));
    assert_eq!(dec(s.get_frozen(1, x)), Decimal::ZERO);
    assert_eq!(dec(s.get_available(1, x)), Decimal::from(100));
    assert_eq!(dec(s.get_available(2, x)), Decimal::from(30));
}

#[test]
fn exact_balance_passes_the_check() {
    let x = AssetEnum::Usdt;
    let mut s = seeded(1, x, 100, 0);
    assert_eq!(s.try_transfer(TransferType::AvailableToAvailable, 1, 2, x, amt(1000, 1), true), Ok(()));
    assert_eq!(dec(s.get_available(1, x)), Decimal::ZERO);
    assert_eq!(dec(s.get_available(2, x)), Decimal::from(100));
}

#[test]
fn split_move_within_one_account() {
    let x = AssetEnum::Usdt;
    let mut s = seeded(1, x, 100, 0);
    assert_eq!(s.try_transfer(TransferType::AvailableToFrozen, 1, 1, x, amt(40, 0), true), Ok(()));
    assert_eq!(dec(s.get_available(1, x)), Decimal::from(60));
    assert_eq!(dec(s.get_frozen(1, x)), Decimal::from(40));
    assert_eq!(s.balance(1, x), Asset::new(amt(60, 0), amt(40, 0)));
}

#[test]
fn self_transfer_of_available_changes_nothing() {
    let x = AssetEnum::Btc;
    let mut s = seeded(1, x, 100, 5);
    assert_eq!(s.try_transfer(TransferType::AvailableToAvailable, 1, 1, x, amt(40, 0), true), Ok(()));
    assert_eq!(dec(s.get_available(1, x)), Decimal::from(100));
    assert_eq!(dec(s.get_frozen(1, x)), Decimal::from(5));
}

#[test]
fn cross_account_move() {
    let x = AssetEnum::Usdt;
    let mut s = seeded(1, x, 100, 0);
    assert_eq!(dec(s.get_available(2, x)), Decimal::ZERO);
    assert_eq!(s.try_transfer(TransferType::AvailableToAvailable, 1, 2, x, amt(100, 0), false), Ok(()));
    assert_eq!(dec(s.get_available(1, x)), Decimal::ZERO);
    assert_eq!(dec(s.get_available(2, x)), Decimal::from(100));
}

#[test]
fn value_is_conserved() {
    let x = AssetEnum::Usdt;
    let kinds = [
        TransferType::AvailableToAvailable,
        TransferType::AvailableToFrozen,
        TransferType::FrozenToAvailable,
    ];
    for kind in kinds {
        for (from, to) in [(1usize, 2usize), (1, 1)] {
            let mut s = seeded(1, x, 100, 50);
            seed(&mut s, 2, x, 10, 20);
            let total = |s: &AssetService| {
                dec(s.get_available(from, x))
                    + dec(s.get_frozen(from, x))
                    + dec(s.get_available(to, x))
                    + dec(s.get_frozen(to, x))
            };
            let before = total(&s);
            assert_eq!(s.try_transfer(kind, from, to, x, amt(12345, 2), false), Ok(()));
            assert_eq!(total(&s), before);
            assert_eq!(s.try_transfer(kind, from, to, x, amt(500, 0), false), Ok(()));
            assert_eq!(total(&s), before);
        }
    }
}

#[test]
fn unchecked_transfer_may_go_negative() {
    let x = AssetEnum::Btc;
    let mut s = AssetService::new();
    assert_eq!(s.try_transfer(TransferType::FrozenToAvailable, 3, 4, x, amt(25, 1), false), Ok(()));
    assert_eq!(dec(s.get_frozen(3, x)), Decimal::new(-25, 1));
    assert_eq!(dec(s.get_available(4, x)), Decimal::new(25, 1));
    assert_eq!(dec(s.get_available(3, x)), Decimal::ZERO);
    assert_eq!(dec(s.get_frozen(4, x)), Decimal::ZERO);
}

#[test]
fn repeated_transfers_lose_no_update() {
    let x = AssetEnum::Usdt;
    let mut s = seeded(1, x, 1000, 0);
    let n = 64;
    for _ in 0..n {
        assert_eq!(s.try_transfer(TransferType::AvailableToAvailable, 1, 2, x, amt(3, 0), true), Ok(()));
    }
    assert_eq!(dec(s.get_available(1, x)), Decimal::from(1000 - 3 * n));
    assert_eq!(dec(s.get_available(2, x)), Decimal::from(3 * n));
}

#[test]
fn transfer_touches_no_other_record() {
    let mut s = seeded(1, AssetEnum::Usdt, 100, 0);
    seed(&mut s, 1, AssetEnum::Btc, 9, 1);
    seed(&mut s, 3, AssetEnum::Usdt, 8, 2);
    assert_eq!(
        s.try_transfer(TransferType::AvailableToAvailable, 1, 2, AssetEnum::Usdt, amt(10, 0), true),
        Ok(())
    );
    assert_eq!(s.balance(1, AssetEnum::Btc), Asset::new(amt(9, 0), amt(1, 0)));
    assert_eq!(s.balance(3, AssetEnum::Usdt), Asset::new(amt(8, 0), amt(2, 0)));
    assert_eq!(s.balance(2, AssetEnum::Btc), Asset::default());
}

#[test]
fn mixed_scales_add_exactly() {
    let x = AssetEnum::Btc;
    let mut s = seeded(1, x, 1, 0);
    assert_eq!(s.try_transfer(TransferType::AvailableToAvailable, 1, 2, x, amt(25, 2), true), Ok(()));
    assert_eq!(s.get_available(1, x), amt(75, 2));
    assert_eq!(s.get_available(2, x), amt(25, 2));
}

#[test]
fn checked_transfer_leaves_the_ledger_on_overflow() {
    let x = AssetEnum::Usdt;
    let mut s = AssetService::new();
    assert_eq!(
        s.checked_transfer(TransferType::AvailableToAvailable, 9, 2, x, amt(MAX_MANTISSA, 0), false),
        Some(Ok(()))
    );
    assert_eq!(s.get_available(2, x), amt(MAX_MANTISSA, 0));
    assert!(!s.can_transfer(TransferType::AvailableToAvailable, 1, 2, x, amt(1, 0), false));
    assert_eq!(s.checked_transfer(TransferType::AvailableToAvailable, 1, 2, x, amt(1, 0), false), None);
    assert_eq!(s.get_available(2, x), amt(MAX_MANTISSA, 0));
    assert_eq!(s.balance(1, x), Asset::default());
    assert!(s.can_transfer(TransferType::AvailableToAvailable, 1, 2, x, amt(1, 0), true));
    assert_eq!(
        s.checked_transfer(TransferType::AvailableToAvailable, 1, 2, x, amt(1, 0), true),
        Some(Err(TransferError::InsufficientBalance))
    );
    assert_eq!(
        s.checked_transfer(TransferType::AvailableToAvailable, 1, 2, x, amt(-1, 0), true),
        Some(Err(TransferError::InvalidAmount))
    );
    assert_eq!(
        s.checked_transfer(TransferType::AvailableToAvailable, 2, 1, x, amt(1, 0), true),
        Some(Ok(()))
    );
    assert_eq!(s.get_available(1, x), amt(1, 0));
}

#[test]
fn a_sum_that_rounds_does_not_conserve() {
    let x = AssetEnum::Btc;
    let mut s = AssetService::new();
    assert_eq!(
        s.try_transfer(TransferType::AvailableToAvailable, 9, 1, x, amt(MAX_MANTISSA, 0), false),
        Ok(())
    );
    assert_eq!(
        s.checked_transfer(TransferType::AvailableToAvailable, 1, 2, x, amt(1, 1), false),
        Some(Ok(()))
    );
    assert_eq!(s.get_available(2, x), amt(1, 1));
    assert_eq!(s.get_available(1, x).scale(), 0);
}

#[test]
fn get_asset_files_an_empty_record_once() {
    let mut s = AssetService::new();
    assert_eq!(s.get_asset(5, AssetEnum::Btc), Asset::default());
    assert_eq!(
        s.try_transfer(TransferType::AvailableToFrozen, 5, 5, AssetEnum::Btc, amt(2, 0), false),
        Ok(())
    );
    assert_eq!(s.get_asset(5, AssetEnum::Btc), Asset::new(amt(-2, 0), amt(2, 0)));
    assert_eq!(s.balance(5, AssetEnum::Btc), Asset::new(amt(-2, 0), amt(2, 0)));
    assert_eq!(s.balance(5, AssetEnum::Usdt), Asset::default());
}

#[test]
fn amount_range() {
    assert!(Amount::new(MAX_MANTISSA, MAX_SCALE).is_some());
    assert!(Amount::new(-MAX_MANTISSA, 0).is_some());
    assert!(Amount::new(MAX_MANTISSA + 1, 0).is_none());
    assert!(Amount::new(-MAX_MANTISSA - 1, 0).is_none());
    assert!(Amount::new(1, MAX_SCALE + 1).is_none());
    assert_eq!(MAX_MANTISSA, (1i128 << 96) - 1);
    let a = amt(-1234, 3);
    assert_eq!(a.mantissa(), -1234);
    assert_eq!(a.scale(), 3);
    assert_eq!(dec(a), Decimal::new(-1234, 3));
}

#[test]
fn amount_signs() {
    assert!(Amount::zero().is_zero());
    assert!(amt(0, 7).is_zero());
    assert!(!amt(1, 7).is_zero());
    assert!(amt(-1, 0).is_negative());
    assert!(!amt(0, 0).is_negative());
    assert!(!amt(1, 28).is_negative());
    assert_eq!(amt(5, 2).negated(), amt(-5, 2));
    assert_eq!(amt(-5, 2).negated(), amt(5, 2));
    assert_eq!(Amount::zero().negated(), Amount::zero());
}

fn sum(a: Amount, b: Amount) -> Option<Amount> {
    let mut record = Asset::new(a, amt(7, 3));
    if record.try_add_available(b) {
        assert_eq!(record.get_frozen(), amt(7, 3));
        Some(record.get_available())
    } else {
        assert_eq!(record, Asset::new(a, amt(7, 3)));
        None
    }
}

#[test]
fn amount_sums() {
    assert_eq!(sum(amt(1, 0), amt(2, 0)), Some(amt(3, 0)));
    assert_eq!(sum(amt(15, 1), amt(25, 2)), Some(amt(175, 2)));
    assert_eq!(sum(amt(5, 0), amt(-7, 0)), Some(amt(-2, 0)));
    assert_eq!(sum(amt(0, 2), amt(5, 0)), Some(amt(5, 0)));
    assert_eq!(sum(amt(MAX_MANTISSA, 0), amt(1, 0)), None);
    assert_eq!(sum(amt(-MAX_MANTISSA, 0), amt(-1, 0)), None);
}

fn holds_less(held: Amount, amount: Amount) -> bool {
    let x = AssetEnum::Btc;
    let mut s = AssetService::new();
    if held.is_negative() {
        let r = s.try_transfer(TransferType::AvailableToAvailable, 1, 9, x, held.negated(), false);
        assert_eq!(r, Ok(()));
    } else {
        let r = s.try_transfer(TransferType::AvailableToAvailable, 9, 1, x, held, false);
        assert_eq!(r, Ok(()));
    }
    assert_eq!(dec(s.get_available(1, x)), dec(held));
    match s.checked_transfer(TransferType::AvailableToFrozen, 1, 1, x, amount, true) {
        Some(Err(TransferError::InsufficientBalance)) => true,
        Some(Ok(())) => false,
        other => panic!("unexpected outcome {:?}", other),
    }
}

#[test]
fn amount_order() {
    assert!(holds_less(amt(1, 0), amt(2, 0)));
    assert!(!holds_less(amt(2, 0), amt(2, 0)));
    assert!(!holds_less(amt(200, 2), amt(2, 0)));
    assert!(!holds_less(amt(2, 0), amt(200, 2)));
    assert!(holds_less(amt(199, 2), amt(2, 0)));
    assert!(holds_less(amt(-3, 0), amt(1, 5)));
    assert!(holds_less(amt(0, 0), amt(1, 28)));
    assert!(holds_less(amt(1, 28), amt(MAX_MANTISSA, 0)));
    assert!(!holds_less(amt(MAX_MANTISSA, 0), amt(1, 28)));
    assert!(!holds_less(amt(3, 1), amt(29, 2)));
}

#[test]
fn asset_record() {
    let d = Asset::default();
    assert_eq!(d.get_available(), Amount::zero());
    assert_eq!(d.get_frozen(), Amount::zero());
    let mut a = Asset::new(amt(10, 0), amt(3, 0));
    assert_eq!(a.get_available(), amt(10, 0));
    assert_eq!(a.get_frozen(), amt(3, 0));
    a.add_available(amt(-4, 0));
    assert_eq!(a, Asset::new(amt(6, 0), amt(3, 0)));
    a.add_frozen(amt(4, 0));
    assert_eq!(a, Asset::new(amt(6, 0), amt(7, 0)));
    assert!(a.try_add_available(amt(1, 0)));
    assert!(a.try_add_frozen(amt(-7, 0)));
    assert_eq!(a, Asset::new(amt(7, 0), amt(0, 0)));
    let mut big = Asset::new(amt(MAX_MANTISSA, 0), amt(-MAX_MANTISSA, 0));
    assert!(!big.try_add_available(amt(1, 0)));
    assert!(!big.try_add_frozen(amt(-1, 0)));
    assert_eq!(big, Asset::new(amt(MAX_MANTISSA, 0), amt(-MAX_MANTISSA, 0)));
}

#[test]
fn asset_debit_and_credit() {
    let a = Asset::new(amt(10, 0), amt(3, 0));
    let five = amt(5, 0);
    assert_eq!(
        a.checked_debit(TransferType::AvailableToAvailable, five),
        Some(Asset::new(amt(5, 0), amt(3, 0)))
    );
    assert_eq!(
        a.checked_debit(TransferType::AvailableToFrozen, five),
        Some(Asset::new(amt(5, 0), amt(3, 0)))
    );
    assert_eq!(
        a.checked_debit(TransferType::FrozenToAvailable, five),
        Some(Asset::new(amt(10, 0), amt(-2, 0)))
    );
    assert_eq!(
        a.checked_credit(TransferType::AvailableToAvailable, five),
        Some(Asset::new(amt(15, 0), amt(3, 0)))
    );
    assert_eq!(
        a.checked_credit(TransferType::AvailableToFrozen, five),
        Some(Asset::new(amt(10, 0), amt(8, 0)))
    );
    assert_eq!(
        a.checked_credit(TransferType::FrozenToAvailable, five),
        Some(Asset::new(amt(15, 0), amt(3, 0)))
    );
    let full = Asset::new(amt(MAX_MANTISSA, 0), amt(0, 0));
    assert_eq!(full.checked_credit(TransferType::AvailableToAvailable, five), None);
}

#[test]
fn asset_codes_and_messages() {
    assert_eq!(AssetEnum::Btc.code(), 0);
    assert_eq!(AssetEnum::Usdt.code(), 1);
    assert_eq!(TransferError::InvalidAmount.message(), "Amount must be positive");
    assert_eq!(TransferError::InsufficientBalance.message(), "Insufficient balance");
}
