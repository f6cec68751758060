//! The ledger as a map from an account and an asset to a balance record,
//! and what a transfer makes of such a map.

use crate::amount::{lemma_negated_view, Amount};
use crate::asset::{Asset, AssetEnum};
use crate::transfer::{TransferError, TransferType};
use vstd::prelude::*;

verus! {

/// The record of an account in an asset: the one on file, or the record that
/// holds nothing where none is on file.
pub open spec fn record(m: Map<(usize, AssetEnum), Asset>, user: usize, asset: AssetEnum) -> Asset {
    if m.contains_key((user, asset)) {
        m[(user, asset)]
    } else {
        Asset::spec_default()
    }
}

/// The ledger after the record of an account in an asset was put on file,
/// empty, unless one was there.
pub open spec fn materialized(
    m: Map<(usize, AssetEnum), Asset>,
    user: usize,
    asset: AssetEnum,
) -> Map<(usize, AssetEnum), Asset> {
    if m.contains_key((user, asset)) {
        m
    } else {
        m.insert((user, asset), Asset::spec_default())
    }
}

/// The ledger after `amount` was taken out of the balance that `kind`
/// debits, `None` where the decimal sum overflows.
pub open spec fn after_debit(
    m: Map<(usize, AssetEnum), Asset>,
    kind: TransferType,
    user: usize,
    asset: AssetEnum,
    amount: Amount,
) -> Option<Map<(usize, AssetEnum), Asset>> {
    match record(m, user, asset).debited(kind, amount) {
        Some(r) => Some(m.insert((user, asset), r)),
        None => None,
    }
}

/// The ledger after `amount` was put into the balance that `kind` credits,
/// `None` where the decimal sum overflows.
pub open spec fn after_credit(
    m: Map<(usize, AssetEnum), Asset>,
    kind: TransferType,
    user: usize,
    asset: AssetEnum,
    amount: Amount,
) -> Option<Map<(usize, AssetEnum), Asset>> {
    match record(m, user, asset).credited(kind, amount) {
        Some(r) => Some(m.insert((user, asset), r)),
        None => None,
    }
}

/// The ledger after the debit and then the credit, `None` where one of the
/// two decimal sums overflows.
pub open spec fn moved(
    m: Map<(usize, AssetEnum), Asset>,
    kind: TransferType,
    from_user: usize,
    to_user: usize,
    asset: AssetEnum,
    amount: Amount,
) -> Option<Map<(usize, AssetEnum), Asset>> {
    match after_debit(m, kind, from_user, asset, amount) {
        Some(debited) => after_credit(debited, kind, to_user, asset, amount),
        None => None,
    }
}

/// Whether the balance that `kind` debits holds strictly less than `amount`.
pub open spec fn falls_short(
    m: Map<(usize, AssetEnum), Asset>,
    kind: TransferType,
    from_user: usize,
    asset: AssetEnum,
    amount: Amount,
) -> bool {
    record(m, from_user, asset).source(kind)@ < amount@
}

/// Whether a transfer stops before it moves anything: the amount is zero or
/// negative, or the balance is checked and falls short.
pub open spec fn stops_early(
    m: Map<(usize, AssetEnum), Asset>,
    kind: TransferType,
    from_user: usize,
    asset: AssetEnum,
    amount: Amount,
    check_balance: bool,
) -> bool {
    ||| amount.spec_is_zero()
    ||| amount.spec_is_negative()
    ||| (check_balance && falls_short(m, kind, from_user, asset, amount))
}

/// Whether a transfer can be carried out: it stops early, or neither of its
/// two decimal sums overflows.
pub open spec fn transfer_fits(
    m: Map<(usize, AssetEnum), Asset>,
    kind: TransferType,
    from_user: usize,
    to_user: usize,
    asset: AssetEnum,
    amount: Amount,
    check_balance: bool,
) -> bool {
    ||| stops_early(m, kind, from_user, asset, amount, check_balance)
    ||| moved(m, kind, from_user, to_user, asset, amount).is_some()
}

/// What a transfer answers.
pub open spec fn transfer_verdict(
    m: Map<(usize, AssetEnum), Asset>,
    kind: TransferType,
    from_user: usize,
    asset: AssetEnum,
    amount: Amount,
    check_balance: bool,
) -> Result<(), TransferError> {
    if amount.spec_is_zero() {
        Ok(())
    } else if amount.spec_is_negative() {
        Err(TransferError::InvalidAmount)
    } else if check_balance && falls_short(m, kind, from_user, asset, amount) {
        Err(TransferError::InsufficientBalance)
    } else {
        Ok(())
    }
}

/// The ledger that a transfer leaves.
///
/// A zero or negative amount leaves the ledger as it is. Any other amount
/// puts the two records on file; then, unless the balance is checked and
/// falls short, the debit and the credit are applied.
pub open spec fn after_transfer(
    m: Map<(usize, AssetEnum), Asset>,
    kind: TransferType,
    from_user: usize,
    to_user: usize,
    asset: AssetEnum,
    amount: Amount,
    check_balance: bool,
) -> Map<(usize, AssetEnum), Asset> {
    if amount.spec_is_zero() || amount.spec_is_negative() {
        m
    } else if check_balance && falls_short(m, kind, from_user, asset, amount) {
        materialized(materialized(m, from_user, asset), to_user, asset)
    } else {
        match moved(m, kind, from_user, to_user, asset, amount) {
            Some(done) => done,
            None => m,
        }
    }
}

/// Whether the two decimal sums of a transfer exist and are exact: nothing
/// is rounded away in the debit or in the credit.
pub open spec fn moves_exactly(
    m: Map<(usize, AssetEnum), Asset>,
    kind: TransferType,
    from_user: usize,
    to_user: usize,
    asset: AssetEnum,
    amount: Amount,
) -> bool {
    &&& record(m, from_user, asset).source(kind).adds_exactly(amount.spec_negated())
    &&& match after_debit(m, kind, from_user, asset, amount) {
        Some(debited) => record(debited, to_user, asset).target(kind).adds_exactly(amount),
        None => false,
    }
}

/// Putting an empty record on file changes no balance.
pub proof fn lemma_materialized_keeps_records(
    m: Map<(usize, AssetEnum), Asset>,
    user: usize,
    asset: AssetEnum,
    other_user: usize,
    other_asset: AssetEnum,
)
    ensures
        record(materialized(m, user, asset), other_user, other_asset) == record(
            m,
            other_user,
            other_asset,
        ),
{
}

/// A transfer that fails changes no balance of any account in any asset.
pub proof fn lemma_failure_changes_nothing(
    m: Map<(usize, AssetEnum), Asset>,
    kind: TransferType,
    from_user: usize,
    to_user: usize,
    asset: AssetEnum,
    amount: Amount,
    check_balance: bool,
    any_user: usize,
    any_asset: AssetEnum,
)
    requires
        transfer_verdict(m, kind, from_user, asset, amount, check_balance).is_err(),
    ensures
        record(
            after_transfer(m, kind, from_user, to_user, asset, amount, check_balance),
            any_user,
            any_asset,
        ) == record(m, any_user, any_asset),
{
}

/// A transfer touches the records of its two accounts in its asset and no
/// other.
pub proof fn lemma_transfer_is_local(
    m: Map<(usize, AssetEnum), Asset>,
    kind: TransferType,
    from_user: usize,
    to_user: usize,
    asset: AssetEnum,
    amount: Amount,
    check_balance: bool,
    any_user: usize,
    any_asset: AssetEnum,
)
    requires
        any_asset != asset || (any_user != from_user && any_user != to_user),
    ensures
        record(
            after_transfer(m, kind, from_user, to_user, asset, amount, check_balance),
            any_user,
            any_asset,
        ) == record(m, any_user, any_asset),
{
}

/// A record whose balance took an exact sum has gained what was added.
pub proof fn lemma_exact_sum_total(r: Asset, kind: TransferType, amount: Amount)
    requires
        amount.wf(),
    ensures
        r.source(kind).adds_exactly(amount.spec_negated()) ==> r.debited(kind, amount).is_some()
            && r.debited(kind, amount).unwrap().total() == r.total() - amount@,
        r.target(kind).adds_exactly(amount) ==> r.credited(kind, amount).is_some() && r.credited(
            kind,
            amount,
        ).unwrap().total() == r.total() + amount@,
{
    lemma_negated_view(amount);
    if r.source(kind).adds_exactly(amount.spec_negated()) {
        let sum = r.source(kind).spec_checked_add(amount.spec_negated()).unwrap();
        Asset::lemma_parts(sum, r.spec_frozen());
        Asset::lemma_parts(r.spec_available(), sum);
    }
    if r.target(kind).adds_exactly(amount) {
        let sum = r.target(kind).spec_checked_add(amount).unwrap();
        Asset::lemma_parts(sum, r.spec_frozen());
        Asset::lemma_parts(r.spec_available(), sum);
    }
}

/// Conservation: a transfer that succeeds, and in which no decimal sum
/// rounds, leaves the value of the two records together, available and
/// frozen, as it was. This holds of every kind, whether or not the balance
/// was checked, and also where the two accounts are one.
pub proof fn lemma_transfer_conserves(
    m: Map<(usize, AssetEnum), Asset>,
    kind: TransferType,
    from_user: usize,
    to_user: usize,
    asset: AssetEnum,
    amount: Amount,
    check_balance: bool,
)
    requires
        amount.wf(),
        transfer_verdict(m, kind, from_user, asset, amount, check_balance).is_ok(),
        amount.spec_is_zero() || moves_exactly(m, kind, from_user, to_user, asset, amount),
    ensures
        ({
            let done = after_transfer(m, kind, from_user, to_user, asset, amount, check_balance);
            record(done, from_user, asset).total() + record(done, to_user, asset).total()
                == record(m, from_user, asset).total() + record(m, to_user, asset).total()
        }),
{
    if !amount.spec_is_zero() {
        let source = record(m, from_user, asset);
        lemma_exact_sum_total(source, kind, amount);
        let debited = after_debit(m, kind, from_user, asset, amount).unwrap();
        let target = record(debited, to_user, asset);
        lemma_exact_sum_total(target, kind, amount);
    }
}

} // verus!
