//! The ledger: the balance records of all accounts, and the transfer that
//! moves value between them.

use crate::amount::{decimal_less_than, lemma_view_sign, Amount};
use crate::asset::{Asset, AssetEnum};
use crate::model::{
    after_debit, after_transfer, lemma_failure_changes_nothing, lemma_transfer_conserves,
    lemma_materialized_keeps_records, lemma_transfer_is_local, materialized, moved, moves_exactly,
    record, transfer_fits, transfer_verdict,
};
use crate::store::{file_record, find_or_file_record, find_record, new_records, records};
use crate::transfer::{TransferError, TransferType};
use dashmap::DashMap;
use vstd::prelude::*;

verus! {

/// The balance records of all accounts, one for each account and asset that
/// a transfer has named so far.
///
/// Whatever changes the ledger takes it by exclusive reference, so a
/// transfer is seen by every other operation as not begun or as done, never
/// in part. Threads that share a ledger keep it behind a lock.
pub struct AssetService {
    user_assets: DashMap<(usize, u8), Asset>,
}

impl View for AssetService {
    type V = Map<(usize, AssetEnum), Asset>;

    /// The records on file, by account and asset.
    closed spec fn view(&self) -> Map<(usize, AssetEnum), Asset> {
        Map::new(
            |k: (usize, AssetEnum)| records(self.user_assets).contains_key((k.0, k.1.spec_code())),
            |k: (usize, AssetEnum)| records(self.user_assets)[(k.0, k.1.spec_code())],
        )
    }
}

impl AssetService {
    /// A ledger with no record on file.
    pub fn new() -> (s: Self)
        ensures
            s@ == Map::<(usize, AssetEnum), Asset>::empty(),
    {
        let s = Self { user_assets: new_records() };
        assert(s@ =~= Map::<(usize, AssetEnum), Asset>::empty());
        s
    }

    /// The record of an account in an asset, put on file empty if none was
    /// there.
    pub fn get_asset(&mut self, user_id: usize, asset_id: AssetEnum) -> (r: Asset)
        ensures
            final(self)@ == materialized(old(self)@, user_id, asset_id),
            r == record(old(self)@, user_id, asset_id),
            forall|u: usize, a: AssetEnum| record(final(self)@, u, a) == record(old(self)@, u, a),
    {
        let r = find_or_file_record(
            &mut self.user_assets,
            (user_id, asset_id.code()),
            Asset::default(),
        );
        assert(self@ =~= materialized(old(self)@, user_id, asset_id));
        proof {
            assert forall|u: usize, a: AssetEnum|
                record(materialized(old(self)@, user_id, asset_id), u, a) == record(
                    old(self)@,
                    u,
                    a,
                ) by {
                lemma_materialized_keeps_records(old(self)@, user_id, asset_id, u, a);
            }
        }
        r
    }

    /// The record of an account in an asset as it stands, both balances
    /// read at once; the ledger stays as it is.
    pub fn balance(&self, user_id: usize, asset_id: AssetEnum) -> (r: Asset)
        ensures
            r == record(self@, user_id, asset_id),
    {
        match find_record(&self.user_assets, (user_id, asset_id.code())) {
            Some(r) => r,
            None => Asset::default(),
        }
    }

    /// The available balance of an account in an asset.
    pub fn get_available(&self, user_id: usize, asset_id: AssetEnum) -> (r: Amount)
        ensures
            r == record(self@, user_id, asset_id).spec_available(),
    {
        self.balance(user_id, asset_id).get_available()
    }

    /// The frozen balance of an account in an asset.
    pub fn get_frozen(&self, user_id: usize, asset_id: AssetEnum) -> (r: Amount)
        ensures
            r == record(self@, user_id, asset_id).spec_frozen(),
    {
        self.balance(user_id, asset_id).get_frozen()
    }

    /// Files `value` as the record of an account in an asset.
    fn set_asset(&mut self, user_id: usize, asset_id: AssetEnum, value: Asset)
        ensures
            final(self)@ == old(self)@.insert((user_id, asset_id), value),
    {
        file_record(&mut self.user_assets, (user_id, asset_id.code()), value);
        assert(self@ =~= old(self)@.insert((user_id, asset_id), value));
    }

    /// Whether a transfer can be carried out: whether it stops before it
    /// moves anything, or neither of its two decimal sums overflows.
    pub fn can_transfer(
        &self,
        transfer_type: TransferType,
        from_user: usize,
        to_user: usize,
        asset: AssetEnum,
        amount: Amount,
        check_balance: bool,
    ) -> (fits: bool)
        ensures
            fits == transfer_fits(
                self@,
                transfer_type,
                from_user,
                to_user,
                asset,
                amount,
                check_balance,
            ),
    {
        if amount.is_zero() || amount.is_negative() {
            return true;
        }
        let from_asset = self.balance(from_user, asset);
        let held = from_asset.source_balance(transfer_type);
        proof {
            use_type_invariant(&held);
            use_type_invariant(&amount);
        }
        if check_balance && decimal_less_than(held, amount) {
            return true;
        }
        match from_asset.checked_debit(transfer_type, amount) {
            Some(debited) => {
                let to_asset = if from_user == to_user {
                    debited
                } else {
                    self.balance(to_user, asset)
                };
                to_asset.checked_credit(transfer_type, amount).is_some()
            },
            None => false,
        }
    }

    /// Moves `amount` of `asset` from a balance of `from_user` to a balance
    /// of `to_user`; `transfer_type` says which balances.
    ///
    /// A zero amount succeeds and changes nothing. A negative amount is
    /// refused. Where `check_balance` is set and the balance to debit holds
    /// less than `amount`, the transfer is refused. A refused transfer
    /// changes no balance. Otherwise the debit and the credit are both
    /// applied, to one record where the two accounts are one.
    ///
    /// The caller sees to it that no decimal sum overflows
    /// ([`AssetService::checked_transfer`] does so by itself).
    pub fn try_transfer(
        &mut self,
        transfer_type: TransferType,
        from_user: usize,
        to_user: usize,
        asset: AssetEnum,
        amount: Amount,
        check_balance: bool,
    ) -> (r: Result<(), TransferError>)
        requires
            transfer_fits(
                old(self)@,
                transfer_type,
                from_user,
                to_user,
                asset,
                amount,
                check_balance,
            ),
        ensures
            final(self)@ == after_transfer(
                old(self)@,
                transfer_type,
                from_user,
                to_user,
                asset,
                amount,
                check_balance,
            ),
            r == transfer_verdict(
                old(self)@,
                transfer_type,
                from_user,
                asset,
                amount,
                check_balance,
            ),
            amount@ == 0 ==> r.is_ok() && final(self)@ == old(self)@,
            amount@ < 0 ==> r == Err::<(), TransferError>(TransferError::InvalidAmount)
                && final(self)@ == old(self)@,
            r.is_err() ==> forall|u: usize, a: AssetEnum|
                record(final(self)@, u, a) == record(old(self)@, u, a),
            forall|u: usize, a: AssetEnum|
                a != asset || (u != from_user && u != to_user) ==> record(final(self)@, u, a)
                    == record(old(self)@, u, a),
            r.is_ok() && (amount@ == 0 || moves_exactly(
                old(self)@,
                transfer_type,
                from_user,
                to_user,
                asset,
                amount,
            )) ==> record(final(self)@, from_user, asset).total() + record(
                final(self)@,
                to_user,
                asset,
            ).total() == record(old(self)@, from_user, asset).total() + record(
                old(self)@,
                to_user,
                asset,
            ).total(),
    {
        proof {
            use_type_invariant(&amount);
            lemma_view_sign(amount);
            assert forall|u: usize, a: AssetEnum|
                a != asset || (u != from_user && u != to_user) implies record(
                after_transfer(
                    self@,
                    transfer_type,
                    from_user,
                    to_user,
                    asset,
                    amount,
                    check_balance,
                ),
                u,
                a,
            ) == record(self@, u, a) by {
                lemma_transfer_is_local(
                    self@,
                    transfer_type,
                    from_user,
                    to_user,
                    asset,
                    amount,
                    check_balance,
                    u,
                    a,
                );
            }
            if transfer_verdict(
                self@,
                transfer_type,
                from_user,
                asset,
                amount,
                check_balance,
            ).is_err() {
                assert forall|u: usize, a: AssetEnum|
                    record(
                        after_transfer(
                            self@,
                            transfer_type,
                            from_user,
                            to_user,
                            asset,
                            amount,
                            check_balance,
                        ),
                        u,
                        a,
                    ) == record(self@, u, a) by {
                    lemma_failure_changes_nothing(
                        self@,
                        transfer_type,
                        from_user,
                        to_user,
                        asset,
                        amount,
                        check_balance,
                        u,
                        a,
                    );
                }
            } else if amount.spec_is_zero() || moves_exactly(
                self@,
                transfer_type,
                from_user,
                to_user,
                asset,
                amount,
            ) {
                lemma_transfer_conserves(
                    self@,
                    transfer_type,
                    from_user,
                    to_user,
                    asset,
                    amount,
                    check_balance,
                );
            }
        }
        self.move_balances(transfer_type, from_user, to_user, asset, amount, check_balance)
    }

    /// The steps of a transfer, in order: the two early exits, the two
    /// records, the check of the balance, the debit and the credit.
    fn move_balances(
        &mut self,
        transfer_type: TransferType,
        from_user: usize,
        to_user: usize,
        asset: AssetEnum,
        amount: Amount,
        check_balance: bool,
    ) -> (r: Result<(), TransferError>)
        requires
            transfer_fits(
                old(self)@,
                transfer_type,
                from_user,
                to_user,
                asset,
                amount,
                check_balance,
            ),
        ensures
            final(self)@ == after_transfer(
                old(self)@,
                transfer_type,
                from_user,
                to_user,
                asset,
                amount,
                check_balance,
            ),
            r == transfer_verdict(
                old(self)@,
                transfer_type,
                from_user,
                asset,
                amount,
                check_balance,
            ),
    {
        if amount.is_zero() {
            return Ok(());
        }
        if amount.is_negative() {
            return Err(TransferError::InvalidAmount);
        }
        let ghost before = self@;
        let mut from_asset = self.get_asset(from_user, asset);
        let _ = self.get_asset(to_user, asset);
        let held = from_asset.source_balance(transfer_type);
        proof {
            use_type_invariant(&held);
            use_type_invariant(&amount);
        }
        if check_balance && decimal_less_than(held, amount) {
            return Err(TransferError::InsufficientBalance);
        }
        proof {
            from_asset.lemma_debit_credit_by_kind(transfer_type, amount);
        }
        match transfer_type {
            TransferType::AvailableToAvailable => from_asset.add_available(amount.negated()),
            TransferType::AvailableToFrozen => from_asset.add_available(amount.negated()),
            TransferType::FrozenToAvailable => from_asset.add_frozen(amount.negated()),
        }
        self.set_asset(from_user, asset, from_asset);
        let ghost debited = after_debit(before, transfer_type, from_user, asset, amount).unwrap();
        assert(materialized(self@, to_user, asset) =~= debited.insert(
            (to_user, asset),
            record(debited, to_user, asset),
        ));
        let mut to_asset = self.get_asset(to_user, asset);
        proof {
            to_asset.lemma_debit_credit_by_kind(transfer_type, amount);
        }
        match transfer_type {
            TransferType::AvailableToAvailable => to_asset.add_available(amount),
            TransferType::AvailableToFrozen => to_asset.add_frozen(amount),
            TransferType::FrozenToAvailable => to_asset.add_available(amount),
        }
        self.set_asset(to_user, asset, to_asset);
        assert(self@ =~= moved(before, transfer_type, from_user, to_user, asset, amount).unwrap());
        Ok(())
    }

    /// Carries out the transfer as [`AssetService::try_transfer`] does,
    /// unless one of its decimal sums would overflow: then it answers `None`
    /// and leaves the ledger as it is.
    pub fn checked_transfer(
        &mut self,
        transfer_type: TransferType,
        from_user: usize,
        to_user: usize,
        asset: AssetEnum,
        amount: Amount,
        check_balance: bool,
    ) -> (r: Option<Result<(), TransferError>>)
        ensures
            r.is_some() == transfer_fits(
                old(self)@,
                transfer_type,
                from_user,
                to_user,
                asset,
                amount,
                check_balance,
            ),
            r.is_none() ==> final(self)@ == old(self)@,
            r.is_some() ==> final(self)@ == after_transfer(
                old(self)@,
                transfer_type,
                from_user,
                to_user,
                asset,
                amount,
                check_balance,
            ) && r == Some(
                transfer_verdict(
                    old(self)@,
                    transfer_type,
                    from_user,
                    asset,
                    amount,
                    check_balance,
                ),
            ),
    {
        if self.can_transfer(transfer_type, from_user, to_user, asset, amount, check_balance) {
            Some(
                self.try_transfer(
                    transfer_type,
                    from_user,
                    to_user,
                    asset,
                    amount,
                    check_balance,
                ),
            )
        } else {
            None
        }
    }
}

} // verus!
