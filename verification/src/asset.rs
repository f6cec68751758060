//! Assets and the balance record that an account holds of one asset.

use crate::amount::Amount;
use crate::transfer::TransferType;
use vstd::prelude::*;

verus! {

/// The assets that the venue trades.
#[derive(Copy, Clone, Hash, Eq, PartialEq, Debug, Structural)]
pub enum AssetEnum {
    Btc,
    Usdt,
}

impl AssetEnum {
    /// The number under which the ledger files this asset.
    pub open spec fn spec_code(self) -> u8 {
        match self {
            AssetEnum::Btc => 0u8,
            AssetEnum::Usdt => 1u8,
        }
    }

    /// The number under which the ledger files this asset; no two assets
    /// share one.
    pub fn code(self) -> (c: u8)
        ensures
            c == self.spec_code(),
    {
        match self {
            AssetEnum::Btc => 0u8,
            AssetEnum::Usdt => 1u8,
        }
    }
}

/// The balance of one account in one asset: what is free to use and what
/// is reserved.
#[derive(Clone, Copy, Debug, PartialEq, Eq, Structural)]
pub struct Asset {
    available: Amount,
    frozen: Amount,
}

impl Asset {
    pub closed spec fn spec_available(self) -> Amount {
        self.available
    }

    pub closed spec fn spec_frozen(self) -> Amount {
        self.frozen
    }

    /// The record with the given two balances, as a specification.
    pub closed spec fn spec_new(available: Amount, frozen: Amount) -> Asset {
        Asset { available, frozen }
    }

    /// The record that holds nothing.
    pub open spec fn spec_default() -> Asset {
        Self::spec_new(Amount::spec_zero(), Amount::spec_zero())
    }

    /// The value of the record, available and frozen together, in units of
    /// `10^-28`.
    pub open spec fn total(self) -> int {
        self.spec_available()@ + self.spec_frozen()@
    }

    /// The balance that a transfer of this kind debits.
    pub open spec fn source(self, kind: TransferType) -> Amount {
        if kind.debits_frozen() {
            self.spec_frozen()
        } else {
            self.spec_available()
        }
    }

    /// The balance that a transfer of this kind credits.
    pub open spec fn target(self, kind: TransferType) -> Amount {
        if kind.credits_frozen() {
            self.spec_frozen()
        } else {
            self.spec_available()
        }
    }

    /// The record with the balance that a transfer of this kind debits
    /// replaced by `value`.
    pub open spec fn with_source(self, kind: TransferType, value: Amount) -> Asset {
        if kind.debits_frozen() {
            Self::spec_new(self.spec_available(), value)
        } else {
            Self::spec_new(value, self.spec_frozen())
        }
    }

    /// The record with the balance that a transfer of this kind credits
    /// replaced by `value`.
    pub open spec fn with_target(self, kind: TransferType, value: Amount) -> Asset {
        if kind.credits_frozen() {
            Self::spec_new(self.spec_available(), value)
        } else {
            Self::spec_new(value, self.spec_frozen())
        }
    }

    /// The record after `delta` was added to its available balance, `None`
    /// where the decimal sum overflows.
    pub open spec fn with_available_added(self, delta: Amount) -> Option<Asset> {
        match self.spec_available().spec_checked_add(delta) {
            Some(sum) => Some(Self::spec_new(sum, self.spec_frozen())),
            None => None,
        }
    }

    /// The record after `delta` was added to its frozen balance, `None`
    /// where the decimal sum overflows.
    pub open spec fn with_frozen_added(self, delta: Amount) -> Option<Asset> {
        match self.spec_frozen().spec_checked_add(delta) {
            Some(sum) => Some(Self::spec_new(self.spec_available(), sum)),
            None => None,
        }
    }

    /// The record after a transfer of this kind took `amount` out of it.
    pub open spec fn debited(self, kind: TransferType, amount: Amount) -> Option<Asset> {
        match self.source(kind).spec_checked_add(amount.spec_negated()) {
            Some(sum) => Some(self.with_source(kind, sum)),
            None => None,
        }
    }

    /// The record after a transfer of this kind put `amount` into it.
    pub open spec fn credited(self, kind: TransferType, amount: Amount) -> Option<Asset> {
        match self.target(kind).spec_checked_add(amount) {
            Some(sum) => Some(self.with_target(kind, sum)),
            None => None,
        }
    }

    /// A record is determined by its two balances.
    pub proof fn lemma_parts(available: Amount, frozen: Amount)
        ensures
            Self::spec_new(available, frozen).spec_available() == available,
            Self::spec_new(available, frozen).spec_frozen() == frozen,
    {
    }

    /// The record that holds nothing.
    pub fn default() -> (r: Self)
        ensures
            r == Self::spec_default(),
            r.spec_available() == Amount::spec_zero(),
            r.spec_frozen() == Amount::spec_zero(),
    {
        Self { available: Amount::zero(), frozen: Amount::zero() }
    }

    pub fn new(available: Amount, frozen: Amount) -> (r: Self)
        ensures
            r == Self::spec_new(available, frozen),
            r.spec_available() == available,
            r.spec_frozen() == frozen,
    {
        Self { available, frozen }
    }

    pub fn get_available(&self) -> (r: Amount)
        ensures
            r == self.spec_available(),
    {
        self.available
    }

    pub fn get_frozen(&self) -> (r: Amount)
        ensures
            r == self.spec_frozen(),
    {
        self.frozen
    }

    /// Adds `amount`, which may be negative, to the available balance.
    pub fn add_available(&mut self, amount: Amount)
        requires
            old(self).with_available_added(amount).is_some(),
        ensures
            Some(*final(self)) == old(self).with_available_added(amount),
            Some(final(self).spec_available()) == old(self).spec_available().spec_checked_add(
                amount,
            ),
            final(self).spec_frozen() == old(self).spec_frozen(),
    {
        match self.available.checked_add(amount) {
            Some(sum) => {
                self.available = sum;
            },
            None => {},
        }
    }

    /// Adds `amount`, which may be negative, to the frozen balance.
    pub fn add_frozen(&mut self, amount: Amount)
        requires
            old(self).with_frozen_added(amount).is_some(),
        ensures
            Some(*final(self)) == old(self).with_frozen_added(amount),
            Some(final(self).spec_frozen()) == old(self).spec_frozen().spec_checked_add(amount),
            final(self).spec_available() == old(self).spec_available(),
    {
        match self.frozen.checked_add(amount) {
            Some(sum) => {
                self.frozen = sum;
            },
            None => {},
        }
    }

    /// Adds `amount` to the available balance unless the decimal sum
    /// overflows; says whether it did so.
    pub fn try_add_available(&mut self, amount: Amount) -> (done: bool)
        ensures
            done == old(self).with_available_added(amount).is_some(),
            done ==> Some(*final(self)) == old(self).with_available_added(amount),
            !done ==> *final(self) == *old(self),
    {
        match self.available.checked_add(amount) {
            Some(_) => {
                self.add_available(amount);
                true
            },
            None => false,
        }
    }

    /// Adds `amount` to the frozen balance unless the decimal sum overflows;
    /// says whether it did so.
    pub fn try_add_frozen(&mut self, amount: Amount) -> (done: bool)
        ensures
            done == old(self).with_frozen_added(amount).is_some(),
            done ==> Some(*final(self)) == old(self).with_frozen_added(amount),
            !done ==> *final(self) == *old(self),
    {
        match self.frozen.checked_add(amount) {
            Some(_) => {
                self.add_frozen(amount);
                true
            },
            None => false,
        }
    }

    /// The balance that a transfer of this kind debits: the frozen one for
    /// `FrozenToAvailable`, the available one for the other kinds.
    pub fn source_balance(&self, kind: TransferType) -> (r: Amount)
        ensures
            r == self.source(kind),
            r == match kind {
                TransferType::AvailableToAvailable => self.spec_available(),
                TransferType::AvailableToFrozen => self.spec_available(),
                TransferType::FrozenToAvailable => self.spec_frozen(),
            },
    {
        match kind {
            TransferType::FrozenToAvailable => self.frozen,
            _ => self.available,
        }
    }

    /// The balance that a transfer of this kind credits: the frozen one for
    /// `AvailableToFrozen`, the available one for the other kinds.
    pub fn target_balance(&self, kind: TransferType) -> (r: Amount)
        ensures
            r == self.target(kind),
            r == match kind {
                TransferType::AvailableToAvailable => self.spec_available(),
                TransferType::AvailableToFrozen => self.spec_frozen(),
                TransferType::FrozenToAvailable => self.spec_available(),
            },
    {
        match kind {
            TransferType::AvailableToFrozen => self.frozen,
            _ => self.available,
        }
    }

    /// The record with the balance that a transfer of this kind debits
    /// replaced by `value`; the other balance stays.
    pub fn replace_source(&self, kind: TransferType, value: Amount) -> (r: Asset)
        ensures
            r == self.with_source(kind, value),
            r.source(kind) == value,
            kind.debits_frozen() ==> r.spec_available() == self.spec_available(),
            !kind.debits_frozen() ==> r.spec_frozen() == self.spec_frozen(),
    {
        match kind {
            TransferType::FrozenToAvailable => Asset { available: self.available, frozen: value },
            _ => Asset { available: value, frozen: self.frozen },
        }
    }

    /// The record with the balance that a transfer of this kind credits
    /// replaced by `value`; the other balance stays.
    pub fn replace_target(&self, kind: TransferType, value: Amount) -> (r: Asset)
        ensures
            r == self.with_target(kind, value),
            r.target(kind) == value,
            kind.credits_frozen() ==> r.spec_available() == self.spec_available(),
            !kind.credits_frozen() ==> r.spec_frozen() == self.spec_frozen(),
    {
        match kind {
            TransferType::AvailableToFrozen => Asset { available: self.available, frozen: value },
            _ => Asset { available: value, frozen: self.frozen },
        }
    }

    /// The record after a transfer of this kind took `amount` out of it,
    /// `None` where the decimal sum overflows.
    pub fn checked_debit(&self, kind: TransferType, amount: Amount) -> (r: Option<Asset>)
        ensures
            r == self.debited(kind, amount),
    {
        match self.source_balance(kind).checked_add(amount.negated()) {
            Some(sum) => Some(self.replace_source(kind, sum)),
            None => None,
        }
    }

    /// The record after a transfer of this kind put `amount` into it, `None`
    /// where the decimal sum overflows.
    pub fn checked_credit(&self, kind: TransferType, amount: Amount) -> (r: Option<Asset>)
        ensures
            r == self.credited(kind, amount),
    {
        match self.target_balance(kind).checked_add(amount) {
            Some(sum) => Some(self.replace_target(kind, sum)),
            None => None,
        }
    }

    /// Debiting is adding the negated amount to the balance that the kind
    /// names, and crediting is adding the amount.
    pub proof fn lemma_debit_credit_by_kind(self, kind: TransferType, amount: Amount)
        ensures
            self.debited(kind, amount) == if kind.debits_frozen() {
                self.with_frozen_added(amount.spec_negated())
            } else {
                self.with_available_added(amount.spec_negated())
            },
            self.credited(kind, amount) == if kind.credits_frozen() {
                self.with_frozen_added(amount)
            } else {
                self.with_available_added(amount)
            },
    {
    }
}

} // verus!
