//! Account and contract addresses, and the token movements between them.
use vstd::prelude::*;
use crate::store::StoreKey;

verus! {

/// An account or contract address, held as its textual (strkey) form.
#[derive(Debug)]
pub struct Address {
    pub key: String,
}

impl View for Address {
    type V = Seq<char>;

    open spec fn view(&self) -> Seq<char> {
        self.key@
    }
}

impl Address {
    /// The address whose textual form is `key`.
    pub fn new(key: String) -> (r: Address)
        ensures
            r@ == key@,
    {
        Address { key }
    }

    /// Whether both denote the same address.
    pub fn same(&self, other: &Address) -> (r: bool)
        ensures
            r == (self@ == other@),
    {
        self.key == other.key
    }

    /// A copy of this address.
    pub fn duplicate(&self) -> (r: Address)
        ensures
            r@ == self@,
    {
        Address { key: self.key.clone() }
    }
}

impl Clone for Address {
    fn clone(&self) -> (r: Self)
        ensures
            r@ == self@,
    {
        self.duplicate()
    }
}

impl PartialEq for Address {
    fn eq(&self, other: &Self) -> (r: bool) {
        self.key == other.key
    }
}

impl vstd::std_specs::cmp::PartialEqSpecImpl for Address {
    open spec fn obeys_eq_spec() -> bool {
        true
    }

    open spec fn eq_spec(&self, other: &Self) -> bool {
        self@ == other@
    }
}

impl Eq for Address {
}

impl StoreKey for Address {
    fn same_key(&self, other: &Address) -> (r: bool) {
        self.same(other)
    }
}

/// One side of a token movement: the contract itself or an outside account.
#[derive(Debug, Clone, PartialEq, Eq)]
pub enum Party {
    Contract,
    Account(Address),
}

/// The view of a party.
pub enum PartyView {
    Contract,
    Account(Seq<char>),
}

impl View for Party {
    type V = PartyView;

    open spec fn view(&self) -> PartyView {
        match self {
            Party::Contract => PartyView::Contract,
            Party::Account(a) => PartyView::Account(a@),
        }
    }
}

/// A movement of `amount` units of `token` from one party to another.
#[derive(Debug, Clone, PartialEq, Eq)]
pub struct Transfer {
    pub token: Address,
    pub from: Party,
    pub to: Party,
    pub amount: i128,
}

/// The view of a transfer.
pub struct TransferView {
    pub token: Seq<char>,
    pub from: PartyView,
    pub to: PartyView,
    pub amount: i128,
}

impl View for Transfer {
    type V = TransferView;

    open spec fn view(&self) -> TransferView {
        TransferView { token: self.token@, from: self.from@, to: self.to@, amount: self.amount }
    }
}

} // verus!
