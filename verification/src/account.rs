//! Accounts as the operations see them: a value at an address, in a slot
//! that is vacant before the account is created and closed after it is
//! destroyed.
use vstd::prelude::*;
use crate::identity::Identity;

verus! {

/// A value of type `T` stored at the address `key`.
#[derive(Clone, Copy, Debug, PartialEq, Eq)]
pub struct Account<T> {
    pub key: Identity,
    pub data: T,
}

/// The life of an account that an operation creates or destroys: nothing
/// yet, then the account, then nothing for good.
#[derive(Clone, Copy, Debug, PartialEq, Eq)]
pub enum Slot<T> {
    /// No account has been created here.
    Vacant,
    /// The account exists.
    Occupied(T),
    /// The account was destroyed.
    Closed,
}

impl<T> Slot<T> {
    /// Whether the account exists.
    pub open spec fn spec_is_occupied(&self) -> bool {
        self is Occupied
    }

    /// Whether the account exists.
    #[verifier::when_used_as_spec(spec_is_occupied)]
    pub fn is_occupied(&self) -> (r: bool)
        ensures
            r == (self is Occupied),
    {
        match self {
            Slot::Occupied(_) => true,
            _ => false,
        }
    }

    /// Whether no account has been created here yet.
    pub open spec fn spec_is_vacant(&self) -> bool {
        self is Vacant
    }

    /// Whether no account has been created here yet.
    #[verifier::when_used_as_spec(spec_is_vacant)]
    pub fn is_vacant(&self) -> (r: bool)
        ensures
            r == (self is Vacant),
    {
        match self {
            Slot::Vacant => true,
            _ => false,
        }
    }

    /// Whether the account was destroyed.
    pub open spec fn spec_is_closed(&self) -> bool {
        self is Closed
    }

    /// Whether the account was destroyed.
    #[verifier::when_used_as_spec(spec_is_closed)]
    pub fn is_closed(&self) -> (r: bool)
        ensures
            r == (self is Closed),
    {
        match self {
            Slot::Closed => true,
            _ => false,
        }
    }
}

} // verus!
