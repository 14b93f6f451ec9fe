//! Principals: the identities on whose behalf calls are made.

use crate::error::{outcome, ContractError};
use vstd::prelude::*;

verus! {

/// An identity that can be required to authorize a call. The boundary hands
/// over identities that were authenticated already; here they are only
/// compared.
#[derive(Debug)]
pub struct Address {
    key: String,
}

impl View for Address {
    type V = Seq<char>;

    open spec fn view(&self) -> Seq<char> {
        self.text()
    }
}

impl Address {
    /// The characters of the identity's key.
    pub closed spec fn text(&self) -> Seq<char> {
        self.key@
    }

    /// The identity with the given key.
    pub fn new(key: String) -> (a: Address)
        ensures
            a@ == key@,
    {
        Address { key }
    }

    /// The identity with the given key.
    pub fn from_str(key: &str) -> (a: Address)
        ensures
            a@ == key@,
    {
        Address { key: key.to_owned() }
    }

    /// The identity's key.
    pub fn as_str(&self) -> (s: &str)
        ensures
            s@ == self@,
    {
        self.key.as_str()
    }

    /// Whether two identities are the same principal.
    pub fn same(&self, other: &Address) -> (b: bool)
        ensures
            b == (self@ == other@),
    {
        self.key == other.key
    }
}

impl Clone for Address {
    fn clone(&self) -> (a: Address)
        ensures
            a@ == self@,
    {
        Address { key: self.key.clone() }
    }
}

/// Why a call that only the administrator may make is refused on account
/// of its caller, if it is.
pub open spec fn admin_denied(admin: Option<Seq<char>>, caller: Seq<char>) -> Option<
    ContractError,
> {
    match admin {
        None => Some(ContractError::AdminNotConfigured),
        Some(a) => if a != caller {
            Some(ContractError::Unauthorized)
        } else {
            None
        },
    }
}

/// Checks that the caller is the administrator that was configured.
pub fn require_admin(admin: Option<&Address>, caller: &Address) -> (r: Result<(), ContractError>)
    ensures
        r == outcome(
            admin_denied(
                match admin {
                    Some(a) => Some(a@),
                    None => None,
                },
                caller@,
            ),
        ),
{
    match admin {
        None => Err(ContractError::AdminNotConfigured),
        Some(a) => if a.same(caller) {
            Ok(())
        } else {
            Err(ContractError::Unauthorized)
        },
    }
}

impl PartialEq for Address {
    fn eq(&self, other: &Address) -> (b: bool) {
        self.key == other.key
    }
}

impl Eq for Address {}

impl vstd::std_specs::cmp::PartialEqSpecImpl for Address {
    open spec fn obeys_eq_spec() -> bool {
        true
    }

    open spec fn eq_spec(&self, other: &Address) -> bool {
        self@ == other@
    }
}

} // verus!
