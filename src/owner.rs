use vstd::prelude::*;

use crate::{AccountId, ContractId};

verus! {

/// Who holds a certificate.
#[derive(Clone, Copy, Debug, PartialEq, Eq, Structural)]
pub enum CertificateOwner {
    Unowned,
    Account(AccountId),
    Contract(ContractId),
}

impl CertificateOwner {
    pub fn is_none(&self) -> (r: bool)
        ensures
            r == (*self is Unowned),
    {
        match self {
            CertificateOwner::Unowned => true,
            _ => false,
        }
    }

    pub fn is_account(&self) -> (r: bool)
        ensures
            r == (*self is Account),
    {
        match self {
            CertificateOwner::Account(_) => true,
            _ => false,
        }
    }

    pub fn is_contract(&self) -> (r: bool)
        ensures
            r == (*self is Contract),
    {
        match self {
            CertificateOwner::Contract(_) => true,
            _ => false,
        }
    }

    pub fn as_account(&self) -> (r: Option<AccountId>)
        ensures
            r == (match *self {
                CertificateOwner::Account(a) => Some(a),
                _ => None::<AccountId>,
            }),
    {
        match self {
            CertificateOwner::Account(a) => Some(*a),
            _ => None,
        }
    }

    pub fn as_contract(&self) -> (r: Option<ContractId>)
        ensures
            r == (match *self {
                CertificateOwner::Contract(c) => Some(c),
                _ => None::<ContractId>,
            }),
    {
        match self {
            CertificateOwner::Contract(c) => Some(*c),
            _ => None,
        }
    }
}

} // verus!
