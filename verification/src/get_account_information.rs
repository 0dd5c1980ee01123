//! The account-information response shape.

use vstd::prelude::*;

verus! {

/// The response of the account-information operation.
#[derive(Debug, Clone)]
pub struct GetAccountInformationResponse {
    pub db_core: GetAccountInformationDBCore,
    pub user: User,
}

/// The service block of the account-information response.
#[derive(Debug, Clone)]
pub struct GetAccountInformationDBCore {
    pub timestamp: i64,
}

/// The caller's account record.
#[derive(Debug, Clone)]
pub struct User {
    pub active: bool,
    pub display_name: String,
    pub id: u64,
    pub lifetime: bool,
    pub plus: bool,
}

} // verus!
