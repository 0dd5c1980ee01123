//! The endpoint block that every catalog response carries.

use vstd::prelude::*;

verus! {

/// The service's own URLs, echoed in each response.
#[derive(Debug, Clone, PartialEq)]
pub struct Endpoints {
    pub api: String,
    pub image: String,
    pub thumb: String,
    pub web: String,
}

} // verus!
