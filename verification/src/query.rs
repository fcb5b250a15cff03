//! The query of a listing request.

use vstd::prelude::*;

verus! {

/// Query parameters of the application listing: `page` is the cursor, the
/// identity key of the last record of the page before; `limit` is the page
/// size asked for.
#[derive(Clone, Debug, PartialEq, Eq)]
pub struct ApplicationsQuery {
    pub page: Option<String>,
    pub limit: Option<i64>,
}

} // verus!
