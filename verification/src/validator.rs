//! The validator interface: whether one query string parses.

use vstd::prelude::*;

use crate::{process_query, sp_process};

verus! {

/// Validates one query string: true exactly when it parses as a query
/// with its end-of-query delimiter in place.
pub fn engine(query: &str) -> (r: bool)
    ensures
        r == (sp_process(query@) is Some),
{
    let q = query.to_owned();
    match process_query(&q) {
        Some(_) => true,
        None => false,
    }
}

} // verus!
