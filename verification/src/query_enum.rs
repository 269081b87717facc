//! A parameter value as a front-end may hand it over.

use vstd::prelude::*;

verus! {

/// Text, or a whole number.
#[derive(Debug)]
pub enum QueryValue {
    String(String),
    Number(i64),
}

} // verus!
