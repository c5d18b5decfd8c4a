//! The row of the users table, as plain values.

use vstd::prelude::*;

verus! {

/// One user: its key and its name.
#[derive(Clone, Debug)]
pub struct Model {
    pub id: i32,
    pub name: String,
    pub surname: String,
}

} // verus!
