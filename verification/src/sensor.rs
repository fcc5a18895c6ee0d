//! Values that sensor clients exchange with the server.

use vstd::prelude::*;

verus! {

/// A test record sent over the wire: a number and a list of texts.
#[derive(Debug, Clone)]
pub struct TestStruct {
    pub test: u32,
    pub vec: Vec<String>,
}

} // verus!
