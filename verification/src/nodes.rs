//! Free-standing leaf nodes: the empty node, a boolean value node and an
//! identifier-access node.

use vstd::prelude::*;

verus! {

/// The node carrying no value.
#[derive(Debug, Clone, Copy, PartialEq, Eq, Structural)]
pub struct NoneNode {}

/// A boolean constant node.
#[derive(Debug, Clone, Copy, PartialEq, Eq, Structural)]
pub struct BooleanNode {
    pub value: bool,
}

impl BooleanNode {
    pub fn new(value: bool) -> (n: BooleanNode)
        ensures
            n == (BooleanNode { value }),
    {
        BooleanNode { value }
    }
}

/// A node reading a variable by name.
#[derive(Debug)]
pub struct AccessNode {
    pub ident: String,
}

impl AccessNode {
    pub fn new(ident: String) -> (n: AccessNode)
        ensures
            n.ident@ == ident@,
    {
        AccessNode { ident }
    }
}

} // verus!
