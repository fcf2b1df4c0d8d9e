use vstd::prelude::*;

verus! {

/// The errors the node data model can raise: a socket was registered
/// against a list of the opposite direction.
#[derive(Debug)]
pub enum NodeError {
    WrongDirection(String),
}

impl NodeError {
    /// The descriptive message carried by the error.
    pub fn message(&self) -> (r: &String)
        ensures
            self matches NodeError::WrongDirection(m) && r == m,
    {
        match self {
            NodeError::WrongDirection(m) => m,
        }
    }
}

} // verus!
