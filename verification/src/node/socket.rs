use vstd::prelude::*;

use crate::node::data_model::DataType;

verus! {

/// A node's socket definition.
pub struct NodeSocket {
    pub label: String,
    pub identifier: String,
    pub direction: SocketDirection,
    pub preferred_type: DataType,
}

impl NodeSocket {
    pub fn new(
        label: String,
        identifier: String,
        direction: SocketDirection,
        preferred_type: DataType,
    ) -> (s: NodeSocket)
        ensures
            s == (NodeSocket { label, identifier, direction, preferred_type }),
    {
        NodeSocket { label, identifier, direction, preferred_type }
    }

    pub fn label(&self) -> (r: &String)
        ensures
            r == &self.label,
    {
        &self.label
    }

    pub fn identifier(&self) -> (r: &String)
        ensures
            r == &self.identifier,
    {
        &self.identifier
    }

    pub fn direction(&self) -> (r: SocketDirection)
        ensures
            r == self.direction,
    {
        self.direction
    }

    pub fn preferred_direction(&self) -> (r: DataType)
        ensures
            r == self.preferred_type,
    {
        self.preferred_type
    }
}

impl Clone for NodeSocket {
    fn clone(&self) -> (r: Self)
        ensures
            r == *self,
    {
        NodeSocket {
            label: self.label.clone(),
            identifier: self.identifier.clone(),
            direction: self.direction,
            preferred_type: self.preferred_type,
        }
    }
}

/// The direction that a socket is facing (input or output).
#[derive(Copy, Clone, Eq, PartialEq, Debug, Structural)]
pub enum SocketDirection {
    Input,
    Output,
}

} // verus!
