use vstd::prelude::*;

use crate::color::{spec_white, Color};
use crate::node::node_error::NodeError;
use crate::node::socket::{NodeSocket, SocketDirection};
use crate::node::Node;
use vstd::string::StringExecFns;

verus! {

/// An immutable template from which concrete `Node` instances are
/// instantiated. Sockets may be appended before first use; appending
/// validates the socket's direction and fails with a typed error on a
/// mismatch.
pub struct NodeDefinition {
    pub node_definition_id: u64,
    pub name: String,
    pub description: String,
    pub identifier: String,
    pub color: Color,
    pub input_sockets: Vec<NodeSocket>,
    pub output_sockets: Vec<NodeSocket>,
}

impl NodeDefinition {
    /// Every input socket faces `Input`, every output socket faces `Output`,
    /// and the socket count is bounded so instantiated nodes stay well
    /// formed.
    pub open spec fn wf(self) -> bool {
        &&& (self.input_sockets@.len() as int + self.output_sockets@.len() as int) <= 0xffff_ffff
        &&& (forall|i: int|
            0 <= i < self.input_sockets@.len() ==> self.input_sockets@[i].direction
                == SocketDirection::Input)
        &&& (forall|i: int|
            0 <= i < self.output_sockets@.len() ==> self.output_sockets@[i].direction
                == SocketDirection::Output)
    }

    /// A fresh definition with no sockets.
    pub fn new(
        node_definition_id: u64,
        name: String,
        description: String,
        identifier: String,
        color: Color,
    ) -> (d: NodeDefinition)
        ensures
            d.node_definition_id == node_definition_id,
            d.name == name,
            d.description == description,
            d.identifier == identifier,
            d.color == color,
            d.input_sockets@ =~= Seq::<NodeSocket>::empty(),
            d.output_sockets@ =~= Seq::<NodeSocket>::empty(),
            d.wf(),
    {
        NodeDefinition {
            node_definition_id,
            name,
            description,
            identifier,
            color,
            input_sockets: Vec::new(),
            output_sockets: Vec::new(),
        }
    }

    pub fn node_definition_id(&self) -> (r: u64)
        ensures
            r == self.node_definition_id,
    {
        self.node_definition_id
    }

    pub fn name(&self) -> (r: &String)
        ensures
            r == &self.name,
    {
        &self.name
    }

    pub fn description(&self) -> (r: &String)
        ensures
            r == &self.description,
    {
        &self.description
    }

    pub fn identifier(&self) -> (r: &String)
        ensures
            r == &self.identifier,
    {
        &self.identifier
    }

    pub fn color(&self) -> (r: Color)
        ensures
            r == self.color,
    {
        self.color
    }

    /// The ordered input socket definitions.
    pub fn iterate_input_sockets(&self) -> (r: &Vec<NodeSocket>)
        ensures
            r == &self.input_sockets,
    {
        &self.input_sockets
    }

    /// The ordered output socket definitions.
    pub fn iterate_output_sockets(&self) -> (r: &Vec<NodeSocket>)
        ensures
            r == &self.output_sockets,
    {
        &self.output_sockets
    }

    /// Appends an input socket; a socket facing `Output` is rejected with
    /// `WrongDirection` and the definition is left unchanged.
    pub fn add_input_socket(&mut self, socket: NodeSocket) -> (r: Result<(), NodeError>)
        requires
            old(self).wf(),
            (old(self).input_sockets@.len() as int + old(self).output_sockets@.len() as int)
                < 0xffff_ffff,
        ensures
            final(self).wf(),
            socket.direction == SocketDirection::Input ==> (r is Ok && *final(self)
                == (NodeDefinition { input_sockets: final(self).input_sockets, ..*old(self) })
                && final(self).input_sockets@ =~= old(self).input_sockets@.push(socket)),
            socket.direction == SocketDirection::Output ==> (*final(self) == *old(self) && (
            r matches Err(e) && e matches NodeError::WrongDirection(m) && m@
                == "Got output socket in add_input_socket"@)),
    {
        match socket.direction() {
            SocketDirection::Output => Err(
                NodeError::WrongDirection(String::from_str("Got output socket in add_input_socket")),
            ),
            SocketDirection::Input => {
                self.input_sockets.push(socket);
                Ok(())
            },
        }
    }

    /// Appends an output socket; a socket facing `Input` is rejected with
    /// `WrongDirection` and the definition is left unchanged.
    pub fn add_output_socket(&mut self, socket: NodeSocket) -> (r: Result<(), NodeError>)
        requires
            old(self).wf(),
            (old(self).input_sockets@.len() as int + old(self).output_sockets@.len() as int)
                < 0xffff_ffff,
        ensures
            final(self).wf(),
            socket.direction == SocketDirection::Output ==> (r is Ok && *final(self)
                == (NodeDefinition { output_sockets: final(self).output_sockets, ..*old(self) })
                && final(self).output_sockets@ =~= old(self).output_sockets@.push(socket)),
            socket.direction == SocketDirection::Input ==> (*final(self) == *old(self) && (
            r matches Err(e) && e matches NodeError::WrongDirection(m) && m@
                == "Got input socket in add_output_socket"@)),
    {
        match socket.direction() {
            SocketDirection::Input => Err(
                NodeError::WrongDirection(String::from_str("Got input socket in add_output_socket")),
            ),
            SocketDirection::Output => {
                self.output_sockets.push(socket);
                Ok(())
            },
        }
    }

    /// Creates a `Node` from this `NodeDefinition` under the given id.
    pub fn create_node(&self, node_id: u64) -> (n: Node)
        requires
            self.wf(),
        ensures
            n.wf(),
            n.edges_fit(),
            n.node_id == node_id,
            n.node_definition_id == Some(self.node_definition_id),
            n.name == self.name,
            n.identifier == self.identifier,
            n.description == self.description,
            n.color == self.color,
            n.inputs@ =~= self.input_sockets@.map_values(
                |s: NodeSocket| (s, Option::<u64>::None),
            ),
            n.outputs@ =~= self.output_sockets@.map_values(
                |s: NodeSocket| (s, Option::<u64>::None),
            ),
            n.x == (crate::rat::Rat { num: 0, den: 1 }),
            n.y == (crate::rat::Rat { num: 0, den: 1 }),
            n.width.q() == (crate::node::NODE_WIDTH as int, 1int),
            n.height.q() == (n.min_height_units(), 1int),
            !n.selected,
    {
        Node::new_from_definition(node_id, self)
    }

    /// The stock definition used when nothing else is configured.
    pub fn default_with_id(node_definition_id: u64) -> (d: NodeDefinition)
        ensures
            d.node_definition_id == node_definition_id,
            d.name@ == "Default Node"@,
            d.description@ == "This node is unimplemented and does literally nothing."@,
            d.identifier@ == "default"@,
            d.color == spec_white(),
            d.input_sockets@ =~= Seq::<NodeSocket>::empty(),
            d.output_sockets@ =~= Seq::<NodeSocket>::empty(),
            d.wf(),
    {
        NodeDefinition {
            node_definition_id,
            name: String::from_str("Default Node"),
            description: String::from_str("This node is unimplemented and does literally nothing."),
            identifier: String::from_str("default"),
            color: Color::white(),
            input_sockets: Vec::new(),
            output_sockets: Vec::new(),
        }
    }
}

} // verus!
