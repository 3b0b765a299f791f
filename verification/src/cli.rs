//! What the command line hands to the library.

use crate::errors::CustomError;
use crate::node::{node_record_parts, Node};
use vstd::prelude::*;

verus! {

/// The arguments of one invocation.
#[derive(Debug)]
pub struct Cli {
    /// The node record of the peer to call: `<identifier>@<host>:<port>`.
    pub node_record: String,
}

impl Cli {
    /// The node that the arguments name, with a secret key drawn for this
    /// session. A record is refused exactly when it is not well formed, its
    /// host is empty or its port is zero.
    pub fn node(&self) -> (node: Result<Node, CustomError>)
        ensures
            match node {
                Ok(node) => node_record_parts(self.node_record@) == Some((node@.addr, node@.port)),
                Err(error) => node_record_parts(self.node_record@) is None && error
                    is AddressPortParse,
            },
    {
        Node::new(self.node_record.as_str())
    }
}

} // verus!
