//! The identity the JSON-RPC tool wrapper announces; the wire loop
//! itself lives with the I/O around the engine.

use vstd::prelude::*;

verus! {

use vstd::string::StringExecFns;

/// The tool server's identity.
#[derive(Debug, Clone)]
pub struct McpServer {
    pub name: String,
    pub version: String,
}

/// The identity as announced on initialisation.
#[derive(Debug, Clone)]
pub struct ServerInfo {
    pub name: String,
    pub version: String,
}

impl Default for McpServer {
    fn default() -> (r: Self)
        ensures
            r.name@ == "zenvo-mcp"@,
            r.version@ == "0.1.0"@,
    {
        McpServer { name: String::from_str("zenvo-mcp"), version: String::from_str("0.1.0") }
    }
}

impl McpServer {
    /// The default server identity.
    pub fn new() -> (r: Self)
        ensures
            r.name@ == "zenvo-mcp"@,
            r.version@ == "0.1.0"@,
    {
        Self::default()
    }

    /// The identity to announce.
    pub fn server_info(&self) -> (r: ServerInfo)
        ensures
            r.name@ == self.name@,
            r.version@ == self.version@,
    {
        ServerInfo { name: self.name.clone(), version: self.version.clone() }
    }
}

} // verus!
