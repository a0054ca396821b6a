//! The command line of the server, as plain data.

use vstd::prelude::*;

verus! {

/// The address that the server listens on where none is given.
pub const DEFAULT_ADDRESS: &'static str = "127.0.0.1:8080";

/// What the server is asked to do.
#[derive(Clone, Debug, PartialEq, Eq)]
pub enum Commands {
    /// Serve the project in the working directory; `port` is the address to
    /// listen on, host and port.
    Dev { port: String },
}

/// A parsed command line.
#[derive(Clone, Debug, PartialEq, Eq)]
pub struct Cli {
    /// The command given.
    pub command: Commands,
}

impl Cli {
    /// The address on which the command asks the server to listen.
    pub fn address(&self) -> (address: &String)
        ensures
            self.command matches Commands::Dev { port } && *address == port,
    {
        match &self.command {
            Commands::Dev { port } => port,
        }
    }
}

} // verus!
