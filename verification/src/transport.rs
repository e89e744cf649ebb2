//! The transport that the engine listens on.

use vstd::prelude::*;

verus! {

/// What is set over the engine's defaults for a UDP transport.
#[derive(Debug, Clone, Copy, PartialEq, Eq, Structural)]
pub struct PjsuaTransport {
    port: u32,
}

impl PjsuaTransport {
    /// The port to bind; zero lets the system choose.
    pub closed spec fn spec_port(&self) -> u32 {
        self.port
    }

    /// A transport on the given port, or on one that the system chooses
    /// where none is given.
    pub fn new(port: Option<u16>) -> (transport: PjsuaTransport)
        ensures
            transport.spec_port() == (match port {
                Some(p) => p as u32,
                None => 0u32,
            }),
    {
        let port: u32 = match port {
            Some(p) => p as u32,
            None => 0,
        };
        PjsuaTransport { port }
    }

    /// The port to bind; zero lets the system choose.
    #[verifier::when_used_as_spec(spec_port)]
    pub fn port(&self) -> (port: u32)
        ensures
            port == self.spec_port(),
    {
        self.port
    }
}

} // verus!
