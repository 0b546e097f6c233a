//! The client facade.
//!
//! The facade is the single object handed to the surrounding SDK runtime. It
//! is stateless beyond an immutable backend identity, chosen once when the
//! facade is built; every connector it constructs targets that same backend.
//! Connectors are cheap and built fresh per call — nothing is cached.

use vstd::prelude::*;

use crate::connector::FastlyHttpConnector;

verus! {

/// An immutable identity naming the upstream destination the sandbox should
/// route requests to. It has value semantics: duplicating it yields an equal
/// identity, and nothing ever mutates one.
#[derive(PartialEq, Eq, Debug)]
pub struct Backend {
    pub name: String,
}

impl Backend {
    pub fn new(name: String) -> (backend: Backend)
        ensures
            backend.name == name,
    {
        Backend { name }
    }

    /// An equal copy of this identity.
    pub fn duplicate(&self) -> (copy: Backend)
        ensures
            copy == *self,
    {
        Backend { name: self.name.clone() }
    }
}

/// An HTTP client facade for the surrounding SDK runtime: holds the backend
/// identity shared by every connector it creates.
#[derive(PartialEq, Eq, Debug)]
pub struct FastlyHttpClient {
    pub backend: Backend,
}

impl From<Backend> for FastlyHttpClient {
    fn from(backend: Backend) -> Self {
        Self { backend }
    }
}

impl vstd::std_specs::convert::FromSpecImpl<Backend> for FastlyHttpClient {
    open spec fn obeys_from_spec() -> bool {
        true
    }

    open spec fn from_spec(backend: Backend) -> Self {
        FastlyHttpClient { backend }
    }
}

impl FastlyHttpClient {
    /// Builds a fresh connector targeting this client's backend. The
    /// surrounding runtime also hands over its connector settings and runtime
    /// components; the connector's behaviour depends on neither, so this
    /// constructor takes nothing but the client itself.
    pub fn http_connector(&self) -> (connector: FastlyHttpConnector)
        ensures
            connector.backend == self.backend,
    {
        FastlyHttpConnector { backend: self.backend.duplicate() }
    }
}

} // verus!
