//! Error taxonomy of the mesh.
//!
//! Failures local to one connection or one discovery tick are contained by
//! the callers; only startup failures are treated as fatal by the process
//! around the library.

use vstd::prelude::*;

verus! {

/// Everything that can go wrong in the mesh, each variant carrying a
/// human-readable description. Variants that outside collaborators produce
/// (transport, cluster API, I/O, serialization) carry the collaborator's
/// message in textual form.
#[derive(Debug)]
pub enum Error {
    /// Secure-transport failure (bind, dial, accept).
    Iroh(String),
    /// Cluster API (service lister) failure.
    Kube(String),
    /// I/O failure on a local socket or file.
    Io(String),
    /// Serialization failure.
    Serde(String),
    /// Invalid configuration or key material.
    Config(String),
    /// Network-level failure outside the secure transport.
    Network(String),
    /// Discovery failure: the service lister could not be reached.
    Discovery(String),
    /// Proxy-level failure: unroutable or malformed client request.
    Proxy(String),
    /// Agent-level failure.
    Agent(String),
}

impl Error {
    /// Which variant this is, as a mathematical discriminant for contracts.
    pub open spec fn is_proxy(&self) -> bool {
        matches!(*self, Error::Proxy(_))
    }

    pub open spec fn is_config(&self) -> bool {
        matches!(*self, Error::Config(_))
    }

    /// The description carried by the variant.
    pub open spec fn spec_message(&self) -> Seq<char> {
        match *self {
            Error::Iroh(ref s) => s@,
            Error::Kube(ref s) => s@,
            Error::Io(ref s) => s@,
            Error::Serde(ref s) => s@,
            Error::Config(ref s) => s@,
            Error::Network(ref s) => s@,
            Error::Discovery(ref s) => s@,
            Error::Proxy(ref s) => s@,
            Error::Agent(ref s) => s@,
        }
    }

    /// The description, for reporting (stands in for display formatting).
    pub fn message(&self) -> (r: String)
        ensures
            r@ == self.spec_message(),
    {
        match self {
            Error::Iroh(s) => s.clone(),
            Error::Kube(s) => s.clone(),
            Error::Io(s) => s.clone(),
            Error::Serde(s) => s.clone(),
            Error::Config(s) => s.clone(),
            Error::Network(s) => s.clone(),
            Error::Discovery(s) => s.clone(),
            Error::Proxy(s) => s.clone(),
            Error::Agent(s) => s.clone(),
        }
    }
}

} // verus!
