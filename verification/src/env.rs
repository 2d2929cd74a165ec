//! Environment configuration data: which environment a run targets and the
//! key/value settings loaded for it.

use vstd::prelude::*;
use std::collections::HashMap;

verus! {

/// The kind of environment a configuration belongs to.
#[derive(Clone, Copy, Debug, Eq, Hash, PartialEq, Structural)]
pub enum Kind {
    /// Development settings.
    Dev,
    /// Test settings.
    Test,
    /// Production settings.
    Prod,
}

/// Settings shared by every environment.
pub struct Common {
    /// The shared key/value settings.
    pub kvs: HashMap<String, String>,
}

impl Common {
    /// Wrap shared settings.
    pub fn new(kvs: HashMap<String, String>) -> (c: Common)
        ensures
            c.kvs == kvs,
    {
        Common { kvs }
    }
}

/// Settings specific to one environment kind.
pub struct Specific {
    /// Which environment these settings belong to.
    pub kind: Kind,
    /// The environment's own key/value settings.
    pub kvs: HashMap<String, String>,
}

impl Specific {
    /// Wrap one environment's settings.
    pub fn new(kind: Kind, kvs: HashMap<String, String>) -> (s: Specific)
        ensures
            s.kind == kind,
            s.kvs == kvs,
    {
        Specific { kind, kvs }
    }

    /// Which environment these settings belong to.
    pub fn kind(&self) -> (k: Kind)
        ensures
            k == self.kind,
    {
        self.kind
    }
}

} // verus!
