//! The builds that nothing starts before a request needs them.

use vstd::prelude::*;

verus! {

/// The builds that a request starts. One that runs already, or is done, is not started again.
#[derive(Debug, Clone, Copy, PartialEq, Eq, Structural)]
pub struct Loads {
    /// The call graph.
    pub graph: bool,
    /// The resident workspace.
    pub resident: bool,
    /// The search of the platform reference beside the workspace.
    pub reference: bool,
}

/// The request starts no build.
pub open spec fn nothing() -> Loads {
    Loads { graph: false, resident: false, reference: false }
}

/// The request starts the resident workspace.
pub open spec fn resident_alone() -> Loads {
    Loads { graph: false, resident: true, reference: false }
}

/// The request starts the call graph.
pub open spec fn graph_alone() -> Loads {
    Loads { graph: true, resident: false, reference: false }
}

/// The request starts the search of the platform reference.
pub open spec fn reference_alone() -> Loads {
    Loads { graph: false, resident: false, reference: true }
}

} // verus!
