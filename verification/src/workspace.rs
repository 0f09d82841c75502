//! Workspace roots and their identities.

use vstd::prelude::*;

verus! {

/// Identity of one analyzed file within the session.
#[derive(Debug, Clone, Copy, PartialEq, Eq, Hash, Structural)]
pub struct FileId {
    pub id: u32,
}

/// A workspace root directory together with its identity.
pub struct Workspace {
    pub root: String,
    pub id: WorkspaceId,
}

impl Workspace {
    pub fn new(root: String, id: WorkspaceId) -> (w: Workspace)
        ensures
            w.root == root,
            w.id == id,
    {
        Workspace { root, id }
    }
}

/// Identity of a workspace: 0 is the standard library, 1 the main
/// workspace, anything above is an extra library root.
#[derive(Debug, Clone, Copy, PartialEq, Eq, PartialOrd, Ord, Hash, Structural)]
pub struct WorkspaceId {
    pub id: u32,
}

impl WorkspaceId {
    pub fn is_library(&self) -> (r: bool)
        ensures
            r == (self.id > 1),
    {
        self.id > 1
    }

    pub fn is_main(&self) -> (r: bool)
        ensures
            r == (self.id == 1),
    {
        self.id == 1
    }

    pub fn is_std(&self) -> (r: bool)
        ensures
            r == (self.id == 0),
    {
        self.id == 0
    }
}

} // verus!
