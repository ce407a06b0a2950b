//! A named workspace rooted at a directory.
use crate::id::{Id, IdGenerator};
use vstd::prelude::*;

verus! {

#[derive(Debug, Clone, Copy, PartialEq, Eq, PartialOrd, Ord, Hash)]
pub struct WorkspaceMarker;

pub type WorkspaceId = Id<WorkspaceMarker>;

#[derive(Debug, Clone, PartialEq, Eq)]
pub struct Workspace {
    id: WorkspaceId,
    name: String,
    root_path: String,
}

impl Workspace {
    pub closed spec fn spec_id(&self) -> u64 {
        self.id@
    }

    pub closed spec fn spec_name(&self) -> Seq<char> {
        self.name@
    }

    pub closed spec fn spec_root_path(&self) -> Seq<char> {
        self.root_path@
    }

    /// A workspace with the next identifier of `ids`.
    pub fn new(ids: &mut IdGenerator<WorkspaceMarker>, name: &str, root_path: &str) -> (r: Self)
        ensures
            r.spec_id() == crate::id::issued_value(old(ids)@),
            final(ids)@ == crate::id::advanced_value(old(ids)@),
            r.spec_name() == name@,
            r.spec_root_path() == root_path@,
    {
        Workspace { id: ids.next_id(), name: name.to_owned(), root_path: root_path.to_owned() }
    }

    pub fn id(&self) -> (r: WorkspaceId)
        ensures
            r@ == self.spec_id(),
    {
        self.id
    }

    pub fn name(&self) -> (r: &str)
        ensures
            r@ == self.spec_name(),
    {
        self.name.as_str()
    }

    pub fn root_path(&self) -> (r: &str)
        ensures
            r@ == self.spec_root_path(),
    {
        self.root_path.as_str()
    }
}

} // verus!
