//! Nodes of the accessibility tree, and what adapters tell about
//! themselves.
use vstd::prelude::*;

verus! {

#[derive(Debug, Clone, Copy, PartialEq, Eq, Structural)]
pub enum AccessibleRole {
    Window,
    Panel,
    Button,
    Text,
    Tree,
    TreeItem,
    TextInput,
}

/// A node of the accessibility tree, with the stable ids of its children.
#[derive(Debug, Clone, PartialEq, Eq)]
pub struct AccessibleNode {
    pub stable_id: u64,
    pub role: AccessibleRole,
    pub label: String,
    pub children: Vec<u64>,
}

impl AccessibleNode {
    /// A node without children.
    pub fn new(stable_id: u64, role: AccessibleRole, label: &str) -> (r: Self)
        ensures
            r.stable_id == stable_id,
            r.role == role,
            r.label@ == label@,
            r.children@.len() == 0,
    {
        AccessibleNode { stable_id, role, label: label.to_owned(), children: Vec::new() }
    }
}

/// The name and version an adapter reports.
#[derive(Debug, Clone, PartialEq, Eq)]
pub struct AdapterMetadata {
    pub name: String,
    pub version: String,
}

impl AdapterMetadata {
    pub fn new(name: &str, version: &str) -> (r: Self)
        ensures
            r.name@ == name@,
            r.version@ == version@,
    {
        AdapterMetadata { name: name.to_owned(), version: version.to_owned() }
    }
}

} // verus!
