//! Identity tokens: node kinds, sources, spans, and recipe selectors.

use vstd::prelude::*;

verus! {

/// A process-wide stable token distinguishing content node kinds. It is used
/// purely as an equality key by the pattern matcher.
#[derive(Debug, Clone, Copy, PartialEq, Eq, Hash, Structural)]
pub struct NodeId {
    /// The raw identity token.
    pub raw: u64,
}

impl NodeId {
    /// The identity of the list node kind.
    pub open spec fn list_spec() -> NodeId {
        NodeId { raw: 1 }
    }

    /// The identity of the enumeration node kind.
    pub open spec fn enumeration_spec() -> NodeId {
        NodeId { raw: 2 }
    }

    /// The node kind of unordered list items.
    pub fn list() -> (r: NodeId)
        ensures
            r == NodeId::list_spec(),
    {
        NodeId { raw: 1 }
    }

    /// The node kind of enumeration (ordered list) items.
    pub fn enumeration() -> (r: NodeId)
        ensures
            r == NodeId::enumeration_spec(),
    {
        NodeId { raw: 2 }
    }
}

/// Identifies a loaded source file.
#[derive(Debug, Clone, Copy, PartialEq, Eq, Hash, Structural)]
pub struct SourceId {
    /// The raw identity token handed out by the loader.
    pub raw: u64,
}

/// A span within one source file, used to tag diagnostics and to address the
/// values a probe should observe.
#[derive(Debug, Clone, Copy, PartialEq, Eq, Hash, Structural)]
pub struct Span {
    /// The source file this span points into.
    pub source: SourceId,
    /// The position token within the file.
    pub number: u64,
}

/// Identifies one specific recipe occurrence within an active style chain.
/// It is the key under which guards are recorded on produced content.
#[derive(Debug, Clone, Copy, PartialEq, Eq, Hash, Structural)]
pub enum Selector {
    /// The nth recipe from the top of the chain.
    Nth(usize),
    /// The base recipe for a kind of node.
    Base(NodeId),
}

/// What kind of structural grouping an active recipe interrupts.
#[derive(Debug, Clone, Copy, PartialEq, Eq, Structural)]
pub enum Interruption {
    /// The recipe affects list or enumeration items, so an in-progress list
    /// grouping must be flushed before such a node is processed.
    List,
}

} // verus!
