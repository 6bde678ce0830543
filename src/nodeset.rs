//! Node sets: which nodes of a document a transform chain runs on.

use vstd::prelude::*;

use crate::transforms::keeps_comments;
use crate::transforms::XmlSecCanonicalizationMethod;

verus! {

/// How the nodes of a set are selected.
#[derive(Debug, Clone, Copy, PartialEq, Eq, Structural)]
pub enum XmlSecNodeSetType {
    /// The listed nodes (the whole document when none are listed).
    Normal,
    /// Every node but the listed ones.
    Invert,
    /// The listed nodes and all their descendants.
    Tree,
    /// As `Tree`, without comment nodes.
    TreeWithoutComments,
    /// Every node outside the listed subtrees.
    TreeInvert,
    /// As `TreeInvert`, without comment nodes.
    TreeWithoutCommentsInvert,
}

/// The selection of a subtree, with or without comments, possibly inverted.
pub open spec fn subtree_type(with_comments: bool, invert: bool) -> XmlSecNodeSetType {
    if with_comments && invert {
        XmlSecNodeSetType::TreeInvert
    } else if with_comments {
        XmlSecNodeSetType::Tree
    } else if invert {
        XmlSecNodeSetType::TreeWithoutCommentsInvert
    } else {
        XmlSecNodeSetType::TreeWithoutComments
    }
}

/// Whether a selection keeps comment nodes.
pub open spec fn type_keeps_comments(t: XmlSecNodeSetType) -> bool {
    !(t is TreeWithoutComments || t is TreeWithoutCommentsInvert)
}

/// Whether a selection is a complement.
pub open spec fn type_inverted(t: XmlSecNodeSetType) -> bool {
    t is Invert || t is TreeInvert || t is TreeWithoutCommentsInvert
}

/// Whether a node is in a set: every node of the document for a
/// whole-document set; for a subtree set, the nodes inside the subtree, or
/// those outside it when the set is inverted.
pub open spec fn node_selected(subtree: bool, kind: XmlSecNodeSetType, inside: bool) -> bool {
    !subtree || (inside != type_inverted(kind))
}

/// A node set of one document: a selection rule, applied to the whole
/// document or to the subtree of one parent node that the caller holds.
pub struct XmlSecNodeSet {
    kind: XmlSecNodeSetType,
    subtree: bool,
}

impl XmlSecNodeSet {
    /// The selection rule.
    pub closed spec fn spec_kind(&self) -> XmlSecNodeSetType {
        self.kind
    }

    /// Whether the set is rooted at a parent node rather than the document.
    pub closed spec fn spec_subtree(&self) -> bool {
        self.subtree
    }

    /// The whole document.
    pub fn new() -> (r: Self)
        ensures
            r.spec_kind() == XmlSecNodeSetType::Normal,
            !r.spec_subtree(),
    {
        XmlSecNodeSet { kind: XmlSecNodeSetType::Normal, subtree: false }
    }

    /// A parent node and all its descendants, without comments unless
    /// `with_comments`, or everything else when `invert`.
    pub fn get_children(with_comments: bool, invert: bool) -> (r: Self)
        ensures
            r.spec_kind() == subtree_type(with_comments, invert),
            r.spec_subtree(),
            type_keeps_comments(r.spec_kind()) == with_comments,
            type_inverted(r.spec_kind()) == invert,
    {
        let kind = if with_comments && invert {
            XmlSecNodeSetType::TreeInvert
        } else if with_comments {
            XmlSecNodeSetType::Tree
        } else if invert {
            XmlSecNodeSetType::TreeWithoutCommentsInvert
        } else {
            XmlSecNodeSetType::TreeWithoutComments
        };
        XmlSecNodeSet { kind, subtree: true }
    }

    /// The selection rule.
    pub fn node_type(&self) -> (r: XmlSecNodeSetType)
        ensures
            r == self.spec_kind(),
    {
        self.kind
    }

    /// Whether the set is rooted at a parent node.
    pub fn is_subtree(&self) -> (r: bool)
        ensures
            r == self.spec_subtree(),
    {
        self.subtree
    }

    /// Whether the set is a complement.
    pub fn is_inverted(&self) -> (r: bool)
        ensures
            r == type_inverted(self.spec_kind()),
    {
        matches!(
            self.kind,
            XmlSecNodeSetType::Invert | XmlSecNodeSetType::TreeInvert
                | XmlSecNodeSetType::TreeWithoutCommentsInvert
        )
    }

    /// Whether a node is in the set, given whether it lies inside the
    /// subtree of the set's parent node (the node itself or a descendant).
    pub fn selects(&self, inside: bool) -> (r: bool)
        ensures
            r == node_selected(self.spec_subtree(), self.spec_kind(), inside),
    {
        !self.subtree || (inside != self.is_inverted())
    }

    /// Whether canonicalizing the set with `method` writes comment nodes:
    /// only when both the method and the selection keep them.
    pub fn canonical_comments(&self, method: XmlSecCanonicalizationMethod) -> (r: bool)
        ensures
            r == (keeps_comments(method) && type_keeps_comments(self.spec_kind())),
    {
        method.keeps_comments() && !matches!(
            self.kind,
            XmlSecNodeSetType::TreeWithoutComments | XmlSecNodeSetType::TreeWithoutCommentsInvert
        )
    }
}

} // verus!
