//! Tree navigation in DOM terms.
use vstd::prelude::*;
use crate::tree::Tree;

verus! {

/// DOM navigation over the element tree.
#[derive(Clone, Copy, Debug, PartialEq, Eq, Structural)]
pub struct DOM {}

impl DOM {
    pub fn get_parent_element(t: &Tree, i: usize) -> (r: Option<usize>)
        requires
            t.wf(),
            i < t.len(),
        ensures
            r == t.nodes@[i as int].parent,
    {
        t.nodes[i].parent
    }

    /// `parent` is `child` or one of its ancestors; false without a parent.
    pub fn node_contains(t: &Tree, parent: Option<usize>, child: usize) -> (r: bool)
        requires
            t.wf(),
        ensures
            r == (parent matches Some(p) && t.contains(p as int, child as int)),
    {
        match parent {
            Some(p) => t.node_contains(p, child),
            None => false,
        }
    }

    /// The element right after `i` in document order, when it lies inside
    /// `i`'s subtree.
    pub fn get_first_element_child(t: &Tree, i: usize) -> (r: Option<usize>)
        requires
            t.wf(),
            i < t.len(),
        ensures
            r == (if i + 1 < t.end(i as int) {
                Some((i + 1) as usize)
            } else {
                None::<usize>
            }),
    {
        if i + 1 < t.nodes[i].end {
            Some(i + 1)
        } else {
            None
        }
    }
}

} // verus!
