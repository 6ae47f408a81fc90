//! The element tree, held in document order.
//!
//! Node `i` is the `i`-th element in document (preorder) order. Its subtree is
//! the index range `[i, end)`, so containment is an interval test and the next
//! element after a subtree is its `end`.
use vstd::prelude::*;
use crate::types::{FocusableProps, GroupperProps, ModalizerProps, MoverProps};

verus! {

/// The element kinds that the focus rules tell apart.
#[derive(Clone, Copy, Debug, PartialEq, Eq, Structural)]
pub enum Tag {
    A,
    Button,
    Input,
    Select,
    Textarea,
    Summary,
    Details,
    Audio,
    Video,
    IFrame,
    WebView,
    Body,
    Ul,
    Ol,
    Table,
    Li,
    Td,
    Th,
    Other,
}

/// A group attached to an element, with its entry state.
#[derive(Clone, Copy, Debug, PartialEq, Eq, Structural)]
pub struct GroupperState {
    pub props: GroupperProps,
    /// The group has been entered.
    pub should_tab_inside: bool,
    /// The memorized first focusable element.
    pub first: Option<usize>,
}

/// A list attached to an element, with its memorized element.
#[derive(Clone, Copy, Debug, PartialEq, Eq, Structural)]
pub struct MoverState {
    pub props: MoverProps,
    pub current: Option<usize>,
}

/// A trap attached to an element.
#[derive(Clone, Debug)]
pub struct ModalizerState {
    pub user_id: String,
    pub props: ModalizerProps,
}

/// One element: where it stands, what the focus rules read of it, and the
/// behaviors attached to it.
#[derive(Clone, Debug)]
pub struct Element {
    pub parent: Option<usize>,
    /// One past the last index of the subtree.
    pub end: usize,
    pub tag: Tag,
    pub has_href: bool,
    /// The `disabled` attribute is present.
    pub disabled: bool,
    pub has_tabindex: bool,
    pub contenteditable: bool,
    pub controls: bool,
    /// The tab index the host computed.
    pub tab_index: i32,
    /// The host's layout says the element is shown.
    pub visible: bool,
    /// The raw `aria-hidden` value.
    pub aria_hidden: Option<String>,
    /// The raw `dir` value (empty when unset).
    pub dir: String,
    /// An input of type radio.
    pub radio: bool,
    pub name: String,
    pub checked: bool,
    /// For a boundary marker: the container it guards.
    pub dummy_for: Option<usize>,
    /// Focus is programmatically ignored.
    pub ignore_focus: bool,
    /// A trap treats its hidden state as its own.
    pub augmented: bool,
    /// A visibility level reported for list tracking.
    pub visibility: u8,
    pub root: bool,
    pub groupper: Option<GroupperState>,
    pub mover: Option<MoverState>,
    pub modalizer: Option<ModalizerState>,
    pub focusable: Option<FocusableProps>,
    pub uncontrolled: bool,
}

impl Element {
    /// An element of the given kind with nothing set.
    pub fn new(tag: Tag) -> (r: Element)
        ensures
            r.tag == tag,
            r.parent.is_none(),
            !r.has_behaviors(),
            r.dummy_for.is_none(),
    {
        Element {
            parent: None,
            end: 0,
            tag,
            has_href: false,
            disabled: false,
            has_tabindex: false,
            contenteditable: false,
            controls: false,
            tab_index: -1,
            visible: true,
            aria_hidden: None,
            dir: String::new(),
            radio: false,
            name: String::new(),
            checked: false,
            dummy_for: None,
            ignore_focus: false,
            augmented: false,
            visibility: 0,
            root: false,
            groupper: None,
            mover: None,
            modalizer: None,
            focusable: None,
            uncontrolled: false,
        }
    }

    /// Some behavior or property is attached.
    pub open spec fn has_behaviors(&self) -> bool {
        self.root || self.groupper.is_some() || self.mover.is_some() || self.modalizer.is_some()
            || self.focusable.is_some() || self.uncontrolled
    }

    pub fn behaviors_attached(&self) -> (r: bool)
        ensures
            r == self.has_behaviors(),
    {
        self.root || self.groupper.is_some() || self.mover.is_some() || self.modalizer.is_some()
            || self.focusable.is_some() || self.uncontrolled
    }
}

/// The element tree.
#[derive(Clone, Debug)]
pub struct Tree {
    pub nodes: Vec<Element>,
}

/// An index stored in an element points into the tree.
pub open spec fn index_ok(o: Option<usize>, n: int) -> bool {
    match o {
        Some(i) => i < n,
        None => true,
    }
}

/// The references an element holds point into a tree of `n` elements.
pub open spec fn refs_ok(e: Element, n: int) -> bool {
    &&& index_ok(e.dummy_for, n)
    &&& match e.groupper {
        Some(g) => index_ok(g.first, n),
        None => true,
    }
    &&& match e.mover {
        Some(m) => index_ok(m.current, n),
        None => true,
    }
}

/// `a` is `c` or an ancestor of `c` by parent links.
pub open spec fn is_ancestor_or_self(t: Tree, a: int, c: int) -> bool
    decreases c,
{
    if c == a {
        true
    } else if c < 0 || c >= t.len() {
        false
    } else {
        match t.nodes@[c].parent {
            Some(p) => p < c && is_ancestor_or_self(t, a, p as int),
            None => false,
        }
    }
}

/// Every element whose subtree holds `j` is `j` or lies on its parent links.
pub open spec fn links_match(t: Tree) -> bool {
    forall|a: int, j: int|
        0 <= a < j < t.len() && j < #[trigger] t.end(a) ==> (#[trigger] t.nodes@[j].parent matches Some(
            p,
        ) && is_ancestor_or_self(t, a, p as int))
}

/// Parent links below `n` decide ancestry below `n`.
pub proof fn ancestry_kept(t1: Tree, t2: Tree, n: int, a: int, c: int)
    requires
        n <= t1.len(),
        n <= t2.len(),
        c < n,
        forall|k: int| 0 <= k < n ==> #[trigger] t2.nodes@[k].parent == t1.nodes@[k].parent,
    ensures
        is_ancestor_or_self(t1, a, c) == is_ancestor_or_self(t2, a, c),
    decreases c,
{
    if c != a && 0 <= c {
        match t1.nodes@[c].parent {
            Some(p) => if p < c {
                ancestry_kept(t1, t2, n, a, p as int);
            },
            None => {},
        }
    }
}

/// Link consistency depends on parent links and subtree ends alone.
pub proof fn links_kept(t1: Tree, t2: Tree)
    requires
        links_match(t1),
        t1.len() == t2.len(),
        forall|k: int| 0 <= k < t1.len() ==> #[trigger] t2.nodes@[k].parent == t1.nodes@[k].parent,
        forall|k: int| 0 <= k < t1.len() ==> #[trigger] t2.end(k) == t1.end(k),
    ensures
        links_match(t2),
{
    assert forall|a: int, j: int|
        0 <= a < j < t2.len() && j < #[trigger] t2.end(a) implies (
        #[trigger] t2.nodes@[j].parent matches Some(q) && is_ancestor_or_self(t2, a, q as int)) by {
        assert(t1.end(a) == t2.end(a));
        assert(t1.nodes@[j].parent == t2.nodes@[j].parent);
        let q = t1.nodes@[j].parent.unwrap();
        ancestry_kept(t1, t2, t1.len(), a, q as int);
    }
}

impl Tree {
    pub open spec fn len(&self) -> int {
        self.nodes@.len() as int
    }

    pub open spec fn end(&self, i: int) -> int {
        self.nodes@[i].end as int
    }

    /// `a` is `b` or one of its ancestors.
    pub open spec fn contains(&self, a: int, b: int) -> bool {
        0 <= a < self.len() && a <= b < self.end(a)
    }

    /// Subtrees nest, parents precede their children, and every stored index
    /// points into the tree.
    pub open spec fn wf(&self) -> bool {
        let n = self.len();
        &&& n < usize::MAX
        &&& forall|i: int| 0 <= i < n ==> i < #[trigger] self.end(i) <= n
        &&& forall|i: int|
            0 <= i < n ==> match #[trigger] self.nodes@[i].parent {
                Some(p) => p < i && i < self.end(p as int),
                None => true,
            }
        &&& forall|a: int, j: int|
            0 <= a < j && a < n && j < #[trigger] self.end(a) ==> #[trigger] self.end(j) <= self.end(a)
        &&& forall|i: int| 0 <= i < n ==> refs_ok(#[trigger] self.nodes@[i], n)
    }

    /// An empty tree.
    pub fn new() -> (r: Tree)
        ensures
            r.wf(),
            links_match(r),
            r.len() == 0,
    {
        Tree { nodes: Vec::new() }
    }

    pub fn size(&self) -> (r: usize)
        ensures
            r == self.len(),
    {
        self.nodes.len()
    }

    /// DOM containment: `a` is `b` or an ancestor of `b`.
    pub fn node_contains(&self, a: usize, b: usize) -> (r: bool)
        requires
            self.wf(),
        ensures
            r == self.contains(a as int, b as int),
    {
        a < self.nodes.len() && a <= b && b < self.nodes[a].end
    }

    /// The parent of `i`.
    pub fn get_parent_element(&self, i: usize) -> (r: Option<usize>)
        requires
            self.wf(),
            i < self.len(),
        ensures
            r == self.nodes@[i as int].parent,
            r matches Some(p) ==> p < i,
    {
        self.nodes[i].parent
    }

    /// The deepest last descendant of `c` (the element just before the end of
    /// its subtree), if `c` has children.
    pub fn get_last_child(&self, c: usize) -> (r: Option<usize>)
        requires
            self.wf(),
            c < self.len(),
        ensures
            r == (if self.end(c as int) > c + 1 {
                Some((self.end(c as int) - 1) as usize)
            } else {
                None::<usize>
            }),
    {
        let e = self.nodes[c].end;
        if e > c + 1 {
            Some(e - 1)
        } else {
            None
        }
    }

    /// Appends `data` as the last child of `parent` (or as a new top-level
    /// element). The parent must still be open: nothing that follows its
    /// subtree may exist yet. Returns the new element's index.
    pub fn push(&mut self, parent: Option<usize>, data: Element) -> (r: Result<usize, TreeError>)
        requires
            old(self).wf(),
        ensures
            final(self).wf(),
            links_match(*old(self)) ==> links_match(*final(self)),
            match r {
                Ok(i) => {
                    &&& i == old(self).len()
                    &&& final(self).len() == old(self).len() + 1
                    &&& final(self).nodes@[i as int] == (Element { parent, end: (i + 1) as usize, ..data })
                    &&& forall|a: int|
                        0 <= a < old(self).len() ==> (final(self).contains(a, i as int) <==> (
                        parent matches Some(p) && old(self).contains(a, p as int)))
                },
                Err(e) => {
                    &&& *final(self) == *old(self)
                    &&& e == (if old(self).len() + 1 >= usize::MAX {
                        TreeError::Full
                    } else if !refs_ok(data, old(self).len() + 1) {
                        TreeError::BadReference
                    } else {
                        TreeError::ParentClosed
                    })
                },
            },
            r.is_ok() <==> (old(self).len() + 1 < usize::MAX && refs_ok(data, old(self).len() + 1)
                && match parent {
                Some(p) => p < old(self).len() && old(self).end(p as int) == old(self).len(),
                None => true,
            }),
    {
        let n = self.nodes.len();
        if n >= usize::MAX - 1 {
            return Err(TreeError::Full);
        }
        if !refs_fit(&data, n + 1) {
            return Err(TreeError::BadReference);
        }
        match parent {
            Some(p) => {
                if p >= n || self.nodes[p].end != n {
                    return Err(TreeError::ParentClosed);
                }
            },
            None => {},
        }
        let ghost old_tree = *self;
        let mut a: usize = 0;
        match parent {
            Some(p) => {
                while a <= p
                    invariant
                        old_tree.wf(),
                        p < n,
                        n == old_tree.len(),
                        old_tree.end(p as int) == n,
                        self.nodes@.len() == n,
                        a <= p + 1,
                        forall|k: int|
                            0 <= k < n ==> {
                                &&& #[trigger] self.nodes@[k].parent == old_tree.nodes@[k].parent
                                &&& self.nodes@[k].dummy_for == old_tree.nodes@[k].dummy_for
                                &&& self.nodes@[k].groupper == old_tree.nodes@[k].groupper
                                &&& self.nodes@[k].mover == old_tree.nodes@[k].mover
                                &&& self.nodes@[k].tag == old_tree.nodes@[k].tag
                            },
                        forall|k: int|
                            0 <= k < n ==> #[trigger] self.end(k) == (if k < a && k <= p
                                && old_tree.end(k) == n {
                                n + 1
                            } else {
                                old_tree.end(k)
                            }),
                    decreases p + 1 - a,
                {
                    let ghost before = *self;
                    assert(before.end(a as int) == old_tree.end(a as int));
                    if self.nodes[a].end == n {
                        self.nodes[a].end = n + 1;
                        assert(forall|k: int|
                            0 <= k < n && k != a ==> #[trigger] self.nodes@[k] == before.nodes@[k]);
                    }
                    assert forall|k: int| 0 <= k < n implies #[trigger] self.end(k) == (if k < a + 1
                        && k <= p && old_tree.end(k) == n {
                        n + 1
                    } else {
                        old_tree.end(k)
                    }) by {
                        if k != a {
                            assert(self.nodes@[k] == before.nodes@[k]);
                            assert(before.end(k) == (if k < a && k <= p && old_tree.end(k) == n {
                                n + 1
                            } else {
                                old_tree.end(k)
                            }));
                        }
                    }
                    a = a + 1;
                }
            },
            None => {},
        }
        assert(forall|k: int|
            0 <= k < n ==> {
                &&& #[trigger] self.end(k) == (if parent matches Some(p) && k <= p && old_tree.end(k)
                    == n {
                    n + 1
                } else {
                    old_tree.end(k)
                })
                &&& self.nodes@[k].parent == old_tree.nodes@[k].parent
                &&& self.nodes@[k].dummy_for == old_tree.nodes@[k].dummy_for
                &&& self.nodes@[k].groupper == old_tree.nodes@[k].groupper
                &&& self.nodes@[k].mover == old_tree.nodes@[k].mover
            });
        let ghost pre = *self;
        let mut d = data;
        d.parent = parent;
        d.end = n + 1;
        self.nodes.push(d);
        proof {
            let t = *self;
            assert(t.len() == n + 1);
            assert(forall|k: int| 0 <= k < n ==> #[trigger] t.nodes@[k] == pre.nodes@[k]);
            assert(forall|k: int| 0 <= k < n ==> #[trigger] t.end(k) == pre.end(k));
            assert forall|i: int| 0 <= i < t.len() implies i < #[trigger] t.end(i) <= t.len() by {
                if i < n {
                    assert(old_tree.end(i) <= n);
                }
            }
            assert forall|i: int| 0 <= i < t.len() implies match #[trigger] t.nodes@[i].parent {
                Some(p) => p < i && i < t.end(p as int),
                None => true,
            } by {
                if i < n {
                    match old_tree.nodes@[i].parent {
                        Some(q) => {
                            assert(q < i && i < old_tree.end(q as int));
                        },
                        None => {},
                    }
                }
            }
            assert forall|a: int, j: int|
                0 <= a < j && a < t.len() && j < #[trigger] t.end(a) implies #[trigger] t.end(j) <= t.end(a) by {
                if j < n {
                    assert(old_tree.end(a) <= n);
                    if a < n && j < old_tree.end(a) {
                        assert(old_tree.end(j) <= old_tree.end(a));
                        if old_tree.end(j) == n {
                            match parent {
                                Some(p) => {
                                    if j <= p {
                                        assert(old_tree.end(a) == n);
                                    }
                                },
                                None => {},
                            }
                        }
                    }
                }
            }
            assert forall|i: int| 0 <= i < t.len() implies refs_ok(#[trigger] t.nodes@[i], t.len()) by {
                if i < n {
                    assert(refs_ok(old_tree.nodes@[i], n as int));
                    assert(t.nodes@[i] == pre.nodes@[i]);
                    assert(pre.end(i) == t.end(i));
                    assert(pre.nodes@[i].dummy_for == old_tree.nodes@[i].dummy_for);
                    assert(pre.nodes@[i].groupper == old_tree.nodes@[i].groupper);
                    assert(pre.nodes@[i].mover == old_tree.nodes@[i].mover);
                } else {
                    assert(t.nodes@[i].dummy_for == data.dummy_for);
                    assert(t.nodes@[i].groupper == data.groupper);
                    assert(t.nodes@[i].mover == data.mover);
                }
            }
            assert forall|a: int| 0 <= a < n implies (t.contains(a, n as int) <==> (
            parent matches Some(p) && old_tree.contains(a, p as int))) by {
                match parent {
                    Some(p) => {
                        if old_tree.contains(a, p as int) {
                            assert(old_tree.end(a) == n) by {
                                if a < p {
                                    assert(old_tree.end(p as int) <= old_tree.end(a));
                                }
                            }
                        }
                    },
                    None => {},
                }
            }
            if links_match(old_tree) {
                assert forall|a: int, j: int|
                    0 <= a < j < t.len() && j < #[trigger] t.end(a) implies (
                    #[trigger] t.nodes@[j].parent matches Some(q) && is_ancestor_or_self(
                        t,
                        a,
                        q as int,
                    )) by {
                    if j < n {
                        assert(j < old_tree.end(a));
                        assert(old_tree.nodes@[j].parent matches Some(q) && is_ancestor_or_self(
                            old_tree,
                            a,
                            q as int,
                        ));
                        let q = old_tree.nodes@[j].parent.unwrap();
                        ancestry_kept(old_tree, t, n as int, a, q as int);
                    } else {
                        let p = parent.unwrap();
                        assert(old_tree.contains(a, p as int));
                        if a < p {
                            assert(old_tree.nodes@[p as int].parent matches Some(q)
                                && is_ancestor_or_self(old_tree, a, q as int));
                        }
                        assert(is_ancestor_or_self(old_tree, a, p as int));
                        ancestry_kept(old_tree, t, n as int, a, p as int);
                    }
                }
            }
        }
        Ok(n)
    }
}

/// Why an element could not be added.
#[derive(Clone, Copy, Debug, PartialEq, Eq, Structural)]
pub enum TreeError {
    /// The tree holds as many elements as an index can name.
    Full,
    /// The element refers to an index outside the tree.
    BadReference,
    /// The parent does not exist, or elements already follow its subtree.
    ParentClosed,
}

fn opt_fits(o: Option<usize>, n: usize) -> (r: bool)
    ensures
        r == index_ok(o, n as int),
{
    match o {
        Some(i) => i < n,
        None => true,
    }
}

fn refs_fit(e: &Element, n: usize) -> (r: bool)
    ensures
        r == refs_ok(*e, n as int),
{
    let g = match e.groupper {
        Some(g) => opt_fits(g.first, n),
        None => true,
    };
    let m = match e.mover {
        Some(m) => opt_fits(m.current, n),
        None => true,
    };
    opt_fits(e.dummy_for, n) && g && m
}

} // verus!

verus! {

/// Equality of optional indices.
pub fn same_index(a: Option<usize>, b: Option<usize>) -> (r: bool)
    ensures
        r == (a == b),
{
    match (a, b) {
        (Some(x), Some(y)) => x == y,
        (None, None) => true,
        _ => false,
    }
}

} // verus!
