//! The static layout tree: an arena of styled nodes referenced by index,
//! built once before the render loop starts and never mutated afterwards.
//! Children are ordered, and every child has a smaller index than its
//! parent, which makes the hierarchy acyclic and gives the depth-first
//! traversal its termination measure.

use vstd::prelude::*;

verus! {

/// One sizing constraint of a node, per axis: a fixed number of cells, or a
/// percentage of the parent's content box, in whole percent (`0..=100`).
#[derive(Clone, Copy, Debug, PartialEq, Eq, Structural)]
pub enum Dim {
    Cells(u16),
    Percent(u8),
}

/// A node's style: its sizing constraint in each axis, plus the two layout
/// flags the demo tree sets (block container display, align content to the
/// end). Supplied at construction and immutable thereafter.
#[derive(Clone, Copy, Debug, PartialEq, Eq, Structural)]
pub struct Style {
    pub width: Dim,
    pub height: Dim,
    pub block_display: bool,
    pub align_end: bool,
}

impl Style {
    /// A leaf style with the given sizing and neither layout flag set.
    pub fn sized(width: Dim, height: Dim) -> (s: Style)
        ensures
            s == (Style { width, height, block_display: false, align_end: false }),
    {
        Style { width, height, block_display: false, align_end: false }
    }
}

/// One node of the tree: its style and its ordered children, by index.
pub struct Node {
    pub style: Style,
    pub children: Vec<usize>,
}

/// Every child index points below its parent: the structure is a forest of
/// well-founded hierarchies, and traversal from any node terminates.
pub open spec fn tree_wf(nodes: Seq<Node>) -> bool {
    forall|i: int, j: int|
        0 <= i < nodes.len() && 0 <= j < nodes[i].children@.len()
            ==> (#[trigger] nodes[i].children@[j]) < i
}

/// The arena holding the nodes. Construction keeps `tree_wf` by only ever
/// attaching already-present nodes as children of a new one.
pub struct Tree {
    nodes: Vec<Node>,
}

impl View for Tree {
    type V = Seq<Node>;

    closed spec fn view(&self) -> Seq<Node> {
        self.nodes@
    }
}

impl Tree {
    pub fn new() -> (t: Tree)
        ensures
            t@ =~= Seq::<Node>::empty(),
            tree_wf(t@),
    {
        Tree { nodes: Vec::new() }
    }

    pub fn len(&self) -> (n: usize)
        ensures
            n == self@.len(),
    {
        self.nodes.len()
    }

    /// Append a childless node and return its index.
    pub fn new_leaf(&mut self, style: Style) -> (id: usize)
        requires
            old(self)@.len() < usize::MAX,
        ensures
            id == old(self)@.len(),
            final(self)@.len() == old(self)@.len() + 1,
            final(self)@[id as int].style == style,
            final(self)@[id as int].children@ =~= Seq::<usize>::empty(),
            forall|k: int| 0 <= k < old(self)@.len() ==> final(self)@[k] == old(self)@[k],
            tree_wf(old(self)@) ==> tree_wf(final(self)@),
    {
        let id = self.nodes.len();
        self.nodes.push(Node { style, children: Vec::new() });
        id
    }

    /// Append a node whose ordered children are the given already-present
    /// indices, and return its index.
    pub fn new_with_children(&mut self, style: Style, children: Vec<usize>) -> (id: usize)
        requires
            old(self)@.len() < usize::MAX,
            forall|j: int| 0 <= j < children@.len() ==> children@[j] < old(self)@.len(),
        ensures
            id == old(self)@.len(),
            final(self)@.len() == old(self)@.len() + 1,
            final(self)@[id as int].style == style,
            final(self)@[id as int].children@ == children@,
            forall|k: int| 0 <= k < old(self)@.len() ==> final(self)@[k] == old(self)@[k],
            tree_wf(old(self)@) ==> tree_wf(final(self)@),
    {
        let id = self.nodes.len();
        self.nodes.push(Node { style, children });
        id
    }

    /// How many children node `n` has.
    pub fn child_count(&self, n: usize) -> (c: usize)
        requires
            n < self@.len(),
        ensures
            c == self@[n as int].children@.len(),
    {
        self.nodes[n].children.len()
    }

    /// The `k`-th child of node `n`, in stored order.
    pub fn child_at(&self, n: usize, k: usize) -> (c: usize)
        requires
            n < self@.len(),
            k < self@[n as int].children@.len(),
        ensures
            c == self@[n as int].children@[k as int],
    {
        self.nodes[n].children[k]
    }

    /// The style node `n` was constructed with.
    pub fn style_of(&self, n: usize) -> (s: Style)
        requires
            n < self@.len(),
        ensures
            s == self@[n as int].style,
    {
        self.nodes[n].style
    }
}

/// Build the demo hierarchy: a root filling the viewport with three
/// children, the third of which has two further children.
///
/// ```text
///     root
///    /  |  \
///   c1  c2  c3
///          /  \
///       c3_1  c3_2
/// ```
///
/// Returns the tree and the root's index. Leaves are appended first, so the
/// indices are: c3_1 = 0, c3_2 = 1, c1 = 2, c2 = 3, c3 = 4, root = 5.
pub fn demo_tree() -> (r: (Tree, usize))
    ensures
        tree_wf(r.0@),
        r.0@.len() == 6,
        r.1 == 5usize,
        r.0@[5].children@ =~= seq![2usize, 3usize, 4usize],
        r.0@[4].children@ =~= seq![0usize, 1usize],
        r.0@[0].children@.len() == 0,
        r.0@[1].children@.len() == 0,
        r.0@[2].children@.len() == 0,
        r.0@[3].children@.len() == 0,
        r.0@[0].style == (Style {
            width: Dim::Percent(50),
            height: Dim::Cells(10),
            block_display: false,
            align_end: false,
        }),
        r.0@[1].style == (Style {
            width: Dim::Percent(75),
            height: Dim::Cells(20),
            block_display: false,
            align_end: true,
        }),
        r.0@[2].style == (Style {
            width: Dim::Percent(50),
            height: Dim::Cells(10),
            block_display: false,
            align_end: false,
        }),
        r.0@[3].style == (Style {
            width: Dim::Percent(25),
            height: Dim::Percent(25),
            block_display: false,
            align_end: false,
        }),
        r.0@[4].style == (Style {
            width: Dim::Percent(90),
            height: Dim::Cells(30),
            block_display: false,
            align_end: false,
        }),
        r.0@[5].style == (Style {
            width: Dim::Percent(100),
            height: Dim::Percent(100),
            block_display: true,
            align_end: false,
        }),
{
    let mut t = Tree::new();

    // The two children of the third main node.
    let c3_1 = t.new_leaf(Style::sized(Dim::Percent(50), Dim::Cells(10)));
    let c3_2 = t.new_leaf(
        Style { width: Dim::Percent(75), height: Dim::Cells(20), block_display: false, align_end: true },
    );

    // The three main nodes directly under the root.
    let c1 = t.new_leaf(Style::sized(Dim::Percent(50), Dim::Cells(10)));
    let c2 = t.new_leaf(Style::sized(Dim::Percent(25), Dim::Percent(25)));
    let mut c3_kids: Vec<usize> = Vec::new();
    c3_kids.push(c3_1);
    c3_kids.push(c3_2);
    let c3 = t.new_with_children(Style::sized(Dim::Percent(90), Dim::Cells(30)), c3_kids);

    let mut root_kids: Vec<usize> = Vec::new();
    root_kids.push(c1);
    root_kids.push(c2);
    root_kids.push(c3);
    let root = t.new_with_children(
        Style {
            width: Dim::Percent(100),
            height: Dim::Percent(100),
            block_display: true,
            align_end: false,
        },
        root_kids,
    );

    (t, root)
}

/// The depth-first pre-order traversal from node `n`: `n` first, then each
/// child's traversal, children in stored order. This order is the contract
/// surface for color reproducibility and drawing order. Cut off (empty) at
/// indices a well-formed tree cannot reach.
pub open spec fn preorder(nodes: Seq<Node>, n: int) -> Seq<int>
    decreases n, 1int, 0int,
{
    if 0 <= n < nodes.len() {
        seq![n] + preorder_kids(nodes, n, 0)
    } else {
        Seq::empty()
    }
}

/// The concatenated traversals of the children of `n` from child `k` on.
pub open spec fn preorder_kids(nodes: Seq<Node>, n: int, k: int) -> Seq<int>
    decreases n, 0int, nodes[n].children@.len() - k,
{
    if 0 <= n < nodes.len() && 0 <= k < nodes[n].children@.len() {
        let c = nodes[n].children@[k] as int;
        if 0 <= c < n {
            preorder(nodes, c) + preorder_kids(nodes, n, k + 1)
        } else {
            Seq::empty()
        }
    } else {
        Seq::empty()
    }
}

/// The concatenated traversals of the children of `n` before child `k`:
/// the part of the children's traversal a walk has already finished.
pub open spec fn kids_prefix(nodes: Seq<Node>, n: int, k: int) -> Seq<int>
    decreases k,
{
    if 0 <= n < nodes.len() && 0 < k <= nodes[n].children@.len() {
        let c = nodes[n].children@[k - 1] as int;
        if 0 <= c < n {
            kids_prefix(nodes, n, k - 1) + preorder(nodes, c)
        } else {
            kids_prefix(nodes, n, k - 1)
        }
    } else {
        Seq::empty()
    }
}

/// The children's traversal splits at any child `k` into the finished
/// prefix and the remaining suffix.
pub proof fn lemma_kids_prefix_splits(nodes: Seq<Node>, n: int, k: int)
    requires
        tree_wf(nodes),
        0 <= n < nodes.len(),
        0 <= k <= nodes[n].children@.len(),
    ensures
        kids_prefix(nodes, n, k) + preorder_kids(nodes, n, k) == preorder_kids(nodes, n, 0),
    decreases k,
{
    if k == 0 {
        assert(kids_prefix(nodes, n, 0) + preorder_kids(nodes, n, 0) =~= preorder_kids(
            nodes,
            n,
            0,
        ));
    } else {
        lemma_kids_prefix_splits(nodes, n, k - 1);
        let c = nodes[n].children@[k - 1] as int;
        assert(0 <= c < n);
        assert((kids_prefix(nodes, n, k - 1) + preorder(nodes, c)) + preorder_kids(nodes, n, k)
            =~= kids_prefix(nodes, n, k - 1) + (preorder(nodes, c) + preorder_kids(nodes, n, k)));
    }
}

/// Every index a traversal yields is an index of the tree.
pub proof fn lemma_preorder_in_range(nodes: Seq<Node>, n: int)
    ensures
        forall|j: int|
            0 <= j < preorder(nodes, n).len() ==> 0 <= #[trigger] preorder(nodes, n)[j]
                < nodes.len(),
    decreases n, 1int, 0int,
{
    if 0 <= n < nodes.len() {
        lemma_preorder_kids_in_range(nodes, n, 0);
        assert forall|j: int| 0 <= j < preorder(nodes, n).len() implies 0 <= #[trigger] preorder(
            nodes,
            n,
        )[j] < nodes.len() by {
            if j > 0 {
                assert(preorder(nodes, n)[j] == preorder_kids(nodes, n, 0)[j - 1]);
            }
        }
    }
}

pub proof fn lemma_preorder_kids_in_range(nodes: Seq<Node>, n: int, k: int)
    ensures
        forall|j: int|
            0 <= j < preorder_kids(nodes, n, k).len() ==> 0 <= #[trigger] preorder_kids(
                nodes,
                n,
                k,
            )[j] < nodes.len(),
    decreases n, 0int, nodes[n].children@.len() - k,
{
    if 0 <= n < nodes.len() && 0 <= k < nodes[n].children@.len() {
        let c = nodes[n].children@[k] as int;
        if 0 <= c < n {
            lemma_preorder_in_range(nodes, c);
            lemma_preorder_kids_in_range(nodes, n, k + 1);
            assert forall|j: int| 0 <= j < preorder_kids(nodes, n, k).len() implies 0
                <= #[trigger] preorder_kids(nodes, n, k)[j] < nodes.len() by {
                let pc = preorder(nodes, c);
                if j < pc.len() {
                    assert(preorder_kids(nodes, n, k)[j] == pc[j]);
                } else {
                    assert(preorder_kids(nodes, n, k)[j] == preorder_kids(nodes, n, k + 1)[j
                        - pc.len()]);
                }
            }
        }
    }
}

} // verus!
