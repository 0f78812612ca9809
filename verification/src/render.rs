//! The frame renderer: walk the tree depth-first in pre-order, pair every
//! node with its resolved rectangle and the next color of a freshly reset
//! colorizer, and emit one drawable panel per traversal step.

use vstd::prelude::*;

use crate::color::Colorizer;
use crate::color::ColorRgb;
use crate::color::color_at;
use crate::geometry::Rect;
use crate::tree::Node;
use crate::tree::Tree;
use crate::tree::kids_prefix;
use crate::tree::lemma_kids_prefix_splits;
use crate::tree::lemma_preorder_in_range;
use crate::tree::preorder;
use crate::tree::preorder_kids;
use crate::tree::tree_wf;

verus! {

/// One drawable panel: the node it stands for (its index doubles as its
/// label), the rectangle to draw at, and the background color issued for
/// this traversal step. The border and the readable foreground are fixed
/// presentation, the same for every panel.
#[derive(Clone, Copy, Debug, PartialEq, Eq, Structural)]
pub struct Panel {
    pub node: usize,
    pub rect: Rect,
    pub bg: ColorRgb,
}

/// The panels for the listed nodes, in order, with colors issued from step
/// `start` on.
pub open spec fn panels_for(rects: Seq<Rect>, seed: u64, ids: Seq<int>, start: nat) -> Seq<
    Panel,
> {
    Seq::new(
        ids.len(),
        |j: int|
            Panel {
                node: ids[j] as usize,
                rect: rects[ids[j]],
                bg: color_at(seed, (start + j) as nat),
            },
    )
}

/// Everything one frame draws: one panel per pre-order traversal step from
/// the root, colors counted from step zero of the given seed.
pub open spec fn frame_panels(nodes: Seq<Node>, rects: Seq<Rect>, seed: u64, root: int) -> Seq<
    Panel,
> {
    panels_for(rects, seed, preorder(nodes, root), 0)
}

/// Panels for a concatenated node list split at the concatenation, with the
/// color steps of the second part starting where the first part ended.
proof fn lemma_panels_for_concat(
    rects: Seq<Rect>,
    seed: u64,
    a: Seq<int>,
    b: Seq<int>,
    start: nat,
)
    ensures
        panels_for(rects, seed, a + b, start) == panels_for(rects, seed, a, start) + panels_for(
            rects,
            seed,
            b,
            (start + a.len()) as nat,
        ),
{
    assert(panels_for(rects, seed, a + b, start) =~= panels_for(rects, seed, a, start)
        + panels_for(rects, seed, b, (start + a.len()) as nat));
}

/// Render the subtree of `n`: append one panel per traversal step to `out`,
/// drawing colors from `col` in traversal order.
fn render_node(tree: &Tree, rects: &Vec<Rect>, col: &mut Colorizer, n: usize, out: &mut Vec<
    Panel,
>)
    requires
        tree_wf(tree@),
        n < tree@.len(),
        rects@.len() == tree@.len(),
        old(col).inv(),
    ensures
        final(col).inv(),
        final(col).seed() == old(col).seed(),
        final(col).issued() == old(col).issued() + preorder(tree@, n as int).len(),
        final(out)@ == old(out)@ + panels_for(
            rects@,
            old(col).seed(),
            preorder(tree@, n as int),
            old(col).issued(),
        ),
    decreases n,
{
    let ghost seed = old(col).seed();
    let ghost start = old(col).issued();
    let rect = rects[n];
    let bg = col.next_color();
    out.push(Panel { node: n, rect, bg });
    let cnt = tree.child_count(n);
    proof {
        assert(out@ =~= old(out)@ + panels_for(
            rects@,
            seed,
            seq![n as int] + kids_prefix(tree@, n as int, 0),
            start,
        ));
    }
    let mut k: usize = 0;
    while k < cnt
        invariant
            tree_wf(tree@),
            n < tree@.len(),
            rects@.len() == tree@.len(),
            cnt == tree@[n as int].children@.len(),
            k <= cnt,
            col.inv(),
            col.seed() == seed,
            col.issued() == start + 1 + kids_prefix(tree@, n as int, k as int).len(),
            out@ == old(out)@ + panels_for(
                rects@,
                seed,
                seq![n as int] + kids_prefix(tree@, n as int, k as int),
                start,
            ),
        decreases cnt - k,
    {
        let ghost prefix = seq![n as int] + kids_prefix(tree@, n as int, k as int);
        let c = tree.child_at(n, k);
        assert(c < n);
        render_node(tree, rects, col, c, out);
        proof {
            lemma_panels_for_concat(
                rects@,
                seed,
                prefix,
                preorder(tree@, c as int),
                start,
            );
            assert(seq![n as int] + kids_prefix(tree@, n as int, k as int + 1) =~= prefix
                + preorder(tree@, c as int));
        }
        k += 1;
    }
    proof {
        lemma_kids_prefix_splits(tree@, n as int, cnt as int);
        assert(kids_prefix(tree@, n as int, cnt as int) + preorder_kids(tree@, n as int, cnt as int)
            =~= kids_prefix(tree@, n as int, cnt as int));
        assert(seq![n as int] + kids_prefix(tree@, n as int, cnt as int) =~= preorder(
            tree@,
            n as int,
        ));
    }
}

/// Produce the frame: reset the colorizer to its fixed seed, then walk the
/// tree from `root` depth-first in pre-order, children in stored order, and
/// return one panel per node visit. The panel sequence is a pure function
/// of the tree, the geometry and the colorizer's seed, so repeated frames
/// are identical whenever those are.
pub fn render_frame(tree: &Tree, root: usize, rects: &Vec<Rect>, col: &mut Colorizer) -> (panels:
    Vec<Panel>)
    requires
        tree_wf(tree@),
        root < tree@.len(),
        rects@.len() == tree@.len(),
    ensures
        final(col).inv(),
        final(col).seed() == old(col).seed(),
        panels@ == frame_panels(tree@, rects@, old(col).seed(), root as int),
        forall|j: int| 0 <= j < panels@.len() ==> #[trigger] panels@[j].node < tree@.len(),
{
    col.reset();
    let mut out: Vec<Panel> = Vec::new();
    render_node(tree, rects, col, root, &mut out);
    proof {
        assert(Seq::<Panel>::empty() + frame_panels(tree@, rects@, old(col).seed(), root as int)
            =~= frame_panels(tree@, rects@, old(col).seed(), root as int));
        lemma_preorder_in_range(tree@, root as int);
    }
    out
}

/// The colors of a frame depend on the seed and the traversal position
/// alone: two frames over the same tree, each preceded by a colorizer
/// reset, paint the panel at every traversal index the same color — and
/// pair it with the same node — whatever geometry each frame resolved.
pub proof fn lemma_frame_colors_reproducible(
    nodes: Seq<Node>,
    rects1: Seq<Rect>,
    rects2: Seq<Rect>,
    seed: u64,
    root: int,
    j: int,
)
    requires
        0 <= j < preorder(nodes, root).len(),
    ensures
        frame_panels(nodes, rects1, seed, root).len() == frame_panels(
            nodes,
            rects2,
            seed,
            root,
        ).len(),
        frame_panels(nodes, rects1, seed, root)[j].bg == color_at(seed, j as nat),
        frame_panels(nodes, rects1, seed, root)[j].bg == frame_panels(
            nodes,
            rects2,
            seed,
            root,
        )[j].bg,
        frame_panels(nodes, rects1, seed, root)[j].node == frame_panels(
            nodes,
            rects2,
            seed,
            root,
        )[j].node,
{
}

} // verus!
