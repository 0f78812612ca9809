//! Viewport sizes, resolved rectangles, and the cache that decides when the
//! layout engine must be asked for a fresh resolution.

use vstd::prelude::*;

use crate::tree::Dim;
use crate::tree::Node;
use crate::tree::Tree;
use crate::tree::tree_wf;

verus! {

/// A viewport size in terminal cells, in whole cells. Width and height are
/// positive for any real terminal; the cache logic does not depend on that.
#[derive(Clone, Copy, Debug, PartialEq, Eq, Structural)]
pub struct Size {
    pub width: u16,
    pub height: u16,
}

/// A resolved rectangle for one node: absolute position and size in cells.
/// Every coordinate is an unsigned cell count, so resolved geometry held in
/// this type is finite and non-negative by construction.
#[derive(Clone, Copy, Debug, PartialEq, Eq, Structural)]
pub struct Rect {
    pub x: u16,
    pub y: u16,
    pub width: u16,
    pub height: u16,
}

/// Whether a frame that sees viewport `current` must re-resolve geometry,
/// given the viewport recorded by the last resolution (`None` before the
/// first frame). Resolution runs exactly when the size is new.
pub open spec fn needs_resolution(recorded: Option<Size>, current: Size) -> bool {
    recorded != Some(current)
}

/// Remembers the viewport size used by the most recent geometry resolution
/// and decides whether the current frame needs a fresh one.
pub struct GeometryCache {
    recorded: Option<Size>,
}

impl GeometryCache {
    /// The viewport size recorded by the last resolution, `None` if no
    /// resolution has happened yet.
    pub closed spec fn recorded(&self) -> Option<Size> {
        self.recorded
    }

    /// A cache for a loop that has not resolved anything yet: the first
    /// frame always resolves.
    pub fn new() -> (c: GeometryCache)
        ensures
            c.recorded() is None,
    {
        GeometryCache { recorded: None }
    }

    /// Decide whether this frame must resolve geometry against `current`,
    /// and record `current` as the size the frame's geometry is for.
    pub fn check(&mut self, current: Size) -> (resolve: bool)
        ensures
            resolve == needs_resolution(old(self).recorded(), current),
            final(self).recorded() == Some(current),
    {
        let stale = match self.recorded {
            None => true,
            Some(prev) => !(prev.width == current.width && prev.height == current.height),
        };
        self.recorded = Some(current);
        stale
    }
}

/// Resolution is triggered exactly by a change of viewport size: a fresh
/// cache resolves, a size different from the recorded one resolves, and the
/// same size seen again does not. So a frame sequence over sizes
/// V1, V1 performs one resolution, and one over V1, V2 with V1 != V2
/// performs two.
pub proof fn lemma_resolution_counts(v1: Size, v2: Size)
    ensures
        needs_resolution(None, v1),
        v1 != v2 ==> needs_resolution(Some(v1), v2),
        !needs_resolution(Some(v1), v1),
{
}

/// Resolved geometry respects the hierarchy where the style asks for a
/// share of the parent: along each axis in which a child's style is a
/// percentage, the child's resolved size is no larger than its parent's
/// resolved size (the parent's content box: the model has no padding or
/// border insets). Positions and sizes are whole cell counts, so they are
/// finite and non-negative by type.
pub open spec fn percent_fits(nodes: Seq<Node>, rects: Seq<Rect>) -> bool {
    forall|i: int, j: int|
        0 <= i < nodes.len() && 0 <= j < nodes[i].children@.len() ==> {
            let c = (#[trigger] nodes[i].children@[j]) as int;
            &&& (nodes[c].style.width is Percent ==> rects[c].width <= rects[i].width)
            &&& (nodes[c].style.height is Percent ==> rects[c].height <= rects[i].height)
        }
}

/// Check a resolved geometry table against the tree: true exactly when
/// every percentage-sized axis of every child fits inside its parent.
pub fn geometry_fits(tree: &Tree, rects: &Vec<Rect>) -> (ok: bool)
    requires
        tree_wf(tree@),
        rects@.len() == tree@.len(),
    ensures
        ok == percent_fits(tree@, rects@),
{
    let n = tree.len();
    let mut i: usize = 0;
    while i < n
        invariant
            tree_wf(tree@),
            rects@.len() == tree@.len(),
            n == tree@.len(),
            i <= n,
            forall|i0: int, j0: int|
                0 <= i0 < i && 0 <= j0 < tree@[i0].children@.len() ==> {
                    let c = (#[trigger] tree@[i0].children@[j0]) as int;
                    &&& (tree@[c].style.width is Percent ==> rects@[c].width <= rects@[i0].width)
                    &&& (tree@[c].style.height is Percent ==> rects@[c].height
                        <= rects@[i0].height)
                },
        decreases n - i,
    {
        let cnt = tree.child_count(i);
        let mut j: usize = 0;
        while j < cnt
            invariant
                tree_wf(tree@),
                rects@.len() == tree@.len(),
                n == tree@.len(),
                i < n,
                cnt == tree@[i as int].children@.len(),
                j <= cnt,
                forall|i0: int, j0: int|
                    0 <= i0 < i && 0 <= j0 < tree@[i0].children@.len() ==> {
                        let c = (#[trigger] tree@[i0].children@[j0]) as int;
                        &&& (tree@[c].style.width is Percent ==> rects@[c].width
                            <= rects@[i0].width)
                        &&& (tree@[c].style.height is Percent ==> rects@[c].height
                            <= rects@[i0].height)
                    },
                forall|j0: int|
                    0 <= j0 < j ==> {
                        let c = (#[trigger] tree@[i as int].children@[j0]) as int;
                        &&& (tree@[c].style.width is Percent ==> rects@[c].width <= rects@[i as int].width)
                        &&& (tree@[c].style.height is Percent ==> rects@[c].height <= rects@[i as int].height)
                    },
            decreases cnt - j,
        {
            let c = tree.child_at(i, j);
            let child_style = tree.style_of(c);
            let wide = match child_style.width {
                Dim::Percent(_) => rects[c].width > rects[i].width,
                Dim::Cells(_) => false,
            };
            let tall = match child_style.height {
                Dim::Percent(_) => rects[c].height > rects[i].height,
                Dim::Cells(_) => false,
            };
            if wide || tall {
                return false;
            }
            j += 1;
        }
        i += 1;
    }
    true
}

} // verus!
