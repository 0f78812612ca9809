//! Frame rendering: traversal order, one panel per node, and color
//! reproducibility across frames.

use panel_demo::color::Colorizer;
use panel_demo::geometry::Rect;
use panel_demo::render::render_frame;
use panel_demo::tree::demo_tree;
use panel_demo::tree::Dim;
use panel_demo::tree::Style;

fn flat_rects(n: usize) -> Vec<Rect> {
    let mut rects = Vec::new();
    for i in 0..n {
        rects.push(Rect { x: i as u16, y: 0, width: 10, height: 5 });
    }
    rects
}

#[test]
fn traversal_is_preorder_children_in_stored_order() {
    let (tree, root) = demo_tree();
    let rects = flat_rects(6);
    let mut col = Colorizer::new(0);
    let panels = render_frame(&tree, root, &rects, &mut col);
    let visited: Vec<usize> = panels.iter().map(|p| p.node).collect();
    // Leaves were appended first: root = 5, its children [2, 3, 4],
    // node 4's children [0, 1]; pre-order visits parents before children.
    assert_eq!(visited, vec![5, 2, 3, 4, 0, 1]);
}

#[test]
fn one_panel_per_node_at_its_rect() {
    let (tree, root) = demo_tree();
    let rects = flat_rects(6);
    let mut col = Colorizer::new(0);
    let panels = render_frame(&tree, root, &rects, &mut col);
    assert_eq!(panels.len(), 6);
    for p in &panels {
        assert_eq!(p.rect, rects[p.node]);
    }
}

#[test]
fn zero_sized_nodes_still_get_a_panel() {
    let (tree, root) = demo_tree();
    let mut rects = Vec::new();
    for _ in 0..6 {
        rects.push(Rect { x: 0, y: 0, width: 0, height: 0 });
    }
    let mut col = Colorizer::new(0);
    let panels = render_frame(&tree, root, &rects, &mut col);
    assert_eq!(panels.len(), 6, "clipping is the display surface's job, not the renderer's");
}

#[test]
fn colors_identical_across_frames() {
    let (tree, root) = demo_tree();
    let rects = flat_rects(6);
    let mut col = Colorizer::new(0);
    let first = render_frame(&tree, root, &rects, &mut col);
    let second = render_frame(&tree, root, &rects, &mut col);
    assert_eq!(first.len(), second.len());
    for (a, b) in first.iter().zip(second.iter()) {
        assert_eq!(a.bg, b.bg, "the same traversal step must get the same color");
    }
    assert_eq!(first, second);
}

#[test]
fn colors_do_not_depend_on_geometry() {
    let (tree, root) = demo_tree();
    let rects1 = flat_rects(6);
    let mut rects2 = Vec::new();
    for i in 0..6u16 {
        rects2.push(Rect { x: 0, y: 3 * i, width: 60 + i, height: 9 });
    }
    let mut col = Colorizer::new(0);
    let first = render_frame(&tree, root, &rects1, &mut col);
    let second = render_frame(&tree, root, &rects2, &mut col);
    for (a, b) in first.iter().zip(second.iter()) {
        assert_eq!(a.bg, b.bg, "a resize must not change any node's color");
        assert_eq!(a.node, b.node);
    }
}

#[test]
fn colorizer_replays_after_reset() {
    let mut col = Colorizer::new(0);
    let a = col.next_color();
    let b = col.next_color();
    let c = col.next_color();
    col.reset();
    assert_eq!(col.next_color(), a);
    assert_eq!(col.next_color(), b);
    assert_eq!(col.next_color(), c);
}

#[test]
fn colorizers_with_one_seed_agree_and_streams_vary() {
    let mut col1 = Colorizer::new(7);
    let mut col2 = Colorizer::new(7);
    let mut all_equal_to_first = true;
    let first = col1.next_color();
    assert_eq!(first, col2.next_color());
    for _ in 0..63 {
        let a = col1.next_color();
        let b = col2.next_color();
        assert_eq!(a, b);
        if a != first {
            all_equal_to_first = false;
        }
    }
    assert!(!all_equal_to_first, "the stream must actually advance between draws");
}

#[test]
fn different_seeds_give_different_streams() {
    let mut col0 = Colorizer::new(0);
    let mut col1 = Colorizer::new(1);
    let mut differ = false;
    for _ in 0..64 {
        if col0.next_color() != col1.next_color() {
            differ = true;
        }
    }
    assert!(differ, "the seed must actually select the stream");
}

#[test]
fn demo_tree_has_documented_shape_and_styles() {
    let (tree, root) = demo_tree();
    assert_eq!(tree.len(), 6);
    assert_eq!(root, 5);
    assert_eq!(tree.child_count(root), 3);
    assert_eq!(tree.child_at(root, 0), 2);
    assert_eq!(tree.child_at(root, 1), 3);
    assert_eq!(tree.child_at(root, 2), 4);
    assert_eq!(tree.child_count(4), 2);
    assert_eq!(tree.child_at(4, 0), 0);
    assert_eq!(tree.child_at(4, 1), 1);
    for leaf in [0, 1, 2, 3] {
        assert_eq!(tree.child_count(leaf), 0);
    }
    assert_eq!(
        tree.style_of(2),
        Style {
            width: Dim::Percent(50),
            height: Dim::Cells(10),
            block_display: false,
            align_end: false
        }
    );
    assert_eq!(
        tree.style_of(3),
        Style {
            width: Dim::Percent(25),
            height: Dim::Percent(25),
            block_display: false,
            align_end: false
        }
    );
    assert_eq!(tree.style_of(1).align_end, true);
    assert_eq!(tree.style_of(5).block_display, true);
    assert_eq!(tree.style_of(5).width, Dim::Percent(100));
    assert_eq!(tree.style_of(4).height, Dim::Cells(30));
}
