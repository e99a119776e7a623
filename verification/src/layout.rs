//! Layout bookkeeping per node: the relative layout produced by the
//! constraint-layout pass, the cached absolute (screen-space) layout, and
//! the two independent dirty flags that drive recomputation.

use vstd::prelude::*;

use crate::component::Node;
use crate::geometry::Rect;
use crate::scrollbar::{scroll_bar_layout, spec_scroll_bar};
use crate::widgets::{ScrollPaneState, Widget};

verus! {

broadcast use vstd::std_specs::vec::axiom_vec_index_decreases;

/// Bound on the coordinates a relative layout may use; matches the
/// sixteen-bit cell domain of the rendering surface.
pub const REL_LIMIT: i64 = 0x8000;

/// A node's layout in its parent's coordinate space, rounded to whole
/// cells: the three nested boxes and the size of the overflowing content.
#[derive(Clone, Copy, Debug, PartialEq, Eq, Structural)]
pub struct RelativeLayout {
    /// The rectangle containing the unclipped content.
    pub content: Rect,
    /// The rectangle containing the padding and the content.
    pub padding: Rect,
    /// The outermost rectangle: border, padding and content.
    pub border: Rect,
    /// Size of the content including overflow, per axis.
    pub overflow_w: u16,
    pub overflow_h: u16,
}

impl RelativeLayout {
    pub open spec fn rect_ok(r: Rect) -> bool {
        &&& -REL_LIMIT <= r.min_x <= REL_LIMIT
        &&& -REL_LIMIT <= r.min_y <= REL_LIMIT
        &&& -REL_LIMIT <= r.max_x <= REL_LIMIT
        &&& -REL_LIMIT <= r.max_y <= REL_LIMIT
    }

    /// All coordinates lie in the cell domain.
    pub open spec fn ok(self) -> bool {
        Self::rect_ok(self.content) && Self::rect_ok(self.padding) && Self::rect_ok(self.border)
    }

    /// An empty layout at the origin.
    pub fn zero() -> (r: RelativeLayout)
        ensures
            r == RelativeLayout::spec_zero(),
    {
        let z = Rect { min_x: 0, min_y: 0, max_x: 0, max_y: 0 };
        RelativeLayout { content: z, padding: z, border: z, overflow_w: 0, overflow_h: 0 }
    }

    pub open spec fn spec_zero() -> RelativeLayout {
        let z = Rect { min_x: 0, min_y: 0, max_x: 0, max_y: 0 };
        RelativeLayout { content: z, padding: z, border: z, overflow_w: 0, overflow_h: 0 }
    }
}

/// A node's layout in the root surface's coordinate space: the resolved
/// rectangles, the clip for overflowing content, the scroll position that
/// was applied, and the offset to add to each descendant's relative layout.
#[derive(Clone, Copy, Debug, PartialEq, Eq, Structural)]
pub struct AbsoluteLayout {
    /// Size of the overflowing content.
    pub overflow_w: u16,
    pub overflow_h: u16,
    /// The area which overflowing content is clipped to.
    pub overflow_rect_clip: Rect,
    /// The rectangle containing the unclipped content.
    pub content_rect: Rect,
    /// The rectangle containing the padding and the content.
    pub padding_rect: Rect,
    /// The outermost rectangle: border, padding and content.
    pub border_rect: Rect,
    /// The scroll position this layout was resolved with.
    pub scroll_x: u16,
    pub scroll_y: u16,
    /// The absolute cell offset to apply to descendants.
    pub offset_x: i64,
    pub offset_y: i64,
}

impl AbsoluteLayout {
    pub fn overflow_rect_clip(&self) -> (r: Rect)
        ensures
            r == self.overflow_rect_clip,
    {
        self.overflow_rect_clip
    }

    pub fn content_rect(&self) -> (r: Rect)
        ensures
            r == self.content_rect,
    {
        self.content_rect
    }

    pub fn padding_rect(&self) -> (r: Rect)
        ensures
            r == self.padding_rect,
    {
        self.padding_rect
    }

    pub fn border_rect(&self) -> (r: Rect)
        ensures
            r == self.border_rect,
    {
        self.border_rect
    }
}

/// How a node lays out its children.
#[derive(Clone, Copy, Debug, PartialEq, Eq, Structural)]
pub enum DisplayMode {
    Hidden,
    Block,
    Flex,
    Grid,
}

/// What the constraint-layout engine is asked to do for a node.
#[derive(Clone, Copy, Debug, PartialEq, Eq, Structural)]
pub enum RunMode {
    PerformLayout,
    ComputeSize,
    PerformHiddenLayout,
}

/// Which algorithm lays a node out.
#[derive(Clone, Copy, Debug, PartialEq, Eq, Structural)]
pub enum LayoutAlgorithm {
    Hidden,
    Block,
    Flex,
    Grid,
    Leaf,
}

/// Dispatches a node to a layout algorithm: a hidden run (an ancestor is
/// hidden) short-circuits to the hidden layout regardless of the node's own
/// display mode; otherwise the display mode decides, and a node without
/// children is measured as a leaf.
pub fn layout_algorithm(display: DisplayMode, has_children: bool, run_mode: RunMode) -> (r:
    LayoutAlgorithm)
    ensures
        r == if run_mode == RunMode::PerformHiddenLayout {
            LayoutAlgorithm::Hidden
        } else if display == DisplayMode::Hidden {
            LayoutAlgorithm::Hidden
        } else if !has_children {
            LayoutAlgorithm::Leaf
        } else if display == DisplayMode::Block {
            LayoutAlgorithm::Block
        } else if display == DisplayMode::Flex {
            LayoutAlgorithm::Flex
        } else {
            LayoutAlgorithm::Grid
        },
{
    if matches!(run_mode, RunMode::PerformHiddenLayout) {
        return LayoutAlgorithm::Hidden;
    }
    match (display, has_children) {
        (DisplayMode::Hidden, _) => LayoutAlgorithm::Hidden,
        (_, false) => LayoutAlgorithm::Leaf,
        (DisplayMode::Block, true) => LayoutAlgorithm::Block,
        (DisplayMode::Flex, true) => LayoutAlgorithm::Flex,
        (DisplayMode::Grid, true) => LayoutAlgorithm::Grid,
    }
}

/// Per-node layout bookkeeping. The two dirty flags are independent: one
/// says the node's own style or measurement changed (the relative layout
/// must be recomputed), the other says some successor's absolute layout is
/// missing (the absolute pass must descend here).
#[derive(Clone, Copy, Debug, PartialEq, Eq, Structural)]
pub struct NodeLayout {
    pub relative: RelativeLayout,
    pub absolute: Option<AbsoluteLayout>,
    /// Set when this node's style or measurement changed.
    pub relative_dirty: bool,
    /// Set when a successor's absolute layout needs recomputation.
    pub successors_dirty: bool,
}

impl NodeLayout {
    pub fn new() -> (r: NodeLayout)
        ensures
            r.relative == RelativeLayout::spec_zero(),
            r.absolute is None,
            !r.relative_dirty,
            !r.successors_dirty,
    {
        NodeLayout {
            relative: RelativeLayout::zero(),
            absolute: None,
            relative_dirty: false,
            successors_dirty: false,
        }
    }

    /// Marks the node's style/measurement as changed, forcing the relative
    /// layout (and with it the absolute layout) to be recomputed.
    pub fn mark_cached_relative_layout_dirty(&mut self)
        ensures
            *final(self) == (NodeLayout { relative_dirty: true, ..*old(self) }),
    {
        self.relative_dirty = true;
    }

    /// Drops the cached absolute layout, forcing the absolute pass to
    /// recompute this subtree.
    pub fn mark_cached_absolute_layout_dirty(&mut self)
        ensures
            *final(self) == (NodeLayout { absolute: None, ..*old(self) }),
    {
        self.absolute = None;
    }
}

// ---------------------------------------------------------------------------
// Absolute layout resolution
// ---------------------------------------------------------------------------

/// The scroll position a widget applies to its descendants: scroll panes
/// report their state, every other widget is unscrolled.
pub open spec fn spec_scroll_of(w: Widget) -> (u16, u16) {
    match w {
        Widget::ScrollPane(s) => (s.scroll_x, s.scroll_y),
        _ => (0u16, 0u16),
    }
}

/// The absolute layout a node resolves to, given the accumulated offset of
/// its ancestors and their combined clip rectangle: the three boxes are the
/// relative boxes translated by the offset, overflowing content is clipped
/// to the ancestor clip intersected with the padding box, and descendants
/// are offset by the padding corner minus the scroll position.
pub open spec fn spec_exact_abs(n: Node, off_x: int, off_y: int, clip: Rect) -> AbsoluteLayout {
    let rel = n.layout.relative;
    let content = rel.content.spec_translated(off_x, off_y);
    let padding = rel.padding.spec_translated(off_x, off_y);
    let border = rel.border.spec_translated(off_x, off_y);
    let oclip = clip.spec_intersect(padding);
    let scroll = spec_scroll_of(n.widget);
    AbsoluteLayout {
        overflow_w: rel.overflow_w,
        overflow_h: rel.overflow_h,
        overflow_rect_clip: oclip,
        content_rect: content,
        padding_rect: padding,
        border_rect: border,
        scroll_x: scroll.0,
        scroll_y: scroll.1,
        offset_x: (padding.min_x - scroll.0) as i64,
        offset_y: (padding.min_y - scroll.1) as i64,
    }
}

/// The widget state after the "absolute layout updated" hook ran: a scroll
/// pane recomputes its scrollbar geometry from the new layout, every other
/// widget is unchanged.
pub open spec fn spec_widget_after_layout(w: Widget, abs: AbsoluteLayout) -> Widget {
    match w {
        Widget::ScrollPane(s) => Widget::ScrollPane(ScrollPaneState {
            scroll_bar_layout: spec_scroll_bar(abs.content_rect, abs.overflow_h, s.scroll_y),
            ..s
        }),
        _ => w,
    }
}

/// Runs the "absolute layout updated" hook on a widget.
pub fn on_absolute_layout_updated(w: &mut Widget, abs: &AbsoluteLayout)
    requires
        crate::scrollbar::scroll_bar_inputs_ok(abs.content_rect),
    ensures
        *final(w) == spec_widget_after_layout(*old(w), *abs),
{
    match w {
        Widget::ScrollPane(s) => {
            s.scroll_bar_layout = scroll_bar_layout(abs.content_rect, abs.overflow_h, s.scroll_y);
        },
        _ => {},
    }
}

/// Every relative layout in the subtree stays in the cell domain.
pub open spec fn tree_rel_ok(n: Node) -> bool
    decreases n,
{
    &&& n.layout.relative.ok()
    &&& forall|i: int| 0 <= i < n.children.len() ==> tree_rel_ok(#[trigger] n.children[i])
}

/// The accumulated offset leaves room for one more step per remaining node,
/// keeping every coordinate the resolver computes within bounds.
pub open spec fn off_ok(off_x: int, off_y: int, n: Node) -> bool {
    &&& off_x + 0x20000 * n.count() <= 0x100_0000_0000
    &&& off_x - 0x20000 * n.count() >= -0x100_0000_0000
    &&& off_y + 0x20000 * n.count() <= 0x100_0000_0000
    &&& off_y - 0x20000 * n.count() >= -0x100_0000_0000
}

/// The ancestor clip rectangle stays within the working range.
pub open spec fn clip_ok(c: Rect) -> bool {
    &&& -0x200_0000_0000 <= c.min_x <= 0x200_0000_0000
    &&& -0x200_0000_0000 <= c.min_y <= 0x200_0000_0000
    &&& -0x200_0000_0000 <= c.max_x <= 0x200_0000_0000
    &&& -0x200_0000_0000 <= c.max_y <= 0x200_0000_0000
}

/// Relates a subtree before and after absolute-layout resolution under the
/// given inputs: every node's absolute layout is the exact one, the
/// "successor dirty" flags are consumed, scroll panes carry the scrollbar
/// geometry of their fresh layout, and everything else is unchanged.
pub open spec fn resolved(pre: Node, post: Node, off_x: int, off_y: int, clip: Rect) -> bool
    decreases pre,
{
    let abs = spec_exact_abs(pre, off_x, off_y, clip);
    &&& post.id == pre.id
    &&& post.layout.relative == pre.layout.relative
    &&& post.layout.relative_dirty == pre.layout.relative_dirty
    &&& post.layout.absolute == Some(abs)
    &&& post.layout.successors_dirty == false
    &&& post.widget == spec_widget_after_layout(pre.widget, abs)
    &&& post.children.len() == pre.children.len()
    &&& forall|i: int| 0 <= i < pre.children.len() ==> resolved(
            #[trigger] pre.children[i],
            post.children[i],
            abs.offset_x as int,
            abs.offset_y as int,
            abs.overflow_rect_clip,
        )
}

/// What must hold of cached absolute layouts for the resolver to reuse
/// them: a cached layout matches the exact resolution under the current
/// inputs, the widget's derived state matches it, a clear "successor dirty"
/// flag really means the whole subtree is clean, and the caches below are
/// consistent with the offsets this node hands down. A node without a
/// cached layout is recomputed outright, so nothing is required of it.
pub open spec fn cache_consistent(n: Node, off_x: int, off_y: int, clip: Rect) -> bool
    decreases n,
{
    match n.layout.absolute {
        None => true,
        Some(abs) => {
            &&& abs == spec_exact_abs(n, off_x, off_y, clip)
            &&& n.widget == spec_widget_after_layout(n.widget, abs)
            &&& (!n.layout.successors_dirty ==> resolved(n, n, off_x, off_y, clip))
            &&& forall|i: int| 0 <= i < n.children.len() ==> cache_consistent(
                    #[trigger] n.children[i],
                    abs.offset_x as int,
                    abs.offset_y as int,
                    abs.overflow_rect_clip,
                )
        },
    }
}

/// One pass of the absolute-layout resolver over a subtree.
///
/// `parent_recomputed` says whether an ancestor was recomputed in this
/// pass; in that case the cached layouts below it are stale by definition
/// and the whole subtree is recomputed. Otherwise a cached, clean subtree
/// is skipped entirely (counted in `skipped`), and a cached node with dirty
/// successors only descends. `visited` counts recomputed nodes.
#[verifier::loop_isolation(false)]
#[verifier::rlimit(100)]
pub fn resolve_node(
    n: &mut Node,
    off_x: i64,
    off_y: i64,
    clip: Rect,
    parent_recomputed: bool,
    visited: &mut u64,
    skipped: &mut u64,
)
    requires
        tree_rel_ok(*old(n)),
        off_ok(off_x as int, off_y as int, *old(n)),
        clip_ok(clip),
        !parent_recomputed ==> cache_consistent(*old(n), off_x as int, off_y as int, clip),
        *old(visited) + old(n).count() <= u64::MAX,
        *old(skipped) + old(n).count() <= u64::MAX,
    ensures
        resolved(*old(n), *final(n), off_x as int, off_y as int, clip),
        *old(visited) <= *final(visited) <= *old(visited) + old(n).count(),
        *old(skipped) <= *final(skipped) <= *old(skipped) + old(n).count(),
        (!parent_recomputed && old(n).layout.absolute is Some
            && !old(n).layout.successors_dirty) ==> (*final(n) == *old(n)
            && *final(visited) == *old(visited) && *final(skipped) == *old(skipped) + 1),
    decreases *old(n),
{
    proof {
        old(n).lemma_count_pos();
    }
    let successors_dirty = n.layout.successors_dirty;
    n.layout.successors_dirty = false;
    let cached = n.layout.absolute;
    if !parent_recomputed && cached.is_some() {
        let abs = cached.unwrap();
        if !successors_dirty {
            // The subtree is cached and clean: skip it entirely.
            *skipped = *skipped + 1;
            return ;
        }
        // This node's layout is cached, but a successor needs attention:
        // keep walking with the cached offset and clip.
        let ghost pre = *old(n);
        proof {
            assert(pre.layout.absolute == Some(abs));
            assert(cache_consistent(pre, off_x as int, off_y as int, clip));
        }
        let k = n.children.len();
        for i in 0..k
            invariant
                pre.layout.absolute == Some(abs),
                n.id == pre.id,
                n.widget == pre.widget,
                n.layout.relative == pre.layout.relative,
                n.layout.relative_dirty == pre.layout.relative_dirty,
                n.layout.absolute == Some(abs),
                n.layout.successors_dirty == false,
                n.children.len() == k == pre.children.len(),
                abs == spec_exact_abs(pre, off_x as int, off_y as int, clip),
                tree_rel_ok(pre),
                off_ok(off_x as int, off_y as int, pre),
                clip_ok(clip),
                cache_consistent(pre, off_x as int, off_y as int, clip),
                forall|j: int| i <= j < k ==> n.children[j] == pre.children[j],
                forall|j: int| 0 <= j < i ==> resolved(
                    #[trigger] pre.children[j],
                    n.children[j],
                    abs.offset_x as int,
                    abs.offset_y as int,
                    abs.overflow_rect_clip,
                ),
                *old(visited) <= *visited <= *old(visited) + pre.preorder_upto(i as int).len(),
                *old(skipped) <= *skipped <= *old(skipped) + pre.preorder_upto(i as int).len(),
        {
            proof {
                pre.lemma_child_count_lt(i as int);
                lemma_child_inputs_ok(pre, i as int, off_x as int, off_y as int, clip);
                assert(pre.preorder_upto(i + 1) == pre.preorder_upto(i as int)
                    + pre.children[i as int].preorder());
                pre.lemma_upto_len_monotone(i + 1, k as int);
                assert(pre.preorder() == seq![pre] + pre.preorder_upto(k as int));
                assert(n.children[i as int] == pre.children[i as int]);
                assert(cache_consistent(
                    pre.children[i as int],
                    abs.offset_x as int,
                    abs.offset_y as int,
                    abs.overflow_rect_clip,
                ));
                assert(decreases_to!(pre => pre.children));
                assert(decreases_to!(pre.children => pre.children[i as int]));
            }
            resolve_node(
                &mut n.children[i],
                abs.offset_x,
                abs.offset_y,
                abs.overflow_rect_clip,
                false,
                visited,
                skipped,
            );
        }
        proof {
            assert(pre.preorder() == seq![pre] + pre.preorder_upto(k as int));
            pre.lemma_upto_len_monotone(0, k as int);
        }
        return ;
    }
    // Recompute this node's absolute layout from scratch.
    let ghost pre = *old(n);
    proof {
        lemma_exact_abs_bounds(pre, off_x as int, off_y as int, clip);
    }
    let scroll = scroll_position_of(&n.widget);
    let content = n.layout.relative.content.translated(off_x, off_y);
    let padding = n.layout.relative.padding.translated(off_x, off_y);
    let border = n.layout.relative.border.translated(off_x, off_y);
    let oclip = clip.intersect(&padding);
    let abs = AbsoluteLayout {
        overflow_w: n.layout.relative.overflow_w,
        overflow_h: n.layout.relative.overflow_h,
        overflow_rect_clip: oclip,
        content_rect: content,
        padding_rect: padding,
        border_rect: border,
        scroll_x: scroll.0,
        scroll_y: scroll.1,
        offset_x: padding.min_x - scroll.0 as i64,
        offset_y: padding.min_y - scroll.1 as i64,
    };
    proof {
        assert(abs == spec_exact_abs(pre, off_x as int, off_y as int, clip));
    }
    n.layout.absolute = Some(abs);
    on_absolute_layout_updated(&mut n.widget, &abs);
    *visited = *visited + 1;
    let k = n.children.len();
    for i in 0..k
        invariant
            n.id == pre.id,
            n.widget == spec_widget_after_layout(pre.widget, abs),
            n.layout.relative == pre.layout.relative,
            n.layout.relative_dirty == pre.layout.relative_dirty,
            n.layout.absolute == Some(abs),
            n.layout.successors_dirty == false,
            n.children.len() == k == pre.children.len(),
            abs == spec_exact_abs(pre, off_x as int, off_y as int, clip),
            tree_rel_ok(pre),
            off_ok(off_x as int, off_y as int, pre),
            clip_ok(clip),
            forall|j: int| i <= j < k ==> n.children[j] == pre.children[j],
            forall|j: int| 0 <= j < i ==> resolved(
                #[trigger] pre.children[j],
                n.children[j],
                abs.offset_x as int,
                abs.offset_y as int,
                abs.overflow_rect_clip,
            ),
            *old(visited) <= *visited <= *old(visited) + 1 + pre.preorder_upto(i as int).len(),
            *old(skipped) <= *skipped <= *old(skipped) + pre.preorder_upto(i as int).len(),
    {
        proof {
            pre.lemma_child_count_lt(i as int);
            lemma_child_inputs_ok(pre, i as int, off_x as int, off_y as int, clip);
            assert(pre.preorder_upto(i + 1) == pre.preorder_upto(i as int)
                + pre.children[i as int].preorder());
            pre.lemma_upto_len_monotone(i + 1, k as int);
            assert(pre.preorder() == seq![pre] + pre.preorder_upto(k as int));
            assert(n.children[i as int] == pre.children[i as int]);
            assert(decreases_to!(pre => pre.children));
            assert(decreases_to!(pre.children => pre.children[i as int]));
        }
        resolve_node(
            &mut n.children[i],
            abs.offset_x,
            abs.offset_y,
            abs.overflow_rect_clip,
            true,
            visited,
            skipped,
        );
    }
    proof {
        assert(pre.preorder() == seq![pre] + pre.preorder_upto(k as int));
        pre.lemma_upto_len_monotone(0, k as int);
    }
}

/// Reads the scroll position a widget applies to its descendants.
pub fn scroll_position_of(w: &Widget) -> (r: (u16, u16))
    ensures
        r == spec_scroll_of(*w),
{
    match w {
        Widget::ScrollPane(s) => (s.scroll_x, s.scroll_y),
        _ => (0, 0),
    }
}

/// The computed absolute rectangles and offsets stay within the working
/// range when the offset leaves the room `off_ok` demands.
proof fn lemma_exact_abs_bounds(n: Node, off_x: int, off_y: int, clip: Rect)
    requires
        tree_rel_ok(n),
        off_ok(off_x, off_y, n),
        clip_ok(clip),
    ensures
        ({
            let abs = spec_exact_abs(n, off_x, off_y, clip);
            &&& crate::scrollbar::scroll_bar_inputs_ok(abs.content_rect)
            &&& clip_ok(abs.overflow_rect_clip)
            &&& -0x100_0000_0000 <= abs.offset_x <= 0x100_0000_0000
            &&& -0x100_0000_0000 <= abs.offset_y <= 0x100_0000_0000
        }),
{
    n.lemma_count_pos();
    assert(0x20000 * n.count() >= 0x20000) by (nonlinear_arith)
        requires n.count() >= 1;
}

/// Whether any node in the subtree has its style/measurement marked dirty.
pub open spec fn subtree_rel_dirty(n: Node) -> bool
    decreases n,
{
    n.layout.relative_dirty || exists|i: int| 0 <= i < n.children.len()
        && subtree_rel_dirty(#[trigger] n.children[i])
}

/// Whether any node in the subtree is missing its absolute layout.
pub open spec fn subtree_abs_missing(n: Node) -> bool
    decreases n,
{
    n.layout.absolute is None || exists|i: int| 0 <= i < n.children.len()
        && subtree_abs_missing(#[trigger] n.children[i])
}

/// Relates a subtree before and after the dirty-propagation pass: style
/// dirtiness cascades upward, so every node with a dirty node somewhere in
/// its subtree drops its cached absolute layout (forcing its descendants to
/// be re-laid-out too), and each node's "successor dirty" flag records
/// whether its subtree was missing an absolute layout before the pass.
pub open spec fn cleared(pre: Node, post: Node) -> bool
    decreases pre,
{
    &&& post.id == pre.id
    &&& post.widget == pre.widget
    &&& post.layout.relative == pre.layout.relative
    &&& post.layout.relative_dirty == false
    &&& post.layout.absolute == if subtree_rel_dirty(pre) {
            None
        } else {
            pre.layout.absolute
        }
    &&& post.layout.successors_dirty == subtree_abs_missing(pre)
    &&& post.children.len() == pre.children.len()
    &&& forall|i: int| 0 <= i < pre.children.len() ==> cleared(
            #[trigger] pre.children[i],
            post.children[i],
        )
}

/// The dirty-propagation pass: a post-order walk that cascades style
/// dirtiness to ancestors (their measured size may depend on the dirty
/// node), drops the stale caches, and records for each node whether the
/// absolute pass must descend into it.
#[verifier::loop_isolation(false)]
#[verifier::rlimit(60)]
pub fn clear_dirty_cache(n: &mut Node) -> (r: (bool, bool))
    ensures
        cleared(*old(n), *final(n)),
        r.0 == subtree_rel_dirty(*old(n)),
        r.1 == subtree_abs_missing(*old(n)),
    decreases *old(n),
{
    let ghost pre = *old(n);
    let mut children_rel_dirty = false;
    let mut children_abs_missing = false;
    let k = n.children.len();
    for i in 0..k
        invariant
            n.id == pre.id,
            n.widget == pre.widget,
            n.layout == pre.layout,
            n.children.len() == k == pre.children.len(),
            forall|j: int| i <= j < k ==> n.children[j] == pre.children[j],
            forall|j: int| 0 <= j < i ==> cleared(#[trigger] pre.children[j], n.children[j]),
            children_rel_dirty == exists|j: int| 0 <= j < i
                && subtree_rel_dirty(#[trigger] pre.children[j]),
            children_abs_missing == exists|j: int| 0 <= j < i
                && subtree_abs_missing(#[trigger] pre.children[j]),
    {
        proof {
            assert(n.children[i as int] == pre.children[i as int]);
            assert(decreases_to!(pre => pre.children));
            assert(decreases_to!(pre.children => pre.children[i as int]));
        }
        let child_flags = clear_dirty_cache(&mut n.children[i]);
        children_rel_dirty = children_rel_dirty || child_flags.0;
        children_abs_missing = children_abs_missing || child_flags.1;
    }
    let rel_dirty = children_rel_dirty || n.layout.relative_dirty;
    let abs_missing = children_abs_missing || n.layout.absolute.is_none();
    if rel_dirty {
        // The relative layout of this subtree is stale: drop the caches.
        n.layout.absolute = None;
        n.layout.relative_dirty = false;
    }
    n.layout.successors_dirty = abs_missing;
    proof {
        assert(rel_dirty == subtree_rel_dirty(pre));
        assert(abs_missing == subtree_abs_missing(pre));
    }
    (rel_dirty, abs_missing)
}

/// Resolves the absolute layout of the whole tree for a frame of the given
/// area. If the frame area changed since the previous frame, the root's
/// cache is dropped first, forcing a full recompute. Returns how many nodes
/// were recomputed and how many cached subtrees were skipped.
pub fn compute_absolute_layout(
    root: &mut Node,
    frame_area: Rect,
    previous_frame_area: Option<Rect>,
) -> (counts: (u64, u64))
    requires
        tree_rel_ok(*old(root)),
        0 <= frame_area.min_x <= 0x10000 && 0 <= frame_area.min_y <= 0x10000,
        0 <= frame_area.max_x <= 0x10000 && 0 <= frame_area.max_y <= 0x10000,
        old(root).count() <= 0x40_0000,
        previous_frame_area == Some(frame_area) ==> cache_consistent(
            *old(root), frame_area.min_x as int, frame_area.min_y as int, frame_area),
    ensures
        resolved(*old(root), *final(root), frame_area.min_x as int, frame_area.min_y as int,
            frame_area),
        (previous_frame_area == Some(frame_area) && old(root).layout.absolute is Some
            && !old(root).layout.successors_dirty) ==> (*final(root) == *old(root)
            && counts == (0u64, 1u64)),
{
    let same = match previous_frame_area {
        Some(p) => p.min_x == frame_area.min_x && p.min_y == frame_area.min_y
            && p.max_x == frame_area.max_x && p.max_y == frame_area.max_y,
        None => false,
    };
    if !same {
        // Force a full layout update when the frame changed.
        root.layout.absolute = None;
    }
    let ghost start = *root;
    proof {
        old(root).lemma_count_pos();
        Node::lemma_count_same_children(start, *old(root));
        let cnt = old(root).count();
        assert(0x20000 * cnt <= 0x20000 * 0x40_0000) by (nonlinear_arith)
            requires cnt <= 0x40_0000;
    }
    let mut visited: u64 = 0;
    let mut skipped: u64 = 0;
    resolve_node(
        root,
        frame_area.min_x,
        frame_area.min_y,
        frame_area,
        false,
        &mut visited,
        &mut skipped,
    );
    proof {
        lemma_resolved_ignores_root_cache(
            start,
            *old(root),
            *root,
            frame_area.min_x as int,
            frame_area.min_y as int,
            frame_area,
        );
    }
    (visited, skipped)
}

/// Resolution never reads the cached absolute layout of the node it
/// starts from, so dropping that cache does not change the result.
proof fn lemma_resolved_ignores_root_cache(
    a: Node,
    b: Node,
    post: Node,
    off_x: int,
    off_y: int,
    clip: Rect,
)
    requires
        a.id == b.id,
        a.widget == b.widget,
        a.children == b.children,
        a.layout.relative == b.layout.relative,
        a.layout.relative_dirty == b.layout.relative_dirty,
        resolved(a, post, off_x, off_y, clip),
    ensures
        resolved(b, post, off_x, off_y, clip),
{
    assert(spec_exact_abs(b, off_x, off_y, clip) == spec_exact_abs(a, off_x, off_y, clip));
}

/// Two nodes with the same resolution inputs: identity, widget state,
/// relative layout and (recursively) children. Dirty flags and cached
/// absolute layouts may differ.
pub open spec fn same_resolve_inputs(a: Node, b: Node) -> bool
    decreases a,
{
    &&& b.id == a.id
    &&& b.widget == a.widget
    &&& b.layout.relative == a.layout.relative
    &&& b.children.len() == a.children.len()
    &&& forall|i: int| 0 <= i < a.children.len() ==> same_resolve_inputs(
            #[trigger] a.children[i],
            b.children[i],
        )
}

/// A tree keeps its resolution inputs under any change that only touches
/// caches or dirty flags.
pub proof fn lemma_same_resolve_inputs_refl(a: Node, b: Node)
    requires
        b.id == a.id,
        b.widget == a.widget,
        b.layout.relative == a.layout.relative,
        b.children == a.children,
    ensures
        same_resolve_inputs(a, b),
    decreases a,
{
    assert forall|i: int| 0 <= i < a.children.len() implies same_resolve_inputs(
        #[trigger] a.children[i],
        b.children[i],
    ) by {
        lemma_same_resolve_inputs_refl(a.children[i], b.children[i]);
    }
}

/// Two subtrees with the same absolute layout at every node.
pub open spec fn same_abs_layouts(x: Node, y: Node) -> bool
    decreases x,
{
    &&& y.layout.absolute == x.layout.absolute
    &&& y.children.len() == x.children.len()
    &&& forall|i: int| 0 <= i < x.children.len() ==> same_abs_layouts(
            #[trigger] x.children[i],
            y.children[i],
        )
}

/// Absolute-layout resolution is a function of the resolution inputs
/// alone: caches and dirty flags never influence the resolved rectangles.
/// In particular, after a single node's style change is propagated, every
/// subtree whose inputs did not change resolves to bit-identical absolute
/// rectangles.
pub proof fn lemma_resolution_depends_on_inputs_only(
    a: Node,
    b: Node,
    pa: Node,
    pb: Node,
    off_x: int,
    off_y: int,
    clip: Rect,
)
    requires
        same_resolve_inputs(a, b),
        resolved(a, pa, off_x, off_y, clip),
        resolved(b, pb, off_x, off_y, clip),
    ensures
        same_abs_layouts(pa, pb),
    decreases a,
{
    assert(spec_exact_abs(b, off_x, off_y, clip) == spec_exact_abs(a, off_x, off_y, clip));
    let abs = spec_exact_abs(a, off_x, off_y, clip);
    assert forall|i: int| 0 <= i < pa.children.len() implies same_abs_layouts(
        #[trigger] pa.children[i],
        pb.children[i],
    ) by {
        lemma_resolution_depends_on_inputs_only(
            a.children[i],
            b.children[i],
            pa.children[i],
            pb.children[i],
            abs.offset_x as int,
            abs.offset_y as int,
            abs.overflow_rect_clip,
        );
    }
}

/// Deep structural equality of two subtrees: every field of every node is
/// equal.
pub open spec fn node_same(a: Node, b: Node) -> bool
    decreases a,
{
    &&& b.id == a.id
    &&& b.widget == a.widget
    &&& b.layout == a.layout
    &&& b.children.len() == a.children.len()
    &&& forall|i: int| 0 <= i < a.children.len() ==> node_same(
            #[trigger] a.children[i],
            b.children[i],
        )
}

/// Resolution resolves to a unique result: two trees resolved from the
/// same inputs are equal in every field of every node.
pub proof fn lemma_resolved_unique(pre: Node, a: Node, b: Node, off_x: int, off_y: int, clip: Rect)
    requires
        resolved(pre, a, off_x, off_y, clip),
        resolved(pre, b, off_x, off_y, clip),
    ensures
        node_same(a, b),
    decreases pre,
{
    let abs = spec_exact_abs(pre, off_x, off_y, clip);
    assert forall|i: int| 0 <= i < a.children.len() implies node_same(
        #[trigger] a.children[i],
        b.children[i],
    ) by {
        lemma_resolved_unique(
            pre.children[i],
            a.children[i],
            b.children[i],
            abs.offset_x as int,
            abs.offset_y as int,
            abs.overflow_rect_clip,
        );
    }
}

/// A freshly resolved tree is a fixed point: it is cache-consistent for
/// the inputs it was resolved under, and resolving it again yields the very
/// same tree. Resolving twice with no changes in between therefore
/// produces identical absolute rectangles everywhere.
pub proof fn lemma_resolved_is_clean(pre: Node, post: Node, off_x: int, off_y: int, clip: Rect)
    requires
        resolved(pre, post, off_x, off_y, clip),
    ensures
        cache_consistent(post, off_x, off_y, clip),
        resolved(post, post, off_x, off_y, clip),
    decreases pre,
{
    let abs = spec_exact_abs(pre, off_x, off_y, clip);
    assert(spec_scroll_of(post.widget) == spec_scroll_of(pre.widget));
    assert(spec_exact_abs(post, off_x, off_y, clip) == abs);
    assert(spec_widget_after_layout(post.widget, abs) == post.widget);
    assert forall|i: int| 0 <= i < post.children.len() implies (cache_consistent(
        #[trigger] post.children[i],
        abs.offset_x as int,
        abs.offset_y as int,
        abs.overflow_rect_clip,
    ) && resolved(
        post.children[i],
        post.children[i],
        abs.offset_x as int,
        abs.offset_y as int,
        abs.overflow_rect_clip,
    )) by {
        lemma_resolved_is_clean(
            pre.children[i],
            post.children[i],
            abs.offset_x as int,
            abs.offset_y as int,
            abs.overflow_rect_clip,
        );
    }
}

/// Resolution inputs propagate to each child: bounded offsets, bounded
/// clip, and the child trees stay well-formed.
proof fn lemma_child_inputs_ok(n: Node, i: int, off_x: int, off_y: int, clip: Rect)
    requires
        tree_rel_ok(n),
        off_ok(off_x, off_y, n),
        clip_ok(clip),
        0 <= i < n.children.len(),
    ensures
        ({
            let abs = spec_exact_abs(n, off_x, off_y, clip);
            &&& tree_rel_ok(n.children[i])
            &&& off_ok(abs.offset_x as int, abs.offset_y as int, n.children[i])
            &&& clip_ok(abs.overflow_rect_clip)
        }),
{
    lemma_exact_abs_bounds(n, off_x, off_y, clip);
    n.lemma_child_count_lt(i);
    n.children[i].lemma_count_pos();
    let abs = spec_exact_abs(n, off_x, off_y, clip);
    assert(0x20000 * n.children[i].count() + 0x20000 <= 0x20000 * n.count())
        by (nonlinear_arith)
        requires n.children[i].count() + 1 <= n.count();
}

} // verus!
