//! The frame buffer and the per-subtree draw context.
//!
//! Drawing is clipped: a context carries the view rectangle of the subtree
//! being drawn, every primitive clips against it, and composing a component
//! whose clip rectangle is empty draws nothing at all. The central guarantee
//! of this module is confinement: no draw call ever writes a cell outside
//! the context's view.

use vstd::prelude::*;

use crate::color::{oklab_ok, text_color_ok, ColorOklab, Over, TextColor};
use crate::component::{ComponentId, Node};
use crate::geometry::Rect;

verus! {

broadcast use vstd::std_specs::vec::axiom_vec_index_decreases;

/// One character cell of the rendering surface.
#[derive(Clone, Copy, Debug, PartialEq, Eq, Structural)]
pub struct Cell {
    pub symbol: char,
    pub fg: ColorOklab,
    pub bg: ColorOklab,
}

impl Cell {
    /// A blank cell: a space, white on black.
    pub fn blank() -> (r: Cell)
        ensures
            r == Cell::spec_blank(),
    {
        Cell {
            symbol: ' ',
            fg: ColorOklab { lightness: crate::fixed::SCALE, chroma_a: 0, chroma_b: 0 },
            bg: ColorOklab { lightness: 0, chroma_a: 0, chroma_b: 0 },
        }
    }

    pub open spec fn spec_blank() -> Cell {
        Cell {
            symbol: ' ',
            fg: ColorOklab { lightness: crate::fixed::SCALE as i64, chroma_a: 0, chroma_b: 0 },
            bg: ColorOklab { lightness: 0, chroma_a: 0, chroma_b: 0 },
        }
    }
}

/// A rectangular surface of cells, row-major.
#[derive(Debug)]
pub struct Buffer {
    pub width: u16,
    pub height: u16,
    pub cells: Vec<Cell>,
}

/// A cell's colors stay in the fixed-point working range.
pub open spec fn cell_ok(c: Cell) -> bool {
    oklab_ok(c.fg) && oklab_ok(c.bg)
}

impl Buffer {
    pub open spec fn wf(self) -> bool {
        self.cells@.len() == self.width * self.height && forall|i: int|
            0 <= i < self.cells@.len() ==> cell_ok(#[trigger] self.cells@[i])
    }

    /// The cell index of a coordinate.
    pub open spec fn spec_index_of(self, x: int, y: int) -> int {
        y * self.width + x
    }

    /// Whether a coordinate lies on the surface.
    pub open spec fn spec_contains(self, x: int, y: int) -> bool {
        0 <= x < self.width && 0 <= y < self.height
    }

    /// Distinct on-surface coordinates have distinct cell indices.
    pub proof fn lemma_index_injective(self, x1: int, y1: int, x2: int, y2: int)
        requires
            self.spec_contains(x1, y1),
            self.spec_contains(x2, y2),
            self.spec_index_of(x1, y1) == self.spec_index_of(x2, y2),
        ensures
            x1 == x2 && y1 == y2,
    {
        let w = self.width as int;
        assert(y1 * w + x1 == y2 * w + x2);
        if y1 < y2 {
            assert(y1 * w + x1 < (y1 + 1) * w) by (nonlinear_arith)
                requires 0 <= x1 < w;
            assert((y1 + 1) * w <= y2 * w) by (nonlinear_arith)
                requires y1 + 1 <= y2 && w >= 0;
            assert(y2 * w <= y2 * w + x2) by (nonlinear_arith)
                requires x2 >= 0;
            assert(false);
        }
        if y2 < y1 {
            assert(y2 * w + x2 < (y2 + 1) * w) by (nonlinear_arith)
                requires 0 <= x2 < w;
            assert((y2 + 1) * w <= y1 * w) by (nonlinear_arith)
                requires y2 + 1 <= y1 && w >= 0;
            assert(y1 * w <= y1 * w + x1) by (nonlinear_arith)
                requires x1 >= 0;
            assert(false);
        }
    }

    /// On-surface coordinates index into the cell vector.
    pub proof fn lemma_index_bounds(self, x: int, y: int)
        requires
            self.wf(),
            self.spec_contains(x, y),
        ensures
            0 <= self.spec_index_of(x, y) < self.cells@.len(),
    {
        let w = self.width as int;
        let h = self.height as int;
        assert(0 <= y * w + x && y * w + x < h * w) by (nonlinear_arith)
            requires 0 <= y && y < h && 0 <= x && x < w;
        assert(h * w == w * h) by (nonlinear_arith);
    }

    /// A fresh surface of blank cells.
    pub fn new(width: u16, height: u16) -> (r: Buffer)
        ensures
            r.wf(),
            r.width == width && r.height == height,
            forall|i: int| 0 <= i < r.cells@.len() ==> r.cells@[i] == Cell::spec_blank(),
    {
        let mut cells: Vec<Cell> = Vec::new();
        proof {
            let wi = width as int;
            let hi = height as int;
            assert(0 <= wi * hi < 0x1_0000_0000) by (nonlinear_arith)
                requires 0 <= wi < 0x10000 && 0 <= hi < 0x10000;
        }
        let total = (width as usize) * (height as usize);
        let mut i: usize = 0;
        while i < total
            invariant
                i <= total,
                cells@.len() == i,
                forall|j: int| 0 <= j < i ==> cells@[j] == Cell::spec_blank(),
            decreases total - i,
        {
            cells.push(Cell::blank());
            i = i + 1;
        }
        proof {
            assert(total == width * height) by (nonlinear_arith)
                requires total == (width as usize) * (height as usize);
        }
        Buffer { width, height, cells }
    }

    /// The index of a position, if it lies on the surface.
    pub fn index_of_opt_alt(&self, x: i64, y: i64) -> (r: Option<usize>)
        requires
            self.wf(),
        ensures
            match r {
                Some(i) => self.spec_contains(x as int, y as int) && i == self.spec_index_of(
                    x as int,
                    y as int,
                ) && i < self.cells@.len(),
                None => !self.spec_contains(x as int, y as int),
            },
    {
        if x >= 0 && x < self.width as i64 && y >= 0 && y < self.height as i64 {
            proof {
                let xi = x as int;
                let yi = y as int;
                let wi = self.width as int;
                let hi = self.height as int;
                assert(0 <= yi * wi + xi && yi * wi + xi < hi * wi) by (nonlinear_arith)
                    requires
                        0 <= yi && yi < hi && 0 <= xi && xi < wi,
                ;
                assert(hi * wi == wi * hi) by (nonlinear_arith);
                assert(hi * wi < 0x1_0000_0000) by (nonlinear_arith)
                    requires 0 <= wi < 0x10000 && 0 <= hi < 0x10000;
            }
            let i = (y as usize) * (self.width as usize) + (x as usize);
            Some(i)
        } else {
            None
        }
    }

    /// Reads the cell at a position on the surface.
    pub fn cell_at(&self, x: i64, y: i64) -> (r: Option<Cell>)
        requires
            self.wf(),
        ensures
            match r {
                Some(c) => self.spec_contains(x as int, y as int) && c == self.cells@[
                    self.spec_index_of(x as int, y as int)
                ] && cell_ok(c),
                None => !self.spec_contains(x as int, y as int),
            },
    {
        match self.index_of_opt_alt(x, y) {
            Some(i) => Some(self.cells[i]),
            None => None,
        }
    }

    /// Overwrites the cell at a position; out-of-surface writes are
    /// dropped.
    pub fn set_cell(&mut self, x: i64, y: i64, cell: Cell)
        requires
            old(self).wf(),
            cell_ok(cell),
        ensures
            final(self).wf(),
            final(self).width == old(self).width && final(self).height == old(self).height,
            final(self).cells@ == if old(self).spec_contains(x as int, y as int) {
                old(self).cells@.update(old(self).spec_index_of(x as int, y as int), cell)
            } else {
                old(self).cells@
            },
    {
        match self.index_of_opt_alt(x, y) {
            Some(i) => {
                self.cells[i] = cell;
            },
            None => {},
        }
    }

    /// Copies a `w x h` block of cells from `other`. Rows or columns that
    /// would fall outside either surface are clipped away.
    pub fn blit(
        &mut self,
        other: &Buffer,
        src_x: u16,
        src_y: u16,
        dst_x: u16,
        dst_y: u16,
        w: u16,
        h: u16,
    )
        requires
            old(self).wf(),
            other.wf(),
        ensures
            final(self).wf(),
            final(self).width == old(self).width && final(self).height == old(self).height,
            final(self).cells@.len() == old(self).cells@.len(),
            forall|x: int, y: int| final(self).spec_contains(x, y) && !(dst_x <= x < dst_x + w
                && dst_y <= y < dst_y + h) ==> final(self).cells@[
                #[trigger] final(self).spec_index_of(x, y)
            ] == old(self).cells@[old(self).spec_index_of(x, y)],
            forall|x: int, y: int| final(self).spec_contains(x, y) && dst_x <= x < dst_x + w
                && dst_y <= y < dst_y + h && other.spec_contains(
                x - dst_x + src_x,
                y - dst_y + src_y,
            ) ==> final(self).cells@[#[trigger] final(self).spec_index_of(x, y)] == other.cells@[
                other.spec_index_of(x - dst_x + src_x, y - dst_y + src_y)
            ],
    {
        let mut dy: u16 = 0;
        while dy < h
            invariant
                old(self).wf(),
                other.wf(),
                self.wf(),
                self.width == old(self).width && self.height == old(self).height,
                self.cells@.len() == old(self).cells@.len(),
                dy <= h,
                forall|x: int, y: int| self.spec_contains(x, y) && !(dst_x <= x < dst_x + w
                    && dst_y <= y < dst_y + dy) ==> self.cells@[
                    #[trigger] self.spec_index_of(x, y)
                ] == old(self).cells@[old(self).spec_index_of(x, y)],
                forall|x: int, y: int| self.spec_contains(x, y) && dst_x <= x < dst_x + w
                    && dst_y <= y < dst_y + dy && other.spec_contains(
                    x - dst_x + src_x,
                    y - dst_y + src_y,
                ) ==> self.cells@[#[trigger] self.spec_index_of(x, y)] == other.cells@[
                    other.spec_index_of(x - dst_x + src_x, y - dst_y + src_y)
                ],
            decreases h - dy,
        {
            let mut dx: u16 = 0;
            while dx < w
                invariant
                    old(self).wf(),
                    other.wf(),
                    self.wf(),
                    self.width == old(self).width && self.height == old(self).height,
                    self.cells@.len() == old(self).cells@.len(),
                    dy < h,
                    dx <= w,
                    forall|x: int, y: int| self.spec_contains(x, y) && !(dst_x <= x < dst_x + w
                        && dst_y <= y < dst_y + dy) && !(dst_x <= x < dst_x + dx && y == dst_y
                        + dy) ==> self.cells@[#[trigger] self.spec_index_of(x, y)]
                        == old(self).cells@[old(self).spec_index_of(x, y)],
                    forall|x: int, y: int| self.spec_contains(x, y) && ((dst_x <= x < dst_x + w
                        && dst_y <= y < dst_y + dy) || (dst_x <= x < dst_x + dx && y == dst_y
                        + dy)) && other.spec_contains(x - dst_x + src_x, y - dst_y + src_y)
                        ==> self.cells@[#[trigger] self.spec_index_of(x, y)] == other.cells@[
                        other.spec_index_of(x - dst_x + src_x, y - dst_y + src_y)
                    ],
                decreases w - dx,
            {
                let sx = (src_x as i64) + (dx as i64);
                let sy = (src_y as i64) + (dy as i64);
                let tx = (dst_x as i64) + (dx as i64);
                let ty = (dst_y as i64) + (dy as i64);
                let ghost before = *self;
                match other.cell_at(sx, sy) {
                    Some(c) => {
                        self.set_cell(tx, ty, c);
                        proof {
                            if self.spec_contains(tx as int, ty as int) {
                                before.lemma_index_bounds(tx as int, ty as int);
                                assert(self.cells@[self.spec_index_of(tx as int, ty as int)]
                                    == c);
                            }
                        }
                    },
                    None => {},
                }
                proof {
                    assert forall|x: int, y: int| self.spec_contains(x, y) && !(x == tx && y
                        == ty) implies self.cells@[#[trigger] self.spec_index_of(x, y)]
                        == before.cells@[before.spec_index_of(x, y)] by {
                        before.lemma_index_bounds(x, y);
                        if before.spec_contains(tx as int, ty as int) {
                            before.lemma_index_bounds(tx as int, ty as int);
                            if self.spec_index_of(x, y) == before.spec_index_of(
                                tx as int, ty as int) {
                                before.lemma_index_injective(x, y, tx as int, ty as int);
                            }
                        }
                    }
                }
                dx = dx + 1;
            }
            dy = dy + 1;
        }
    }
}

/// A per-frame, per-subtree drawing context: the frame buffer, the clip
/// rectangle of the subtree being drawn, the focus path, and the frame
/// instants for animation sampling (captured once per frame, so animations
/// within one frame are globally consistent).
#[derive(Debug)]
pub struct DrawContext {
    pub buffer: Buffer,
    /// The path of component identifiers to the focused leaf.
    pub focused: Vec<ComponentId>,
    /// The instant at which rendering of this frame started, in
    /// milliseconds.
    pub now_ms: u64,
    /// Time elapsed since the first frame until `now_ms`.
    pub elapsed_ms: u64,
    /// The clipping area of the currently drawn component.
    pub view: Rect,
}

/// A context is usable while its buffer is well-formed.
pub open spec fn ctx_wf(c: DrawContext) -> bool {
    c.buffer.wf()
}

/// The frame surface outside the view keeps every cell: nothing was drawn
/// there.
pub open spec fn confined(pre: DrawContext, post: DrawContext, view: Rect) -> bool {
    &&& post.buffer.width == pre.buffer.width
    &&& post.buffer.height == pre.buffer.height
    &&& post.buffer.cells@.len() == pre.buffer.cells@.len()
    &&& forall|x: int, y: int| post.buffer.spec_contains(x, y) && !view.spec_contains(x, y)
        ==> post.buffer.cells@[#[trigger] post.buffer.spec_index_of(x, y)] == pre.buffer.cells@[
            pre.buffer.spec_index_of(x, y)
        ]
}

/// Updating one cell leaves the updated slot holding the new value.
proof fn lemma_cells_update_same(s: Seq<Cell>, i: int, v: Cell)
    requires
        0 <= i < s.len(),
    ensures
        s.update(i, v)[i] == v,
{
}

/// Updating one cell leaves every other slot unchanged.
proof fn lemma_cells_update_other(s: Seq<Cell>, i: int, j: int, v: Cell)
    requires
        0 <= i < s.len(),
        0 <= j < s.len(),
        i != j,
    ensures
        s.update(i, v)[j] == s[j],
{
}

/// The two contexts hold identical surfaces.
pub open spec fn cells_same(pre: DrawContext, post: DrawContext) -> bool {
    &&& post.buffer.width == pre.buffer.width
    &&& post.buffer.height == pre.buffer.height
    &&& post.buffer.cells@ == pre.buffer.cells@
}

/// A text run was painted: within the view and the surface, the cells
/// under the run show its glyphs in the given colors; every other cell of
/// the surface keeps its value.
pub open spec fn text_painted(
    pre: DrawContext,
    post: DrawContext,
    view: Rect,
    x: int,
    y: int,
    text: Seq<char>,
    color: TextColor,
) -> bool {
    &&& post.buffer.width == pre.buffer.width
    &&& post.buffer.height == pre.buffer.height
    &&& post.buffer.cells@.len() == pre.buffer.cells@.len()
    &&& forall|px: int, py: int| post.buffer.spec_contains(px, py) && !(py == y && x <= px < x
        + text.len() && view.spec_contains(px, py)) ==> post.buffer.cells@[
        #[trigger] post.buffer.spec_index_of(px, py)
    ] == pre.buffer.cells@[pre.buffer.spec_index_of(px, py)]
    &&& forall|i: int| 0 <= i < text.len() && view.spec_contains(x + i, y)
        && pre.buffer.spec_contains(x + i, y) ==> post.buffer.cells@[
        post.buffer.spec_index_of(x + i, y)
    ] == (Cell { symbol: #[trigger] text[i], fg: color.fg, bg: color.bg })
}

/// A text run that only happens under `enabled` (a length or row guard):
/// painted when enabled, surface untouched otherwise.
pub open spec fn text_step(
    pre: DrawContext,
    post: DrawContext,
    view: Rect,
    enabled: bool,
    x: int,
    y: int,
    text: Seq<char>,
    color: TextColor,
) -> bool {
    if enabled {
        text_painted(pre, post, view, x, y, text, color)
    } else {
        cells_same(pre, post)
    }
}

/// A rectangle was restyled: within `area` and the view, the cells take
/// the colors and keep their glyphs; every other cell keeps its value.
pub open spec fn styled_painted(
    pre: DrawContext,
    post: DrawContext,
    view: Rect,
    area: Rect,
    color: TextColor,
) -> bool {
    &&& confined(pre, post, view)
    &&& confined(pre, post, area)
    &&& forall|px: int, py: int| post.buffer.spec_contains(px, py) && view.spec_contains(px, py)
        && area.spec_contains(px, py) ==> post.buffer.cells@[
        #[trigger] post.buffer.spec_index_of(px, py)
    ] == (Cell {
        fg: color.fg,
        bg: color.bg,
        ..pre.buffer.cells@[pre.buffer.spec_index_of(px, py)]
    })
}

/// A column range of the scrollbar was painted: within the view, each cell
/// of the range has the color composited over its background (and, for the
/// bar's general fill path, its glyph blanked); every other cell keeps its
/// value.
pub open spec fn rail_painted(
    pre: DrawContext,
    post: DrawContext,
    view: Rect,
    x: int,
    y_start: int,
    y_end: int,
    color: crate::color::Blended,
    blank: bool,
) -> bool {
    &&& post.buffer.width == pre.buffer.width
    &&& post.buffer.height == pre.buffer.height
    &&& post.buffer.cells@.len() == pre.buffer.cells@.len()
    &&& forall|px: int, py: int| post.buffer.spec_contains(px, py) && !(px == x && y_start <= py
        < y_end && view.spec_contains(px, py)) ==> post.buffer.cells@[
        #[trigger] post.buffer.spec_index_of(px, py)
    ] == pre.buffer.cells@[pre.buffer.spec_index_of(px, py)]
    &&& forall|py: int| y_start <= py < y_end && view.spec_contains(x, py)
        && pre.buffer.spec_contains(x, py) ==> post.buffer.cells@[
        #[trigger] post.buffer.spec_index_of(x, py)
    ] == ({
        let under = pre.buffer.cells@[pre.buffer.spec_index_of(x, py)];
        Cell {
            symbol: if blank {
                ' '
            } else {
                under.symbol
            },
            fg: under.fg,
            bg: color.spec_over(under.bg),
        }
    })
}

/// One partially filled cap cell of the scrollbar was painted: within the
/// view, the cell shows the partial-block glyph with both colors
/// composited over its old background (swapped when inverted); every other
/// cell keeps its value.
pub open spec fn cap_painted(
    pre: DrawContext,
    post: DrawContext,
    view: Rect,
    x: int,
    y: int,
    height_eighths: u8,
    color_fg: crate::color::Blended,
    color_bg: crate::color::Blended,
    invert: bool,
) -> bool {
    &&& post.buffer.width == pre.buffer.width
    &&& post.buffer.height == pre.buffer.height
    &&& post.buffer.cells@.len() == pre.buffer.cells@.len()
    &&& forall|px: int, py: int| post.buffer.spec_contains(px, py) && !(px == x && py == y)
        ==> post.buffer.cells@[#[trigger] post.buffer.spec_index_of(px, py)]
        == pre.buffer.cells@[pre.buffer.spec_index_of(px, py)]
    &&& view.spec_contains(x, y) && pre.buffer.spec_contains(x, y) ==> post.buffer.cells@[
        post.buffer.spec_index_of(x, y)
    ] == ({
        let under = pre.buffer.cells@[pre.buffer.spec_index_of(x, y)];
        let fg_c = color_fg.spec_over(under.bg);
        let bg_c = color_bg.spec_over(under.bg);
        Cell {
            symbol: spec_block_symbol(height_eighths),
            fg: if invert {
                bg_c
            } else {
                fg_c
            },
            bg: if invert {
                fg_c
            } else {
                bg_c
            },
        }
    })
}

/// A rectangle animation was applied: a constant style restyles the area,
/// an eased blend restyles it with the interpolated style for this frame,
/// and the indeterminate animation recolors exactly the one sweeping
/// highlight cell.
pub open spec fn anim_painted(
    pre: DrawContext,
    post: DrawContext,
    view: Rect,
    a: crate::animation::RectAnimation,
    area: Rect,
    now: u64,
    elapsed: u64,
) -> bool {
    match a {
        crate::animation::RectAnimation::Static { color } => styled_painted(
            pre,
            post,
            view,
            area,
            color,
        ),
        crate::animation::RectAnimation::Ease { blend, color_start, color_end } => styled_painted(
            pre,
            post,
            view,
            area,
            color_start.spec_lerp(color_end, blend.spec_progress_at(now as int)),
        ),
        crate::animation::RectAnimation::ProgressIndeterminate { period_ms, highlight } => {
            let w = area.spec_width();
            let wd = if w > 0x10000 {
                0x10000
            } else {
                w
            };
            if wd <= 0 {
                cells_same(pre, post)
            } else {
                let pos = crate::animation::spec_sweep_position(elapsed as int, period_ms as int);
                let hx = area.min_x + (pos * (wd - 1) + crate::fixed::SCALE / 2) / (
                crate::fixed::SCALE as int);
                let hy = area.min_y as int;
                &&& post.buffer.width == pre.buffer.width
                &&& post.buffer.height == pre.buffer.height
                &&& post.buffer.cells@.len() == pre.buffer.cells@.len()
                &&& forall|px: int, py: int| post.buffer.spec_contains(px, py) && !(px == hx && py
                    == hy) ==> post.buffer.cells@[#[trigger] post.buffer.spec_index_of(px, py)]
                    == pre.buffer.cells@[pre.buffer.spec_index_of(px, py)]
                &&& view.spec_contains(hx, hy) && pre.buffer.spec_contains(hx, hy)
                    ==> post.buffer.cells@[post.buffer.spec_index_of(hx, hy)] == (Cell {
                    fg: highlight.fg,
                    bg: highlight.bg,
                    ..pre.buffer.cells@[pre.buffer.spec_index_of(hx, hy)]
                })
            }
        },
    }
}

/// An optional cap cell was painted, or nothing happened without one.
pub open spec fn cap_step(
    pre: DrawContext,
    post: DrawContext,
    view: Rect,
    cap: Option<crate::scrollbar::ScrollBarLayoutCap>,
    x: int,
    color_fg: crate::color::Blended,
    color_bg: crate::color::Blended,
    invert: bool,
) -> bool {
    match cap {
        Some(c) => cap_painted(
            pre,
            post,
            view,
            x,
            c.absolute_position as int,
            c.height_eighths,
            color_fg,
            color_bg,
            invert,
        ),
        None => cells_same(pre, post),
    }
}

/// The scrollbar of a scroll pane was painted: with an animation and a
/// computed geometry whose faded alphas are still visible, the rail above
/// and below the bar, the two optional cap cells, and the bar's full cells
/// (blanked and filled) are composited in that order; otherwise the
/// surface is untouched.
pub open spec fn scroll_bar_painted(
    pre: DrawContext,
    post: DrawContext,
    view: Rect,
    s: crate::widgets::ScrollPaneState,
    now: u64,
) -> bool {
    match s.animation {
        None => cells_same(pre, post),
        Some(animation) => match s.scroll_bar_layout {
            None => cells_same(pre, post),
            Some(layout) => {
                let alpha_rail = crate::fixed::spec_fx_lerp(
                    s.color_rail.alpha as int,
                    0,
                    animation.spec_progress_at(now as int),
                );
                let alpha_bar = crate::fixed::spec_fx_lerp(
                    s.color_bar.alpha as int,
                    0,
                    animation.spec_progress_at(now as int),
                );
                if alpha_rail <= 0 && alpha_bar <= 0 {
                    cells_same(pre, post)
                } else {
                    let rail = crate::color::Blended {
                        color: s.color_rail.color,
                        alpha: alpha_rail as i64,
                    };
                    let bar = crate::color::Blended {
                        color: s.color_bar.color,
                        alpha: alpha_bar as i64,
                    };
                    exists|c1: DrawContext, c2: DrawContext, c3: DrawContext, c4: DrawContext|
                        {
                            &&& #[trigger] rail_painted(pre, c1, view, layout.rail_x as int,
                                layout.rail_top_start as int, layout.rail_top_end as int, rail,
                                false)
                            &&& #[trigger] rail_painted(c1, c2, view, layout.rail_x as int,
                                layout.rail_bottom_start as int, layout.rail_bottom_end as int,
                                rail, false)
                            &&& #[trigger] cap_step(c2, c3, view, layout.bar_start_cap,
                                layout.rail_x as int, bar, rail, false)
                            &&& #[trigger] cap_step(c3, c4, view, layout.bar_end_cap,
                                layout.rail_x as int, bar, rail, true)
                            &&& rail_painted(c4, post, view, layout.rail_x as int,
                                layout.bar_start_ceil as int, layout.bar_end_floor as int, bar,
                                true)
                        }
                }
            },
        },
    }
}

/// Whether the node with this identifier is the focused one: the last
/// entry of the focus path (never the root, whose path is empty).
pub open spec fn spec_is_focused(focused: Seq<ComponentId>, id: ComponentId) -> bool {
    focused.len() > 0 && focused.last().0 == id.0
}

/// The style a button shows: pressed wins over focused wins over plain.
pub open spec fn spec_button_color(b: crate::widgets::ButtonState, focused: bool) -> TextColor {
    if b.held_down {
        b.text_color_pressed
    } else if focused {
        b.text_color_focused
    } else {
        b.text_color_unfocused
    }
}

/// The row a text block line lands on: rows advance by one per line and
/// saturate at the coordinate working range.
pub open spec fn spec_row_at(y0: int, j: int) -> int {
    if y0 + j <= 0x100_0000_0000 {
        y0 + j
    } else {
        0x100_0000_0000
    }
}

/// The wrapped lines of a text block were painted, one row per line from
/// `y0` downward (rows past the working range, and overlong lines, are
/// skipped as drawn).
pub open spec fn line_step(
    mid: DrawContext,
    post: DrawContext,
    view: Rect,
    x: int,
    y0: int,
    lines: Seq<Seq<char>>,
    color: TextColor,
) -> bool {
    text_step(
        mid,
        post,
        view,
        spec_row_at(y0, lines.len() - 1) < 0x100_0000_0000 && lines.last().len() <= 0xFFFF,
        x,
        spec_row_at(y0, lines.len() - 1),
        lines.last(),
        color,
    )
}

pub open spec fn lines_painted(
    pre: DrawContext,
    post: DrawContext,
    view: Rect,
    x: int,
    y0: int,
    lines: Seq<Seq<char>>,
    color: TextColor,
) -> bool
    decreases lines.len(),
{
    if lines.len() == 0 {
        cells_same(pre, post)
    } else {
        exists|mid: DrawContext|
            {
                &&& lines_painted(pre, mid, view, x, y0, lines.drop_last(), color)
                &&& #[trigger] line_step(mid, post, view, x, y0, lines, color)
            }
    }
}

/// Extending a painted run of lines by one more line.
proof fn lemma_lines_step(
    pre: DrawContext,
    mid: DrawContext,
    post: DrawContext,
    view: Rect,
    x: int,
    y0: int,
    lines: Seq<Seq<char>>,
    extra: Seq<char>,
    color: TextColor,
)
    requires
        lines_painted(pre, mid, view, x, y0, lines, color),
        text_step(
            mid,
            post,
            view,
            spec_row_at(y0, lines.len() as int) < 0x100_0000_0000 && extra.len() <= 0xFFFF,
            x,
            spec_row_at(y0, lines.len() as int),
            extra,
            color,
        ),
    ensures
        lines_painted(pre, post, view, x, y0, lines.push(extra), color),
{
    let grown = lines.push(extra);
    assert(grown.drop_last() =~= lines);
    assert(grown.last() == extra);
    assert(lines_painted(pre, mid, view, x, y0, grown.drop_last(), color));
    assert(line_step(mid, post, view, x, y0, grown, color));
}

/// The button's label run (first drawing step of a button).
pub open spec fn button_text_step(
    pre: DrawContext,
    mid: DrawContext,
    view: Rect,
    b: crate::widgets::ButtonState,
    focused: bool,
    area: Rect,
) -> bool {
    let color = spec_button_color(b, focused);
    let label_len = if b.label@.len() > 0xFFFF {
        0xFFFF
    } else {
        b.label@.len() as int
    };
    let off = if area.spec_width() > label_len {
        (area.spec_width() - label_len) / 2
    } else {
        0
    };
    text_step(pre, mid, view, b.label@.len() <= 0xFFFF, area.min_x + off, area.min_y as int,
        b.label@, color)
}

/// The button's row restyle (second drawing step of a button).
pub open spec fn button_style_step(
    mid: DrawContext,
    post: DrawContext,
    view: Rect,
    b: crate::widgets::ButtonState,
    focused: bool,
    area: Rect,
) -> bool {
    let color = spec_button_color(b, focused);
    let row = Rect {
        min_x: area.min_x,
        min_y: area.min_y,
        max_x: area.max_x,
        max_y: if area.min_y < area.max_y {
            (area.min_y + 1) as i64
        } else {
            area.max_y
        },
    };
    styled_painted(mid, post, view, row, color)
}

/// The checkbox's mark run.
pub open spec fn checkbox_mark_step(
    pre: DrawContext,
    mid: DrawContext,
    view: Rect,
    cb: crate::widgets::CheckboxState,
    area: Rect,
) -> bool {
    let mark = if cb.checked {
        cb.string_checked@
    } else {
        cb.string_unchecked@
    };
    text_step(pre, mid, view, mark.len() <= 0xFFFF, area.min_x as int, area.min_y as int, mark,
        TextColor::spec_white_on_black())
}

/// The checkbox's label run, one cell after the mark.
pub open spec fn checkbox_label_step(
    mid: DrawContext,
    post: DrawContext,
    view: Rect,
    cb: crate::widgets::CheckboxState,
    area: Rect,
) -> bool {
    let mark = if cb.checked {
        cb.string_checked@
    } else {
        cb.string_unchecked@
    };
    let mark_len = if mark.len() > 0xFFFF {
        0xFFFF
    } else {
        mark.len() as int
    };
    text_step(mid, post, view, cb.label@.len() <= 0xFFFF, area.min_x + mark_len + 1,
        area.min_y as int, cb.label@, TextColor::spec_white_on_black())
}

/// The status line's right-aligned text run.
pub open spec fn status_text_step(
    pre: DrawContext,
    mid: DrawContext,
    view: Rect,
    o: crate::widgets::OpenStatusState,
    area: Rect,
) -> bool {
    let text_len = if o.text@.len() > 0xFFFF {
        0xFFFF
    } else {
        o.text@.len() as int
    };
    let off = if area.spec_width() > text_len {
        area.spec_width() - text_len
    } else {
        0
    };
    text_step(pre, mid, view, o.text@.len() <= 0xFFFF, area.min_x + off, area.min_y as int,
        o.text@, o.color)
}

/// The status line's animation over its text row (or nothing without one).
pub open spec fn status_anim_step(
    mid: DrawContext,
    post: DrawContext,
    view: Rect,
    o: crate::widgets::OpenStatusState,
    area: Rect,
    now: u64,
    elapsed: u64,
) -> bool {
    let text_len = if o.text@.len() > 0xFFFF {
        0xFFFF
    } else {
        o.text@.len() as int
    };
    let off = if area.spec_width() > text_len {
        area.spec_width() - text_len
    } else {
        0
    };
    let row = Rect {
        min_x: (area.min_x + off) as i64,
        min_y: area.min_y,
        max_x: (area.min_x + off + text_len) as i64,
        max_y: (area.min_y + 1) as i64,
    };
    match o.animation {
        Some(a) => anim_painted(mid, post, view, a, row, now, elapsed),
        None => cells_same(mid, post),
    }
}

/// What a widget put into the view, exactly, per widget kind.
pub open spec fn widget_painted(
    pre: DrawContext,
    post: DrawContext,
    view: Rect,
    node: Node,
    abs: crate::layout::AbsoluteLayout,
) -> bool {
    let white = TextColor::spec_white_on_black();
    let area = abs.content_rect;
    match node.widget {
        crate::widgets::Widget::Pane => cells_same(pre, post),
        crate::widgets::Widget::LayoutPlaceholder => cells_same(pre, post),
        crate::widgets::Widget::RadioArray(_) => cells_same(pre, post),
        crate::widgets::Widget::Button(b) => {
            if area.spec_width() == 0 && area.spec_height() == 0 {
                cells_same(pre, post)
            } else {
                let focused = spec_is_focused(pre.focused@, node.id);
                exists|mid: DrawContext|
                    {
                        &&& #[trigger] button_text_step(pre, mid, view, b, focused, area)
                        &&& button_style_step(mid, post, view, b, focused, area)
                    }
            }
        },
        crate::widgets::Widget::Checkbox(cb) => exists|mid: DrawContext|
            {
                &&& #[trigger] checkbox_mark_step(pre, mid, view, cb, area)
                &&& checkbox_label_step(mid, post, view, cb, area)
            },
        crate::widgets::Widget::InputField(f) => text_step(
            pre,
            post,
            view,
            f.content@.len() <= 0xFFFF,
            area.min_x as int,
            area.min_y as int,
            f.content@,
            white,
        ),
        crate::widgets::Widget::Spinner(sp) => text_step(
            pre,
            post,
            view,
            sp.text@.len() <= 0xFFFF,
            area.min_x as int,
            area.min_y as int,
            sp.text@,
            white,
        ),
        crate::widgets::Widget::TextBlock(t) => {
            let width = if area.spec_width() > 0xFFFF {
                0xFFFF as usize
            } else {
                area.spec_width() as usize
            };
            lines_painted(
                pre,
                post,
                view,
                area.min_x as int,
                area.min_y as int,
                crate::text::spec_wrapped_lines(t.lines_view(), width),
                white,
            )
        },
        crate::widgets::Widget::OpenStatus(o) => exists|mid: DrawContext|
            {
                &&& #[trigger] status_text_step(pre, mid, view, o, area)
                &&& status_anim_step(mid, post, view, o, area, pre.now_ms, pre.elapsed_ms)
            },
        crate::widgets::Widget::ScrollPane(s) => scroll_bar_painted(pre, post, view, s,
            pre.now_ms),
    }
}

/// The same context with its view replaced.
pub open spec fn with_view(c: DrawContext, view: Rect) -> DrawContext {
    DrawContext { view, ..c }
}

/// What composing a component subtree put into the frame: nothing when the
/// node's clip rectangle misses the view; otherwise the widget's own
/// painting into the clipped view, then each child subtree composed over
/// it, in child order.
pub open spec fn composed(pre: DrawContext, post: DrawContext, view: Rect, node: Node) -> bool
    decreases node, node.children.len() + 1,
{
    match node.layout.absolute {
        None => cells_same(pre, post),
        Some(abs) => {
            let clip = abs.overflow_rect_clip.spec_intersect(view);
            if clip.spec_is_empty() {
                cells_same(pre, post)
            } else {
                exists|mid: DrawContext|
                    {
                        &&& #[trigger] widget_painted(with_view(pre, clip), mid, clip, node, abs)
                        &&& composed_upto(mid, with_view(post, clip), clip, node,
                            node.children.len() as int)
                    }
            }
        },
    }
}

/// The first `i` children composed in order.
pub open spec fn composed_upto(
    pre: DrawContext,
    post: DrawContext,
    view: Rect,
    node: Node,
    i: int,
) -> bool
    decreases node, i,
{
    if i <= 0 || i > node.children.len() {
        cells_same(pre, post)
    } else {
        exists|mid: DrawContext|
            {
                &&& #[trigger] ctx_wf(mid)
                &&& composed_upto(pre, mid, view, node, i - 1)
                &&& composed(mid, post, view, node.children[i - 1])
            }
    }
}

/// Extending a composed run of children by one more child.
proof fn lemma_composed_step(
    pre: DrawContext,
    mid: DrawContext,
    post: DrawContext,
    view: Rect,
    node: Node,
    i: int,
)
    requires
        0 <= i < node.children.len(),
        ctx_wf(mid),
        composed_upto(pre, mid, view, node, i),
        composed(mid, post, view, node.children[i]),
    ensures
        composed_upto(pre, post, view, node, i + 1),
{
    assert(composed_upto(pre, mid, view, node, (i + 1) - 1));
    assert(composed(mid, post, view, node.children[(i + 1) - 1]));
}

impl DrawContext {
    /// A fresh context drawing to the whole surface.
    pub fn new(buffer: Buffer, focused: Vec<ComponentId>, now_ms: u64, elapsed_ms: u64) -> (r:
        DrawContext)
        requires
            buffer.wf(),
        ensures
            ctx_wf(r),
            r.buffer == buffer,
            r.view == (Rect {
                min_x: 0,
                min_y: 0,
                max_x: buffer.width as i64,
                max_y: buffer.height as i64,
            }),
            r.focused == focused,
            r.now_ms == now_ms && r.elapsed_ms == elapsed_ms,
    {
        let view = Rect {
            min_x: 0,
            min_y: 0,
            max_x: buffer.width as i64,
            max_y: buffer.height as i64,
        };
        DrawContext { buffer, focused, now_ms, elapsed_ms, view }
    }

    /// The identifier of the focused component (the root when the path is
    /// empty).
    pub fn focused_id(&self, root_id: ComponentId) -> (r: ComponentId)
        ensures
            r == if self.focused@.len() > 0 {
                self.focused@.last()
            } else {
                root_id
            },
    {
        if self.focused.len() > 0 {
            self.focused[self.focused.len() - 1]
        } else {
            root_id
        }
    }

    /// Writes one cell, clipped to the view.
    pub fn put_cell(&mut self, x: i64, y: i64, cell: Cell)
        requires
            ctx_wf(*old(self)),
            cell_ok(cell),
        ensures
            ctx_wf(*final(self)),
            final(self).view == old(self).view,
            final(self).focused == old(self).focused,
            final(self).now_ms == old(self).now_ms
                && final(self).elapsed_ms == old(self).elapsed_ms,
            confined(*old(self), *final(self), old(self).view),
            old(self).view.spec_contains(x as int, y as int) && old(self).buffer.spec_contains(
                x as int,
                y as int,
            ) ==> final(self).buffer.cells@ == old(self).buffer.cells@.update(
                old(self).buffer.spec_index_of(x as int, y as int),
                cell,
            ),
            !(old(self).view.spec_contains(x as int, y as int) && old(
                self,
            ).buffer.spec_contains(x as int, y as int)) ==> final(self).buffer.cells@ == old(
                self,
            ).buffer.cells@,
    {
        if self.view.contains(x, y) {
            let ghost pre = self.buffer;
            self.buffer.set_cell(x, y, cell);
            proof {
                assert forall|px: int, py: int| self.buffer.spec_contains(px, py)
                    && !old(self).view.spec_contains(px, py) implies self.buffer.cells@[
                    #[trigger] self.buffer.spec_index_of(px, py)
                ] == pre.cells@[pre.spec_index_of(px, py)] by {
                    pre.lemma_index_bounds(px, py);
                    if pre.spec_contains(x as int, y as int) {
                        pre.lemma_index_bounds(x as int, y as int);
                        if pre.spec_index_of(px, py) == pre.spec_index_of(x as int, y as int) {
                            pre.lemma_index_injective(px, py, x as int, y as int);
                        }
                    }
                }
            }
        }
    }

    /// Reads the cell at an absolute position, or nothing when the position
    /// lies outside the view or the surface.
    pub fn get_cell(&self, x: i64, y: i64) -> (r: Option<Cell>)
        requires
            ctx_wf(*self),
        ensures
            match r {
                Some(c) => self.view.spec_contains(x as int, y as int)
                    && self.buffer.spec_contains(x as int, y as int) && c == self.buffer.cells@[
                    self.buffer.spec_index_of(x as int, y as int)
                ] && cell_ok(c),
                None => !(self.view.spec_contains(x as int, y as int)
                    && self.buffer.spec_contains(x as int, y as int)),
            },
    {
        if self.view.contains(x, y) {
            self.buffer.cell_at(x, y)
        } else {
            None
        }
    }

    /// Applies a foreground/background style to every cell of `area`
    /// (clipped to the view), keeping the glyphs.
    #[verifier::loop_isolation(false)]
    #[verifier::rlimit(60)]
    pub fn set_style(&mut self, area: Rect, color: TextColor)
        requires
            ctx_wf(*old(self)),
            text_color_ok(color),
            area.ok(),
            old(self).view.ok(),
        ensures
            ctx_wf(*final(self)),
            final(self).view == old(self).view,
            final(self).focused == old(self).focused,
            final(self).now_ms == old(self).now_ms
                && final(self).elapsed_ms == old(self).elapsed_ms,
            confined(*old(self), *final(self), old(self).view),
            confined(*old(self), *final(self), area),
            forall|x: int, y: int| final(self).buffer.spec_contains(x, y)
                && old(self).view.spec_contains(x, y) && area.spec_contains(x, y)
                ==> final(self).buffer.cells@[
                    #[trigger] final(self).buffer.spec_index_of(x, y)
                ] == (Cell {
                fg: color.fg,
                bg: color.bg,
                ..old(self).buffer.cells@[old(self).buffer.spec_index_of(x, y)]
            }),
    {
        let clipped = area.intersect(&self.view).clip();
        let min_y = clipped.min_y;
        let max_y = clipped.max_y;
        let min_x = clipped.min_x;
        let max_x = clipped.max_x;
        let ghost pre = *self;
        let mut y = min_y;
        while y < max_y
            invariant
                ctx_wf(*self),
                self.view == pre.view,
                self.focused == pre.focused,
                self.now_ms == pre.now_ms && self.elapsed_ms == pre.elapsed_ms,
                min_y <= y || y == min_y,
                clipped == area.spec_intersect(pre.view).spec_clip(),
                self.buffer.width == pre.buffer.width && self.buffer.height == pre.buffer.height,
                self.buffer.cells@.len() == pre.buffer.cells@.len(),
                forall|px: int, py: int| self.buffer.spec_contains(px, py) && !(area.spec_contains(
                    px,
                    py,
                ) && pre.view.spec_contains(px, py) && py < y) ==> self.buffer.cells@[
                    #[trigger] self.buffer.spec_index_of(px, py)
                ] == pre.buffer.cells@[pre.buffer.spec_index_of(px, py)],
                forall|px: int, py: int| self.buffer.spec_contains(px, py) && area.spec_contains(
                    px,
                    py,
                ) && pre.view.spec_contains(px, py) && py < y ==> self.buffer.cells@[
                    #[trigger] self.buffer.spec_index_of(px, py)
                ] == (Cell {
                    fg: color.fg,
                    bg: color.bg,
                    ..pre.buffer.cells@[pre.buffer.spec_index_of(px, py)]
                }),
            decreases max_y - y,
        {
            proof {
                assert forall|px: int, py: int| self.buffer.spec_contains(px, py)
                    && area.spec_contains(px, py) && pre.view.spec_contains(px, py) && (py < y
                    || (py == y && px < min_x as int)) implies self.buffer.cells@[
                    #[trigger] self.buffer.spec_index_of(px, py)
                ] == (Cell {
                    fg: color.fg,
                    bg: color.bg,
                    ..pre.buffer.cells@[pre.buffer.spec_index_of(px, py)]
                }) by {
                    if py == y {
                        crate::geometry::lemma_clip_contains(area.spec_intersect(pre.view), px,
                            py);
                        assert(area.spec_intersect(pre.view).spec_contains(px, py));
                        assert(clipped.spec_contains(px, py));
                        assert(false);
                    }
                }
            }
            let mut x = min_x;
            while x < max_x
                invariant
                    ctx_wf(*self),
                    self.view == pre.view,
                    self.focused == pre.focused,
                    self.now_ms == pre.now_ms && self.elapsed_ms == pre.elapsed_ms,
                    min_y <= y < max_y,
                    min_x <= x || x == min_x,
                    clipped == area.spec_intersect(pre.view).spec_clip(),
                    self.buffer.width == pre.buffer.width && self.buffer.height
                        == pre.buffer.height,
                    self.buffer.cells@.len() == pre.buffer.cells@.len(),
                    forall|px: int, py: int| self.buffer.spec_contains(px, py) && !(
                    area.spec_contains(px, py) && pre.view.spec_contains(px, py) && (py < y || (py
                        == y && px < x))) ==> self.buffer.cells@[
                        #[trigger] self.buffer.spec_index_of(px, py)
                    ] == pre.buffer.cells@[pre.buffer.spec_index_of(px, py)],
                    forall|px: int, py: int| self.buffer.spec_contains(px, py)
                        && area.spec_contains(px, py) && pre.view.spec_contains(px, py) && (py < y
                        || (py == y && px < x)) ==> self.buffer.cells@[
                        #[trigger] self.buffer.spec_index_of(px, py)
                    ] == (Cell {
                        fg: color.fg,
                        bg: color.bg,
                        ..pre.buffer.cells@[pre.buffer.spec_index_of(px, py)]
                    }),
                decreases max_x - x,
            {
                let ghost step_pre = self.buffer;
                proof {
                    assert(clipped.spec_contains(x as int, y as int));
                    crate::geometry::lemma_clip_contains(area.spec_intersect(pre.view), x as int,
                        y as int);
                    assert(area.spec_contains(x as int, y as int));
                    assert(pre.view.spec_contains(x as int, y as int));
                }
                match self.buffer.cell_at(x, y) {
                    Some(c) => {
                        self.buffer.set_cell(x, y, Cell { fg: color.fg, bg: color.bg, ..c });
                        proof {
                            assert forall|px: int, py: int| self.buffer.spec_contains(px, py)
                                && !(px == x as int && py == y as int) implies self.buffer.cells@[
                                #[trigger] self.buffer.spec_index_of(px, py)
                            ] == step_pre.cells@[step_pre.spec_index_of(px, py)] by {
                                step_pre.lemma_index_bounds(px, py);
                                step_pre.lemma_index_bounds(x as int, y as int);
                                if step_pre.spec_index_of(px, py) == step_pre.spec_index_of(
                                    x as int,
                                    y as int,
                                ) {
                                    step_pre.lemma_index_injective(px, py, x as int, y as int);
                                }
                            }
                            step_pre.lemma_index_bounds(x as int, y as int);
                        }
                    },
                    None => {},
                }
                x = x + 1;
            }
            proof {
                assert forall|px: int, py: int| self.buffer.spec_contains(px, py)
                    && area.spec_contains(px, py) && pre.view.spec_contains(px, py) && py < y + 1
                    implies self.buffer.cells@[
                    #[trigger] self.buffer.spec_index_of(px, py)
                ] == (Cell {
                    fg: color.fg,
                    bg: color.bg,
                    ..pre.buffer.cells@[pre.buffer.spec_index_of(px, py)]
                }) by {
                    if py == y {
                        crate::geometry::lemma_clip_contains(area.spec_intersect(pre.view), px,
                            py);
                        assert(area.spec_intersect(pre.view).spec_contains(px, py));
                        assert(clipped.spec_contains(px, py));
                        assert(px < max_x);
                    }
                }
            }
            y = y + 1;
        }
    }
}

/// Confinement composes across successive draw calls.
pub proof fn lemma_confined_trans(a: DrawContext, b: DrawContext, c: DrawContext, view: Rect)
    requires
        confined(a, b, view),
        confined(b, c, view),
    ensures
        confined(a, c, view),
{
    assert forall|x: int, y: int| c.buffer.spec_contains(x, y) && !view.spec_contains(x, y)
        implies c.buffer.cells@[#[trigger] c.buffer.spec_index_of(x, y)] == a.buffer.cells@[
        a.buffer.spec_index_of(x, y)
    ] by {
        assert(b.buffer.cells@[b.buffer.spec_index_of(x, y)] == a.buffer.cells@[
            a.buffer.spec_index_of(x, y)
        ]);
    }
}

/// Writes confined to a smaller rectangle are confined to any larger one.
pub proof fn lemma_confined_weaken(a: DrawContext, b: DrawContext, small: Rect, large: Rect)
    requires
        confined(a, b, small),
        forall|x: int, y: int| small.spec_contains(x, y) ==> #[trigger] large.spec_contains(x, y),
    ensures
        confined(a, b, large),
{
}

/// What drawing needs of every node: a resolved absolute layout with
/// in-range rectangles, and well-formed animation state.
/// Rectangles a resolved layout can produce: well inside the range the
/// resolver maintains.
pub open spec fn rect_in_range(r: Rect) -> bool {
    &&& -0x100_0000_0000 <= r.min_x <= 0x100_0000_0000
    &&& -0x100_0000_0000 <= r.min_y <= 0x100_0000_0000
    &&& -0x100_0000_0000 <= r.max_x <= 0x100_0000_0000
    &&& -0x100_0000_0000 <= r.max_y <= 0x100_0000_0000
}

pub open spec fn node_drawable(n: Node) -> bool {
    &&& n.layout.absolute matches Some(abs) && rect_in_range(abs.overflow_rect_clip)
        && rect_in_range(abs.content_rect) && rect_in_range(abs.padding_rect)
        && rect_in_range(abs.border_rect)
    &&& match n.widget {
        crate::widgets::Widget::ScrollPane(s) => {
            &&& crate::color::blended_ok(s.color_rail)
            &&& crate::color::blended_ok(s.color_bar)
            &&& s.animation matches Some(a) ==> crate::animation::progress_ok(a.progress)
        },
        crate::widgets::Widget::Button(b) => text_color_ok(b.text_color_unfocused)
            && text_color_ok(b.text_color_focused) && text_color_ok(b.text_color_pressed),
        crate::widgets::Widget::OpenStatus(o) => {
            &&& text_color_ok(o.color)
            &&& match o.animation {
                Some(a) => rect_animation_ok(a),
                None => true,
            }
        },
        _ => true,
    }
}

/// A rectangle animation the draw context can sample.
pub open spec fn rect_animation_ok(a: crate::animation::RectAnimation) -> bool {
    match a {
        crate::animation::RectAnimation::Static { color } => text_color_ok(color),
        crate::animation::RectAnimation::ProgressIndeterminate { period_ms, highlight } => 0
            < period_ms <= 0x40_0000_0000 && text_color_ok(highlight),
        crate::animation::RectAnimation::Ease { blend, color_start, color_end } => {
            &&& crate::animation::progress_ok(blend.progress)
            &&& text_color_ok(color_start)
            &&& text_color_ok(color_end)
        },
    }
}

/// Every node of a subtree is drawable.
pub open spec fn tree_drawable(n: Node) -> bool
    decreases n,
{
    &&& node_drawable(n)
    &&& forall|i: int| 0 <= i < n.children.len() ==> tree_drawable(#[trigger] n.children[i])
}

impl DrawContext {
    /// Writes a run of styled text at a row, clipped to the view: within
    /// the view, cell `(x+i, y)` takes the `i`-th character and the colors;
    /// every other cell is untouched.
    #[verifier::loop_isolation(false)]
    #[verifier::rlimit(100)]
    #[verifier::spinoff_prover]
    pub fn draw_text(&mut self, x: i64, y: i64, text: &Vec<char>, color: TextColor)
        requires
            ctx_wf(*old(self)),
            text_color_ok(color),
            -0x200_0000_0000 <= x && x + text@.len() <= 0x200_0000_0000,
            -0x200_0000_0000 <= y <= 0x200_0000_0000,
        ensures
            ctx_wf(*final(self)),
            final(self).view == old(self).view,
            final(self).focused == old(self).focused,
            final(self).now_ms == old(self).now_ms
                && final(self).elapsed_ms == old(self).elapsed_ms,
            confined(*old(self), *final(self), old(self).view),
            text_painted(*old(self), *final(self), old(self).view, x as int, y as int, text@,
                color),
    {
        let ghost entry = *self;
        for i in 0..text.len()
            invariant
                ctx_wf(*self),
                self.view == entry.view,
                self.focused == entry.focused,
                self.now_ms == entry.now_ms && self.elapsed_ms == entry.elapsed_ms,
                confined(entry, *self, entry.view),
                text_painted(entry, *self, entry.view, x as int, y as int, text@.subrange(
                    0,
                    i as int,
                ), color),
        {
            let ghost before = *self;
            self.put_cell(x + i as i64, y, Cell { symbol: text[i], fg: color.fg, bg: color.bg });
            proof {
                lemma_confined_trans(entry, before, *self, entry.view);
                let run = text@.subrange(0, i + 1);
                let prev = text@.subrange(0, i as int);
                let tx = x as int + i;
                let ty = y as int;
                let wrote = entry.view.spec_contains(tx, ty) && before.buffer.spec_contains(
                    tx,
                    ty,
                );
                let widx = before.buffer.spec_index_of(tx, ty);
                let cellv = Cell { symbol: text@[i as int], fg: color.fg, bg: color.bg };
                if wrote {
                    before.buffer.lemma_index_bounds(tx, ty);
                    assert(self.buffer.cells@ == before.buffer.cells@.update(widx, cellv));
                } else {
                    assert(self.buffer.cells@ == before.buffer.cells@);
                }
                assert forall|px: int, py: int| self.buffer.spec_contains(px, py) && !(py == ty
                    && x <= px < x + run.len() && entry.view.spec_contains(px, py))
                    implies self.buffer.cells@[#[trigger] self.buffer.spec_index_of(px, py)]
                    == entry.buffer.cells@[entry.buffer.spec_index_of(px, py)] by {
                    before.buffer.lemma_index_bounds(px, py);
                    if wrote {
                        before.buffer.lemma_index_bounds(tx, ty);
                        if before.buffer.spec_index_of(px, py) == widx {
                            before.buffer.lemma_index_injective(px, py, tx, ty);
                            assert(false);
                        }
                        lemma_cells_update_other(before.buffer.cells@, widx,
                            before.buffer.spec_index_of(px, py), cellv);
                    }
                    assert(self.buffer.cells@[self.buffer.spec_index_of(px, py)]
                        == before.buffer.cells@[before.buffer.spec_index_of(px, py)]);
                    assert(!(py == ty && x <= px < x + prev.len()
                        && entry.view.spec_contains(px, py)));
                }
                assert forall|j: int| 0 <= j < run.len() && entry.view.spec_contains(x + j, ty)
                    && entry.buffer.spec_contains(x + j, ty) implies self.buffer.cells@[
                    self.buffer.spec_index_of(x + j, ty)
                ] == (Cell { symbol: #[trigger] run[j], fg: color.fg, bg: color.bg }) by {
                    before.buffer.lemma_index_bounds(x + j, ty);
                    if j == i {
                        assert(wrote);
                        assert(run[j] == text@[i as int]);
                        lemma_cells_update_same(before.buffer.cells@, widx, cellv);
                    } else {
                        assert(run[j] == prev[j]);
                        assert(before.buffer.cells@[before.buffer.spec_index_of(x + j, ty)]
                            == (Cell { symbol: prev[j], fg: color.fg, bg: color.bg }));
                        if wrote {
                            before.buffer.lemma_index_bounds(tx, ty);
                            if before.buffer.spec_index_of(x + j, ty) == widx {
                                before.buffer.lemma_index_injective(x + j, ty, tx, ty);
                                assert(false);
                            }
                            lemma_cells_update_other(before.buffer.cells@, widx,
                                before.buffer.spec_index_of(x + j, ty), cellv);
                        }
                    }
                }
                assert(text_painted(entry, *self, entry.view, x as int, y as int, run, color));
            }
        }
        proof {
            assert(text@.subrange(0, text@.len() as int) =~= text@);
        }
    }

    /// Composes a component subtree into the frame: clips the view to the
    /// node's resolved overflow-clip rectangle, skips the whole subtree
    /// when nothing of it is visible, paints the widget, and recurses into
    /// the children in order (later children paint over earlier ones).
    /// Nothing is ever written outside the incoming view, nor outside the
    /// node's clip rectangle.
    #[verifier::loop_isolation(false)]
    #[verifier::rlimit(60)]
    pub fn draw_component(&mut self, node: &Node)
        requires
            ctx_wf(*old(self)),
            tree_drawable(*node),
            old(self).view.ok(),
            crate::animation::instant_ok(old(self).now_ms),
        ensures
            ctx_wf(*final(self)),
            final(self).view == old(self).view,
            final(self).focused == old(self).focused,
            final(self).now_ms == old(self).now_ms
                && final(self).elapsed_ms == old(self).elapsed_ms,
            confined(*old(self), *final(self), old(self).view),
            confined(*old(self), *final(self), node.layout.absolute.unwrap().overflow_rect_clip),
            composed(*old(self), *final(self), old(self).view, *node),
        decreases *node,
    {
        let abs = match &node.layout.absolute {
            Some(abs) => *abs,
            None => {
                proof {
                    assert(false);
                }
                return ;
            },
        };
        let clip = abs.overflow_rect_clip.intersect(&self.view);
        if clip.is_empty() {
            // The component is entirely outside the visible region: skip
            // it and its whole subtree.
            proof {
                assert(composed(*old(self), *self, old(self).view, *node));
            }
            return ;
        }
        let ghost entry = *self;
        let saved_view = self.view;
        self.view = clip;
        let ghost entry_clipped = *self;
        self.paint_widget(node, &abs);
        let ghost after_paint = *self;
        proof {
            assert(entry_clipped == with_view(entry, clip));
            assert(widget_painted(with_view(entry, clip), after_paint, clip, *node, abs));
            assert(composed_upto(after_paint, after_paint, clip, *node, 0));
        }
        let k = node.children.len();
        for i in 0..k
            invariant
                ctx_wf(*self),
                self.view == clip,
                self.focused == entry.focused,
                self.now_ms == entry.now_ms && self.elapsed_ms == entry.elapsed_ms,
                confined(entry, *self, clip),
                composed_upto(after_paint, *self, clip, *node, i as int),
        {
            let ghost before = *self;
            self.draw_component(&node.children[i]);
            proof {
                lemma_confined_trans(entry, before, *self, clip);
                lemma_composed_step(after_paint, before, *self, clip, *node, i as int);
            }
        }
        let ghost at_loop_end = *self;
        self.view = saved_view;
        proof {
            lemma_confined_weaken(entry, *self, clip, entry.view);
            lemma_confined_weaken(entry, *self, clip, abs.overflow_rect_clip);
            assert(with_view(*self, clip) == at_loop_end);
            assert(composed_upto(after_paint, with_view(*self, clip), clip, *node,
                node.children@.len() as int));
            assert(composed(entry, *self, entry.view, *node));
        }
    }

    /// Paints a single widget into the current view.
    #[verifier::loop_isolation(false)]
    #[verifier::rlimit(100)]
    #[verifier::spinoff_prover]
    fn paint_widget(&mut self, node: &Node, abs: &crate::layout::AbsoluteLayout)
        requires
            ctx_wf(*old(self)),
            node_drawable(*node),
            node.layout.absolute == Some(*abs),
            old(self).view.ok(),
            crate::animation::instant_ok(old(self).now_ms),
        ensures
            ctx_wf(*final(self)),
            final(self).view == old(self).view,
            final(self).focused == old(self).focused,
            final(self).now_ms == old(self).now_ms
                && final(self).elapsed_ms == old(self).elapsed_ms,
            confined(*old(self), *final(self), old(self).view),
            widget_painted(*old(self), *final(self), old(self).view, *node, *abs),
    {
        let ghost entry = *self;
        match &node.widget {
            crate::widgets::Widget::Button(b) => {
                let area = abs.content_rect;
                if area.width() == 0 && area.height() == 0 {
                    return ;
                }
                let focused = self.focused.len() > 0 && self.focused[self.focused.len() - 1].0
                    == node.id.0;
                let color = if b.held_down {
                    b.text_color_pressed
                } else if focused {
                    b.text_color_focused
                } else {
                    b.text_color_unfocused
                };
                // Center the label horizontally in a one-row area.
                let w = area.width();
                let label_len = if b.label.len() > 0xFFFF {
                    0xFFFFi64
                } else {
                    b.label.len() as i64
                };
                let off = if w > label_len {
                    (w - label_len) / 2
                } else {
                    0
                };
                let row = Rect {
                    min_x: area.min_x,
                    min_y: area.min_y,
                    max_x: area.max_x,
                    max_y: if area.min_y < area.max_y {
                        area.min_y + 1
                    } else {
                        area.max_y
                    },
                };
                if b.label.len() <= 0xFFFF {
                    self.draw_text(area.min_x + off, area.min_y, &b.label, color);
                }
                let ghost mid = *self;
                self.set_style(row, color);
                proof {
                    lemma_confined_trans(entry, mid, *self, entry.view);
                    let focused_s = spec_is_focused(entry.focused@, node.id);
                    assert(focused_s == focused);
                    assert(button_text_step(entry, mid, entry.view, *b, focused_s, area));
                    assert(button_style_step(mid, *self, entry.view, *b, focused_s, area));
                    assert(widget_painted(entry, *self, entry.view, *node, *abs));
                }
            },
            crate::widgets::Widget::Checkbox(cb) => {
                let mark = if cb.checked {
                    &cb.string_checked
                } else {
                    &cb.string_unchecked
                };
                let color = crate::color::TextColor::white_on_black();
                if mark.len() <= 0xFFFF {
                    self.draw_text(abs.content_rect.min_x, abs.content_rect.min_y, mark, color);
                }
                let mark_len = if mark.len() > 0xFFFF {
                    0xFFFFi64
                } else {
                    mark.len() as i64
                };
                let ghost mid = *self;
                if cb.label.len() <= 0xFFFF {
                    self.draw_text(
                        abs.content_rect.min_x + mark_len + 1,
                        abs.content_rect.min_y,
                        &cb.label,
                        color,
                    );
                }
                proof {
                    lemma_confined_trans(entry, mid, *self, entry.view);
                    assert(checkbox_mark_step(entry, mid, entry.view, *cb, abs.content_rect));
                    assert(checkbox_label_step(mid, *self, entry.view, *cb, abs.content_rect));
                    assert(widget_painted(entry, *self, entry.view, *node, *abs));
                }
            },
            crate::widgets::Widget::InputField(f) => {
                let color = crate::color::TextColor::white_on_black();
                if f.content.len() <= 0xFFFF {
                    self.draw_text(abs.content_rect.min_x, abs.content_rect.min_y, &f.content,
                        color);
                }
                proof {
                    assert(widget_painted(entry, *self, entry.view, *node, *abs));
                }
            },
            crate::widgets::Widget::TextBlock(t) => {
                let w = abs.content_rect.width();
                let width = if w < 0 {
                    0usize
                } else if w > 0xFFFF {
                    0xFFFFusize
                } else {
                    w as usize
                };
                let lines = t.wrapped_lines(width);
                let ghost wrapped = crate::text::spec_wrapped_lines(t.lines_view(), width);
                let ghost y0 = abs.content_rect.min_y as int;
                let color = crate::color::TextColor::white_on_black();
                let mut row: i64 = abs.content_rect.min_y;
                proof {
                    assert(wrapped.subrange(0, 0) =~= Seq::<Seq<char>>::empty());
                }
                let mut i: usize = 0;
                while i < lines.len()
                    invariant
                        ctx_wf(*self),
                        self.view == entry.view,
                        self.focused == entry.focused,
                        self.now_ms == entry.now_ms && self.elapsed_ms == entry.elapsed_ms,
                        confined(entry, *self, entry.view),
                        -0x100_0000_0000 <= abs.content_rect.min_y,
                        abs.content_rect.min_y <= row <= abs.content_rect.min_y + i,
                        i <= lines.len(),
                        lines@.map_values(|v: Vec<char>| v@) == wrapped,
                        row == spec_row_at(y0, i as int),
                        lines_painted(entry, *self, entry.view,
                            abs.content_rect.min_x as int, y0, wrapped.subrange(0, i as int),
                            color),
                    decreases lines.len() - i,
                {
                    let ghost before = *self;
                    if row < 0x100_0000_0000 && lines[i].len() <= 0xFFFF {
                        self.draw_text(abs.content_rect.min_x, row, &lines[i], color);
                        proof {
                            lemma_confined_trans(entry, before, *self, entry.view);
                        }
                    }
                    proof {
                        assert(wrapped[i as int] == lines@[i as int]@);
                        assert(text_step(before, *self, entry.view, spec_row_at(y0, i as int)
                            < 0x100_0000_0000 && wrapped[i as int].len() <= 0xFFFF,
                            abs.content_rect.min_x as int, spec_row_at(y0, i as int),
                            wrapped[i as int], color));
                        lemma_lines_step(entry, before, *self, entry.view,
                            abs.content_rect.min_x as int, y0, wrapped.subrange(0, i as int),
                            wrapped[i as int], color);
                        assert(wrapped.subrange(0, i as int).push(wrapped[i as int])
                            =~= wrapped.subrange(0, i + 1));
                    }
                    if row < 0x100_0000_0000 {
                        row = row + 1;
                    }
                    i = i + 1;
                }
                proof {
                    assert(wrapped.subrange(0, wrapped.len() as int) =~= wrapped);
                    assert(widget_painted(entry, *self, entry.view, *node, *abs));
                }
            },
            crate::widgets::Widget::Spinner(s) => {
                let color = crate::color::TextColor::white_on_black();
                if s.text.len() <= 0xFFFF {
                    self.draw_text(abs.content_rect.min_x, abs.content_rect.min_y, &s.text,
                        color);
                }
                proof {
                    assert(widget_painted(entry, *self, entry.view, *node, *abs));
                }
            },
            crate::widgets::Widget::OpenStatus(o) => {
                // Right-aligned within the content row.
                let w = abs.content_rect.width();
                let text_len = if o.text.len() > 0xFFFF {
                    0xFFFFi64
                } else {
                    o.text.len() as i64
                };
                let off = if w > text_len {
                    w - text_len
                } else {
                    0
                };
                let row = Rect {
                    min_x: abs.content_rect.min_x + off,
                    min_y: abs.content_rect.min_y,
                    max_x: abs.content_rect.min_x + off + text_len,
                    max_y: abs.content_rect.min_y + 1,
                };
                if o.text.len() <= 0xFFFF {
                    self.draw_text(abs.content_rect.min_x + off, abs.content_rect.min_y,
                        &o.text, o.color);
                }
                let ghost mid = *self;
                match &o.animation {
                    Some(animation) => {
                        self.apply_rect_animation(animation, row);
                        proof {
                            lemma_confined_trans(entry, mid, *self, entry.view);
                        }
                    },
                    None => {},
                }
                proof {
                    assert(status_text_step(entry, mid, entry.view, *o, abs.content_rect));
                    assert(status_anim_step(mid, *self, entry.view, *o, abs.content_rect,
                        entry.now_ms, entry.elapsed_ms));
                    assert(widget_painted(entry, *self, entry.view, *node, *abs));
                }
            },
            crate::widgets::Widget::ScrollPane(s) => {
                self.paint_scroll_bar(s, abs);
                proof {
                    assert(widget_painted(entry, *self, entry.view, *node, *abs));
                }
            },
            _ => {},
        }
    }

    /// Applies a rectangle animation to an area: a constant style fills it,
    /// the indeterminate animation highlights one sweeping cell, and an
    /// eased blend fills it with the interpolated style for this frame.
    pub fn apply_rect_animation(&mut self, animation: &crate::animation::RectAnimation,
        area: Rect)
        requires
            ctx_wf(*old(self)),
            rect_animation_ok(*animation),
            area.ok(),
            old(self).view.ok(),
            crate::animation::instant_ok(old(self).now_ms),
        ensures
            ctx_wf(*final(self)),
            final(self).view == old(self).view,
            final(self).focused == old(self).focused,
            final(self).now_ms == old(self).now_ms
                && final(self).elapsed_ms == old(self).elapsed_ms,
            confined(*old(self), *final(self), old(self).view),
            anim_painted(*old(self), *final(self), old(self).view, *animation, area,
                old(self).now_ms, old(self).elapsed_ms),
    {
        let ghost entry = *self;
        match animation {
            crate::animation::RectAnimation::Static { color } => {
                self.set_style(area, *color);
            },
            crate::animation::RectAnimation::ProgressIndeterminate { period_ms, highlight } => {
                let pos = crate::animation::sweep_position(self.elapsed_ms, *period_ms);
                let w = area.width();
                let wd = if w > 0x10000 {
                    0x10000i64
                } else {
                    w
                };
                if wd > 0 {
                    proof {
                        let p = pos as int;
                        let d = (wd - 1) as int;
                        assert(0 <= p * d <= 1_000_000 * 0x10000) by (nonlinear_arith)
                            requires 0 <= p <= 1_000_000 && 0 <= d <= 0x10000;
                    }
                    let index = crate::fixed::div_floor_i64(
                        pos * (wd - 1) + crate::fixed::SCALE / 2,
                        crate::fixed::SCALE,
                    );
                    let x = area.min_x + index;
                    match self.get_cell(x, area.min_y) {
                        Some(cell) => {
                            self.put_cell(x, area.min_y, Cell {
                                fg: highlight.fg,
                                bg: highlight.bg,
                                ..cell
                            });
                            proof {
                                let tx = x as int;
                                let ty = area.min_y as int;
                                entry.buffer.lemma_index_bounds(tx, ty);
                                let widx = entry.buffer.spec_index_of(tx, ty);
                                lemma_cells_update_same(entry.buffer.cells@, widx,
                                    self.buffer.cells@[widx]);
                                assert forall|px: int, py: int| self.buffer.spec_contains(px, py)
                                    && !(px == tx && py == ty) implies self.buffer.cells@[
                                    #[trigger] self.buffer.spec_index_of(px, py)
                                ] == entry.buffer.cells@[entry.buffer.spec_index_of(px, py)] by {
                                    entry.buffer.lemma_index_bounds(px, py);
                                    if entry.buffer.spec_index_of(px, py) == widx {
                                        entry.buffer.lemma_index_injective(px, py, tx, ty);
                                        assert(false);
                                    }
                                    lemma_cells_update_other(entry.buffer.cells@, widx,
                                        entry.buffer.spec_index_of(px, py),
                                        self.buffer.cells@[widx]);
                                }
                            }
                        },
                        None => {},
                    }
                }
            },
            crate::animation::RectAnimation::Ease { blend, color_start, color_end } => {
                let style = blend.apply(self.now_ms, color_start, color_end);
                self.set_style(area, style);
            },
        }
    }

    /// Paints the scrollbar of a scroll pane: the rail above and below the
    /// bar, partially filled cap cells at the bar's ends, and the full bar
    /// cells in between, all faded by the pane's blend animation and
    /// composited over the existing background.
    #[verifier::loop_isolation(false)]
    fn paint_scroll_bar(&mut self, s: &crate::widgets::ScrollPaneState,
        abs: &crate::layout::AbsoluteLayout)
        requires
            ctx_wf(*old(self)),
            crate::color::blended_ok(s.color_rail),
            crate::color::blended_ok(s.color_bar),
            s.animation matches Some(a) ==> crate::animation::progress_ok(a.progress),
            crate::animation::instant_ok(old(self).now_ms),
        ensures
            ctx_wf(*final(self)),
            final(self).view == old(self).view,
            final(self).focused == old(self).focused,
            final(self).now_ms == old(self).now_ms
                && final(self).elapsed_ms == old(self).elapsed_ms,
            confined(*old(self), *final(self), old(self).view),
            scroll_bar_painted(*old(self), *final(self), old(self).view, *s, old(self).now_ms),
    {
        let ghost entry = *self;
        let animation = match &s.animation {
            Some(a) => *a,
            None => {
                return ;
            },
        };
        let layout = match &s.scroll_bar_layout {
            Some(l) => *l,
            None => {
                return ;
            },
        };
        // Fade the rail and bar alphas toward zero.
        let alpha_rail = animation.apply_alpha(self.now_ms, s.color_rail.alpha, 0);
        let alpha_bar = animation.apply_alpha(self.now_ms, s.color_bar.alpha, 0);
        if alpha_rail <= 0 && alpha_bar <= 0 {
            return ;
        }
        let rail = crate::color::Blended::new(s.color_rail.color, alpha_rail);
        let bar = crate::color::Blended::new(s.color_bar.color, alpha_bar);
        // Rail above and below the bar.
        self.paint_rail_range(layout.rail_x, layout.rail_top_start, layout.rail_top_end, rail,
            false);
        let ghost c1 = *self;
        proof {
            lemma_confined_trans(entry, entry, c1, entry.view);
        }
        self.paint_rail_range(layout.rail_x, layout.rail_bottom_start, layout.rail_bottom_end,
            rail, false);
        let ghost c2 = *self;
        proof {
            lemma_confined_trans(entry, c1, c2, entry.view);
        }
        // Cap cells at the bar ends.
        match &layout.bar_start_cap {
            Some(cap) => {
                self.paint_block_cap(layout.rail_x, cap.absolute_position, cap.height_eighths,
                    bar, rail, false);
            },
            None => {},
        }
        let ghost c3 = *self;
        proof {
            lemma_confined_trans(entry, c2, c3, entry.view);
        }
        match &layout.bar_end_cap {
            Some(cap) => {
                self.paint_block_cap(layout.rail_x, cap.absolute_position, cap.height_eighths,
                    bar, rail, true);
            },
            None => {},
        }
        let ghost c4 = *self;
        proof {
            lemma_confined_trans(entry, c3, c4, entry.view);
        }
        // Full cells between the caps.
        self.paint_rail_range(layout.rail_x, layout.bar_start_ceil, layout.bar_end_floor, bar,
            true);
        proof {
            lemma_confined_trans(entry, c4, *self, entry.view);
            assert(rail_painted(entry, c1, entry.view, layout.rail_x as int,
                layout.rail_top_start as int, layout.rail_top_end as int, rail, false));
            assert(rail_painted(c1, c2, entry.view, layout.rail_x as int,
                layout.rail_bottom_start as int, layout.rail_bottom_end as int, rail, false));
            assert(cap_step(c2, c3, entry.view, layout.bar_start_cap, layout.rail_x as int, bar,
                rail, false));
            assert(cap_step(c3, c4, entry.view, layout.bar_end_cap, layout.rail_x as int, bar,
                rail, true));
            assert(rail_painted(c4, *self, entry.view, layout.rail_x as int,
                layout.bar_start_ceil as int, layout.bar_end_floor as int, bar, true));
            assert(scroll_bar_painted(entry, *self, entry.view, *s, entry.now_ms));
        }
    }

    /// Fills the cells of one column range with a blended background.
    #[verifier::loop_isolation(false)]
    #[verifier::rlimit(100)]
    #[verifier::spinoff_prover]
    fn paint_rail_range(&mut self, x: i64, y_start: i64, y_end: i64,
        color: crate::color::Blended, blank: bool)
        requires
            ctx_wf(*old(self)),
            crate::color::blended_ok(color),
        ensures
            ctx_wf(*final(self)),
            final(self).view == old(self).view,
            final(self).focused == old(self).focused,
            final(self).now_ms == old(self).now_ms
                && final(self).elapsed_ms == old(self).elapsed_ms,
            confined(*old(self), *final(self), old(self).view),
            rail_painted(*old(self), *final(self), old(self).view, x as int, y_start as int,
                y_end as int, color, blank),
    {
        let ghost entry = *self;
        let mut y = y_start;
        while y < y_end
            invariant
                ctx_wf(*self),
                self.view == entry.view,
                self.focused == entry.focused,
                self.now_ms == entry.now_ms && self.elapsed_ms == entry.elapsed_ms,
                confined(entry, *self, entry.view),
                y_start <= y,
                y <= y_end || y == y_start,
                rail_painted(entry, *self, entry.view, x as int, y_start as int, y as int,
                    color, blank),
            decreases y_end - y,
        {
            let ghost before = *self;
            match self.get_cell(x, y) {
                Some(cell) => {
                    let blended = color.over(&cell.bg);
                    let sym = if blank {
                        ' '
                    } else {
                        cell.symbol
                    };
                    self.put_cell(x, y, Cell { symbol: sym, fg: cell.fg, bg: blended });
                },
                None => {},
            }
            proof {
                lemma_confined_trans(entry, before, *self, entry.view);
                let tx = x as int;
                let ty = y as int;
                let wrote = entry.view.spec_contains(tx, ty) && before.buffer.spec_contains(
                    tx,
                    ty,
                );
                let widx = before.buffer.spec_index_of(tx, ty);
                if wrote {
                    before.buffer.lemma_index_bounds(tx, ty);
                }
                assert forall|px: int, py: int| self.buffer.spec_contains(px, py) && !(px == tx
                    && y_start <= py < ty + 1 && entry.view.spec_contains(px, py))
                    implies self.buffer.cells@[#[trigger] self.buffer.spec_index_of(px, py)]
                    == entry.buffer.cells@[entry.buffer.spec_index_of(px, py)] by {
                    before.buffer.lemma_index_bounds(px, py);
                    if wrote {
                        if before.buffer.spec_index_of(px, py) == widx {
                            before.buffer.lemma_index_injective(px, py, tx, ty);
                            assert(false);
                        }
                        lemma_cells_update_other(before.buffer.cells@, widx,
                            before.buffer.spec_index_of(px, py), self.buffer.cells@[widx]);
                    }
                }
                assert forall|py: int| y_start <= py < ty + 1 && entry.view.spec_contains(
                    tx,
                    py,
                ) && entry.buffer.spec_contains(tx, py) implies self.buffer.cells@[
                    #[trigger] self.buffer.spec_index_of(tx, py)
                ] == ({
                    let under = entry.buffer.cells@[entry.buffer.spec_index_of(tx, py)];
                    Cell {
                        symbol: if blank {
                            ' '
                        } else {
                            under.symbol
                        },
                        fg: under.fg,
                        bg: color.spec_over(under.bg),
                    }
                }) by {
                    before.buffer.lemma_index_bounds(tx, py);
                    if py == ty {
                        lemma_cells_update_same(before.buffer.cells@, widx,
                            self.buffer.cells@[widx]);
                    } else {
                        if wrote {
                            if before.buffer.spec_index_of(tx, py) == widx {
                                before.buffer.lemma_index_injective(tx, py, tx, ty);
                                assert(false);
                            }
                            lemma_cells_update_other(before.buffer.cells@, widx,
                                before.buffer.spec_index_of(tx, py), self.buffer.cells@[widx]);
                        }
                    }
                }
                assert(rail_painted(entry, *self, entry.view, x as int, y_start as int,
                    ty + 1, color, blank));
            }
            y = y + 1;
        }
        proof {
            if y_start >= y_end {
                assert(rail_painted(entry, *self, entry.view, x as int, y_start as int,
                    y_end as int, color, blank));
            }
        }
    }

    /// Draws a partially filled block cell at one end of the scrollbar.
    fn paint_block_cap(&mut self, x: i64, y: i64, height_eighths: u8,
        color_fg: crate::color::Blended, color_bg: crate::color::Blended, invert: bool)
        requires
            ctx_wf(*old(self)),
            crate::color::blended_ok(color_fg),
            crate::color::blended_ok(color_bg),
        ensures
            ctx_wf(*final(self)),
            final(self).view == old(self).view,
            final(self).focused == old(self).focused,
            final(self).now_ms == old(self).now_ms
                && final(self).elapsed_ms == old(self).elapsed_ms,
            confined(*old(self), *final(self), old(self).view),
            cap_painted(*old(self), *final(self), old(self).view, x as int, y as int,
                height_eighths, color_fg, color_bg, invert),
    {
        let ghost entry = *self;
        match self.get_cell(x, y) {
            Some(cell) => {
                let symbol = block_symbol(height_eighths);
                let mut fg = color_fg.over(&cell.bg);
                let mut bg = color_bg.over(&cell.bg);
                if invert {
                    let t = fg;
                    fg = bg;
                    bg = t;
                }
                self.put_cell(x, y, Cell { symbol, fg, bg });
                proof {
                    let tx = x as int;
                    let ty = y as int;
                    entry.buffer.lemma_index_bounds(tx, ty);
                    let widx = entry.buffer.spec_index_of(tx, ty);
                    lemma_cells_update_same(entry.buffer.cells@, widx, self.buffer.cells@[widx]);
                    assert forall|px: int, py: int| self.buffer.spec_contains(px, py) && !(px
                        == tx && py == ty) implies self.buffer.cells@[
                        #[trigger] self.buffer.spec_index_of(px, py)
                    ] == entry.buffer.cells@[entry.buffer.spec_index_of(px, py)] by {
                        entry.buffer.lemma_index_bounds(px, py);
                        if entry.buffer.spec_index_of(px, py) == widx {
                            entry.buffer.lemma_index_injective(px, py, tx, ty);
                            assert(false);
                        }
                        lemma_cells_update_other(entry.buffer.cells@, widx,
                            entry.buffer.spec_index_of(px, py), self.buffer.cells@[widx]);
                    }
                }
            },
            None => {},
        }
    }
}

/// The partial-block glyph covering the given number of eighths from the
/// top of a cell: a full block for zero, down to the lowest eighth, and a
/// blank for eight or more.
pub fn block_symbol(height_eighths: u8) -> (r: char)
    ensures
        r == spec_block_symbol(height_eighths),
{
    match height_eighths {
        0 => '\u{2588}',
        1 => '\u{2587}',
        2 => '\u{2586}',
        3 => '\u{2585}',
        4 => '\u{2584}',
        5 => '\u{2583}',
        6 => '\u{2582}',
        7 => '\u{2581}',
        _ => ' ',
    }
}

pub open spec fn spec_block_symbol(height_eighths: u8) -> char {
    match height_eighths {
        0u8 => '\u{2588}',
        1u8 => '\u{2587}',
        2u8 => '\u{2586}',
        3u8 => '\u{2585}',
        4u8 => '\u{2584}',
        5u8 => '\u{2583}',
        6u8 => '\u{2582}',
        7u8 => '\u{2581}',
        _ => ' ',
    }
}

} // verus!
