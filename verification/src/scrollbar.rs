//! Scrollbar geometry in eighths-of-a-cell units. One character cell is
//! eight units tall, so a bar boundary can land inside a cell and be
//! rendered with a partial-block glyph.

use vstd::prelude::*;

use crate::fixed::{div_ceil_i64, div_floor_i64};
use crate::geometry::Rect;

verus! {

/// A partially filled cell at one end of the bar.
#[derive(Clone, Copy, Debug, PartialEq, Eq, Structural)]
pub struct ScrollBarLayoutCap {
    /// How many eighths of the cell the bar covers; always in `1..=7`.
    pub height_eighths: u8,
    /// The cell row the cap occupies.
    pub absolute_position: i64,
}

/// Derived scrollbar geometry, recomputed whenever the absolute layout of
/// the owning scroll pane changes.
#[derive(Clone, Copy, Debug, PartialEq, Eq, Structural)]
pub struct ScrollBarLayout {
    /// Column of the rail (the rightmost content column).
    pub rail_x: i64,
    /// Rail rows above the bar: `rail_top_start..rail_top_end`.
    pub rail_top_start: i64,
    pub rail_top_end: i64,
    /// Rail rows below the bar: `rail_bottom_start..rail_bottom_end`.
    pub rail_bottom_start: i64,
    pub rail_bottom_end: i64,
    /// Fully covered bar rows: `bar_start_ceil..bar_end_floor`.
    pub bar_start_ceil: i64,
    pub bar_end_floor: i64,
    pub bar_start_cap: Option<ScrollBarLayoutCap>,
    pub bar_end_cap: Option<ScrollBarLayoutCap>,
    /// Bar geometry in eighths, kept for inspection: the bar spans
    /// `bar_start_eighths..bar_start_eighths + bar_len_eighths`.
    pub bar_start_eighths: i64,
    pub bar_len_eighths: i64,
}

/// The bounds within which scrollbar inputs must lie: rectangle coordinates
/// come from resolved layouts (see the tree-size bound of the resolver) and
/// a pane's height is bounded by the relative-layout domain.
pub open spec fn scroll_bar_inputs_ok(content_rect: Rect) -> bool {
    &&& -0x100_0000_0000 <= content_rect.min_y <= 0x100_0000_0000
    &&& -0x100_0000_0000 <= content_rect.max_y <= 0x100_0000_0000
    &&& -0x100_0000_0000 <= content_rect.min_x <= 0x100_0000_0000
    &&& -0x100_0000_0000 <= content_rect.max_x <= 0x100_0000_0000
    &&& content_rect.max_y - content_rect.min_y <= 0x20000
}

/// The vertical overflow size expanded by the view scrolled out of the
/// overflow bounds (as happens when the pane grows after scrolling to the
/// end).
pub open spec fn spec_expanded_overflow_h(content_h: int, overflow_h: int, scroll_y: int) -> int {
    if overflow_h >= content_h + scroll_y {
        overflow_h
    } else {
        content_h + scroll_y
    }
}

/// How far the pane can scroll vertically.
pub open spec fn spec_scroll_size_h(content_h: int, overflow_h: int, scroll_y: int) -> int {
    let expanded = spec_expanded_overflow_h(content_h, overflow_h, scroll_y);
    if expanded >= content_h {
        expanded - content_h
    } else {
        0
    }
}

/// Whether a scrollbar is displayed at all: either the pane is scrolled, or
/// the content overflows the viewport.
pub open spec fn spec_display_scroll_bar(content_h: int, overflow_h: int, scroll_y: int) -> bool {
    scroll_y > 0 || overflow_h > content_h
}

/// The bar length in eighths: proportional to the visible share of the
/// content, but never less than one full cell (eight eighths), so the bar
/// stays visible for arbitrarily large content.
pub open spec fn spec_bar_len_eighths(content_h: int, expanded_h: int) -> int {
    let rail_len = 8 * content_h;
    let proportional = (rail_len * content_h + expanded_h - 1) / expanded_h;
    if proportional >= 8 {
        proportional
    } else {
        8
    }
}

/// Where the bar starts, in eighths from the top of the surface.
pub open spec fn spec_bar_start_eighths(
    content_min_y: int,
    content_h: int,
    expanded_h: int,
    scroll_y: int,
    scroll_size: int,
) -> int {
    let rail_len = 8 * content_h;
    let bar_len = spec_bar_len_eighths(content_h, expanded_h);
    let off = if scroll_size > 0 {
        ((rail_len - bar_len) * scroll_y + scroll_size - 1) / scroll_size
    } else {
        0
    };
    content_min_y * 8 + off
}

/// The scrollbar geometry for a pane with the given absolute content
/// rectangle, vertical overflow size and scroll position; `None` when no
/// scrollbar is displayed.
pub open spec fn spec_scroll_bar(content_rect: Rect, overflow_h: u16, scroll_y: u16) -> Option<
    ScrollBarLayout,
> {
    let ch = content_rect.spec_height();
    if !spec_display_scroll_bar(ch, overflow_h as int, scroll_y as int) {
        None
    } else {
        let expanded = spec_expanded_overflow_h(ch, overflow_h as int, scroll_y as int);
        let scroll_size = spec_scroll_size_h(ch, overflow_h as int, scroll_y as int);
        let bar_len = spec_bar_len_eighths(ch, expanded);
        let bar_start = spec_bar_start_eighths(
            content_rect.min_y as int, ch, expanded, scroll_y as int, scroll_size);
        let bar_end = bar_start + bar_len;
        let bar_start_floor = bar_start / 8;
        let bar_start_rem = bar_start % 8;
        let bar_end_floor = bar_end / 8;
        let bar_end_rem = bar_end % 8;
        Some(ScrollBarLayout {
            rail_x: (content_rect.max_x - 1) as i64,
            rail_top_start: content_rect.min_y,
            rail_top_end: bar_start_floor as i64,
            rail_bottom_start: ((bar_end + 7) / 8) as i64,
            rail_bottom_end: content_rect.max_y,
            bar_start_ceil: ((bar_start + 7) / 8) as i64,
            bar_end_floor: bar_end_floor as i64,
            bar_start_cap: if bar_start_rem != 0 {
                Some(ScrollBarLayoutCap {
                    absolute_position: bar_start_floor as i64,
                    height_eighths: bar_start_rem as u8,
                })
            } else {
                None
            },
            bar_end_cap: if bar_end_rem != 0 {
                Some(ScrollBarLayoutCap {
                    absolute_position: bar_end_floor as i64,
                    height_eighths: bar_end_rem as u8,
                })
            } else {
                None
            },
            bar_start_eighths: bar_start as i64,
            bar_len_eighths: bar_len as i64,
        })
    }
}

/// Computes the scrollbar geometry. Returns `None` when no scrollbar is
/// displayed.
pub fn scroll_bar_layout(content_rect: Rect, overflow_h: u16, scroll_y: u16) -> (r: Option<
    ScrollBarLayout,
>)
    requires
        scroll_bar_inputs_ok(content_rect),
    ensures
        r == spec_scroll_bar(content_rect, overflow_h, scroll_y),
        r is Some ==> r.unwrap().bar_len_eighths >= 8,
{
    let content_h = content_rect.height();
    let display = scroll_y > 0 || (overflow_h as i64) > content_h;
    if !display {
        return None;
    }
    let scroll = scroll_y as i64;
    let overflow = overflow_h as i64;
    let expanded = if overflow >= content_h + scroll {
        overflow
    } else {
        content_h + scroll
    };
    let scroll_size = if expanded >= content_h {
        expanded - content_h
    } else {
        0
    };
    let rail_len = 8 * content_h;
    proof {
        let ch = content_h as int;
        assert(0 <= (8 * ch) * ch <= (8 * 0x20000) * 0x20000) by (nonlinear_arith)
            requires 0 <= ch <= 0x20000;
    }
    let numerator = rail_len * content_h;
    let proportional = div_ceil_i64(numerator, expanded);
    proof {
        // the proportional length never exceeds the rail length
        let ch = content_h as int;
        let ex = expanded as int;
        let q = proportional as int;
        assert(ex >= ch);
        vstd::arithmetic::div_mod::lemma_fundamental_div_mod((8 * ch) * ch + ex - 1, ex);
        vstd::arithmetic::div_mod::lemma_mod_bound((8 * ch) * ch + ex - 1, ex);
        let r = ((8 * ch) * ch + ex - 1) % ex;
        assert(ex * q == (8 * ch) * ch + ex - 1 - r);
        assert((8 * ch) * ch <= (8 * ch) * ex) by (nonlinear_arith)
            requires ch <= ex && ch >= 0;
        if q > 8 * ch {
            assert(q >= 8 * ch + 1);
            assert(ex * q >= ex * (8 * ch + 1)) by (nonlinear_arith)
                requires ex > 0 && q >= 8 * ch + 1;
            assert(ex * (8 * ch + 1) == ex * (8 * ch) + ex) by (nonlinear_arith);
            assert(ex * (8 * ch) == (8 * ch) * ex) by (nonlinear_arith);
            assert(ex * q <= (8 * ch) * ex + ex - 1 - r);
            assert(false);
        }
        assert(q <= 8 * ch);
    }
    let bar_len = if proportional >= 8 {
        proportional
    } else {
        8
    };
    proof {
        let rl = rail_len as int;
        let bl = bar_len as int;
        let sc = scroll as int;
        assert(-0x200000 <= rl - bl <= 0x200000);
        assert(-0x200000 * 0x10000 <= (rl - bl) * sc <= 0x200000 * 0x10000)
            by (nonlinear_arith)
            requires -0x200000 <= rl - bl <= 0x200000 && 0 <= sc <= 0x10000;
    }
    let bar_start_off = if scroll_size > 0 {
        div_ceil_i64((rail_len - bar_len) * scroll, scroll_size)
    } else {
        0
    };
    let bar_start = content_rect.min_y * 8 + bar_start_off;
    let bar_end = bar_start + bar_len;
    let bar_start_floor = div_floor_i64(bar_start, 8);
    let bar_start_ceil = div_ceil_i64(bar_start, 8);
    let bar_end_floor = div_floor_i64(bar_end, 8);
    let bar_end_ceil = div_ceil_i64(bar_end, 8);
    proof {
        vstd::arithmetic::div_mod::lemma_fundamental_div_mod(bar_start as int, 8);
        vstd::arithmetic::div_mod::lemma_mod_bound(bar_start as int, 8);
        vstd::arithmetic::div_mod::lemma_fundamental_div_mod(bar_end as int, 8);
        vstd::arithmetic::div_mod::lemma_mod_bound(bar_end as int, 8);
    }
    let start_rem = bar_start - bar_start_floor * 8;
    let bar_start_cap = if start_rem != 0 {
        Some(ScrollBarLayoutCap {
            absolute_position: bar_start_floor,
            height_eighths: start_rem as u8,
        })
    } else {
        None
    };
    let end_rem = bar_end - bar_end_floor * 8;
    let bar_end_cap = if end_rem != 0 {
        Some(ScrollBarLayoutCap {
            absolute_position: bar_end_floor,
            height_eighths: end_rem as u8,
        })
    } else {
        None
    };
    Some(ScrollBarLayout {
        rail_x: content_rect.max_x - 1,
        rail_top_start: content_rect.min_y,
        rail_top_end: bar_start_floor,
        rail_bottom_start: bar_end_ceil,
        rail_bottom_end: content_rect.max_y,
        bar_start_ceil,
        bar_end_floor,
        bar_start_cap,
        bar_end_cap,
        bar_start_eighths: bar_start,
        bar_len_eighths: bar_len,
    })
}

/// However large the content grows relative to the viewport, the computed
/// bar length in eighths is never less than eight (one full cell).
pub proof fn lemma_bar_min_len(content_h: int, expanded_h: int)
    ensures
        spec_bar_len_eighths(content_h, expanded_h) >= 8,
{
}

} // verus!
