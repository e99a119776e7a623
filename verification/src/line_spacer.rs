//! Box-drawing line segments. A cell's glyph is modeled as a [`Symbol`]:
//! the line weight leaving the cell toward each of the four sides. Drawing
//! a spacer merges its lines with whatever box-drawing glyph is already in
//! the cell, so crossing spacers form junctions.

use vstd::prelude::*;

use crate::color::TextColor;
use crate::draw::{Buffer, Cell};

verus! {

/// The weight of a line toward one side of a cell.
#[derive(Clone, Copy, Debug, Default, PartialEq, Eq, Structural)]
pub enum LineType {
    /// No line toward this side.
    #[default]
    NoLine,
    Standard,
    Bold,
}

impl LineType {
    pub open spec fn spec_index(self) -> int {
        match self {
            LineType::NoLine => 0,
            LineType::Standard => 1,
            LineType::Bold => 2,
        }
    }

    /// The weight as a table index; heavier weights have larger indices.
    pub fn index(&self) -> (r: usize)
        ensures
            r == self.spec_index(),
    {
        match self {
            LineType::NoLine => 0,
            LineType::Standard => 1,
            LineType::Bold => 2,
        }
    }

    /// The heavier of two weights, as a specification.
    pub open spec fn spec_heavier(self, other: LineType) -> LineType {
        if self.spec_index() >= other.spec_index() {
            self
        } else {
            other
        }
    }

    /// The heavier of two weights.
    pub fn heavier(self, other: LineType) -> (r: LineType)
        ensures
            r == self.spec_heavier(other),
    {
        let a = self.index();
        let b = other.index();
        if a >= b {
            self
        } else {
            other
        }
    }
}

/// The four line segments of one box-drawing glyph.
#[derive(Clone, Copy, Debug, Default, PartialEq, Eq, Structural)]
pub struct Symbol {
    pub top: LineType,
    pub right: LineType,
    pub bottom: LineType,
    pub left: LineType,
}

impl Symbol {
    pub fn new(top: LineType, right: LineType, bottom: LineType, left: LineType) -> (r: Symbol)
        ensures
            r == (Symbol { top, right, bottom, left }),
    {
        Symbol { top, right, bottom, left }
    }

    /// The side-by-side merge of two symbols, as a specification: each side
    /// takes the heavier of the two weights.
    pub open spec fn spec_union(self, other: Symbol) -> Symbol {
        Symbol {
            top: self.top.spec_heavier(other.top),
            right: self.right.spec_heavier(other.right),
            bottom: self.bottom.spec_heavier(other.bottom),
            left: self.left.spec_heavier(other.left),
        }
    }

    /// Merges two symbols side by side: each side takes the heavier of the
    /// two weights.
    pub fn union(&self, other: &Symbol) -> (r: Symbol)
        ensures
            r == self.spec_union(*other),
            r.top.spec_index() == vstd::math::max(self.top.spec_index(), other.top.spec_index()),
            r.right.spec_index() == vstd::math::max(
                self.right.spec_index(),
                other.right.spec_index(),
            ),
            r.bottom.spec_index() == vstd::math::max(
                self.bottom.spec_index(),
                other.bottom.spec_index(),
            ),
            r.left.spec_index() == vstd::math::max(
                self.left.spec_index(),
                other.left.spec_index(),
            ),
    {
        Symbol {
            top: self.top.heavier(other.top),
            right: self.right.heavier(other.right),
            bottom: self.bottom.heavier(other.bottom),
            left: self.left.heavier(other.left),
        }
    }

    pub open spec fn spec_table_index(self) -> int {
        ((self.top.spec_index() * 3 + self.right.spec_index()) * 3 + self.bottom.spec_index())
            * 3 + self.left.spec_index()
    }

    /// The symbol as a dense table index, in `0..81`.
    pub fn index(&self) -> (r: usize)
        ensures
            r == self.spec_table_index(),
            r < 81,
    {
        ((self.top.index() * 3 + self.right.index()) * 3 + self.bottom.index()) * 3
            + self.left.index()
    }

    /// The glyph a cell shows after this symbol is merged into it: the
    /// encoding of the union with the cell's existing box-drawing symbol,
    /// or of this symbol alone when the cell held no box-drawing glyph.
    pub open spec fn spec_merged_char(self, existing: char) -> char {
        match spec_char_to_symbol(existing) {
            Some(e) => spec_symbol_to_char(e.spec_union(self)),
            None => spec_symbol_to_char(self),
        }
    }

    /// Merges this symbol into a cell of the surface: an existing
    /// box-drawing glyph in the cell is combined with this symbol, any
    /// other glyph is replaced. The cell keeps its colors; off-surface
    /// positions are left alone.
    pub fn draw(&self, buffer: &mut Buffer, x: i64, y: i64)
        requires
            old(buffer).wf(),
        ensures
            final(buffer).wf(),
            final(buffer).width == old(buffer).width,
            final(buffer).height == old(buffer).height,
            final(buffer).cells@.len() == old(buffer).cells@.len(),
            forall|i: int| 0 <= i < final(buffer).cells@.len() && i != old(buffer).spec_index_of(
                x as int,
                y as int,
            ) ==> final(buffer).cells@[i] == old(buffer).cells@[i],
            old(buffer).spec_contains(x as int, y as int) ==> ({
                let at = old(buffer).spec_index_of(x as int, y as int);
                final(buffer).cells@[at] == (Cell {
                    symbol: self.spec_merged_char(old(buffer).cells@[at].symbol),
                    ..old(buffer).cells@[at]
                })
            }),
    {
        match buffer.cell_at(x, y) {
            Some(cell) => {
                let merged = match char_to_symbol_slow(cell.symbol) {
                    Some(existing) => existing.union(self),
                    None => *self,
                };
                let character = symbol_to_char(&merged);
                proof {
                    buffer.lemma_index_bounds(x as int, y as int);
                }
                buffer.set_cell(x, y, Cell { symbol: character, ..cell });
            },
            None => {},
        }
    }
}

/// The symbol encoded by a box-drawing character, if any.
pub open spec fn spec_char_to_symbol(character: char) -> Option<Symbol> {
    match character {
        '\u{2500}' => Some(Symbol { top: LineType::NoLine, right: LineType::Standard, bottom: LineType::NoLine, left: LineType::Standard }),
        '\u{2501}' => Some(Symbol { top: LineType::NoLine, right: LineType::Bold, bottom: LineType::NoLine, left: LineType::Bold }),
        '\u{2502}' => Some(Symbol { top: LineType::Standard, right: LineType::NoLine, bottom: LineType::Standard, left: LineType::NoLine }),
        '\u{2503}' => Some(Symbol { top: LineType::Bold, right: LineType::NoLine, bottom: LineType::Bold, left: LineType::NoLine }),
        '\u{250C}' => Some(Symbol { top: LineType::NoLine, right: LineType::Standard, bottom: LineType::Standard, left: LineType::NoLine }),
        '\u{250D}' => Some(Symbol { top: LineType::NoLine, right: LineType::Bold, bottom: LineType::Standard, left: LineType::NoLine }),
        '\u{250E}' => Some(Symbol { top: LineType::NoLine, right: LineType::Standard, bottom: LineType::Bold, left: LineType::NoLine }),
        '\u{250F}' => Some(Symbol { top: LineType::NoLine, right: LineType::Bold, bottom: LineType::Bold, left: LineType::NoLine }),
        '\u{2510}' => Some(Symbol { top: LineType::NoLine, right: LineType::NoLine, bottom: LineType::Standard, left: LineType::Standard }),
        '\u{2511}' => Some(Symbol { top: LineType::NoLine, right: LineType::NoLine, bottom: LineType::Standard, left: LineType::Bold }),
        '\u{2512}' => Some(Symbol { top: LineType::NoLine, right: LineType::NoLine, bottom: LineType::Bold, left: LineType::Standard }),
        '\u{2513}' => Some(Symbol { top: LineType::NoLine, right: LineType::NoLine, bottom: LineType::Bold, left: LineType::Bold }),
        '\u{2514}' => Some(Symbol { top: LineType::Standard, right: LineType::Standard, bottom: LineType::NoLine, left: LineType::NoLine }),
        '\u{2515}' => Some(Symbol { top: LineType::Standard, right: LineType::Bold, bottom: LineType::NoLine, left: LineType::NoLine }),
        '\u{2516}' => Some(Symbol { top: LineType::Bold, right: LineType::Standard, bottom: LineType::NoLine, left: LineType::NoLine }),
        '\u{2517}' => Some(Symbol { top: LineType::Bold, right: LineType::Bold, bottom: LineType::NoLine, left: LineType::NoLine }),
        '\u{2518}' => Some(Symbol { top: LineType::Standard, right: LineType::NoLine, bottom: LineType::NoLine, left: LineType::Standard }),
        '\u{2519}' => Some(Symbol { top: LineType::Standard, right: LineType::NoLine, bottom: LineType::NoLine, left: LineType::Bold }),
        '\u{251A}' => Some(Symbol { top: LineType::Bold, right: LineType::NoLine, bottom: LineType::NoLine, left: LineType::Standard }),
        '\u{251B}' => Some(Symbol { top: LineType::Bold, right: LineType::NoLine, bottom: LineType::NoLine, left: LineType::Bold }),
        '\u{251C}' => Some(Symbol { top: LineType::Standard, right: LineType::Standard, bottom: LineType::Standard, left: LineType::NoLine }),
        '\u{251D}' => Some(Symbol { top: LineType::Standard, right: LineType::Bold, bottom: LineType::Standard, left: LineType::NoLine }),
        '\u{251E}' => Some(Symbol { top: LineType::Bold, right: LineType::Standard, bottom: LineType::Standard, left: LineType::NoLine }),
        '\u{251F}' => Some(Symbol { top: LineType::Standard, right: LineType::Standard, bottom: LineType::Bold, left: LineType::NoLine }),
        '\u{2520}' => Some(Symbol { top: LineType::Bold, right: LineType::Standard, bottom: LineType::Bold, left: LineType::NoLine }),
        '\u{2521}' => Some(Symbol { top: LineType::Bold, right: LineType::Bold, bottom: LineType::Standard, left: LineType::NoLine }),
        '\u{2522}' => Some(Symbol { top: LineType::Standard, right: LineType::Bold, bottom: LineType::Bold, left: LineType::NoLine }),
        '\u{2523}' => Some(Symbol { top: LineType::Bold, right: LineType::Bold, bottom: LineType::Bold, left: LineType::NoLine }),
        '\u{2524}' => Some(Symbol { top: LineType::Standard, right: LineType::NoLine, bottom: LineType::Standard, left: LineType::Standard }),
        '\u{2525}' => Some(Symbol { top: LineType::Standard, right: LineType::NoLine, bottom: LineType::Standard, left: LineType::Bold }),
        '\u{2526}' => Some(Symbol { top: LineType::Bold, right: LineType::NoLine, bottom: LineType::Standard, left: LineType::Standard }),
        '\u{2527}' => Some(Symbol { top: LineType::Standard, right: LineType::NoLine, bottom: LineType::Bold, left: LineType::Standard }),
        '\u{2528}' => Some(Symbol { top: LineType::Bold, right: LineType::NoLine, bottom: LineType::Bold, left: LineType::Standard }),
        '\u{2529}' => Some(Symbol { top: LineType::Bold, right: LineType::NoLine, bottom: LineType::Standard, left: LineType::Bold }),
        '\u{252A}' => Some(Symbol { top: LineType::Standard, right: LineType::NoLine, bottom: LineType::Bold, left: LineType::Bold }),
        '\u{252B}' => Some(Symbol { top: LineType::Bold, right: LineType::NoLine, bottom: LineType::Bold, left: LineType::Bold }),
        '\u{252C}' => Some(Symbol { top: LineType::NoLine, right: LineType::Standard, bottom: LineType::Standard, left: LineType::Standard }),
        '\u{252D}' => Some(Symbol { top: LineType::NoLine, right: LineType::Standard, bottom: LineType::Standard, left: LineType::Bold }),
        '\u{252E}' => Some(Symbol { top: LineType::NoLine, right: LineType::Bold, bottom: LineType::Standard, left: LineType::Standard }),
        '\u{252F}' => Some(Symbol { top: LineType::NoLine, right: LineType::Bold, bottom: LineType::Standard, left: LineType::Bold }),
        '\u{2530}' => Some(Symbol { top: LineType::NoLine, right: LineType::Standard, bottom: LineType::Bold, left: LineType::Standard }),
        '\u{2531}' => Some(Symbol { top: LineType::NoLine, right: LineType::Standard, bottom: LineType::Bold, left: LineType::Bold }),
        '\u{2532}' => Some(Symbol { top: LineType::NoLine, right: LineType::Bold, bottom: LineType::Bold, left: LineType::Standard }),
        '\u{2533}' => Some(Symbol { top: LineType::NoLine, right: LineType::Bold, bottom: LineType::Bold, left: LineType::Bold }),
        '\u{2534}' => Some(Symbol { top: LineType::Standard, right: LineType::Standard, bottom: LineType::NoLine, left: LineType::Standard }),
        '\u{2535}' => Some(Symbol { top: LineType::Standard, right: LineType::Standard, bottom: LineType::NoLine, left: LineType::Bold }),
        '\u{2536}' => Some(Symbol { top: LineType::Standard, right: LineType::Bold, bottom: LineType::NoLine, left: LineType::Standard }),
        '\u{2537}' => Some(Symbol { top: LineType::Standard, right: LineType::Bold, bottom: LineType::NoLine, left: LineType::Bold }),
        '\u{2538}' => Some(Symbol { top: LineType::Bold, right: LineType::Standard, bottom: LineType::NoLine, left: LineType::Standard }),
        '\u{2539}' => Some(Symbol { top: LineType::Bold, right: LineType::Standard, bottom: LineType::NoLine, left: LineType::Bold }),
        '\u{253A}' => Some(Symbol { top: LineType::Bold, right: LineType::Bold, bottom: LineType::NoLine, left: LineType::Standard }),
        '\u{253B}' => Some(Symbol { top: LineType::Bold, right: LineType::Bold, bottom: LineType::NoLine, left: LineType::Bold }),
        '\u{253C}' => Some(Symbol { top: LineType::Standard, right: LineType::Standard, bottom: LineType::Standard, left: LineType::Standard }),
        '\u{253D}' => Some(Symbol { top: LineType::Standard, right: LineType::Standard, bottom: LineType::Standard, left: LineType::Bold }),
        '\u{253E}' => Some(Symbol { top: LineType::Standard, right: LineType::Bold, bottom: LineType::Standard, left: LineType::Standard }),
        '\u{253F}' => Some(Symbol { top: LineType::Standard, right: LineType::Bold, bottom: LineType::Standard, left: LineType::Bold }),
        '\u{2540}' => Some(Symbol { top: LineType::Bold, right: LineType::Standard, bottom: LineType::Standard, left: LineType::Standard }),
        '\u{2541}' => Some(Symbol { top: LineType::Standard, right: LineType::Standard, bottom: LineType::Bold, left: LineType::Standard }),
        '\u{2542}' => Some(Symbol { top: LineType::Bold, right: LineType::Standard, bottom: LineType::Bold, left: LineType::Standard }),
        '\u{2543}' => Some(Symbol { top: LineType::Bold, right: LineType::Standard, bottom: LineType::Standard, left: LineType::Bold }),
        '\u{2544}' => Some(Symbol { top: LineType::Bold, right: LineType::Bold, bottom: LineType::Standard, left: LineType::Standard }),
        '\u{2545}' => Some(Symbol { top: LineType::Standard, right: LineType::Standard, bottom: LineType::Bold, left: LineType::Bold }),
        '\u{2546}' => Some(Symbol { top: LineType::Standard, right: LineType::Bold, bottom: LineType::Bold, left: LineType::Standard }),
        '\u{2547}' => Some(Symbol { top: LineType::Bold, right: LineType::Bold, bottom: LineType::Standard, left: LineType::Bold }),
        '\u{2548}' => Some(Symbol { top: LineType::Standard, right: LineType::Bold, bottom: LineType::Bold, left: LineType::Bold }),
        '\u{2549}' => Some(Symbol { top: LineType::Bold, right: LineType::Standard, bottom: LineType::Bold, left: LineType::Bold }),
        '\u{254A}' => Some(Symbol { top: LineType::Bold, right: LineType::Bold, bottom: LineType::Bold, left: LineType::Standard }),
        '\u{254B}' => Some(Symbol { top: LineType::Bold, right: LineType::Bold, bottom: LineType::Bold, left: LineType::Bold }),
        '\u{2574}' => Some(Symbol { top: LineType::NoLine, right: LineType::NoLine, bottom: LineType::NoLine, left: LineType::Standard }),
        '\u{2575}' => Some(Symbol { top: LineType::Standard, right: LineType::NoLine, bottom: LineType::NoLine, left: LineType::NoLine }),
        '\u{2576}' => Some(Symbol { top: LineType::NoLine, right: LineType::Standard, bottom: LineType::NoLine, left: LineType::NoLine }),
        '\u{2577}' => Some(Symbol { top: LineType::NoLine, right: LineType::NoLine, bottom: LineType::Standard, left: LineType::NoLine }),
        '\u{2578}' => Some(Symbol { top: LineType::NoLine, right: LineType::NoLine, bottom: LineType::NoLine, left: LineType::Bold }),
        '\u{2579}' => Some(Symbol { top: LineType::Bold, right: LineType::NoLine, bottom: LineType::NoLine, left: LineType::NoLine }),
        '\u{257A}' => Some(Symbol { top: LineType::NoLine, right: LineType::Bold, bottom: LineType::NoLine, left: LineType::NoLine }),
        '\u{257B}' => Some(Symbol { top: LineType::NoLine, right: LineType::NoLine, bottom: LineType::Bold, left: LineType::NoLine }),
        '\u{257C}' => Some(Symbol { top: LineType::NoLine, right: LineType::Bold, bottom: LineType::NoLine, left: LineType::Standard }),
        '\u{257D}' => Some(Symbol { top: LineType::Standard, right: LineType::NoLine, bottom: LineType::Bold, left: LineType::NoLine }),
        '\u{257E}' => Some(Symbol { top: LineType::NoLine, right: LineType::Standard, bottom: LineType::NoLine, left: LineType::Bold }),
        '\u{257F}' => Some(Symbol { top: LineType::Bold, right: LineType::NoLine, bottom: LineType::Standard, left: LineType::NoLine }),
        _ => None,
    }
}

/// Decodes a box-drawing character into its four line segments.
pub fn char_to_symbol_slow(character: char) -> (r: Option<Symbol>)
    ensures
        r == spec_char_to_symbol(character),
{
    match character {
        '\u{2500}' => Some(Symbol::new(LineType::NoLine, LineType::Standard, LineType::NoLine, LineType::Standard)),
        '\u{2501}' => Some(Symbol::new(LineType::NoLine, LineType::Bold, LineType::NoLine, LineType::Bold)),
        '\u{2502}' => Some(Symbol::new(LineType::Standard, LineType::NoLine, LineType::Standard, LineType::NoLine)),
        '\u{2503}' => Some(Symbol::new(LineType::Bold, LineType::NoLine, LineType::Bold, LineType::NoLine)),
        '\u{250C}' => Some(Symbol::new(LineType::NoLine, LineType::Standard, LineType::Standard, LineType::NoLine)),
        '\u{250D}' => Some(Symbol::new(LineType::NoLine, LineType::Bold, LineType::Standard, LineType::NoLine)),
        '\u{250E}' => Some(Symbol::new(LineType::NoLine, LineType::Standard, LineType::Bold, LineType::NoLine)),
        '\u{250F}' => Some(Symbol::new(LineType::NoLine, LineType::Bold, LineType::Bold, LineType::NoLine)),
        '\u{2510}' => Some(Symbol::new(LineType::NoLine, LineType::NoLine, LineType::Standard, LineType::Standard)),
        '\u{2511}' => Some(Symbol::new(LineType::NoLine, LineType::NoLine, LineType::Standard, LineType::Bold)),
        '\u{2512}' => Some(Symbol::new(LineType::NoLine, LineType::NoLine, LineType::Bold, LineType::Standard)),
        '\u{2513}' => Some(Symbol::new(LineType::NoLine, LineType::NoLine, LineType::Bold, LineType::Bold)),
        '\u{2514}' => Some(Symbol::new(LineType::Standard, LineType::Standard, LineType::NoLine, LineType::NoLine)),
        '\u{2515}' => Some(Symbol::new(LineType::Standard, LineType::Bold, LineType::NoLine, LineType::NoLine)),
        '\u{2516}' => Some(Symbol::new(LineType::Bold, LineType::Standard, LineType::NoLine, LineType::NoLine)),
        '\u{2517}' => Some(Symbol::new(LineType::Bold, LineType::Bold, LineType::NoLine, LineType::NoLine)),
        '\u{2518}' => Some(Symbol::new(LineType::Standard, LineType::NoLine, LineType::NoLine, LineType::Standard)),
        '\u{2519}' => Some(Symbol::new(LineType::Standard, LineType::NoLine, LineType::NoLine, LineType::Bold)),
        '\u{251A}' => Some(Symbol::new(LineType::Bold, LineType::NoLine, LineType::NoLine, LineType::Standard)),
        '\u{251B}' => Some(Symbol::new(LineType::Bold, LineType::NoLine, LineType::NoLine, LineType::Bold)),
        '\u{251C}' => Some(Symbol::new(LineType::Standard, LineType::Standard, LineType::Standard, LineType::NoLine)),
        '\u{251D}' => Some(Symbol::new(LineType::Standard, LineType::Bold, LineType::Standard, LineType::NoLine)),
        '\u{251E}' => Some(Symbol::new(LineType::Bold, LineType::Standard, LineType::Standard, LineType::NoLine)),
        '\u{251F}' => Some(Symbol::new(LineType::Standard, LineType::Standard, LineType::Bold, LineType::NoLine)),
        '\u{2520}' => Some(Symbol::new(LineType::Bold, LineType::Standard, LineType::Bold, LineType::NoLine)),
        '\u{2521}' => Some(Symbol::new(LineType::Bold, LineType::Bold, LineType::Standard, LineType::NoLine)),
        '\u{2522}' => Some(Symbol::new(LineType::Standard, LineType::Bold, LineType::Bold, LineType::NoLine)),
        '\u{2523}' => Some(Symbol::new(LineType::Bold, LineType::Bold, LineType::Bold, LineType::NoLine)),
        '\u{2524}' => Some(Symbol::new(LineType::Standard, LineType::NoLine, LineType::Standard, LineType::Standard)),
        '\u{2525}' => Some(Symbol::new(LineType::Standard, LineType::NoLine, LineType::Standard, LineType::Bold)),
        '\u{2526}' => Some(Symbol::new(LineType::Bold, LineType::NoLine, LineType::Standard, LineType::Standard)),
        '\u{2527}' => Some(Symbol::new(LineType::Standard, LineType::NoLine, LineType::Bold, LineType::Standard)),
        '\u{2528}' => Some(Symbol::new(LineType::Bold, LineType::NoLine, LineType::Bold, LineType::Standard)),
        '\u{2529}' => Some(Symbol::new(LineType::Bold, LineType::NoLine, LineType::Standard, LineType::Bold)),
        '\u{252A}' => Some(Symbol::new(LineType::Standard, LineType::NoLine, LineType::Bold, LineType::Bold)),
        '\u{252B}' => Some(Symbol::new(LineType::Bold, LineType::NoLine, LineType::Bold, LineType::Bold)),
        '\u{252C}' => Some(Symbol::new(LineType::NoLine, LineType::Standard, LineType::Standard, LineType::Standard)),
        '\u{252D}' => Some(Symbol::new(LineType::NoLine, LineType::Standard, LineType::Standard, LineType::Bold)),
        '\u{252E}' => Some(Symbol::new(LineType::NoLine, LineType::Bold, LineType::Standard, LineType::Standard)),
        '\u{252F}' => Some(Symbol::new(LineType::NoLine, LineType::Bold, LineType::Standard, LineType::Bold)),
        '\u{2530}' => Some(Symbol::new(LineType::NoLine, LineType::Standard, LineType::Bold, LineType::Standard)),
        '\u{2531}' => Some(Symbol::new(LineType::NoLine, LineType::Standard, LineType::Bold, LineType::Bold)),
        '\u{2532}' => Some(Symbol::new(LineType::NoLine, LineType::Bold, LineType::Bold, LineType::Standard)),
        '\u{2533}' => Some(Symbol::new(LineType::NoLine, LineType::Bold, LineType::Bold, LineType::Bold)),
        '\u{2534}' => Some(Symbol::new(LineType::Standard, LineType::Standard, LineType::NoLine, LineType::Standard)),
        '\u{2535}' => Some(Symbol::new(LineType::Standard, LineType::Standard, LineType::NoLine, LineType::Bold)),
        '\u{2536}' => Some(Symbol::new(LineType::Standard, LineType::Bold, LineType::NoLine, LineType::Standard)),
        '\u{2537}' => Some(Symbol::new(LineType::Standard, LineType::Bold, LineType::NoLine, LineType::Bold)),
        '\u{2538}' => Some(Symbol::new(LineType::Bold, LineType::Standard, LineType::NoLine, LineType::Standard)),
        '\u{2539}' => Some(Symbol::new(LineType::Bold, LineType::Standard, LineType::NoLine, LineType::Bold)),
        '\u{253A}' => Some(Symbol::new(LineType::Bold, LineType::Bold, LineType::NoLine, LineType::Standard)),
        '\u{253B}' => Some(Symbol::new(LineType::Bold, LineType::Bold, LineType::NoLine, LineType::Bold)),
        '\u{253C}' => Some(Symbol::new(LineType::Standard, LineType::Standard, LineType::Standard, LineType::Standard)),
        '\u{253D}' => Some(Symbol::new(LineType::Standard, LineType::Standard, LineType::Standard, LineType::Bold)),
        '\u{253E}' => Some(Symbol::new(LineType::Standard, LineType::Bold, LineType::Standard, LineType::Standard)),
        '\u{253F}' => Some(Symbol::new(LineType::Standard, LineType::Bold, LineType::Standard, LineType::Bold)),
        '\u{2540}' => Some(Symbol::new(LineType::Bold, LineType::Standard, LineType::Standard, LineType::Standard)),
        '\u{2541}' => Some(Symbol::new(LineType::Standard, LineType::Standard, LineType::Bold, LineType::Standard)),
        '\u{2542}' => Some(Symbol::new(LineType::Bold, LineType::Standard, LineType::Bold, LineType::Standard)),
        '\u{2543}' => Some(Symbol::new(LineType::Bold, LineType::Standard, LineType::Standard, LineType::Bold)),
        '\u{2544}' => Some(Symbol::new(LineType::Bold, LineType::Bold, LineType::Standard, LineType::Standard)),
        '\u{2545}' => Some(Symbol::new(LineType::Standard, LineType::Standard, LineType::Bold, LineType::Bold)),
        '\u{2546}' => Some(Symbol::new(LineType::Standard, LineType::Bold, LineType::Bold, LineType::Standard)),
        '\u{2547}' => Some(Symbol::new(LineType::Bold, LineType::Bold, LineType::Standard, LineType::Bold)),
        '\u{2548}' => Some(Symbol::new(LineType::Standard, LineType::Bold, LineType::Bold, LineType::Bold)),
        '\u{2549}' => Some(Symbol::new(LineType::Bold, LineType::Standard, LineType::Bold, LineType::Bold)),
        '\u{254A}' => Some(Symbol::new(LineType::Bold, LineType::Bold, LineType::Bold, LineType::Standard)),
        '\u{254B}' => Some(Symbol::new(LineType::Bold, LineType::Bold, LineType::Bold, LineType::Bold)),
        '\u{2574}' => Some(Symbol::new(LineType::NoLine, LineType::NoLine, LineType::NoLine, LineType::Standard)),
        '\u{2575}' => Some(Symbol::new(LineType::Standard, LineType::NoLine, LineType::NoLine, LineType::NoLine)),
        '\u{2576}' => Some(Symbol::new(LineType::NoLine, LineType::Standard, LineType::NoLine, LineType::NoLine)),
        '\u{2577}' => Some(Symbol::new(LineType::NoLine, LineType::NoLine, LineType::Standard, LineType::NoLine)),
        '\u{2578}' => Some(Symbol::new(LineType::NoLine, LineType::NoLine, LineType::NoLine, LineType::Bold)),
        '\u{2579}' => Some(Symbol::new(LineType::Bold, LineType::NoLine, LineType::NoLine, LineType::NoLine)),
        '\u{257A}' => Some(Symbol::new(LineType::NoLine, LineType::Bold, LineType::NoLine, LineType::NoLine)),
        '\u{257B}' => Some(Symbol::new(LineType::NoLine, LineType::NoLine, LineType::Bold, LineType::NoLine)),
        '\u{257C}' => Some(Symbol::new(LineType::NoLine, LineType::Bold, LineType::NoLine, LineType::Standard)),
        '\u{257D}' => Some(Symbol::new(LineType::Standard, LineType::NoLine, LineType::Bold, LineType::NoLine)),
        '\u{257E}' => Some(Symbol::new(LineType::NoLine, LineType::Standard, LineType::NoLine, LineType::Bold)),
        '\u{257F}' => Some(Symbol::new(LineType::Bold, LineType::NoLine, LineType::Standard, LineType::NoLine)),
        _ => None,
    }
}

/// The box-drawing character for a symbol; the null character for the
/// empty symbol (no box-drawing glyph exists for it).
pub open spec fn spec_symbol_to_char(s: Symbol) -> char {
    match (s.top, s.right, s.bottom, s.left) {
        (LineType::NoLine, LineType::Standard, LineType::NoLine, LineType::Standard) => '\u{2500}',
        (LineType::NoLine, LineType::Bold, LineType::NoLine, LineType::Bold) => '\u{2501}',
        (LineType::Standard, LineType::NoLine, LineType::Standard, LineType::NoLine) => '\u{2502}',
        (LineType::Bold, LineType::NoLine, LineType::Bold, LineType::NoLine) => '\u{2503}',
        (LineType::NoLine, LineType::Standard, LineType::Standard, LineType::NoLine) => '\u{250C}',
        (LineType::NoLine, LineType::Bold, LineType::Standard, LineType::NoLine) => '\u{250D}',
        (LineType::NoLine, LineType::Standard, LineType::Bold, LineType::NoLine) => '\u{250E}',
        (LineType::NoLine, LineType::Bold, LineType::Bold, LineType::NoLine) => '\u{250F}',
        (LineType::NoLine, LineType::NoLine, LineType::Standard, LineType::Standard) => '\u{2510}',
        (LineType::NoLine, LineType::NoLine, LineType::Standard, LineType::Bold) => '\u{2511}',
        (LineType::NoLine, LineType::NoLine, LineType::Bold, LineType::Standard) => '\u{2512}',
        (LineType::NoLine, LineType::NoLine, LineType::Bold, LineType::Bold) => '\u{2513}',
        (LineType::Standard, LineType::Standard, LineType::NoLine, LineType::NoLine) => '\u{2514}',
        (LineType::Standard, LineType::Bold, LineType::NoLine, LineType::NoLine) => '\u{2515}',
        (LineType::Bold, LineType::Standard, LineType::NoLine, LineType::NoLine) => '\u{2516}',
        (LineType::Bold, LineType::Bold, LineType::NoLine, LineType::NoLine) => '\u{2517}',
        (LineType::Standard, LineType::NoLine, LineType::NoLine, LineType::Standard) => '\u{2518}',
        (LineType::Standard, LineType::NoLine, LineType::NoLine, LineType::Bold) => '\u{2519}',
        (LineType::Bold, LineType::NoLine, LineType::NoLine, LineType::Standard) => '\u{251A}',
        (LineType::Bold, LineType::NoLine, LineType::NoLine, LineType::Bold) => '\u{251B}',
        (LineType::Standard, LineType::Standard, LineType::Standard, LineType::NoLine) => '\u{251C}',
        (LineType::Standard, LineType::Bold, LineType::Standard, LineType::NoLine) => '\u{251D}',
        (LineType::Bold, LineType::Standard, LineType::Standard, LineType::NoLine) => '\u{251E}',
        (LineType::Standard, LineType::Standard, LineType::Bold, LineType::NoLine) => '\u{251F}',
        (LineType::Bold, LineType::Standard, LineType::Bold, LineType::NoLine) => '\u{2520}',
        (LineType::Bold, LineType::Bold, LineType::Standard, LineType::NoLine) => '\u{2521}',
        (LineType::Standard, LineType::Bold, LineType::Bold, LineType::NoLine) => '\u{2522}',
        (LineType::Bold, LineType::Bold, LineType::Bold, LineType::NoLine) => '\u{2523}',
        (LineType::Standard, LineType::NoLine, LineType::Standard, LineType::Standard) => '\u{2524}',
        (LineType::Standard, LineType::NoLine, LineType::Standard, LineType::Bold) => '\u{2525}',
        (LineType::Bold, LineType::NoLine, LineType::Standard, LineType::Standard) => '\u{2526}',
        (LineType::Standard, LineType::NoLine, LineType::Bold, LineType::Standard) => '\u{2527}',
        (LineType::Bold, LineType::NoLine, LineType::Bold, LineType::Standard) => '\u{2528}',
        (LineType::Bold, LineType::NoLine, LineType::Standard, LineType::Bold) => '\u{2529}',
        (LineType::Standard, LineType::NoLine, LineType::Bold, LineType::Bold) => '\u{252A}',
        (LineType::Bold, LineType::NoLine, LineType::Bold, LineType::Bold) => '\u{252B}',
        (LineType::NoLine, LineType::Standard, LineType::Standard, LineType::Standard) => '\u{252C}',
        (LineType::NoLine, LineType::Standard, LineType::Standard, LineType::Bold) => '\u{252D}',
        (LineType::NoLine, LineType::Bold, LineType::Standard, LineType::Standard) => '\u{252E}',
        (LineType::NoLine, LineType::Bold, LineType::Standard, LineType::Bold) => '\u{252F}',
        (LineType::NoLine, LineType::Standard, LineType::Bold, LineType::Standard) => '\u{2530}',
        (LineType::NoLine, LineType::Standard, LineType::Bold, LineType::Bold) => '\u{2531}',
        (LineType::NoLine, LineType::Bold, LineType::Bold, LineType::Standard) => '\u{2532}',
        (LineType::NoLine, LineType::Bold, LineType::Bold, LineType::Bold) => '\u{2533}',
        (LineType::Standard, LineType::Standard, LineType::NoLine, LineType::Standard) => '\u{2534}',
        (LineType::Standard, LineType::Standard, LineType::NoLine, LineType::Bold) => '\u{2535}',
        (LineType::Standard, LineType::Bold, LineType::NoLine, LineType::Standard) => '\u{2536}',
        (LineType::Standard, LineType::Bold, LineType::NoLine, LineType::Bold) => '\u{2537}',
        (LineType::Bold, LineType::Standard, LineType::NoLine, LineType::Standard) => '\u{2538}',
        (LineType::Bold, LineType::Standard, LineType::NoLine, LineType::Bold) => '\u{2539}',
        (LineType::Bold, LineType::Bold, LineType::NoLine, LineType::Standard) => '\u{253A}',
        (LineType::Bold, LineType::Bold, LineType::NoLine, LineType::Bold) => '\u{253B}',
        (LineType::Standard, LineType::Standard, LineType::Standard, LineType::Standard) => '\u{253C}',
        (LineType::Standard, LineType::Standard, LineType::Standard, LineType::Bold) => '\u{253D}',
        (LineType::Standard, LineType::Bold, LineType::Standard, LineType::Standard) => '\u{253E}',
        (LineType::Standard, LineType::Bold, LineType::Standard, LineType::Bold) => '\u{253F}',
        (LineType::Bold, LineType::Standard, LineType::Standard, LineType::Standard) => '\u{2540}',
        (LineType::Standard, LineType::Standard, LineType::Bold, LineType::Standard) => '\u{2541}',
        (LineType::Bold, LineType::Standard, LineType::Bold, LineType::Standard) => '\u{2542}',
        (LineType::Bold, LineType::Standard, LineType::Standard, LineType::Bold) => '\u{2543}',
        (LineType::Bold, LineType::Bold, LineType::Standard, LineType::Standard) => '\u{2544}',
        (LineType::Standard, LineType::Standard, LineType::Bold, LineType::Bold) => '\u{2545}',
        (LineType::Standard, LineType::Bold, LineType::Bold, LineType::Standard) => '\u{2546}',
        (LineType::Bold, LineType::Bold, LineType::Standard, LineType::Bold) => '\u{2547}',
        (LineType::Standard, LineType::Bold, LineType::Bold, LineType::Bold) => '\u{2548}',
        (LineType::Bold, LineType::Standard, LineType::Bold, LineType::Bold) => '\u{2549}',
        (LineType::Bold, LineType::Bold, LineType::Bold, LineType::Standard) => '\u{254A}',
        (LineType::Bold, LineType::Bold, LineType::Bold, LineType::Bold) => '\u{254B}',
        (LineType::NoLine, LineType::NoLine, LineType::NoLine, LineType::Standard) => '\u{2574}',
        (LineType::Standard, LineType::NoLine, LineType::NoLine, LineType::NoLine) => '\u{2575}',
        (LineType::NoLine, LineType::Standard, LineType::NoLine, LineType::NoLine) => '\u{2576}',
        (LineType::NoLine, LineType::NoLine, LineType::Standard, LineType::NoLine) => '\u{2577}',
        (LineType::NoLine, LineType::NoLine, LineType::NoLine, LineType::Bold) => '\u{2578}',
        (LineType::Bold, LineType::NoLine, LineType::NoLine, LineType::NoLine) => '\u{2579}',
        (LineType::NoLine, LineType::Bold, LineType::NoLine, LineType::NoLine) => '\u{257A}',
        (LineType::NoLine, LineType::NoLine, LineType::Bold, LineType::NoLine) => '\u{257B}',
        (LineType::NoLine, LineType::Bold, LineType::NoLine, LineType::Standard) => '\u{257C}',
        (LineType::Standard, LineType::NoLine, LineType::Bold, LineType::NoLine) => '\u{257D}',
        (LineType::NoLine, LineType::Standard, LineType::NoLine, LineType::Bold) => '\u{257E}',
        (LineType::Bold, LineType::NoLine, LineType::Standard, LineType::NoLine) => '\u{257F}',
        _ => '\u{0000}',
    }
}

/// Encodes four line segments as a box-drawing character.
pub fn symbol_to_char(s: &Symbol) -> (r: char)
    ensures
        r == spec_symbol_to_char(*s),
{
    match (s.top, s.right, s.bottom, s.left) {
        (LineType::NoLine, LineType::Standard, LineType::NoLine, LineType::Standard) => '\u{2500}',
        (LineType::NoLine, LineType::Bold, LineType::NoLine, LineType::Bold) => '\u{2501}',
        (LineType::Standard, LineType::NoLine, LineType::Standard, LineType::NoLine) => '\u{2502}',
        (LineType::Bold, LineType::NoLine, LineType::Bold, LineType::NoLine) => '\u{2503}',
        (LineType::NoLine, LineType::Standard, LineType::Standard, LineType::NoLine) => '\u{250C}',
        (LineType::NoLine, LineType::Bold, LineType::Standard, LineType::NoLine) => '\u{250D}',
        (LineType::NoLine, LineType::Standard, LineType::Bold, LineType::NoLine) => '\u{250E}',
        (LineType::NoLine, LineType::Bold, LineType::Bold, LineType::NoLine) => '\u{250F}',
        (LineType::NoLine, LineType::NoLine, LineType::Standard, LineType::Standard) => '\u{2510}',
        (LineType::NoLine, LineType::NoLine, LineType::Standard, LineType::Bold) => '\u{2511}',
        (LineType::NoLine, LineType::NoLine, LineType::Bold, LineType::Standard) => '\u{2512}',
        (LineType::NoLine, LineType::NoLine, LineType::Bold, LineType::Bold) => '\u{2513}',
        (LineType::Standard, LineType::Standard, LineType::NoLine, LineType::NoLine) => '\u{2514}',
        (LineType::Standard, LineType::Bold, LineType::NoLine, LineType::NoLine) => '\u{2515}',
        (LineType::Bold, LineType::Standard, LineType::NoLine, LineType::NoLine) => '\u{2516}',
        (LineType::Bold, LineType::Bold, LineType::NoLine, LineType::NoLine) => '\u{2517}',
        (LineType::Standard, LineType::NoLine, LineType::NoLine, LineType::Standard) => '\u{2518}',
        (LineType::Standard, LineType::NoLine, LineType::NoLine, LineType::Bold) => '\u{2519}',
        (LineType::Bold, LineType::NoLine, LineType::NoLine, LineType::Standard) => '\u{251A}',
        (LineType::Bold, LineType::NoLine, LineType::NoLine, LineType::Bold) => '\u{251B}',
        (LineType::Standard, LineType::Standard, LineType::Standard, LineType::NoLine) => '\u{251C}',
        (LineType::Standard, LineType::Bold, LineType::Standard, LineType::NoLine) => '\u{251D}',
        (LineType::Bold, LineType::Standard, LineType::Standard, LineType::NoLine) => '\u{251E}',
        (LineType::Standard, LineType::Standard, LineType::Bold, LineType::NoLine) => '\u{251F}',
        (LineType::Bold, LineType::Standard, LineType::Bold, LineType::NoLine) => '\u{2520}',
        (LineType::Bold, LineType::Bold, LineType::Standard, LineType::NoLine) => '\u{2521}',
        (LineType::Standard, LineType::Bold, LineType::Bold, LineType::NoLine) => '\u{2522}',
        (LineType::Bold, LineType::Bold, LineType::Bold, LineType::NoLine) => '\u{2523}',
        (LineType::Standard, LineType::NoLine, LineType::Standard, LineType::Standard) => '\u{2524}',
        (LineType::Standard, LineType::NoLine, LineType::Standard, LineType::Bold) => '\u{2525}',
        (LineType::Bold, LineType::NoLine, LineType::Standard, LineType::Standard) => '\u{2526}',
        (LineType::Standard, LineType::NoLine, LineType::Bold, LineType::Standard) => '\u{2527}',
        (LineType::Bold, LineType::NoLine, LineType::Bold, LineType::Standard) => '\u{2528}',
        (LineType::Bold, LineType::NoLine, LineType::Standard, LineType::Bold) => '\u{2529}',
        (LineType::Standard, LineType::NoLine, LineType::Bold, LineType::Bold) => '\u{252A}',
        (LineType::Bold, LineType::NoLine, LineType::Bold, LineType::Bold) => '\u{252B}',
        (LineType::NoLine, LineType::Standard, LineType::Standard, LineType::Standard) => '\u{252C}',
        (LineType::NoLine, LineType::Standard, LineType::Standard, LineType::Bold) => '\u{252D}',
        (LineType::NoLine, LineType::Bold, LineType::Standard, LineType::Standard) => '\u{252E}',
        (LineType::NoLine, LineType::Bold, LineType::Standard, LineType::Bold) => '\u{252F}',
        (LineType::NoLine, LineType::Standard, LineType::Bold, LineType::Standard) => '\u{2530}',
        (LineType::NoLine, LineType::Standard, LineType::Bold, LineType::Bold) => '\u{2531}',
        (LineType::NoLine, LineType::Bold, LineType::Bold, LineType::Standard) => '\u{2532}',
        (LineType::NoLine, LineType::Bold, LineType::Bold, LineType::Bold) => '\u{2533}',
        (LineType::Standard, LineType::Standard, LineType::NoLine, LineType::Standard) => '\u{2534}',
        (LineType::Standard, LineType::Standard, LineType::NoLine, LineType::Bold) => '\u{2535}',
        (LineType::Standard, LineType::Bold, LineType::NoLine, LineType::Standard) => '\u{2536}',
        (LineType::Standard, LineType::Bold, LineType::NoLine, LineType::Bold) => '\u{2537}',
        (LineType::Bold, LineType::Standard, LineType::NoLine, LineType::Standard) => '\u{2538}',
        (LineType::Bold, LineType::Standard, LineType::NoLine, LineType::Bold) => '\u{2539}',
        (LineType::Bold, LineType::Bold, LineType::NoLine, LineType::Standard) => '\u{253A}',
        (LineType::Bold, LineType::Bold, LineType::NoLine, LineType::Bold) => '\u{253B}',
        (LineType::Standard, LineType::Standard, LineType::Standard, LineType::Standard) => '\u{253C}',
        (LineType::Standard, LineType::Standard, LineType::Standard, LineType::Bold) => '\u{253D}',
        (LineType::Standard, LineType::Bold, LineType::Standard, LineType::Standard) => '\u{253E}',
        (LineType::Standard, LineType::Bold, LineType::Standard, LineType::Bold) => '\u{253F}',
        (LineType::Bold, LineType::Standard, LineType::Standard, LineType::Standard) => '\u{2540}',
        (LineType::Standard, LineType::Standard, LineType::Bold, LineType::Standard) => '\u{2541}',
        (LineType::Bold, LineType::Standard, LineType::Bold, LineType::Standard) => '\u{2542}',
        (LineType::Bold, LineType::Standard, LineType::Standard, LineType::Bold) => '\u{2543}',
        (LineType::Bold, LineType::Bold, LineType::Standard, LineType::Standard) => '\u{2544}',
        (LineType::Standard, LineType::Standard, LineType::Bold, LineType::Bold) => '\u{2545}',
        (LineType::Standard, LineType::Bold, LineType::Bold, LineType::Standard) => '\u{2546}',
        (LineType::Bold, LineType::Bold, LineType::Standard, LineType::Bold) => '\u{2547}',
        (LineType::Standard, LineType::Bold, LineType::Bold, LineType::Bold) => '\u{2548}',
        (LineType::Bold, LineType::Standard, LineType::Bold, LineType::Bold) => '\u{2549}',
        (LineType::Bold, LineType::Bold, LineType::Bold, LineType::Standard) => '\u{254A}',
        (LineType::Bold, LineType::Bold, LineType::Bold, LineType::Bold) => '\u{254B}',
        (LineType::NoLine, LineType::NoLine, LineType::NoLine, LineType::Standard) => '\u{2574}',
        (LineType::Standard, LineType::NoLine, LineType::NoLine, LineType::NoLine) => '\u{2575}',
        (LineType::NoLine, LineType::Standard, LineType::NoLine, LineType::NoLine) => '\u{2576}',
        (LineType::NoLine, LineType::NoLine, LineType::Standard, LineType::NoLine) => '\u{2577}',
        (LineType::NoLine, LineType::NoLine, LineType::NoLine, LineType::Bold) => '\u{2578}',
        (LineType::Bold, LineType::NoLine, LineType::NoLine, LineType::NoLine) => '\u{2579}',
        (LineType::NoLine, LineType::Bold, LineType::NoLine, LineType::NoLine) => '\u{257A}',
        (LineType::NoLine, LineType::NoLine, LineType::Bold, LineType::NoLine) => '\u{257B}',
        (LineType::NoLine, LineType::Bold, LineType::NoLine, LineType::Standard) => '\u{257C}',
        (LineType::Standard, LineType::NoLine, LineType::Bold, LineType::NoLine) => '\u{257D}',
        (LineType::NoLine, LineType::Standard, LineType::NoLine, LineType::Bold) => '\u{257E}',
        (LineType::Bold, LineType::NoLine, LineType::Standard, LineType::NoLine) => '\u{257F}',
        _ => '\u{0000}',
    }
}

/// The encoding table over all symbol indices: entry `i` holds the
/// character of the symbol with table index `i` (the null character where
/// no glyph exists).
#[verifier::loop_isolation(false)]
pub fn symbol_to_char_table() -> (r: Vec<char>)
    ensures
        r@.len() == 81,
        forall|s: Symbol| 0 <= #[trigger] s.spec_table_index() < 81 ==> r@[s.spec_table_index()]
            == spec_symbol_to_char(s),
{
    let mut table: Vec<char> = Vec::new();
    let mut i: usize = 0;
    while i < 81
        invariant
            table@.len() == i,
            i <= 81,
            forall|s: Symbol| 0 <= #[trigger] s.spec_table_index() < i ==> table@[
                s.spec_table_index()
            ] == spec_symbol_to_char(s),
        decreases 81 - i,
    {
        let sym = symbol_of_index(i);
        table.push(symbol_to_char(&sym));
        proof {
            assert forall|s: Symbol| 0 <= #[trigger] s.spec_table_index() < i + 1 implies table@[
                s.spec_table_index()
            ] == spec_symbol_to_char(s) by {
                if s.spec_table_index() == i {
                    lemma_table_index_determines(s, sym);
                }
            }
        }
        i = i + 1;
    }
    table
}

/// Two symbols with the same table index are the same symbol.
proof fn lemma_table_index_determines(a: Symbol, b: Symbol)
    requires
        a.spec_table_index() == b.spec_table_index(),
    ensures
        a == b,
{
}

/// The symbol with the given dense table index.
pub fn symbol_of_index(i: usize) -> (r: Symbol)
    requires
        i < 81,
    ensures
        r.spec_table_index() == i,
{
    let top = line_type_of_index((i / 27) % 3);
    let right = line_type_of_index((i / 9) % 3);
    let bottom = line_type_of_index((i / 3) % 3);
    let left = line_type_of_index(i % 3);
    let r = Symbol { top, right, bottom, left };
    proof {
        let ii = i as int;
        assert(((ii / 27) % 3) * 27 + ((ii / 9) % 3) * 9 + ((ii / 3) % 3) * 3 + ii % 3 == ii)
            by (nonlinear_arith)
            requires 0 <= ii < 81;
    }
    r
}

/// The weight with the given index.
pub fn line_type_of_index(i: usize) -> (r: LineType)
    requires
        i < 3,
    ensures
        r.spec_index() == i,
{
    match i {
        0 => LineType::NoLine,
        1 => LineType::Standard,
        _ => LineType::Bold,
    }
}

/// The axis a spacer runs along.
#[derive(Clone, Copy, Debug, PartialEq, Eq, Structural)]
pub enum Direction {
    Horizontal,
    Vertical,
}

/// A one-cell-thick spacer line that merges its ends and body into the
/// surface's existing box-drawing glyphs.
#[derive(Clone, Copy, Debug, PartialEq, Eq, Structural)]
pub struct LineSpacer {
    pub direction: Direction,
    pub line_type: LineType,
}

impl LineSpacer {
    /// Renders the spacer into the given area: open end caps at the two
    /// ends, a full segment in between. Degenerate areas render nothing.
    #[verifier::loop_isolation(false)]
    pub fn render_ref(&self, x: u16, y: u16, w: u16, h: u16, buffer: &mut Buffer)
        requires
            old(buffer).wf(),
        ensures
            final(buffer).wf(),
            final(buffer).width == old(buffer).width,
            final(buffer).height == old(buffer).height,
    {
        match self.direction {
            Direction::Horizontal => {
                if h == 0 || w <= 1 {
                    return ;
                }
                Symbol { right: self.line_type, ..Symbol::default_symbol() }.draw(
                    buffer,
                    x as i64,
                    y as i64,
                );
                Symbol { left: self.line_type, ..Symbol::default_symbol() }.draw(
                    buffer,
                    (x as i64) + (w as i64) - 1,
                    y as i64,
                );
                let mut i: u16 = 1;
                while i < w - 1
                    invariant
                        w >= 2,
                        buffer.wf(),
                        buffer.width == old(buffer).width,
                        buffer.height == old(buffer).height,
                    decreases w - i,
                {
                    Symbol {
                        left: self.line_type,
                        right: self.line_type,
                        ..Symbol::default_symbol()
                    }.draw(buffer, (x as i64) + (i as i64), y as i64);
                    i = i + 1;
                }
            },
            Direction::Vertical => {
                if w == 0 || h <= 1 {
                    return ;
                }
                Symbol { bottom: self.line_type, ..Symbol::default_symbol() }.draw(
                    buffer,
                    x as i64,
                    y as i64,
                );
                Symbol { top: self.line_type, ..Symbol::default_symbol() }.draw(
                    buffer,
                    x as i64,
                    (y as i64) + (h as i64) - 1,
                );
                let mut i: u16 = 1;
                while i < h - 1
                    invariant
                        h >= 2,
                        buffer.wf(),
                        buffer.width == old(buffer).width,
                        buffer.height == old(buffer).height,
                    decreases h - i,
                {
                    Symbol {
                        top: self.line_type,
                        bottom: self.line_type,
                        ..Symbol::default_symbol()
                    }.draw(buffer, x as i64, (y as i64) + (i as i64));
                    i = i + 1;
                }
            },
        }
    }
}

impl Symbol {
    /// The empty symbol: no line toward any side.
    pub fn default_symbol() -> (r: Symbol)
        ensures
            r == (Symbol {
                top: LineType::NoLine,
                right: LineType::NoLine,
                bottom: LineType::NoLine,
                left: LineType::NoLine,
            }),
    {
        Symbol {
            top: LineType::NoLine,
            right: LineType::NoLine,
            bottom: LineType::NoLine,
            left: LineType::NoLine,
        }
    }
}

/// A rectangular frame of spacer lines.
#[derive(Clone, Copy, Debug, PartialEq, Eq, Structural)]
pub struct RectSpacer {
    pub line_type: LineType,
}

impl RectSpacer {
    /// Renders the four edges of the area as merged spacer lines.
    pub fn render_ref(&self, x: u16, y: u16, w: u16, h: u16, buffer: &mut Buffer)
        requires
            old(buffer).wf(),
            w >= 1 && h >= 1,
            x + w <= 0x10000 && y + h <= 0x10000,
        ensures
            final(buffer).wf(),
            final(buffer).width == old(buffer).width,
            final(buffer).height == old(buffer).height,
    {
        let horizontal = LineSpacer { direction: Direction::Horizontal, line_type: self.line_type };
        let vertical = LineSpacer { direction: Direction::Vertical, line_type: self.line_type };
        horizontal.render_ref(x, y, w, h, buffer);
        vertical.render_ref(x, y, w, h, buffer);
        horizontal.render_ref(x, y + (h - 1), w, 1, buffer);
        vertical.render_ref(x + (w - 1), y, 1, h, buffer);
    }
}

/// The earlier spacer: fixed glyphs for the two ends, the body, and the
/// one-cell case, written without merging.
#[derive(Clone, Copy, Debug, PartialEq, Eq, Structural)]
pub struct LineSpacerOld {
    pub direction: Direction,
    pub begin: char,
    pub inner: char,
    pub end: char,
    pub merged: char,
}

impl LineSpacerOld {
    /// Renders the spacer: the merged glyph for a single cell, otherwise
    /// the begin/end glyphs at the ends with the inner glyph between.
    #[verifier::loop_isolation(false)]
    pub fn render_ref(&self, x: u16, y: u16, w: u16, h: u16, buffer: &mut Buffer)
        requires
            old(buffer).wf(),
        ensures
            final(buffer).wf(),
            final(buffer).width == old(buffer).width,
            final(buffer).height == old(buffer).height,
    {
        if w == 0 || h == 0 {
            return ;
        }
        if w <= 1 && h <= 1 {
            set_symbol_at(buffer, x as i64, y as i64, self.merged);
            return ;
        }
        set_symbol_at(buffer, x as i64, y as i64, self.begin);
        match self.direction {
            Direction::Horizontal => {
                let end_x = (x as i64) + (w as i64) - 1;
                set_symbol_at(buffer, end_x, y as i64, self.end);
                let mut cx = (x as i64) + 1;
                while cx < end_x
                    invariant
                        buffer.wf(),
                        buffer.width == old(buffer).width,
                        buffer.height == old(buffer).height,
                        cx > x,
                    decreases end_x - cx,
                {
                    set_symbol_at(buffer, cx, y as i64, self.inner);
                    cx = cx + 1;
                }
            },
            Direction::Vertical => {
                let end_y = (y as i64) + (h as i64) - 1;
                set_symbol_at(buffer, x as i64, end_y, self.end);
                let mut cy = (y as i64) + 1;
                while cy < end_y
                    invariant
                        buffer.wf(),
                        buffer.width == old(buffer).width,
                        buffer.height == old(buffer).height,
                        cy > y,
                    decreases end_y - cy,
                {
                    set_symbol_at(buffer, x as i64, cy, self.inner);
                    cy = cy + 1;
                }
            },
        }
    }
}

/// Replaces the glyph of one cell, keeping its colors.
fn set_symbol_at(buffer: &mut Buffer, x: i64, y: i64, symbol: char)
    requires
        old(buffer).wf(),
    ensures
        final(buffer).wf(),
        final(buffer).width == old(buffer).width,
        final(buffer).height == old(buffer).height,
{
    match buffer.cell_at(x, y) {
        Some(cell) => {
            buffer.set_cell(x, y, Cell { symbol, ..cell });
        },
        None => {},
    }
}

} // verus!
