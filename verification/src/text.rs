//! Text wrapping and measurement for text blocks. The actual line breaking
//! is delegated to the `textwrap` crate; this module states what is known
//! of it and builds the verified measurement logic on top.

use vstd::prelude::*;

use crate::widgets::TextBlockState;

verus! {

/// What `textwrap::wrap` returns for one line at one width: a function of
/// the line and the width alone.
pub uninterp spec fn wrap_of(line: Seq<char>, width: usize) -> Seq<Seq<char>>;

/// Relies on textwrap::wrap with a plain width: breaks one line into
/// wrapped fragments. The result depends on the line and the width alone.
#[verifier::external_body]
fn wrap_line(line: &Vec<char>, width: usize) -> (r: Vec<Vec<char>>)
    ensures
        r@.map_values(|v: Vec<char>| v@) == wrap_of(line@, width),
{
    let s: String = line.iter().collect();
    textwrap::wrap(&s, width).into_iter().map(|cow| cow.chars().collect()).collect()
}

/// The concatenated wrapped fragments of the first `i` lines.
pub open spec fn spec_wrapped_upto(lines: Seq<Seq<char>>, width: usize, i: int) -> Seq<Seq<char>>
    decreases i,
{
    if i <= 0 || i > lines.len() {
        Seq::empty()
    } else {
        spec_wrapped_upto(lines, width, i - 1) + wrap_of(lines[i - 1], width)
    }
}

/// All wrapped display lines of a text block at the given width.
pub open spec fn spec_wrapped_lines(lines: Seq<Seq<char>>, width: usize) -> Seq<Seq<char>> {
    spec_wrapped_upto(lines, width, lines.len() as int)
}

/// The length of the longest line in a sequence of lines (zero for none).
pub open spec fn spec_max_line_len(lines: Seq<Seq<char>>) -> int
    decreases lines.len(),
{
    if lines.len() == 0 {
        0
    } else {
        let rest = spec_max_line_len(lines.drop_last());
        if lines.last().len() > rest {
            lines.last().len() as int
        } else {
            rest
        }
    }
}

impl TextBlockState {
    /// The view of the stored lines.
    pub open spec fn lines_view(self) -> Seq<Seq<char>> {
        self.lines@.map_values(|v: Vec<char>| v@)
    }

    /// Wraps every stored line at the given width and returns the
    /// resulting display lines in order.
    #[verifier::loop_isolation(false)]
    pub fn wrapped_lines(&self, width: usize) -> (r: Vec<Vec<char>>)
        ensures
            r@.map_values(|v: Vec<char>| v@) == spec_wrapped_lines(self.lines_view(), width),
    {
        let ghost f = |v: Vec<char>| v@;
        let mut out: Vec<Vec<char>> = Vec::new();
        proof {
            assert(spec_wrapped_upto(self.lines_view(), width, 0) =~= Seq::empty());
            assert(out@.map_values(f) =~= Seq::empty());
        }
        for i in 0..self.lines.len()
            invariant
                out@.map_values(f) == spec_wrapped_upto(self.lines_view(), width, i as int),
        {
            let mut frags = wrap_line(&self.lines[i], width);
            let ghost frags_view = frags@;
            let ghost out_pre = out@;
            out.append(&mut frags);
            proof {
                assert(self.lines_view()[i as int] == self.lines@[i as int]@);
                assert(out@.map_values(f) =~= out_pre.map_values(f) + frags_view.map_values(f));
                assert(spec_wrapped_upto(self.lines_view(), width, i + 1) == spec_wrapped_upto(
                    self.lines_view(),
                    width,
                    i as int,
                ) + wrap_of(self.lines_view()[i as int], width));
            }
        }
        out
    }

    /// Measures the block at the given width: the length of the longest
    /// wrapped line and the number of wrapped lines (each saturating at
    /// the cell-domain maximum).
    #[verifier::loop_isolation(false)]
    pub fn measure(&self, width: usize) -> (r: (u16, u16))
        ensures
            ({
                let wrapped = spec_wrapped_lines(self.lines_view(), width);
                &&& r.0 == crate::widgets::clamp_u16(spec_max_line_len(wrapped))
                &&& r.1 == if wrapped.len() <= 0xFFFF {
                    wrapped.len()
                } else {
                    0xFFFF as nat
                }
            }),
    {
        let lines = self.wrapped_lines(width);
        let ghost wrapped = spec_wrapped_lines(self.lines_view(), width);
        let mut max_w: u16 = 0;
        let mut count: u16 = 0;
        proof {
            assert(wrapped.subrange(0, 0) =~= Seq::<Seq<char>>::empty());
        }
        for i in 0..lines.len()
            invariant
                lines@.map_values(|v: Vec<char>| v@) == wrapped,
                count == if i <= 0xFFFF {
                    i as int
                } else {
                    0xFFFF as int
                },
                max_w == crate::widgets::clamp_u16(spec_max_line_len(wrapped.subrange(0, i as int))),
        {
            let len = lines[i].len();
            proof {
                assert(wrapped[i as int] == lines@[i as int]@);
                assert(wrapped.subrange(0, i + 1).drop_last() =~= wrapped.subrange(0, i as int));
                assert(wrapped.subrange(0, i + 1).last() == wrapped[i as int]);
            }
            if len > max_w as usize {
                if len <= 0xFFFF {
                    max_w = len as u16;
                } else {
                    max_w = 0xFFFF;
                }
            }
            if count < 0xFFFF {
                count = count + 1;
            }
        }
        proof {
            assert(wrapped.subrange(0, wrapped.len() as int) =~= wrapped);
        }
        (max_w, count)
    }
}

} // verus!
