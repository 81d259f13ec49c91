//! A horizontal sequence of text boxes plus separators: tracks the
//! width consumed so far so the trailing space can be filled up to a
//! target width, and accumulates the colored fragments of one line.

use vstd::prelude::*;
use vstd::string::StrSliceExecFns;
use vstd::string::StringExecFns;

use crate::textbox::Color;
use crate::textbox::Fragment;
use crate::textbox::Style;
use crate::textbox::TextBox;
use crate::textbox::append_repeat;
use crate::textbox::box_put;
use crate::textbox::repeat_char;

verus! {

/// A rendered line as the colored character runs it is made of.
pub open spec fn row_view(r: Seq<Fragment>) -> Seq<(Color, Seq<char>)> {
    r.map_values(|f: Fragment| f@)
}

/// Addition on `usize` clamped at the top of the range.
pub open spec fn sat_add(a: nat, b: nat) -> nat {
    if a + b > usize::MAX {
        usize::MAX as nat
    } else {
        a + b
    }
}

/// How many fill glyphs `blank` writes: the distance left to the
/// target width, and zero once the target is met or exceeded.
pub open spec fn fill_count(width: nat, consumed: nat) -> nat {
    if consumed < width {
        (width - consumed) as nat
    } else {
        0
    }
}

/// The fill glyph selected by a beam style: dashes for rule lines,
/// spaces otherwise.
pub open spec fn beam_glyph(beam_style: nat) -> char {
    if beam_style == 1 {
        '─'
    } else {
        ' '
    }
}

/// `usize` addition clamped at `usize::MAX`.
pub fn sat_add_usize(a: usize, b: usize) -> (r: usize)
    ensures
        r as nat == sat_add(a as nat, b as nat),
{
    if a <= usize::MAX - b {
        a + b
    } else {
        usize::MAX
    }
}

/// A builder for one line of output: a target width, a consumed-width
/// accumulator, the most recently created text box, and the fragments
/// emitted so far.
pub struct TextLine {
    pub width: usize,
    pub now_width: usize,
    pub text_box: TextBox,
    pub beam_style: usize,
    pub frame_style: usize,
    pub out: Vec<Fragment>,
}

impl TextLine {
    pub fn new(width: usize) -> (r: TextLine)
        ensures
            r.width == width,
            r.now_width == 0,
            r.beam_style == 0,
            r.frame_style == 0,
            r.out@ == Seq::<Fragment>::empty(),
    {
        TextLine {
            width,
            now_width: 0,
            text_box: TextBox::new(Color::White, width, 1),
            beam_style: 0,
            frame_style: 0,
            out: Vec::new(),
        }
    }

    pub fn get_width(&self) -> (r: usize)
        ensures
            r == self.width,
    {
        self.width
    }

    pub fn set_beam_style(&mut self, style: usize)
        ensures
            *final(self) == (TextLine { beam_style: style, ..*old(self) }),
    {
        self.beam_style = style;
    }

    pub fn set_frame_style(&mut self, style: usize)
        ensures
            *final(self) == (TextLine { frame_style: style, ..*old(self) }),
    {
        self.frame_style = style;
    }

    /// Configures the next text box and accounts for its width in the
    /// consumed-width accumulator.
    pub fn create_text_box(&mut self, color: Color, width: usize, height: usize) -> (r: TextBox)
        ensures
            final(self).now_width as nat == sat_add(old(self).now_width as nat, width as nat),
            final(self).text_box == (TextBox {
                color,
                width,
                height,
                style: Style::Default,
            }),
            final(self).width == old(self).width,
            final(self).beam_style == old(self).beam_style,
            final(self).frame_style == old(self).frame_style,
            final(self).out == old(self).out,
            r == final(self).text_box,
    {
        self.now_width = sat_add_usize(self.now_width, width);
        self.text_box = TextBox::new(color, width, height);
        self.text_box
    }

    /// Marks this line as the focused one: emits the focus marker and
    /// accounts for its two columns.
    pub fn focus(&mut self)
        ensures
            final(self).now_width as nat == sat_add(old(self).now_width as nat, 2),
            row_view(final(self).out@) == row_view(old(self).out@).push(
                (Color::White, "> "@),
            ),
            final(self).width == old(self).width,
            final(self).text_box == old(self).text_box,
            final(self).beam_style == old(self).beam_style,
            final(self).frame_style == old(self).frame_style,
    {
        self.now_width = sat_add_usize(self.now_width, 2);
        self.out.push(Fragment { color: Color::White, text: String::from_str("> ") });
        proof {
            assert(row_view(self.out@) =~= row_view(old(self).out@).push((Color::White, "> "@)));
        }
    }

    /// Emits the two spaces that keep unfocused lines aligned with the
    /// focused one.
    pub fn unfocus(&mut self)
        ensures
            final(self).now_width as nat == sat_add(old(self).now_width as nat, 2),
            row_view(final(self).out@) == row_view(old(self).out@).push(
                (Color::White, "  "@),
            ),
            final(self).width == old(self).width,
            final(self).text_box == old(self).text_box,
            final(self).beam_style == old(self).beam_style,
            final(self).frame_style == old(self).frame_style,
    {
        self.now_width = sat_add_usize(self.now_width, 2);
        self.out.push(Fragment { color: Color::White, text: String::from_str("  ") });
        proof {
            assert(row_view(self.out@) =~= row_view(old(self).out@).push((Color::White, "  "@)));
        }
    }

    /// Fills the line up to its target width with the beam glyph;
    /// writes nothing once the consumed width meets or exceeds the
    /// target, and never underflows.
    pub fn blank(&mut self)
        ensures
            row_view(final(self).out@) == if fill_count(
                old(self).width as nat,
                old(self).now_width as nat,
            ) > 0 {
                row_view(old(self).out@).push(
                    (
                        Color::White,
                        repeat_char(
                            beam_glyph(old(self).beam_style as nat),
                            fill_count(old(self).width as nat, old(self).now_width as nat),
                        ),
                    ),
                )
            } else {
                row_view(old(self).out@)
            },
            final(self).width == old(self).width,
            final(self).now_width == old(self).now_width,
            final(self).text_box == old(self).text_box,
            final(self).beam_style == old(self).beam_style,
            final(self).frame_style == old(self).frame_style,
    {
        if self.now_width < self.width {
            let n = self.width - self.now_width;
            let mut text = String::new();
            if self.beam_style == 1 {
                proof {
                    reveal_strlit("─");
                }
                append_repeat(&mut text, "─", n);
            } else {
                proof {
                    reveal_strlit(" ");
                }
                append_repeat(&mut text, " ", n);
            }
            proof {
                assert(text@ =~= repeat_char(
                    beam_glyph(self.beam_style as nat),
                    fill_count(self.width as nat, self.now_width as nat),
                ));
            }
            let glyphs = Fragment { color: Color::White, text };
            self.out.push(glyphs);
            proof {
                assert(row_view(self.out@) =~= row_view(old(self).out@).push(
                    (
                        Color::White,
                        repeat_char(
                            beam_glyph(old(self).beam_style as nat),
                            fill_count(old(self).width as nat, old(self).now_width as nat),
                        ),
                    ),
                ));
            }
        }
    }

    /// Emits the three-column vertical divider between fields.
    pub fn separate(&mut self)
        ensures
            final(self).now_width as nat == sat_add(old(self).now_width as nat, 3),
            row_view(final(self).out@) == row_view(old(self).out@).push(
                (Color::Blue, " │ "@),
            ),
            final(self).width == old(self).width,
            final(self).text_box == old(self).text_box,
            final(self).beam_style == old(self).beam_style,
            final(self).frame_style == old(self).frame_style,
    {
        self.now_width = sat_add_usize(self.now_width, 3);
        self.out.push(Fragment { color: Color::Blue, text: String::from_str(" │ ") });
        proof {
            assert(row_view(self.out@) =~= row_view(old(self).out@).push((Color::Blue, " │ "@)));
        }
    }

    /// Renders `data` through the most recently created text box and
    /// emits the result in that box's color.
    pub fn put(&mut self, data: String)
        ensures
            row_view(final(self).out@) == row_view(old(self).out@).push(
                (
                    old(self).text_box.color,
                    box_put(old(self).text_box.style, old(self).text_box.width as nat, data@),
                ),
            ),
            final(self).width == old(self).width,
            final(self).now_width == old(self).now_width,
            final(self).text_box == old(self).text_box,
            final(self).beam_style == old(self).beam_style,
            final(self).frame_style == old(self).frame_style,
    {
        let text = self.text_box.put(data);
        let color = self.text_box.color;
        self.out.push(Fragment { color, text });
        proof {
            assert(row_view(self.out@) =~= row_view(old(self).out@).push(
                (
                    old(self).text_box.color,
                    box_put(old(self).text_box.style, old(self).text_box.width as nat, data@),
                ),
            ));
        }
    }
}

} // verus!
