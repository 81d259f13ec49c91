//! The innermost rendering primitive: a fixed-width, single-line
//! colored text cell with two draw styles (plain and bordered).

use vstd::prelude::*;
use vstd::string::StrSliceExecFns;
use vstd::string::StringExecFns;

verus! {

/// Foreground colors the renderer distinguishes.
#[derive(Clone, Copy, Debug, PartialEq, Eq, Structural)]
pub enum Color {
    White,
    Cyan,
    Blue,
    DarkBlue,
    Yellow,
    Red,
    Rgb(u8, u8, u8),
}

/// How a `TextBox` renders: `Default` writes padded text, `Border`
/// writes a top and bottom border rule instead of its text.
#[derive(Clone, Copy, Debug, PartialEq, Eq, Structural)]
pub enum Style {
    Default,
    Border,
}

/// One colored run of text inside a rendered line.
#[derive(Clone, Debug)]
pub struct Fragment {
    pub color: Color,
    pub text: String,
}

impl View for Fragment {
    type V = (Color, Seq<char>);

    open spec fn view(&self) -> (Color, Seq<char>) {
        (self.color, self.text@)
    }
}

/// `n` copies of the character `c`.
pub open spec fn repeat_char(c: char, n: nat) -> Seq<char> {
    Seq::new(n, |i: int| c)
}

/// `text` padded with trailing spaces up to `width`; text that is
/// already as wide or wider is passed through unchanged.
pub open spec fn pad_to(text: Seq<char>, width: nat) -> Seq<char> {
    if text.len() < width {
        text + repeat_char(' ', (width - text.len()) as nat)
    } else {
        text
    }
}

/// How many interior rule characters a border of total width `width`
/// carries: the two corner glyphs are subtracted, clamped at zero.
pub open spec fn border_interior(width: nat) -> nat {
    if width >= 2 {
        (width - 2) as nat
    } else {
        0
    }
}

/// The text a bordered box emits: a top border line, a newline, and a
/// bottom border line, each `width` glyphs wide.
pub open spec fn border_pair(width: nat) -> Seq<char> {
    seq!['┌'] + repeat_char('─', border_interior(width)) + seq!['┐'] + seq!['\n'] + seq!['└']
        + repeat_char('─', border_interior(width)) + seq!['┘']
}

/// What `TextBox::put` emits for a given style, width and text.
pub open spec fn box_put(style: Style, width: nat, text: Seq<char>) -> Seq<char> {
    match style {
        Style::Default => pad_to(text, width),
        Style::Border => border_pair(width),
    }
}

/// Appends `n` copies of the single-character slice `piece` to `s`.
pub fn append_repeat(s: &mut String, piece: &str, n: usize)
    requires
        piece@.len() == 1,
    ensures
        final(s)@ == old(s)@ + repeat_char(piece@[0], n as nat),
{
    let mut i: usize = 0;
    proof {
        assert(s@ =~= old(s)@ + repeat_char(piece@[0], 0));
    }
    while i < n
        invariant
            i <= n,
            piece@.len() == 1,
            s@ == old(s)@ + repeat_char(piece@[0], i as nat),
        decreases n - i,
    {
        s.append(piece);
        i += 1;
        proof {
            assert(s@ =~= old(s)@ + repeat_char(piece@[0], i as nat));
        }
    }
}

/// A fixed-width, single-line colored text cell.
#[derive(Clone, Copy, Debug)]
pub struct TextBox {
    pub color: Color,
    pub width: usize,
    pub height: usize,
    pub style: Style,
}

impl TextBox {
    pub fn new(color: Color, width: usize, height: usize) -> (r: TextBox)
        ensures
            r.color == color,
            r.width == width,
            r.height == height,
            r.style == Style::Default,
    {
        TextBox { color, width, height, style: Style::Default }
    }

    /// Selects a draw style; returns the updated configuration.
    pub fn style(&mut self, style: Style) -> (r: TextBox)
        ensures
            final(self).color == old(self).color,
            final(self).width == old(self).width,
            final(self).height == old(self).height,
            final(self).style == style,
            r == *final(self),
    {
        self.style = style;
        *self
    }

    /// The trailing spaces that would extend `put_data` to this box's
    /// width; empty when the text already meets or exceeds it.
    pub fn blank(&self, put_data: String) -> (r: String)
        ensures
            r@ == repeat_char(
                ' ',
                if put_data@.len() < self.width {
                    (self.width - put_data@.len()) as nat
                } else {
                    0
                },
            ),
    {
        let len = put_data.as_str().unicode_len();
        let mut r = String::new();
        if len < self.width {
            proof {
                reveal_strlit(" ");
            }
            append_repeat(&mut r, " ", self.width - len);
            proof {
                assert(r@ =~= repeat_char(' ', (self.width - put_data@.len()) as nat));
            }
        } else {
            proof {
                assert(r@ =~= repeat_char(' ', 0));
            }
        }
        r
    }

    /// Renders this box: plain style pads `data` with spaces to the
    /// box width (overlong text is passed through unpadded), bordered
    /// style ignores `data` and emits a top and bottom border rule.
    pub fn put(&self, data: String) -> (r: String)
        ensures
            r@ == box_put(self.style, self.width as nat, data@),
    {
        match self.style {
            Style::Default => {
                let len = data.as_str().unicode_len();
                let mut r = data;
                if len < self.width {
                    proof {
                        reveal_strlit(" ");
                    }
                    append_repeat(&mut r, " ", self.width - len);
                }
                r
            },
            Style::Border => {
                proof {
                    reveal_strlit("┌");
                    reveal_strlit("─");
                    reveal_strlit("┐");
                    reveal_strlit("\n");
                    reveal_strlit("└");
                    reveal_strlit("┘");
                }
                let mut r = String::from_str("┌");
                let interior = if self.width >= 2 {
                    self.width - 2
                } else {
                    0
                };
                append_repeat(&mut r, "─", interior);
                r.append("┐");
                r.append("\n");
                r.append("└");
                append_repeat(&mut r, "─", interior);
                r.append("┘");
                proof {
                    assert(r@ =~= border_pair(self.width as nat));
                }
                r
            },
        }
    }

    pub fn change_width(&mut self, new_width: usize)
        ensures
            final(self).color == old(self).color,
            final(self).width == new_width,
            final(self).height == old(self).height,
            final(self).style == old(self).style,
    {
        self.width = new_width;
    }
}


/// A caption cell: a text box held for a panel caption, redrawn as a
/// bordered box when the caption is set.
pub struct Title {
    pub text_box: TextBox,
    pub width: usize,
}

impl Title {
    pub fn new(width: usize) -> (r: Title)
        ensures
            r.width == width,
            r.text_box == (TextBox {
                color: Color::White,
                width,
                height: 1,
                style: Style::Default,
            }),
    {
        Title { text_box: TextBox::new(Color::White, width, 1), width }
    }

    /// Replaces the cell with a bordered ten-column box and renders
    /// it; the bordered style draws its rules in place of the text.
    pub fn set(&mut self, title: String) -> (r: String)
        ensures
            final(self).width == old(self).width,
            final(self).text_box == (TextBox {
                color: Color::Cyan,
                width: 10,
                height: 1,
                style: Style::Border,
            }),
            r@ == border_pair(10),
    {
        let mut tb = TextBox::new(Color::Cyan, 10, 1);
        self.text_box = tb.style(Style::Border);
        self.text_box.put(title)
    }
}

} // verus!
