//! A titled, bordered rectangular overlay built from text lines, and
//! the modal input flows whose popups it renders.

use vstd::prelude::*;
use vstd::string::StrSliceExecFns;
use vstd::string::StringExecFns;

use crate::textbox::Color;
use crate::textbox::Fragment;
use crate::textbox::pad_to;
use crate::textbox::repeat_char;
use crate::textline::TextLine;
use crate::textline::fill_count;
use crate::textline::row_view;
use crate::textline::sat_add;

verus! {

/// The active modal input flow. `Command`, `ChangeDirectory` and
/// `AddEntry` own the text the user has typed so far; entering one of
/// them supplies a fresh buffer and leaving or committing drops it.
/// `Edit` is reserved and unimplemented.
#[derive(Clone, Debug)]
pub enum Mode {
    Normal,
    Command { buffer: String },
    Edit,
    ChangeDirectory { buffer: String },
    AddEntry { buffer: String },
    DeleteConfirm,
}

/// A horizontal rule line carrying a left-justified title: the title
/// in blue, then dashes out to the target width.
pub open spec fn rule_row(title: Seq<char>, width: nat) -> Seq<(Color, Seq<char>)> {
    if fill_count(width, title.len()) > 0 {
        seq![(Color::Blue, title)] + seq![
            (Color::White, repeat_char('─', fill_count(width, title.len()))),
        ]
    } else {
        seq![(Color::Blue, title)]
    }
}

/// A content line: the text in the window's draw color, padded with
/// spaces out to the window's content width.
pub open spec fn content_row(color: Color, text: Seq<char>, width: nat) -> Seq<
    (Color, Seq<char>),
> {
    if fill_count(width, text.len()) > 0 {
        seq![(color, text)] + seq![(Color::White, repeat_char(' ', fill_count(width, text.len())))]
    } else {
        seq![(color, text)]
    }
}

/// The content width of a window: three columns are reserved for the
/// frame, clamped at zero for very narrow windows.
pub open spec fn window_content_width(window_width: nat) -> nat {
    if window_width >= 3 {
        (window_width - 3) as nat
    } else {
        0
    }
}

/// A titled, bordered overlay: position, extent, current draw color,
/// and a running vertical cursor offset advanced line by line.
#[derive(Debug)]
pub struct Window {
    pub now_mode: Mode,
    pub now_cursor_x: usize,
    pub now_cursor_y: usize,
    pub now_color: Color,
    pub start_width: usize,
    pub start_height: usize,
    pub window_width: usize,
    pub window_height: usize,
    pub window_title: String,
}

impl Window {
    pub fn new() -> (r: Window)
        ensures
            r.now_mode is Normal,
            r.now_cursor_x == 0,
            r.now_cursor_y == 0,
            r.now_color == Color::White,
            r.start_width == 0,
            r.start_height == 0,
            r.window_width == 1,
            r.window_height == 1,
            r.window_title@ == Seq::<char>::empty(),
    {
        Window {
            now_mode: Mode::Normal,
            now_cursor_x: 0,
            now_cursor_y: 0,
            now_color: Color::White,
            start_width: 0,
            start_height: 0,
            window_width: 1,
            window_height: 1,
            window_title: String::new(),
        }
    }

    pub fn set_mode(&mut self, mode: Mode)
        ensures
            *final(self) == (Window { now_mode: mode, ..*old(self) }),
    {
        self.now_mode = mode;
    }

    pub fn set_width(&mut self, width: usize)
        ensures
            *final(self) == (Window { window_width: width, ..*old(self) }),
    {
        self.window_width = width;
    }

    pub fn set_start_hight(&mut self, hight: usize)
        ensures
            *final(self) == (Window { start_height: hight, ..*old(self) }),
    {
        self.start_height = hight;
    }

    pub fn set_hight(&mut self, hight: usize)
        ensures
            *final(self) == (Window { window_height: hight, ..*old(self) }),
    {
        self.window_height = hight;
    }

    pub fn set_color(&mut self, color: Color)
        ensures
            *final(self) == (Window { now_color: color, ..*old(self) }),
    {
        self.now_color = color;
    }

    /// Appends `title` to the window's title text.
    pub fn set_title(&mut self, title: String)
        ensures
            final(self).window_title@ == old(self).window_title@ + title@,
            *final(self) == (Window {
                window_title: final(self).window_title,
                ..*old(self)
            }),
    {
        let mut t = self.window_title.clone();
        t.append(title.as_str());
        self.window_title = t;
    }

    /// Draws the window's top rule line, carrying the title
    /// left-justified, and advances the vertical cursor one row.
    pub fn top_line(&mut self) -> (r: Vec<Fragment>)
        ensures
            row_view(r@) == rule_row(old(self).window_title@, old(self).window_width as nat),
            final(self).now_cursor_y as nat == sat_add(old(self).now_cursor_y as nat, 1),
            *final(self) == (Window {
                now_cursor_y: final(self).now_cursor_y,
                ..*old(self)
            }),
    {
        self.now_cursor_y = crate::textline::sat_add_usize(self.now_cursor_y, 1);

        let mut border_line = TextLine::new(self.window_width);
        border_line.set_beam_style(1);
        let title_len = self.window_title.as_str().unicode_len();
        border_line.create_text_box(Color::Blue, title_len, 1);
        border_line.put(self.window_title.clone());
        border_line.blank();
        proof {
            assert(pad_to(self.window_title@, title_len as nat) =~= self.window_title@);
            assert(row_view(border_line.out@) =~= rule_row(
                old(self).window_title@,
                old(self).window_width as nat,
            ));
        }
        border_line.out
    }

    /// Draws one content line in the window's current color, padded
    /// with spaces to the window's content width, and advances the
    /// vertical cursor one row.
    pub fn put(&mut self, data: String) -> (r: Vec<Fragment>)
        ensures
            row_view(r@) == content_row(
                old(self).now_color,
                data@,
                window_content_width(old(self).window_width as nat),
            ),
            final(self).now_cursor_y as nat == sat_add(old(self).now_cursor_y as nat, 1),
            *final(self) == (Window {
                now_cursor_y: final(self).now_cursor_y,
                ..*old(self)
            }),
    {
        self.now_cursor_y = crate::textline::sat_add_usize(self.now_cursor_y, 1);
        let content_width = if self.window_width >= 3 {
            self.window_width - 3
        } else {
            0
        };
        let mut put_line = TextLine::new(content_width);
        let data_len = data.as_str().unicode_len();
        put_line.create_text_box(self.now_color, data_len, 1);
        put_line.put(data);
        put_line.blank();
        proof {
            assert(pad_to(data@, data_len as nat) =~= data@);
            assert(row_view(put_line.out@) =~= content_row(
                old(self).now_color,
                data@,
                window_content_width(old(self).window_width as nat),
            ));
        }
        put_line.out
    }
}

} // verus!
