//! Frame rendering: one listing row per entry with aligned columns,
//! the title and border rows of the main panel, and the overlay rows
//! of the modal popups.

use vstd::prelude::*;
use vstd::arithmetic::power::pow;
use vstd::string::StrSliceExecFns;
use vstd::string::StringExecFns;

use crate::app::App;
use crate::app::candidates;
use crate::app::focused_name;
use crate::numfmt::dec_str;
use crate::numfmt::u64_to_string;
use crate::numfmt::usize_to_string;
use crate::perm::lemma_recomb_bound;
use crate::perm::perm_string;
use crate::perm::recomb;
use crate::strutil::find_char;
use crate::strutil::first_index_of;
use crate::textbox::Color;
use crate::textbox::Fragment;
use crate::textbox::append_repeat;
use crate::textbox::border_interior;
use crate::textbox::pad_to;
use crate::textbox::repeat_char;
use crate::textline::TextLine;
use crate::textline::fill_count;
use crate::textline::row_view;
use crate::textline::sat_add;
use crate::textline::sat_add_usize;
use crate::window::Mode;
use crate::window::Window;
use crate::window::content_row;
use crate::window::rule_row;
use crate::window::window_content_width;

verus! {

/// What the filesystem reports about one directory entry, as the
/// listing renders it: the name, the size in bytes, the raw mode
/// bits, the already-rendered creation timestamp, and whether the
/// entry is a directory.
pub struct EntryMeta {
    pub name: String,
    pub size: u64,
    pub mode_bits: u32,
    pub created: String,
    pub is_dir: bool,
}

/// The value of an `EntryMeta`, with the texts as character
/// sequences.
pub struct EntryMetaV {
    pub name: Seq<char>,
    pub size: u64,
    pub mode_bits: u32,
    pub created: Seq<char>,
    pub is_dir: bool,
}

impl View for EntryMeta {
    type V = EntryMetaV;

    open spec fn view(&self) -> EntryMetaV {
        EntryMetaV {
            name: self.name@,
            size: self.size,
            mode_bits: self.mode_bits,
            created: self.created@,
            is_dir: self.is_dir,
        }
    }
}

/// Where a name's extension starts: the first dot, or the start of
/// the name when it has no dot.
pub open spec fn dot_index(name: Seq<char>) -> int {
    if name.contains('.') {
        first_index_of(name, '.')
    } else {
        0
    }
}

/// The color a name is shown in: directories in dark blue, Rust
/// sources in orange, everything else in white.
pub open spec fn name_color(name: Seq<char>, is_dir: bool) -> Color {
    if is_dir {
        Color::DarkBlue
    } else if name.skip(dot_index(name)) == ".rs"@ {
        Color::Rgb(255, 158, 101)
    } else {
        Color::White
    }
}

/// The color a name is shown in.
pub fn entry_name_color(name: &str, is_dir: bool) -> (r: Color)
    ensures
        r == name_color(name@, is_dir),
{
    if is_dir {
        return Color::DarkBlue;
    }
    proof {
        reveal_strlit(".rs");
    }
    let len = name.unicode_len();
    let idx = match find_char(name, '.') {
        Some(i) => i,
        None => 0,
    };
    let ghost ext = name@.skip(idx as int);
    if idx < len && len - idx == 3 && name.get_char(idx) == '.' && name.get_char(idx + 1) == 'r'
        && name.get_char(idx + 2) == 's' {
        proof {
            assert(ext =~= ".rs"@);
        }
        Color::Rgb(255, 158, 101)
    } else {
        proof {
            if ext == ".rs"@ {
                assert(ext.len() == 3);
                assert(ext[0] == '.' && ext[1] == 'r' && ext[2] == 's');
                assert(name@[idx as int] == ext[0]);
                assert(name@[idx + 1] == ext[1]);
                assert(name@[idx + 2] == ext[2]);
            }
        }
        Color::White
    }
}

/// The consumed width of a listing row: the focus marker, the
/// permission column, the size column with its unit, the timestamp
/// column, the name column, and the three dividers.
pub open spec fn entry_consumed(m: EntryMetaV, msw: nat, mnw: nat) -> nat {
    sat_add(
        sat_add(
            sat_add(
                sat_add(
                    sat_add(
                        sat_add(
                            sat_add(
                                sat_add(
                                    sat_add(0, 2),
                                    perm_string(recomb(m.mode_bits as int, 8)).len(),
                                ),
                                3,
                            ),
                            msw,
                        ),
                        2,
                    ),
                    3,
                ),
                m.created.len(),
            ),
            3,
        ),
        mnw,
    )
}

/// One listing row: the focus marker, the permission string, the
/// size right-aligned to the widest size with its byte unit, the
/// creation timestamp, the name padded to the widest name in its
/// color, and space fill out to the row's target width.
pub open spec fn entry_row(m: EntryMetaV, focused: bool, msw: nat, mnw: nat, target: nat) -> Seq<
    (Color, Seq<char>),
> {
    let marker: Seq<char> = if focused {
        "> "@
    } else {
        "  "@
    };
    let frags = seq![
        (Color::White, marker),
        (Color::White, perm_string(recomb(m.mode_bits as int, 8))),
        (Color::Blue, " │ "@),
        (Color::Blue, pad_to(dec_str(m.size as nat), msw)),
        (Color::White, " B"@),
        (Color::Blue, " │ "@),
        (Color::Yellow, m.created),
        (Color::Blue, " │ "@),
        (name_color(m.name, m.is_dir), pad_to(m.name, mnw)),
    ];
    let fill = fill_count(target, entry_consumed(m, msw, mnw));
    if fill > 0 {
        frags.push((Color::White, repeat_char(' ', fill)))
    } else {
        frags
    }
}

impl App {
    /// Renders one listing row for the entry `meta`, focused or not,
    /// with the columns aligned to the listing's maxima.
    pub fn draw_line(&self, meta: &EntryMeta, focused: bool) -> (r: Vec<Fragment>)
        ensures
            row_view(r@) == entry_row(
                meta@,
                focused,
                self.listing.max_size_width as nat,
                self.listing.max_name_width as nat,
                border_interior(self.window_width as nat),
            ),
    {
        proof {
            reveal_with_fuel(pow, 13);
            assert(pow(8, 11) == 8589934592);
            assert(pow(10, 11) == 100000000000);
            lemma_recomb_bound(meta.mode_bits as int, 8, 11);
            reveal_strlit(" B");
        }
        let content_width = if self.window_width >= 2 {
            (self.window_width - 2) as usize
        } else {
            0
        };
        let mut line = TextLine::new(content_width);
        if focused {
            line.focus();
        } else {
            line.unfocus();
        }

        let hex_permission = self.shinsu(meta.mode_bits as i64, 8);
        let permission = self.generate_permission_strings(hex_permission);
        let permission_len = permission.as_str().unicode_len();
        line.create_text_box(Color::White, permission_len, 1);
        line.put(permission);

        line.separate();

        let filesize = u64_to_string(meta.size);
        line.create_text_box(Color::Blue, self.listing.max_size_width, 1);
        line.put(filesize);

        line.create_text_box(Color::White, 2, 1);
        line.put(String::from_str(" B"));

        line.separate();

        let created_len = meta.created.as_str().unicode_len();
        line.create_text_box(Color::Yellow, created_len, 1);
        line.put(meta.created.clone());

        line.separate();

        let filename_color = entry_name_color(meta.name.as_str(), meta.is_dir);
        line.create_text_box(filename_color, self.listing.max_name_width, 1);
        line.put(meta.name.clone());

        line.blank();
        proof {
            assert(row_view(line.out@) =~= entry_row(
                meta@,
                focused,
                self.listing.max_size_width as nat,
                self.listing.max_name_width as nat,
                border_interior(self.window_width as nat),
            ));
        }
        line.out
    }
}

/// The title row of the main panel: the working directory, the
/// current page over the page count between brackets, and a dashed
/// rule out to the panel width, all between the top corners.
pub open spec fn title_row(app: App) -> Seq<(Color, Seq<char>)> {
    let pagestr = dec_str(sat_add(app.cursor.page_index as nat, 1));
    let totalstr = dec_str(app.listing.pages@.len());
    let consumed = sat_add(
        sat_add(
            sat_add(sat_add(sat_add(sat_add(0, app.pwd@.len()), 2), pagestr.len()), 1),
            totalstr.len(),
        ),
        1,
    );
    let fill = fill_count(border_interior(app.window_width as nat), consumed);
    seq![
        (Color::Blue, "┌"@),
        (Color::Cyan, app.pwd@),
        (Color::Blue, "-["@),
        (Color::Yellow, pagestr),
        (Color::Yellow, "/"@),
        (Color::Yellow, totalstr),
        (Color::Blue, "]"@),
    ] + (if fill > 0 {
        seq![(Color::White, repeat_char('─', fill))]
    } else {
        Seq::<(Color, Seq<char>)>::empty()
    }) + seq![(Color::Blue, "┐"@)]
}

/// A blank interior row of the main panel: the side borders with
/// spaces between them.
pub open spec fn filler_row(w: nat) -> Seq<(Color, Seq<char>)> {
    seq![(Color::Blue, "│"@)] + (if border_interior(w) > 0 {
        seq![(Color::White, repeat_char(' ', border_interior(w)))]
    } else {
        Seq::<(Color, Seq<char>)>::empty()
    }) + seq![(Color::Blue, "│"@)]
}

/// The bottom border of the main panel.
pub open spec fn bottom_text(w: nat) -> Seq<char> {
    seq!['└'] + repeat_char('─', border_interior(w)) + seq!['┘']
}

/// The bottom border row of the main panel.
pub open spec fn bottom_row(w: nat) -> Seq<(Color, Seq<char>)> {
    seq![(Color::Blue, bottom_text(w))]
}

/// The input line shown under a modal flow: the live buffer between
/// bracket glyphs, with space fill out to the panel width.
pub open spec fn input_row(buffer: Seq<char>, w: nat) -> Seq<(Color, Seq<char>)> {
    let fill = fill_count(w, sat_add(sat_add(sat_add(0, 2), buffer.len()), 2));
    seq![(Color::Blue, "└["@), (Color::Blue, buffer)] + (if fill > 0 {
        seq![(Color::White, repeat_char(' ', fill))]
    } else {
        Seq::<(Color, Seq<char>)>::empty()
    }) + seq![(Color::Blue, "]┘"@)]
}

impl App {
    /// Renders the title row of the main panel.
    pub fn title_row_exec(&self) -> (r: Vec<Fragment>)
        ensures
            row_view(r@) == title_row(*self),
    {
        proof {
            reveal_strlit("┌");
            reveal_strlit("-[");
            reveal_strlit("/");
            reveal_strlit("]");
            reveal_strlit("┐");
        }
        let mut row: Vec<Fragment> = Vec::new();
        row.push(Fragment { color: Color::Blue, text: String::from_str("┌") });

        let content_width = if self.window_width >= 2 {
            (self.window_width - 2) as usize
        } else {
            0
        };
        let mut line = TextLine::new(content_width);
        line.set_beam_style(1);

        let pwd_len = self.pwd.as_str().unicode_len();
        line.create_text_box(Color::Cyan, pwd_len, 1);
        line.put(self.pwd.clone());

        line.create_text_box(Color::Blue, 2, 1);
        line.put(String::from_str("-["));

        let page_no = sat_add_usize(self.cursor.page_index, 1);
        let focus_page_char = usize_to_string(page_no);
        let page_len = focus_page_char.as_str().unicode_len();
        line.create_text_box(Color::Yellow, page_len, 1);
        line.put(focus_page_char);

        line.create_text_box(Color::Yellow, 1, 1);
        line.put(String::from_str("/"));

        let in_dir_files_char = usize_to_string(self.listing.pages.len());
        let total_len = in_dir_files_char.as_str().unicode_len();
        line.create_text_box(Color::Yellow, total_len, 1);
        line.put(in_dir_files_char);

        line.create_text_box(Color::Blue, 1, 1);
        line.put(String::from_str("]"));

        line.blank();

        let ghost line_rows = row_view(line.out@);
        proof {
            let pagestr = dec_str(sat_add(self.cursor.page_index as nat, 1));
            let totalstr = dec_str(self.listing.pages@.len());
            let consumed = sat_add(
                sat_add(
                    sat_add(sat_add(sat_add(sat_add(0, self.pwd@.len()), 2), pagestr.len()), 1),
                    totalstr.len(),
                ),
                1,
            );
            let fill = fill_count(border_interior(self.window_width as nat), consumed);
            let head = seq![
                (Color::Cyan, self.pwd@),
                (Color::Blue, "-["@),
                (Color::Yellow, pagestr),
                (Color::Yellow, "/"@),
                (Color::Yellow, totalstr),
                (Color::Blue, "]"@),
            ];
            if fill > 0 {
                assert(line_rows =~= head + seq![(Color::White, repeat_char('─', fill))]);
            } else {
                assert(line_rows =~= head);
            }
        }
        row.append(&mut line.out);
        row.push(Fragment { color: Color::Blue, text: String::from_str("┐") });
        proof {
            assert(row_view(row@) =~= seq![(Color::Blue, "┌"@)] + line_rows + seq![
                (Color::Blue, "┐"@),
            ]);
            assert(row_view(row@) =~= title_row(*self));
        }
        row
    }

    /// Renders a blank interior row of the main panel.
    pub fn filler_row_exec(&self) -> (r: Vec<Fragment>)
        ensures
            row_view(r@) == filler_row(self.window_width as nat),
    {
        proof {
            reveal_strlit("│");
            reveal_strlit(" ");
        }
        let mut row: Vec<Fragment> = Vec::new();
        row.push(Fragment { color: Color::Blue, text: String::from_str("│") });
        let mid = if self.window_width >= 2 {
            (self.window_width - 2) as usize
        } else {
            0
        };
        if mid > 0 {
            let mut text = String::new();
            append_repeat(&mut text, " ", mid);
            row.push(Fragment { color: Color::White, text });
        }
        row.push(Fragment { color: Color::Blue, text: String::from_str("│") });
        proof {
            assert(row_view(row@) =~= filler_row(self.window_width as nat));
        }
        row
    }

    /// Renders the bottom border row of the main panel.
    pub fn bottom_row_exec(&self) -> (r: Vec<Fragment>)
        ensures
            row_view(r@) == bottom_row(self.window_width as nat),
    {
        proof {
            reveal_strlit("└");
            reveal_strlit("─");
            reveal_strlit("┘");
        }
        let mid = if self.window_width >= 2 {
            (self.window_width - 2) as usize
        } else {
            0
        };
        let mut text = String::from_str("└");
        append_repeat(&mut text, "─", mid);
        text.append("┘");
        proof {
            assert(text@ =~= bottom_text(self.window_width as nat));
        }
        let mut row: Vec<Fragment> = Vec::new();
        row.push(Fragment { color: Color::Blue, text });
        proof {
            assert(row_view(row@) =~= bottom_row(self.window_width as nat));
        }
        row
    }

    /// Renders the input line of a modal flow: the live buffer
    /// between bracket glyphs.
    pub fn input_line_row(&self, buffer: &String) -> (r: Vec<Fragment>)
        ensures
            row_view(r@) == input_row(buffer@, self.window_width as nat),
    {
        proof {
            reveal_strlit("└[");
            reveal_strlit("]┘");
        }
        let mut line = TextLine::new(self.window_width as usize);
        line.create_text_box(Color::Blue, 2, 1);
        line.put(String::from_str("└["));
        let buffer_len = buffer.as_str().unicode_len();
        line.create_text_box(Color::Blue, buffer_len, 1);
        line.put(buffer.clone());
        line.create_text_box(Color::Blue, 2, 1);
        line.blank();
        line.put(String::from_str("]┘"));
        proof {
            assert(row_view(line.out@) =~= input_row(buffer@, self.window_width as nat));
        }
        line.out
    }

    /// Renders the top rule of an overlay window, carrying `title`.
    pub fn overlay_rule_row(&self, title: &str) -> (r: Vec<Fragment>)
        ensures
            row_view(r@) == rule_row(
                title@,
                border_interior(self.window_width as nat),
            ),
    {
        let mut window = Window::new();
        window.set_mode(crate::window::Mode::Normal);
        let width = if self.window_width >= 2 {
            (self.window_width - 2) as usize
        } else {
            0
        };
        window.set_width(width);
        window.set_title(String::from_str(title));
        window.top_line()
    }

    /// Renders one content line of an overlay window in `color`.
    pub fn overlay_content_row(&self, color: Color, text: String) -> (r: Vec<Fragment>)
        ensures
            row_view(r@) == content_row(
                color,
                text@,
                window_content_width(border_interior(self.window_width as nat)),
            ),
    {
        let mut window = Window::new();
        window.set_mode(crate::window::Mode::Normal);
        let width = if self.window_width >= 2 {
            (self.window_width - 2) as usize
        } else {
            0
        };
        window.set_width(width);
        window.set_color(color);
        window.put(text)
    }
}


/// The names on the page under the cursor, or none over an empty
/// listing.
pub open spec fn page_names(app: App) -> Seq<String> {
    if app.listing.pages@.len() > 0 {
        app.listing.pages@[app.cursor.page_index as int]@
    } else {
        Seq::<String>::empty()
    }
}

/// How many entry rows the main panel shows: the current page's
/// entries, clipped to the rows between the title and the bottom
/// border.
pub open spec fn shown_rows(app: App, metas: Seq<EntryMetaV>) -> int {
    let room: int = if app.window_height >= 2 {
        app.window_height - 2
    } else {
        0
    };
    if metas.len() <= room {
        metas.len() as int
    } else {
        room
    }
}

/// Row `i` of the plain panel: the title row, then one row per shown
/// entry between side borders, then blank filler, then the bottom
/// border.
pub open spec fn base_row(app: App, metas: Seq<EntryMetaV>, i: int) -> Seq<(Color, Seq<char>)> {
    let h = app.window_height as int;
    if i == 0 {
        title_row(app)
    } else if i <= shown_rows(app, metas) {
        seq![(Color::Blue, "│ "@)] + entry_row(
            metas[i - 1],
            i - 1 == app.cursor.row_index as int,
            app.listing.max_size_width as nat,
            app.listing.max_name_width as nat,
            border_interior(app.window_width as nat),
        ) + seq![(Color::Blue, "│"@)]
    } else if i < h - 1 {
        filler_row(app.window_width as nat)
    } else {
        bottom_row(app.window_width as nat)
    }
}

/// The delete-confirmation prompt for the entry named `name`.
pub open spec fn confirm_text(name: Seq<char>) -> Seq<char> {
    "remove \""@ + name + "\" ? [Y/N]"@
}

/// Row `i` of a frame in the change-directory or add-entry flow: the
/// input line at the bottom, above it the autocomplete candidates
/// (or the not-found notice) under a titled rule, and the plain
/// panel everywhere else.
pub open spec fn popup_row(
    app: App,
    metas: Seq<EntryMetaV>,
    buffer: Seq<char>,
    title: Seq<char>,
    i: int,
) -> Seq<(Color, Seq<char>)> {
    let h = app.window_height as int;
    let cw = border_interior(app.window_width as nat);
    let cands = candidates(page_names(app), buffer);
    let k = cands.len() as int;
    if i == h - 1 {
        input_row(buffer, app.window_width as nat)
    } else if k == 0 {
        if i == h - 2 {
            content_row(Color::Red, "Not found"@, window_content_width(cw))
        } else if i == h - 3 {
            rule_row(Seq::<char>::empty(), cw)
        } else {
            base_row(app, metas, i)
        }
    } else {
        if h - 1 - k <= i <= h - 2 {
            content_row(Color::Blue, cands[i - (h - 1 - k)]@, window_content_width(cw))
        } else if i == h - 2 - k {
            rule_row(title, cw)
        } else {
            base_row(app, metas, i)
        }
    }
}

/// Row `i` of the full frame: the plain panel with the active mode's
/// overlay rows spliced over it.
pub open spec fn frame_row(app: App, metas: Seq<EntryMetaV>, i: int) -> Seq<(Color, Seq<char>)> {
    let h = app.window_height as int;
    let cw = border_interior(app.window_width as nat);
    match app.mode {
        Mode::Normal => base_row(app, metas, i),
        Mode::Edit => base_row(app, metas, i),
        Mode::Command { buffer } => {
            if i == h - 1 {
                input_row(buffer@, app.window_width as nat)
            } else if i == h - 2 {
                rule_row("[command mode]"@, cw)
            } else {
                base_row(app, metas, i)
            }
        },
        Mode::ChangeDirectory { buffer } => popup_row(app, metas, buffer@, "[file open]"@, i),
        Mode::AddEntry { buffer } => popup_row(app, metas, buffer@, "[add new file]"@, i),
        Mode::DeleteConfirm => {
            if i == h - 2 {
                content_row(Color::Red, confirm_text(focused_name(app)), window_content_width(cw))
            } else if i == h - 3 {
                rule_row(Seq::<char>::empty(), cw)
            } else {
                base_row(app, metas, i)
            }
        },
    }
}

impl App {
    /// A copy of the names on the page under the cursor.
    fn clone_current_page(&self) -> (r: Vec<String>)
        requires
            self.wf(),
        ensures
            r@ == page_names(*self),
    {
        let mut r: Vec<String> = Vec::new();
        if self.listing.pages.len() == 0 {
            proof {
                assert(r@ =~= page_names(*self));
            }
            return r;
        }
        let page = &self.listing.pages[self.cursor.page_index];
        let mut i: usize = 0;
        while i < page.len()
            invariant
                i <= page@.len(),
                r@ == page@.take(i as int),
            decreases page@.len() - i,
        {
            r.push(page[i].clone());
            proof {
                assert(r@ =~= page@.take(i + 1));
            }
            i += 1;
        }
        proof {
            assert(page@.take(page@.len() as int) =~= page@);
        }
        r
    }

    /// Renders row `i` of the plain panel.
    fn base_row_at(&self, metas: &Vec<EntryMeta>, i: usize) -> (r: Vec<Fragment>)
        requires
            self.wf(),
            i < self.window_height as usize,
        ensures
            row_view(r@) == base_row(*self, metas@.map_values(|m: EntryMeta| m@), i as int),
    {
        proof {
            reveal_strlit("│ ");
            reveal_strlit("│");
        }
        let h = self.window_height as usize;
        let room = if h >= 2 {
            h - 2
        } else {
            0
        };
        let shown = if metas.len() <= room {
            metas.len()
        } else {
            room
        };
        if i == 0 {
            self.title_row_exec()
        } else if i <= shown {
            let mut row: Vec<Fragment> = Vec::new();
            row.push(Fragment { color: Color::Blue, text: String::from_str("│ ") });
            let focused = i - 1 == self.cursor.row_index;
            let mut inner = self.draw_line(&metas[i - 1], focused);
            let ghost inner_rows = row_view(inner@);
            row.append(&mut inner);
            row.push(Fragment { color: Color::Blue, text: String::from_str("│") });
            proof {
                assert(metas@.map_values(|m: EntryMeta| m@)[i - 1] == metas@[i - 1]@);
                assert(row_view(row@) =~= seq![(Color::Blue, "│ "@)] + inner_rows + seq![
                    (Color::Blue, "│"@),
                ]);
            }
            row
        } else if i + 1 < h {
            self.filler_row_exec()
        } else {
            self.bottom_row_exec()
        }
    }

    /// Renders row `i` of a frame in the change-directory or
    /// add-entry flow, `cands` being the autocomplete candidates of
    /// the current buffer.
    fn popup_row_at(
        &self,
        metas: &Vec<EntryMeta>,
        cands: &Vec<String>,
        buffer: &String,
        title: &str,
        i: usize,
    ) -> (r: Vec<Fragment>)
        requires
            self.wf(),
            i < self.window_height as usize,
            cands@ == candidates(page_names(*self), buffer@),
            cands@.len() <= 65535,
        ensures
            row_view(r@) == popup_row(
                *self,
                metas@.map_values(|m: EntryMeta| m@),
                buffer@,
                title@,
                i as int,
            ),
    {
        let h = self.window_height as usize;
        let k = cands.len();
        if i + 1 == h {
            self.input_line_row(buffer)
        } else if k == 0 {
            if i + 2 == h {
                self.overlay_content_row(Color::Red, String::from_str("Not found"))
            } else if i + 3 == h {
                proof {
                    reveal_strlit("");
                    assert(""@ =~= Seq::<char>::empty());
                }
                self.overlay_rule_row("")
            } else {
                self.base_row_at(metas, i)
            }
        } else {
            if i + 2 <= h && i + k + 1 >= h {
                let j = i + k + 1 - h;
                self.overlay_content_row(Color::Blue, cands[j].clone())
            } else if i + k + 2 == h {
                self.overlay_rule_row(title)
            } else {
                self.base_row_at(metas, i)
            }
        }
    }

    /// The autocomplete popup: the titled top rule over one line per
    /// candidate; with no candidate, an untitled rule over the
    /// "Not found" notice.
    pub fn draw_auto_correct(&self, v: Vec<String>, title: &str) -> (r: Vec<Vec<Fragment>>)
        ensures
            v@.len() == 0 ==> {
                &&& r@.len() == 2
                &&& row_view(r@[0]@) == rule_row(
                    Seq::<char>::empty(),
                    border_interior(self.window_width as nat),
                )
                &&& row_view(r@[1]@) == content_row(
                    Color::Red,
                    "Not found"@,
                    window_content_width(border_interior(self.window_width as nat)),
                )
            },
            v@.len() > 0 ==> {
                &&& r@.len() == v@.len() + 1
                &&& row_view(r@[0]@) == rule_row(
                    title@,
                    border_interior(self.window_width as nat),
                )
                &&& forall|j: int|
                    0 <= j < v@.len() ==> row_view((#[trigger] r@[j + 1])@) == content_row(
                        Color::Blue,
                        v@[j]@,
                        window_content_width(border_interior(self.window_width as nat)),
                    )
            },
    {
        let mut rows: Vec<Vec<Fragment>> = Vec::new();
        if v.len() == 0 {
            proof {
                reveal_strlit("");
                assert(""@ =~= Seq::<char>::empty());
            }
            rows.push(self.overlay_rule_row(""));
            rows.push(self.overlay_content_row(Color::Red, String::from_str("Not found")));
        } else {
            rows.push(self.overlay_rule_row(title));
            let mut j: usize = 0;
            while j < v.len()
                invariant
                    j <= v@.len(),
                    rows@.len() == j + 1,
                    row_view(rows@[0]@) == rule_row(
                        title@,
                        border_interior(self.window_width as nat),
                    ),
                    forall|k: int|
                        0 <= k < j ==> row_view((#[trigger] rows@[k + 1])@) == content_row(
                            Color::Blue,
                            v@[k]@,
                            window_content_width(border_interior(self.window_width as nat)),
                        ),
                decreases v@.len() - j,
            {
                rows.push(self.overlay_content_row(Color::Blue, v[j].clone()));
                j += 1;
            }
        }
        rows
    }

    /// The command window: its titled top rule over the input line
    /// that shows the live buffer between bracket glyphs.
    pub fn draw_command_window(&self, title: &str, buffer: &String) -> (r: Vec<Vec<Fragment>>)
        ensures
            r@.len() == 2,
            row_view(r@[0]@) == rule_row(title@, border_interior(self.window_width as nat)),
            row_view(r@[1]@) == input_row(buffer@, self.window_width as nat),
    {
        let mut rows: Vec<Vec<Fragment>> = Vec::new();
        rows.push(self.overlay_rule_row(title));
        rows.push(self.input_line_row(buffer));
        rows
    }

    /// The delete-confirmation popup: an untitled rule over the red
    /// prompt naming the focused entry.
    pub fn draw_remove_file(&self) -> (r: Vec<Vec<Fragment>>)
        requires
            self.wf(),
        ensures
            r@.len() == 2,
            row_view(r@[0]@) == rule_row(
                Seq::<char>::empty(),
                border_interior(self.window_width as nat),
            ),
            row_view(r@[1]@) == content_row(
                Color::Red,
                confirm_text(focused_name(*self)),
                window_content_width(border_interior(self.window_width as nat)),
            ),
    {
        proof {
            reveal_strlit("");
            assert(""@ =~= Seq::<char>::empty());
            reveal_strlit("remove \"");
            reveal_strlit("\" ? [Y/N]");
        }
        let mut rows: Vec<Vec<Fragment>> = Vec::new();
        rows.push(self.overlay_rule_row(""));
        let name = if self.listing.pages.len() > 0 {
            self.listing.pages[self.cursor.page_index][self.cursor.row_index].clone()
        } else {
            String::new()
        };
        let mut text = String::from_str("remove \"");
        text.append(name.as_str());
        text.append("\" ? [Y/N]");
        proof {
            assert(text@ =~= confirm_text(focused_name(*self)));
        }
        rows.push(self.overlay_content_row(Color::Red, text));
        rows
    }

    /// Renders the whole frame: the title row, one row per entry of
    /// the current page, blank filler, the bottom border, and the
    /// active mode's overlay rows spliced over them. `metas` carries
    /// what the filesystem reports for the entries of the current
    /// page, in page order.
    pub fn ui(&self, metas: Vec<EntryMeta>) -> (r: Vec<Vec<Fragment>>)
        requires
            self.wf(),
        ensures
            r@.len() == self.window_height as nat,
            forall|i: int|
                0 <= i < r@.len() ==> row_view((#[trigger] r@[i])@) == frame_row(
                    *self,
                    metas@.map_values(|m: EntryMeta| m@),
                    i,
                ),
    {
        let ghost metas_v = metas@.map_values(|m: EntryMeta| m@);
        let h = self.window_height as usize;

        let mut cands: Vec<String> = Vec::new();
        match &self.mode {
            Mode::ChangeDirectory { buffer } => {
                let page = self.clone_current_page();
                cands = self.find_dir(buffer.clone(), page);
            },
            Mode::AddEntry { buffer } => {
                let page = self.clone_current_page();
                cands = self.find_dir(buffer.clone(), page);
            },
            _ => {},
        }
        proof {
            if self.listing.pages@.len() > 0 {
                assert(page_names(*self).len() <= self.listing.capacity);
            }
        }

        let mut frame: Vec<Vec<Fragment>> = Vec::new();
        let mut i: usize = 0;
        while i < h
            invariant
                self.wf(),
                i <= h,
                h == self.window_height as usize,
                frame@.len() == i,
                metas_v == metas@.map_values(|m: EntryMeta| m@),
                (self.mode matches Mode::ChangeDirectory { buffer } ==> cands@ == candidates(
                    page_names(*self),
                    buffer@,
                )),
                (self.mode matches Mode::AddEntry { buffer } ==> cands@ == candidates(
                    page_names(*self),
                    buffer@,
                )),
                cands@.len() <= 65535,
                forall|j: int|
                    0 <= j < i ==> row_view((#[trigger] frame@[j])@) == frame_row(
                        *self,
                        metas_v,
                        j,
                    ),
            decreases h - i,
        {
            let row: Vec<Fragment> = match &self.mode {
                Mode::Normal => self.base_row_at(&metas, i),
                Mode::Edit => self.base_row_at(&metas, i),
                Mode::Command { buffer } => {
                    if i + 1 == h {
                        self.input_line_row(buffer)
                    } else if i + 2 == h {
                        self.overlay_rule_row("[command mode]")
                    } else {
                        self.base_row_at(&metas, i)
                    }
                },
                Mode::ChangeDirectory { buffer } => {
                    self.popup_row_at(&metas, &cands, buffer, "[file open]", i)
                },
                Mode::AddEntry { buffer } => {
                    self.popup_row_at(&metas, &cands, buffer, "[add new file]", i)
                },
                Mode::DeleteConfirm => {
                    if i + 2 == h {
                        proof {
                            reveal_strlit("remove \"");
                            reveal_strlit("\" ? [Y/N]");
                        }
                        let name = if self.listing.pages.len() > 0 {
                            self.listing.pages[self.cursor.page_index][
                                self.cursor.row_index].clone()
                        } else {
                            String::new()
                        };
                        let mut text = String::from_str("remove \"");
                        text.append(name.as_str());
                        text.append("\" ? [Y/N]");
                        proof {
                            assert(text@ =~= confirm_text(focused_name(*self)));
                        }
                        self.overlay_content_row(Color::Red, text)
                    } else if i + 3 == h {
                        proof {
                            reveal_strlit("");
                            assert(""@ =~= Seq::<char>::empty());
                        }
                        self.overlay_rule_row("")
                    } else {
                        self.base_row_at(&metas, i)
                    }
                },
            };
            frame.push(row);
            i += 1;
        }
        frame
    }
}

} // verus!
