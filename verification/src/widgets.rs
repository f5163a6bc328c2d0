//! Small display helpers: spinners, progress bars, scrollbar geometry,
//! the settings list, and the wrapped status-bar help lines. Animation
//! time enters as a millisecond reading supplied by the caller.

use vstd::prelude::*;
use vstd::string::{StrSliceExecFns, StringExecFns};
use crate::text::push_char;
use crate::i18n::Language;
use crate::status::spec_age_ms;
use crate::app_state::FocusArea;

verus! {

/// A looping frame animation.
pub struct Spinner {
    pub frames: Vec<&'static str>,
    pub interval_ms: u64,
    pub start_ms: u64,
}

impl Spinner {
    /// At least one frame, and a non-zero frame interval.
    pub open spec fn wf(&self) -> bool {
        self.frames@.len() > 0 && self.interval_ms > 0
    }

    /// The braille-dot spinner.
    pub fn dots(now_ms: u64) -> (r: Self)
        ensures
            r.wf(),
            r.frames@.len() == 8,
            r.interval_ms == 80,
            r.start_ms == now_ms,
    {
        let mut frames: Vec<&'static str> = Vec::new();
        frames.push("\u{28fe}");
        frames.push("\u{28fd}");
        frames.push("\u{28fb}");
        frames.push("\u{28bf}");
        frames.push("\u{287f}");
        frames.push("\u{28df}");
        frames.push("\u{28ef}");
        frames.push("\u{28f7}");
        Spinner { frames, interval_ms: 80, start_ms: now_ms }
    }

    /// A line spinner.
    pub fn line(now_ms: u64) -> (r: Self)
        ensures
            r.wf(),
            r.frames@.len() == 10,
            r.interval_ms == 80,
            r.start_ms == now_ms,
    {
        let mut frames: Vec<&'static str> = Vec::new();
        frames.push("\u{280b}");
        frames.push("\u{2819}");
        frames.push("\u{2839}");
        frames.push("\u{2838}");
        frames.push("\u{283c}");
        frames.push("\u{2834}");
        frames.push("\u{2826}");
        frames.push("\u{2827}");
        frames.push("\u{2807}");
        frames.push("\u{280f}");
        Spinner { frames, interval_ms: 80, start_ms: now_ms }
    }

    /// A pulsing block spinner.
    pub fn pulse(now_ms: u64) -> (r: Self)
        ensures
            r.wf(),
            r.frames@.len() == 6,
            r.interval_ms == 120,
            r.start_ms == now_ms,
    {
        let mut frames: Vec<&'static str> = Vec::new();
        frames.push("\u{2588}");
        frames.push("\u{2593}");
        frames.push("\u{2592}");
        frames.push("\u{2591}");
        frames.push("\u{2592}");
        frames.push("\u{2593}");
        Spinner { frames, interval_ms: 120, start_ms: now_ms }
    }

    /// A bouncing-dot spinner.
    pub fn bounce(now_ms: u64) -> (r: Self)
        ensures
            r.wf(),
            r.frames@.len() == 4,
            r.interval_ms == 120,
            r.start_ms == now_ms,
    {
        let mut frames: Vec<&'static str> = Vec::new();
        frames.push("\u{2801}");
        frames.push("\u{2802}");
        frames.push("\u{2804}");
        frames.push("\u{2802}");
        Spinner { frames, interval_ms: 120, start_ms: now_ms }
    }

    /// A rotating-circle spinner.
    pub fn circle(now_ms: u64) -> (r: Self)
        ensures
            r.wf(),
            r.frames@.len() == 4,
            r.interval_ms == 100,
            r.start_ms == now_ms,
    {
        let mut frames: Vec<&'static str> = Vec::new();
        frames.push("\u{25d0}");
        frames.push("\u{25d3}");
        frames.push("\u{25d1}");
        frames.push("\u{25d2}");
        Spinner { frames, interval_ms: 100, start_ms: now_ms }
    }

    /// The frame to show at the given clock reading: the animation steps
    /// once per interval and wraps around.
    pub fn frame(&self, now_ms: u64) -> (r: &'static str)
        requires
            self.wf(),
        ensures
            r == self.frames@[spec_age_ms(self.start_ms, now_ms) / self.interval_ms as int % self.frames@.len() as int],
    {
        let elapsed: u64 = if now_ms >= self.start_ms {
            now_ms - self.start_ms
        } else {
            0
        };
        let idx: usize = ((elapsed / self.interval_ms) % (self.frames.len() as u64)) as usize;
        self.frames[idx]
    }

    /// Restarts the animation at the given clock reading.
    pub fn reset(&mut self, now_ms: u64)
        ensures
            final(self).frames == old(self).frames,
            final(self).interval_ms == old(self).interval_ms,
            final(self).start_ms == now_ms,
    {
        self.start_ms = now_ms;
    }
}

/// A sequence of `n` copies of one character.
pub open spec fn spec_char_repeat(c: char, n: int) -> Seq<char> {
    Seq::new(n as nat, |i: int| c)
}

/// The rendering of a progress bar `width` cells wide at `permille`
/// thousandths: filled cells, one head cell while unfinished, empty
/// cells for the rest.
pub open spec fn spec_progress_render(
    filled: char,
    empty: char,
    head: char,
    permille: int,
    width: int,
) -> Seq<char> {
    let clamped = if permille < 0 { 0int } else if permille > 1000 { 1000int } else { permille };
    let fw = clamped * width / 1000;
    if fw > 0 {
        spec_char_repeat(filled, fw - 1) + seq![if fw < width { head } else { filled }]
            + spec_char_repeat(empty, width - fw)
    } else {
        spec_char_repeat(empty, width)
    }
}

/// A progress-bar style: its filled, empty and head characters.
pub struct ProgressStyle {
    pub filled: char,
    pub empty: char,
    pub head: char,
}

impl Default for ProgressStyle {
    /// Shaded blocks.
    fn default() -> (r: Self)
        ensures
            r.filled == '\u{2588}' && r.empty == '\u{2591}' && r.head == '\u{2593}',
    {
        ProgressStyle { filled: '\u{2588}', empty: '\u{2591}', head: '\u{2593}' }
    }
}

fn push_repeat(s: &mut String, c: char, n: usize)
    ensures
        final(s)@ == old(s)@ + spec_char_repeat(c, n as int),
{
    let mut i: usize = 0;
    while i < n
        invariant
            i <= n,
            s@ =~= old(s)@ + spec_char_repeat(c, i as int),
        decreases n - i,
    {
        push_char(s, c);
        proof {
            assert(s@ =~= old(s)@ + spec_char_repeat(c, i + 1));
        }
        i = i + 1;
    }
}

impl ProgressStyle {
    /// Round markers.
    pub fn rounded() -> (r: Self)
        ensures
            r.filled == '\u{25cf}' && r.empty == '\u{25cb}' && r.head == '\u{25d0}',
    {
        ProgressStyle { filled: '\u{25cf}', empty: '\u{25cb}', head: '\u{25d0}' }
    }

    /// Square markers.
    pub fn block() -> (r: Self)
        ensures
            r.filled == '\u{25a0}' && r.empty == '\u{25a1}' && r.head == '\u{25a3}',
    {
        ProgressStyle { filled: '\u{25a0}', empty: '\u{25a1}', head: '\u{25a3}' }
    }

    /// Renders a bar `width` cells wide, filled to `permille`
    /// thousandths (clamped into range).
    pub fn render(&self, permille: u32, width: usize) -> (r: String)
        requires
            width <= 10000,
        ensures
            r@ == spec_progress_render(
                self.filled,
                self.empty,
                self.head,
                permille as int,
                width as int,
            ),
    {
        let clamped: u32 = if permille > 1000 {
            1000
        } else {
            permille
        };
        proof {
            assert((clamped as int) * (width as int) <= 1000 * 10000 && 0 <= (clamped as int) * (
            width as int) && (clamped as int) * (width as int) / 1000 <= width as int) by (nonlinear_arith)
                requires
                    0 <= clamped <= 1000,
                    0 <= width <= 10000,
            ;
        }
        let fw: usize = ((clamped as u64) * (width as u64) / 1000) as usize;
        let mut r = String::new();
        proof {
            assert(r@ =~= Seq::<char>::empty());
        }
        if fw > 0 {
            push_repeat(&mut r, self.filled, fw - 1);
            if fw < width {
                push_char(&mut r, self.head);
            } else {
                push_char(&mut r, self.filled);
            }
            push_repeat(&mut r, self.empty, width - fw);
            proof {
                assert(r@ =~= spec_char_repeat(self.filled, fw - 1) + seq![if (fw as int) < (
                width as int) {
                    self.head
                } else {
                    self.filled
                }] + spec_char_repeat(self.empty, width - fw));
            }
        } else {
            push_repeat(&mut r, self.empty, width);
            proof {
                assert(r@ =~= spec_char_repeat(self.empty, width as int));
            }
        }
        r
    }
}

/// Scrollbar geometry for a pane.
pub struct ScrollInfo {
    /// Total content lines.
    pub total_lines: usize,
    /// Visible pane height.
    pub visible_height: usize,
    /// Current scroll offset.
    pub scroll_offset: usize,
}

impl ScrollInfo {
    pub fn new(total_lines: usize, visible_height: usize, scroll_offset: usize) -> (r: Self)
        ensures
            r.total_lines == total_lines,
            r.visible_height == visible_height,
            r.scroll_offset == scroll_offset,
    {
        ScrollInfo { total_lines, visible_height, scroll_offset }
    }

    /// A scrollbar is needed when the content overflows the pane.
    pub fn needs_scrollbar(&self) -> (r: bool)
        ensures
            r == (self.total_lines > self.visible_height),
    {
        self.total_lines > self.visible_height
    }

    /// The largest meaningful scroll offset.
    pub fn max_scroll(&self) -> (r: usize)
        ensures
            self.total_lines >= self.visible_height ==> r == self.total_lines
                - self.visible_height,
            self.total_lines < self.visible_height ==> r == 0,
    {
        if self.total_lines >= self.visible_height {
            self.total_lines - self.visible_height
        } else {
            0
        }
    }
}

/// One row of the settings list.
#[derive(Debug, Clone, Copy, PartialEq, Eq, Structural)]
pub enum SettingItem {
    Language,
    WindowsShell,
}

impl SettingItem {
    /// All settings, in display order.
    pub fn all() -> (r: Vec<SettingItem>)
        ensures
            r@.len() == 2,
            r@[0] is Language,
            r@[1] is WindowsShell,
    {
        let mut r: Vec<SettingItem> = Vec::new();
        r.push(SettingItem::Language);
        r.push(SettingItem::WindowsShell);
        r
    }

    /// How many settings the list shows.
    pub fn count() -> (r: usize)
        ensures
            r == 2,
    {
        let items = SettingItem::all();
        items.len()
    }
}

/// The key-hint pairs shown in the status bar for a focus area.
pub fn get_status_help_items(focus: FocusArea, lang: Language) -> (r: Vec<
    (&'static str, &'static str),
>)
    ensures
        !(focus is ShellTerminal) ==> r@.len() == 6 && r@[0].0@ == "Tab"@,
        focus is ShellTerminal ==> r@.len() == 1 && r@[0].0@ == "Esc"@,
{
    let mut r: Vec<(&'static str, &'static str)> = Vec::new();
    match focus {
        FocusArea::ShellTerminal => {
            match lang {
                Language::English => r.push(("Esc", "Back")),
                Language::Chinese => r.push(("Esc", "\u{8fd4}\u{56de}")),
            }
        },
        _ => {
            match lang {
                Language::English => {
                    r.push(("Tab", "Project"));
                    r.push(("Enter", "Shell"));
                    r.push(("r/R", "Run"));
                    r.push(("s", "Stop"));
                    r.push(("z", "Layout"));
                    r.push(("?", "Help"));
                },
                Language::Chinese => {
                    r.push(("Tab", "\u{5207}\u{6362}\u{9879}\u{76ee}"));
                    r.push(("Enter", "\u{7ec8}\u{7aef}"));
                    r.push(("r/R", "\u{8fd0}\u{884c}"));
                    r.push(("s", "\u{505c}\u{6b62}"));
                    r.push(("z", "\u{5e03}\u{5c40}"));
                    r.push(("?", "\u{5e2e}\u{52a9}"));
                },
            }
        },
    }
    r
}

/// The displayed width of a string: ASCII characters take one cell,
/// everything else two.
pub open spec fn spec_display_width(s: Seq<char>) -> int
    decreases s.len(),
{
    if s.len() == 0 {
        0
    } else {
        spec_display_width(s.drop_last()) + (if (s.last() as u32) < 128 {
            1int
        } else {
            2int
        })
    }
}

fn display_width(s: &str) -> (r: usize)
    requires
        s@.len() <= 1000,
    ensures
        r == spec_display_width(s@),
{
    let n: usize = s.unicode_len();
    let mut r: usize = 0;
    let mut i: usize = 0;
    proof {
        assert(s@.subrange(0, 0) =~= Seq::<char>::empty());
    }
    while i < n
        invariant
            n == s@.len(),
            n <= 1000,
            i <= n,
            r == spec_display_width(s@.subrange(0, i as int)),
            r <= 2 * i,
        decreases n - i,
    {
        let c: char = s.get_char(i);
        proof {
            lemma_display_width_bounds(s@.subrange(0, i as int));
            assert(s@.subrange(0, i + 1).drop_last() =~= s@.subrange(0, i as int));
            assert(s@.subrange(0, i + 1).last() == s@[i as int]);
        }
        if (c as u32) < 128 {
            r = r + 1;
        } else {
            r = r + 2;
        }
        i = i + 1;
    }
    proof {
        assert(s@.subrange(0, n as int) =~= s@);
    }
    r
}

proof fn lemma_display_width_bounds(s: Seq<char>)
    ensures
        s.len() <= spec_display_width(s) <= 2 * s.len(),
    decreases s.len(),
{
    if s.len() > 0 {
        lemma_display_width_bounds(s.drop_last());
    }
}

/// The status-bar cells of one key-hint item beyond the separator: the
/// key, a colon and a space, and the hint.
pub open spec fn spec_item_width(item: (&str, &str)) -> int {
    item.0@.len() + 2 + spec_display_width(item.1@)
}

/// The flattening of wrapped lines back into one row of items.
pub open spec fn spec_flatten_lines<'a>(
    lines: Seq<Seq<(&'a str, &'a str)>>,
) -> Seq<(&'a str, &'a str)>
    decreases lines.len(),
{
    if lines.len() == 0 {
        Seq::empty()
    } else {
        spec_flatten_lines(lines.drop_last()) + lines.last()
    }
}

/// Wraps the key-hint items into status-bar lines of at most
/// `available_width` cells (a line keeps at least one item even when that
/// item alone overflows). The lines, read in order, hold exactly the
/// given items in order; with no items a single empty line comes back.
pub fn build_status_help_lines(
    items: &Vec<(&'static str, &'static str)>,
    available_width: usize,
) -> (r: Vec<Vec<(&'static str, &'static str)>>)
    requires
        forall|i: int|
            0 <= i < items@.len() ==> (#[trigger] items@[i]).0@.len() <= 1000 && items@[i].1@.len()
                <= 1000,
    ensures
        spec_flatten_lines(r@.map_values(|l: Vec<(&'static str, &'static str)>| l@)) == items@,
        r@.len() >= 1,
        items@.len() > 0 ==> forall|i: int| 0 <= i < r@.len() ==> (#[trigger] r@[i])@.len() > 0,
{
    let n: usize = items.len();
    let mut lines: Vec<Vec<(&'static str, &'static str)>> = Vec::new();
    let mut current: Vec<(&'static str, &'static str)> = Vec::new();
    let mut current_width: usize = 1;
    let mut i: usize = 0;
    proof {
        assert(spec_flatten_lines(
            lines@.map_values(|l: Vec<(&'static str, &'static str)>| l@),
        ) + current@ =~= items@.subrange(0, 0));
    }
    while i < n
        invariant
            n == items@.len(),
            i <= n,
            forall|k: int|
                0 <= k < items@.len() ==> (#[trigger] items@[k]).0@.len() <= 1000
                    && items@[k].1@.len() <= 1000,
            spec_flatten_lines(lines@.map_values(|l: Vec<(&'static str, &'static str)>| l@))
                + current@ == items@.subrange(0, i as int),
            forall|k: int| 0 <= k < lines@.len() ==> (#[trigger] lines@[k])@.len() > 0,
            1 <= current_width <= 1000000,
        decreases n - i,
    {
        let item = items[i];
        let sep: usize = if current.len() == 0 {
            0
        } else {
            3
        };
        let key_w: usize = item.0.unicode_len();
        let desc_w: usize = display_width(item.1);
        proof {
            lemma_display_width_bounds(item.1@);
        }
        let item_width: usize = sep + key_w + 2 + desc_w;
        if current_width + item_width > available_width && current.len() > 0 {
            let ghost old_lines = lines@;
            let ghost flat_before = spec_flatten_lines(
                old_lines.map_values(|l: Vec<(&'static str, &'static str)>| l@),
            );
            let ghost done_view = current@;
            let done = current;
            lines.push(done);
            current = Vec::new();
            current_width = 1;
            proof {
                let f = |l: Vec<(&'static str, &'static str)>| l@;
                let m = lines@.map_values(f);
                assert(lines@.drop_last() =~= old_lines);
                assert(m.drop_last() =~= old_lines.map_values(f));
                assert(m.last() == done_view);
                assert(spec_flatten_lines(m) == flat_before + done_view);
            }
        }
        current.push(item);
        let next_width: usize = current_width + item_width;
        current_width = if next_width > 1000000 {
            1000000
        } else {
            next_width
        };
        proof {
            assert(items@.subrange(0, i + 1).drop_last() =~= items@.subrange(0, i as int));
            assert(items@.subrange(0, i + 1) =~= items@.subrange(0, i as int).push(
                items@[i as int],
            ));
        }
        i = i + 1;
    }
    if current.len() > 0 {
        let ghost old_lines = lines@;
        let ghost flat_before = spec_flatten_lines(
            old_lines.map_values(|l: Vec<(&'static str, &'static str)>| l@),
        );
        let ghost done_view = current@;
        lines.push(current);
        proof {
            let f = |l: Vec<(&'static str, &'static str)>| l@;
            let m = lines@.map_values(f);
            assert(lines@.drop_last() =~= old_lines);
            assert(m.drop_last() =~= old_lines.map_values(f));
            assert(m.last() == done_view);
            assert(spec_flatten_lines(m) == flat_before + done_view);
        }
    }
    if lines.len() == 0 {
        let empty_line: Vec<(&'static str, &'static str)> = Vec::new();
        lines.push(empty_line);
        proof {
            let m = lines@.map_values(|l: Vec<(&'static str, &'static str)>| l@);
            assert(m.drop_last() =~= Seq::<Vec<(&'static str, &'static str)>>::empty().map_values(
                |l: Vec<(&'static str, &'static str)>| l@,
            ));
            assert(spec_flatten_lines(m) =~= items@);
        }
    }
    proof {
        assert(items@.subrange(0, n as int) =~= items@);
    }
    lines
}

/// The status bar is one row high when a message is showing, otherwise
/// as many rows as the wrapped help hints need, between one and three.
pub fn calculate_status_bar_height(
    has_status_message: bool,
    help_line_count: usize,
) -> (r: u16)
    ensures
        has_status_message ==> r == 1,
        !has_status_message && help_line_count <= 1 ==> r == 1,
        !has_status_message && 1 < help_line_count <= 3 ==> r == help_line_count,
        !has_status_message && help_line_count > 3 ==> r == 3,
{
    if has_status_message {
        return 1;
    }
    if help_line_count <= 1 {
        1
    } else if help_line_count <= 3 {
        help_line_count as u16
    } else {
        3
    }
}

} // verus!
