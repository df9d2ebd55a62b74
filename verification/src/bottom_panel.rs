//! The bottom panel: terminal tabs, the output log, the problem list, the
//! terminal's input line and its scroll position.
use vstd::prelude::*;

use crate::text::{chars_of, concat_chars, decimal, decimal_chars, owned, same_text, string_of};

verus! {

/// One diagnostic (error or warning) shown in the problem list.
pub struct ProblemItem {
    pub file_path: String,
    pub line: usize,
    pub column: usize,
    pub message: String,
    pub is_error: bool,
}

/// One terminal tab (its shell process lives in the UI layer).
pub struct TerminalTab {
    pub id: String,
    pub title: String,
}

/// The tab the bottom panel shows.
#[derive(Clone, Copy, Debug, PartialEq, Eq, Structural)]
pub enum BottomTab {
    Terminal,
    Output,
    Problems,
}

/// The bottom panel (its keyboard focus lives in the UI layer).
pub struct BottomPanel {
    pub current_tab: BottomTab,
    pub sessions: Vec<TerminalTab>,
    pub active_session: usize,
    pub logs: Vec<String>,
    pub problems: Vec<ProblemItem>,
    pub input_buffer: String,
    pub scroll_offset: usize,
}

/// What a key press in the terminal asks of the shell.
pub enum TerminalKeyEffect {
    /// Write this text to the active shell.
    Send(String),
    /// Clear the active shell's output.
    ClearOutput,
    /// Nothing for the shell.
    Nothing,
}

/// The name given to the `n`-th terminal: `term-n`.
pub open spec fn terminal_name(n: nat) -> Seq<char> {
    "term-"@ + decimal(n)
}

/// The lines shown in a terminal view of `capacity` lines, over `total`
/// lines scrolled `scroll_offset` lines up from the bottom: the range
/// `start..end`. The offset is held so that the view never runs past the
/// first line, and the view shows up to `capacity` lines ending at `end`.
pub open spec fn visible_range(total: int, capacity: int, scroll_offset: int) -> (int, int) {
    let max_offset = if total > capacity { total - capacity } else { 0 };
    let effective = if scroll_offset < max_offset { scroll_offset } else { max_offset };
    let end = total - effective;
    let start = if end > capacity { end - capacity } else { 0 };
    (start, end)
}

/// The scroll offset after scrolling `delta` lines up (down when negative),
/// held between the bottom (0) and the largest offset a `usize` holds.
pub open spec fn scrolled(offset: int, delta: int) -> int {
    if offset + delta < 0 {
        0
    } else if offset + delta > usize::MAX {
        usize::MAX as int
    } else {
        offset + delta
    }
}

/// A key press produces a single printable ASCII character.
pub open spec fn single_ascii(key: Seq<char>) -> bool {
    key.len() == 1 && (key[0] as u32) < 128
}

/// The input line after a typed key without Ctrl or Alt: a single ASCII
/// character is appended, `space` appends a blank, other keys change nothing.
pub open spec fn typed(buffer: Seq<char>, key: Seq<char>) -> Seq<char> {
    if single_ascii(key) {
        buffer + key
    } else if key == "space"@ {
        buffer.push(' ')
    } else {
        buffer
    }
}

/// The input line without its last character (unchanged when empty).
pub open spec fn backspaced(buffer: Seq<char>) -> Seq<char> {
    if buffer.len() > 0 {
        buffer.drop_last()
    } else {
        buffer
    }
}

/// The range of lines to show (see `visible_range`).
pub fn visible_lines_range(total: usize, capacity: usize, scroll_offset: usize) -> (res: (usize, usize))
    ensures
        res.0 as int == visible_range(total as int, capacity as int, scroll_offset as int).0,
        res.1 as int == visible_range(total as int, capacity as int, scroll_offset as int).1,
        res.0 <= res.1 <= total,
        res.1 - res.0 <= capacity,
{
    let max_offset = total.saturating_sub(capacity);
    let effective_offset = if scroll_offset < max_offset { scroll_offset } else { max_offset };
    let end = total.saturating_sub(effective_offset);
    let start = end.saturating_sub(capacity);
    (start, end)
}

/// The number of output lines the terminal view holds.
pub open spec fn terminal_capacity() -> int {
    35
}

/// The non-empty lines of `lines`, in order.
pub open spec fn non_empty_lines(lines: Seq<Seq<char>>) -> Seq<Seq<char>>
    decreases lines.len(),
{
    if lines.len() == 0 {
        lines
    } else if lines.last().len() > 0 {
        non_empty_lines(lines.drop_last()).push(lines.last())
    } else {
        non_empty_lines(lines.drop_last())
    }
}

/// The characters of each line.
pub open spec fn lines_view(lines: Seq<String>) -> Seq<Seq<char>> {
    lines.map_values(|l: String| l@)
}

/// The lines the terminal view shows for a terminal's output: the window of
/// `terminal_capacity` lines that the scroll offset selects (see
/// `visible_range`), with the empty lines left out.
pub fn terminal_view_lines(output: &Vec<String>, scroll_offset: usize) -> (res: Vec<String>)
    ensures
        lines_view(res@) == non_empty_lines(
            lines_view(output@).subrange(
                visible_range(output@.len() as int, terminal_capacity(), scroll_offset as int).0,
                visible_range(output@.len() as int, terminal_capacity(), scroll_offset as int).1,
            ),
        ),
{
    let (start, end) = visible_lines_range(output.len(), 35, scroll_offset);
    let ghost all = lines_view(output@);
    let mut res: Vec<String> = Vec::new();
    let mut i: usize = start;
    while i < end
        invariant
            start <= i <= end <= output@.len(),
            all == lines_view(output@),
            lines_view(res@) == non_empty_lines(all.subrange(start as int, i as int)),
        decreases end - i,
    {
        assert(all.subrange(start as int, i + 1).drop_last() =~= all.subrange(start as int, i as int));
        assert(all.subrange(start as int, i + 1).last() == output@[i as int]@);
        let line = &output[i];
        if chars_of(line.as_str()).len() > 0 {
            let ghost before = res@;
            res.push(line.clone());
            assert(lines_view(res@) =~= lines_view(before).push(line@));
        }
        i = i + 1;
    }
    res
}

/// `text` followed by a carriage return and a line feed.
fn with_newline(text: &str) -> (res: String)
    ensures
        res@ == text@ + seq!['\r', '\n'],
{
    let a = chars_of(text);
    let mut b: Vec<char> = Vec::new();
    b.push('\r');
    b.push('\n');
    let c = concat_chars(&a, &b);
    string_of(&c)
}

/// The input line without its last character.
fn pop_char(s: &String) -> (res: String)
    ensures
        res@ == backspaced(s@),
{
    let v = chars_of(s.as_str());
    if v.len() == 0 {
        return string_of(&v);
    }
    let w = crate::text::slice_chars(&v, 0, v.len() - 1);
    assert(w@ =~= v@.drop_last());
    string_of(&w)
}

/// The input line after a typed key (see `typed`).
fn type_key(s: &String, key: &str) -> (res: String)
    ensures
        res@ == typed(s@, key@),
{
    let k = chars_of(key);
    let b = chars_of(s.as_str());
    if k.len() == 1 && (k[0] as u32) < 128 {
        let c = concat_chars(&b, &k);
        string_of(&c)
    } else if same_text(key, "space") {
        let mut c = b;
        c.push(' ');
        string_of(&c)
    } else {
        string_of(&b)
    }
}

impl BottomPanel {
    /// A panel on the terminal tab. `first_shell_started` says whether the
    /// first shell (`term-1`, titled `pwsh`) could be started; it gets a tab if so.
    pub fn new(first_shell_started: bool) -> (res: Self)
        ensures
            res.current_tab == BottomTab::Terminal,
            res.active_session == 0,
            res.logs@.len() == 0,
            res.problems@.len() == 0,
            res.input_buffer@.len() == 0,
            res.scroll_offset == 0,
            first_shell_started ==> res.sessions@.len() == 1 && res.sessions@[0].id@ == "term-1"@
                && res.sessions@[0].title@ == "pwsh"@,
            !first_shell_started ==> res.sessions@.len() == 0,
    {
        let mut sessions: Vec<TerminalTab> = Vec::new();
        if first_shell_started {
            sessions.push(TerminalTab { id: owned("term-1"), title: owned("pwsh") });
        }
        BottomPanel {
            current_tab: BottomTab::Terminal,
            sessions,
            active_session: 0,
            logs: Vec::new(),
            problems: Vec::new(),
            input_buffer: String::new(),
            scroll_offset: 0,
        }
    }

    /// The id (and title) the next terminal gets: `term-` and the number of
    /// terminals it will make.
    pub fn next_terminal_name(&self) -> (res: String)
        requires
            self.sessions@.len() < usize::MAX,
        ensures
            res@ == terminal_name((self.sessions@.len() + 1) as nat),
    {
        let a = chars_of("term-");
        let d = decimal_chars(self.sessions.len() + 1);
        let c = concat_chars(&a, &d);
        string_of(&c)
    }

    /// Adds a terminal tab once its shell has started (`started`), making it
    /// active and showing the terminal; nothing changes otherwise.
    pub fn new_terminal(&mut self, started: bool)
        requires
            old(self).sessions@.len() < usize::MAX,
        ensures
            started ==> final(self).sessions@.len() == old(self).sessions@.len() + 1 && final(self).sessions@.take(old(self).sessions@.len() as int) == old(self).sessions@ && final(self).sessions@.last().id@ == terminal_name((old(self).sessions@.len() + 1) as nat)
                && final(self).sessions@.last().title@ == terminal_name(
                (old(self).sessions@.len() + 1) as nat,
            ) && final(self).active_session == old(self).sessions@.len() && final(self).current_tab == BottomTab::Terminal,
            !started ==> final(self).sessions == old(self).sessions && final(self).active_session
                == old(self).active_session && final(self).current_tab == old(self).current_tab,
            *final(self) == (BottomPanel {
                sessions: final(self).sessions,
                active_session: final(self).active_session,
                current_tab: final(self).current_tab,
                ..*old(self)
            }),
    {
        if started {
            let id = self.next_terminal_name();
            let title = self.next_terminal_name();
            let ghost before = self.sessions@;
            self.sessions.push(TerminalTab { id, title });
            self.active_session = self.sessions.len() - 1;
            self.current_tab = BottomTab::Terminal;
            assert(self.sessions@.take(before.len() as int) =~= before);
        }
    }

    /// Closes the terminal tab at `index`, if there is one; the active index
    /// moves to the last tab when it runs past the end of a non-empty list.
    /// Returns whether a tab closed.
    pub fn close_terminal(&mut self, index: usize) -> (res: bool)
        ensures
            res == (index < old(self).sessions@.len()),
            res ==> final(self).sessions@ == old(self).sessions@.remove(index as int) && final(self).active_session == (if old(self).active_session >= final(self).sessions@.len()
                && final(self).sessions@.len() > 0 {
                (final(self).sessions@.len() - 1) as usize
            } else {
                old(self).active_session
            }),
            !res ==> final(self).sessions == old(self).sessions && final(self).active_session
                == old(self).active_session,
            *final(self) == (BottomPanel {
                sessions: final(self).sessions,
                active_session: final(self).active_session,
                ..*old(self)
            }),
    {
        if index < self.sessions.len() {
            self.sessions.remove(index);
            if self.active_session >= self.sessions.len() && self.sessions.len() > 0 {
                self.active_session = self.sessions.len() - 1;
            }
            true
        } else {
            false
        }
    }

    /// Appends a line to the output log.
    pub fn write_log(&mut self, text: String)
        ensures
            final(self).logs@ == old(self).logs@.push(text),
            *final(self) == (BottomPanel { logs: final(self).logs, ..*old(self) }),
    {
        self.logs.push(text);
    }

    /// Empties the output log.
    pub fn clear_logs(&mut self)
        ensures
            final(self).logs@.len() == 0,
            *final(self) == (BottomPanel { logs: final(self).logs, ..*old(self) }),
    {
        self.logs.clear();
    }

    /// Replaces the problem list.
    pub fn set_problems(&mut self, problems: Vec<ProblemItem>)
        ensures
            *final(self) == (BottomPanel { problems: problems, ..*old(self) }),
    {
        self.problems = problems;
    }

    /// Sending `input` to the terminal: gives the active terminal's index and
    /// the text to write to it, or nothing when no terminal is active.
    pub fn send_input(&self, input: &str) -> (res: Option<(usize, String)>)
        ensures
            self.active_session < self.sessions@.len() ==> (res matches Some((i, t)) && i
                == self.active_session && t@ == input@),
            self.active_session >= self.sessions@.len() ==> res is None,
    {
        if self.active_session < self.sessions.len() {
            Some((self.active_session, owned(input)))
        } else {
            None
        }
    }

    /// Scrolls the terminal `delta` lines: up (towards older lines) when
    /// positive, down when negative, stopping at the bottom.
    pub fn scroll(&mut self, delta: i32)
        requires
            delta > i32::MIN,
        ensures
            final(self).scroll_offset == scrolled(old(self).scroll_offset as int, delta as int),
            *final(self) == (BottomPanel { scroll_offset: final(self).scroll_offset, ..*old(self) }),
    {
        if delta > 0 {
            self.scroll_offset = self.scroll_offset.saturating_add(delta as usize);
        } else if delta < 0 {
            self.scroll_offset = self.scroll_offset.saturating_sub((-delta) as usize);
        }
    }

    /// A key press on the terminal's output area. Ctrl+C sends an interrupt
    /// and empties the input line; Ctrl+L clears the output; Enter sends the
    /// input line with a line break, empties it and scrolls to the bottom;
    /// Backspace drops the last character; other keys without Ctrl or Alt type.
    pub fn handle_output_key(&mut self, key: &str, control: bool, alt: bool) -> (res: TerminalKeyEffect)
        ensures
            control && key@ == "c"@ ==> (res matches TerminalKeyEffect::Send(t) && t@ == seq!['\u{3}'])
                && final(self).input_buffer@.len() == 0 && final(self).scroll_offset == old(self).scroll_offset,
            control && key@ == "l"@ ==> res is ClearOutput && final(self).input_buffer == old(self).input_buffer && final(self).scroll_offset == old(self).scroll_offset,
            !(control && (key@ == "c"@ || key@ == "l"@)) && key@ == "enter"@ ==> (res matches TerminalKeyEffect::Send(
                t,
            ) && t@ == old(self).input_buffer@ + seq!['\r', '\n']) && final(self).input_buffer@.len() == 0 && final(self).scroll_offset == 0,
            !(control && (key@ == "c"@ || key@ == "l"@)) && key@ != "enter"@ && key@ == "backspace"@
                ==> res is Nothing && final(self).input_buffer@ == backspaced(
                old(self).input_buffer@,
            ) && final(self).scroll_offset == old(self).scroll_offset,
            !(control && (key@ == "c"@ || key@ == "l"@)) && key@ != "enter"@ && key@
                != "backspace"@ ==> res is Nothing && final(self).scroll_offset == old(self).scroll_offset && final(self).input_buffer@ == (if !control && !alt {
                typed(old(self).input_buffer@, key@)
            } else {
                old(self).input_buffer@
            }),
            *final(self) == (BottomPanel {
                input_buffer: final(self).input_buffer,
                scroll_offset: final(self).scroll_offset,
                ..*old(self)
            }),
    {
        proof {
            reveal_strlit("c");
            reveal_strlit("l");
            assert("c"@[0] != "l"@[0]);
        }
        if control && same_text(key, "c") {
            self.input_buffer = String::new();
            let mut v: Vec<char> = Vec::new();
            v.push('\u{3}');
            return TerminalKeyEffect::Send(string_of(&v));
        }
        if control && same_text(key, "l") {
            return TerminalKeyEffect::ClearOutput;
        }
        if same_text(key, "enter") {
            let cmd = with_newline(self.input_buffer.as_str());
            self.input_buffer = String::new();
            self.scroll_offset = 0;
            return TerminalKeyEffect::Send(cmd);
        }
        if same_text(key, "backspace") {
            self.input_buffer = pop_char(&self.input_buffer);
            return TerminalKeyEffect::Nothing;
        }
        if !control && !alt {
            self.input_buffer = type_key(&self.input_buffer, key);
        }
        TerminalKeyEffect::Nothing
    }

    /// A key press on the terminal panel outside the output area: Enter
    /// sends the input line with a line break and empties it; Backspace drops
    /// the last character; Ctrl+C sends an interrupt and empties the input
    /// line; other keys without Ctrl or Alt type.
    pub fn handle_panel_key(&mut self, key: &str, control: bool, alt: bool) -> (res: TerminalKeyEffect)
        ensures
            key@ == "enter"@ ==> (res matches TerminalKeyEffect::Send(t) && t@ == old(self).input_buffer@ + seq!['\r', '\n']) && final(self).input_buffer@.len() == 0,
            key@ != "enter"@ && key@ == "backspace"@ ==> res is Nothing && final(self).input_buffer@ == backspaced(old(self).input_buffer@),
            key@ != "enter"@ && key@ != "backspace"@ && control && key@ == "c"@ ==> (res matches TerminalKeyEffect::Send(
                t,
            ) && t@ == seq!['\u{3}']) && final(self).input_buffer@.len() == 0,
            key@ != "enter"@ && key@ != "backspace"@ && !(control && key@ == "c"@) ==> res is Nothing
                && final(self).input_buffer@ == (if !control && !alt {
                typed(old(self).input_buffer@, key@)
            } else {
                old(self).input_buffer@
            }),
            final(self).scroll_offset == old(self).scroll_offset,
            *final(self) == (BottomPanel {
                input_buffer: final(self).input_buffer,
                scroll_offset: final(self).scroll_offset,
                ..*old(self)
            }),
    {
        if same_text(key, "enter") {
            let cmd = with_newline(self.input_buffer.as_str());
            self.input_buffer = String::new();
            return TerminalKeyEffect::Send(cmd);
        }
        if same_text(key, "backspace") {
            self.input_buffer = pop_char(&self.input_buffer);
            return TerminalKeyEffect::Nothing;
        }
        if control && same_text(key, "c") {
            self.input_buffer = String::new();
            let mut v: Vec<char> = Vec::new();
            v.push('\u{3}');
            return TerminalKeyEffect::Send(string_of(&v));
        }
        if !control && !alt {
            self.input_buffer = type_key(&self.input_buffer, key);
        }
        TerminalKeyEffect::Nothing
    }

    /// The text of the input line: a hint when empty, else the typed text
    /// followed by an underscore as cursor.
    pub fn input_line_display(&self) -> (res: String)
        ensures
            self.input_buffer@.len() == 0 ==> res@
                == "Type command here and press Enter (or type directly in terminal above)..."@,
            self.input_buffer@.len() > 0 ==> res@ == self.input_buffer@ + seq!['_'],
    {
        let b = chars_of(self.input_buffer.as_str());
        if b.len() == 0 {
            owned("Type command here and press Enter (or type directly in terminal above)...")
        } else {
            let mut c = b;
            c.push('_');
            string_of(&c)
        }
    }

    /// The label of the problems tab: `PROBLEMS`, with the count in
    /// parentheses when there are problems.
    pub fn problems_tab_label(&self) -> (res: String)
        ensures
            self.problems@.len() == 0 ==> res@ == "PROBLEMS"@,
            self.problems@.len() > 0 ==> res@ == "PROBLEMS ("@ + decimal(self.problems@.len())
                + ")"@,
    {
        if self.problems.len() == 0 {
            owned("PROBLEMS")
        } else {
            let a = chars_of("PROBLEMS (");
            let d = decimal_chars(self.problems.len());
            let b = chars_of(")");
            let ad = concat_chars(&a, &d);
            let adb = concat_chars(&ad, &b);
            string_of(&adb)
        }
    }
}

/// Scrolling up and then down by the same amount brings the view back,
/// provided the offset did not saturate on the way up.
pub proof fn law_scroll_round_trip(offset: int, delta: int)
    requires
        0 <= offset,
        offset + delta <= usize::MAX,
    ensures
        delta >= 0 ==> scrolled(scrolled(offset, delta), -delta) == offset,
{
}

/// With the view at the bottom (offset 0), the last `capacity` lines show.
pub proof fn law_bottom_shows_last_lines(total: int, capacity: int)
    requires
        0 <= total,
        0 <= capacity,
    ensures
        visible_range(total, capacity, 0).1 == total,
        visible_range(total, capacity, 0).1 - visible_range(total, capacity, 0).0 == if total
            < capacity {
            total
        } else {
            capacity
        },
{
}

/// However far up the view scrolls, it stays within the lines there are and
/// shows a full screen when there are enough lines.
pub proof fn law_view_stays_in_range(total: int, capacity: int, offset: int)
    requires
        0 <= total,
        0 <= capacity,
        0 <= offset,
    ensures
        0 <= visible_range(total, capacity, offset).0 <= visible_range(total, capacity, offset).1
            <= total,
        total >= capacity ==> visible_range(total, capacity, offset).1 - visible_range(
            total,
            capacity,
            offset,
        ).0 == capacity,
{
}

} // verus!
