//! Text measurements behind the plain-text tables: escape stripping, line
//! splitting, display width, and truncation to a column budget.

use vstd::prelude::*;
use unicode_width::{UnicodeWidthChar, UnicodeWidthStr};
use crate::output::ChatInfo;
use crate::text::{chars_of, owned, push_char, string_from_range};

verus! {

broadcast use vstd::string::group_string_axioms;

/// Display width of a string as `UnicodeWidthStr::width` computes it.
pub uninterp spec fn str_width(s: Seq<char>) -> usize;

/// Display width of one character as `UnicodeWidthChar::width` computes it
/// (`None` for control characters).
pub uninterp spec fn char_width(c: char) -> Option<usize>;

/// `UnicodeWidthStr::width(s)`.
#[verifier::external_body]
pub(crate) fn display_width(s: &str) -> (r: usize)
    ensures
        r == str_width(s@),
{
    s.width()
}

/// `UnicodeWidthChar::width(c)`.
#[verifier::external_body]
fn char_display_width(c: char) -> (r: Option<usize>)
    ensures
        r == char_width(c),
{
    c.width()
}

/// ANSI CSI sequences removed: an ESC followed by `[` starts a sequence that
/// runs through the next `m` (or to the end of the text).
pub open spec fn strip_ansi_from(s: Seq<char>, in_csi: bool) -> Seq<char>
    decreases s.len(),
{
    if s.len() == 0 {
        Seq::empty()
    } else if in_csi {
        strip_ansi_from(s.drop_first(), s[0] != 'm')
    } else if s[0] == '\u{1b}' && s.len() > 1 && s[1] == '[' {
        strip_ansi_from(s.skip(2), true)
    } else {
        seq![s[0]] + strip_ansi_from(s.drop_first(), false)
    }
}

pub open spec fn strip_ansi_spec(s: Seq<char>) -> Seq<char> {
    strip_ansi_from(s, false)
}

/// Removes ANSI color/style sequences.
pub fn strip_ansi(text: &str) -> (r: String)
    ensures
        r@ == strip_ansi_spec(text@),
{
    let v = chars_of(text);
    let mut out = String::new();
    let mut i: usize = 0;
    let mut in_csi = false;
    assert(v@.skip(0) == v@);
    while i < v.len()
        invariant
            v@ == text@,
            0 <= i <= v@.len(),
            strip_ansi_spec(text@) == out@ + strip_ansi_from(v@.skip(i as int), in_csi),
        decreases v@.len() - i,
    {
        let ghost rest = v@.skip(i as int);
        let c = v[i];
        if in_csi {
            in_csi = c != 'm';
            i = i + 1;
            assert(rest.drop_first() == v@.skip(i as int));
        } else if c == '\u{1b}' && i + 1 < v.len() && v[i + 1] == '[' {
            in_csi = true;
            i = i + 2;
            assert(rest.skip(2) == v@.skip(i as int));
        } else {
            push_char(&mut out, c);
            i = i + 1;
            assert(rest.drop_first() == v@.skip(i as int));
            assert(out@ + strip_ansi_from(v@.skip(i as int), false) == (out@.drop_last() + seq![c]) + strip_ansi_from(rest.drop_first(), false));
        }
    }
    assert(out@ + Seq::<char>::empty() == out@);
    out
}

pub open spec fn flatten_control(c: char) -> char {
    if c == '\n' || c == '\r' || c == '\t' { ' ' } else { c }
}

/// Newlines, carriage returns and tabs replaced by spaces.
pub open spec fn single_line_spec(s: Seq<char>) -> Seq<char> {
    s.map_values(|c: char| flatten_control(c))
}

pub fn single_line(text: &str) -> (r: String)
    ensures
        r@ == single_line_spec(text@),
{
    let v = chars_of(text);
    let mut out = String::new();
    let mut i: usize = 0;
    while i < v.len()
        invariant
            v@ == text@,
            0 <= i <= v@.len(),
            out@ == single_line_spec(v@.take(i as int)),
        decreases v@.len() - i,
    {
        let c = v[i];
        let d = if c == '\n' || c == '\r' || c == '\t' { ' ' } else { c };
        push_char(&mut out, d);
        i = i + 1;
        assert(single_line_spec(v@.take(i as int)) =~= single_line_spec(v@.take(i - 1)).push(d));
    }
    assert(v@.take(v@.len() as int) == v@);
    out
}

/// One trailing carriage return removed.
pub open spec fn strip_cr(s: Seq<char>) -> Seq<char> {
    if s.len() > 0 && s.last() == '\r' { s.drop_last() } else { s }
}

/// `str::lines`: split at each `\n` (a `\r` right before it goes too), the
/// final line ending being optional.
pub open spec fn lines_from(s: Seq<char>, cur: Seq<char>) -> Seq<Seq<char>>
    decreases s.len(),
{
    if s.len() == 0 {
        if cur.len() == 0 { Seq::empty() } else { seq![cur] }
    } else if s[0] == '\n' {
        seq![strip_cr(cur)] + lines_from(s.drop_first(), Seq::empty())
    } else {
        lines_from(s.drop_first(), cur.push(s[0]))
    }
}

pub open spec fn lines_spec(s: Seq<char>) -> Seq<Seq<char>> {
    lines_from(s, Seq::empty())
}

/// The largest value of `f` over `xs` (0 for none).
pub open spec fn max_width_of(ws: Seq<usize>) -> usize
    decreases ws.len(),
{
    if ws.len() == 0 {
        0
    } else {
        let m = max_width_of(ws.drop_last());
        if ws.last() > m { ws.last() } else { m }
    }
}

/// The widest line of `text` once escape sequences are stripped.
pub open spec fn max_visible_width_spec(text: Seq<char>) -> usize {
    max_width_of(lines_spec(text).map_values(|l: Seq<char>| str_width(strip_ansi_spec(l))))
}

/// Splits `text` into lines the way `str::lines` does.
pub fn lines(text: &str) -> (r: Vec<String>)
    ensures
        r@.len() == lines_spec(text@).len(),
        forall|k: int| 0 <= k < r@.len() ==> #[trigger] r@[k]@ == lines_spec(text@)[k],
{
    let v = chars_of(text);
    let mut out: Vec<String> = Vec::new();
    let mut cur = String::new();
    let mut i: usize = 0;
    let ghost acc: Seq<Seq<char>> = Seq::empty();
    assert(v@.skip(0) == v@);
    while i < v.len()
        invariant
            v@ == text@,
            0 <= i <= v@.len(),
            out@.len() == acc.len(),
            forall|k: int| 0 <= k < out@.len() ==> #[trigger] out@[k]@ == acc[k],
            lines_spec(text@) == acc + lines_from(v@.skip(i as int), cur@),
        decreases v@.len() - i,
    {
        let ghost rest = v@.skip(i as int);
        let c = v[i];
        if c == '\n' {
            let cv = chars_of(cur.as_str());
            let line = if cv.len() > 0 && cv[cv.len() - 1] == '\r' {
                string_from_range(&cv, 0, cv.len() - 1)
            } else {
                string_from_range(&cv, 0, cv.len())
            };
            proof {
                assert(cv@.subrange(0, cv@.len() as int) == cv@);
                assert(cv@.subrange(0, cv@.len() - 1) == cv@.drop_last());
                acc = acc.push(strip_cr(cur@));
                assert(rest.drop_first() == v@.skip(i + 1));
                assert(seq![strip_cr(cur@)] + lines_from(rest.drop_first(), Seq::empty()) == lines_from(rest, cur@));
            }
            out.push(line);
            cur = String::new();
            assert(acc.drop_last() + seq![acc.last()] + lines_from(v@.skip(i + 1), cur@) == acc + lines_from(v@.skip(i + 1), cur@));
        } else {
            push_char(&mut cur, c);
            assert(rest.drop_first() == v@.skip(i + 1));
        }
        i = i + 1;
    }
    if cur.as_str().unicode_len() > 0 {
        proof {
            acc = acc.push(cur@);
        }
        out.push(cur);
    }
    assert(acc + Seq::<Seq<char>>::empty() == acc);
    out
}

/// The widest line of `text` in terminal cells, escape sequences ignored.
pub fn max_visible_width(text: &str) -> (r: usize)
    ensures
        r == max_visible_width_spec(text@),
{
    let ls = lines(text);
    let ghost ws = lines_spec(text@).map_values(|l: Seq<char>| str_width(strip_ansi_spec(l)));
    let mut best: usize = 0;
    let mut i: usize = 0;
    while i < ls.len()
        invariant
            ls@.len() == lines_spec(text@).len(),
            forall|k: int| 0 <= k < ls@.len() ==> #[trigger] ls@[k]@ == lines_spec(text@)[k],
            ws == lines_spec(text@).map_values(|l: Seq<char>| str_width(strip_ansi_spec(l))),
            0 <= i <= ls@.len(),
            best == max_width_of(ws.take(i as int)),
        decreases ls@.len() - i,
    {
        let stripped = strip_ansi(ls[i].as_str());
        let w = display_width(stripped.as_str());
        assert(ws.take(i + 1).drop_last() == ws.take(i as int));
        assert(ws[i as int] == w);
        if w > best {
            best = w;
        }
        i = i + 1;
    }
    assert(ws.take(ls@.len() as int) == ws);
    best
}

/// The greedy prefix of `s` whose widths (unknown widths counting 0) fit in
/// `budget` cells, `used` cells being taken already.
pub open spec fn fitting_prefix(s: Seq<char>, budget: int, used: int) -> Seq<char>
    decreases s.len(),
{
    if s.len() == 0 {
        Seq::empty()
    } else {
        let w = match char_width(s[0]) { Some(w) => w as int, None => 0 };
        if used + w > budget {
            Seq::empty()
        } else {
            seq![s[0]] + fitting_prefix(s.drop_first(), budget, used + w)
        }
    }
}

/// `n` dots.
pub open spec fn dots(n: nat) -> Seq<char> {
    Seq::new(n, |i: int| '.')
}

/// Shorten `text` to at most `max_width` cells, marking the cut with `...`.
pub open spec fn truncate_spec(text: Seq<char>, max_width: usize) -> Seq<char> {
    if max_width == 0 {
        Seq::empty()
    } else if str_width(text) <= max_width {
        text
    } else if max_width < 3 {
        dots(max_width as nat)
    } else {
        fitting_prefix(text, max_width - 3, 0) + "..."@
    }
}

/// The width measured character `i` counts for: unknown (or unmeasured)
/// widths count 0.
pub open spec fn measured(ws: Seq<Option<usize>>, i: int) -> int {
    if 0 <= i < ws.len() {
        match ws[i] { Some(w) => w as int, None => 0 }
    } else {
        0
    }
}

/// The greedy run of `s` from index `i` whose measured widths `ws` (one per
/// character) fit in `budget` cells, `used` cells being taken already.
pub open spec fn fit_from(s: Seq<char>, ws: Seq<Option<usize>>, i: int, budget: int, used: int) -> Seq<char>
    decreases s.len() - i,
{
    if i < 0 || i >= s.len() {
        Seq::empty()
    } else {
        let w = measured(ws, i);
        if used + w > budget {
            Seq::empty()
        } else {
            seq![s[i]] + fit_from(s, ws, i + 1, budget, used + w)
        }
    }
}

/// `truncate_spec` with the widths given: the whole text's `text_width` and
/// each character's `ws`.
pub open spec fn truncate_measured_spec(text: Seq<char>, text_width: usize, ws: Seq<Option<usize>>, max_width: usize) -> Seq<char> {
    if max_width == 0 {
        Seq::empty()
    } else if text_width <= max_width {
        text
    } else if max_width < 3 {
        dots(max_width as nat)
    } else {
        fit_from(text, ws, 0, max_width - 3, 0) + "..."@
    }
}

/// The sum of the measured widths of characters `i .. i + n`.
pub open spec fn measured_sum(ws: Seq<Option<usize>>, i: int, n: int) -> int
    decreases n,
{
    if n <= 0 { 0 } else { measured(ws, i) + measured_sum(ws, i + 1, n - 1) }
}

/// The kept run fits its budget and is the text's own characters from `i`.
proof fn lemma_fit_from(s: Seq<char>, ws: Seq<Option<usize>>, i: int, budget: int, used: int)
    requires
        0 <= i <= s.len(),
        used <= budget,
    ensures
        i + fit_from(s, ws, i, budget, used).len() <= s.len(),
        used + measured_sum(ws, i, fit_from(s, ws, i, budget, used).len() as int) <= budget,
        fit_from(s, ws, i, budget, used) == s.subrange(i, i + fit_from(s, ws, i, budget, used).len()),
    decreases s.len() - i,
{
    if i < s.len() {
        let w = measured(ws, i);
        if used + w <= budget {
            lemma_fit_from(s, ws, i + 1, budget, used + w);
            let rest = fit_from(s, ws, i + 1, budget, used + w);
            assert(seq![s[i]] + rest =~= s.subrange(i, i + 1 + rest.len()));
        }
    }
}

/// Law: a shortened text keeps only characters that fit before the `...`:
/// the kept characters are the text's own first ones, and their measured
/// widths add up to at most `max_width - 3`.
pub proof fn lemma_truncation_fits(text: Seq<char>, text_width: usize, ws: Seq<Option<usize>>, max_width: usize)
    requires
        text_width > max_width >= 3,
    ensures
        ({
            let kept = fit_from(text, ws, 0, max_width - 3, 0);
            &&& truncate_measured_spec(text, text_width, ws, max_width) == kept + "..."@
            &&& kept.len() <= text.len()
            &&& kept == text.take(kept.len() as int)
            &&& measured_sum(ws, 0, kept.len() as int) <= max_width - 3
        }),
{
    lemma_fit_from(text, ws, 0, max_width - 3, 0);
}

/// With the characters' own widths, the measured run is `fitting_prefix`.
proof fn lemma_measured_is_char_width(s: Seq<char>, ws: Seq<Option<usize>>, i: int, budget: int, used: int)
    requires
        0 <= i <= s.len(),
        ws.len() == s.len(),
        forall|k: int| 0 <= k < s.len() ==> ws[k] == char_width(s[k]),
    ensures
        fit_from(s, ws, i, budget, used) == fitting_prefix(s.skip(i), budget, used),
    decreases s.len() - i,
{
    if i < s.len() {
        assert(s.skip(i)[0] == s[i]);
        assert(s.skip(i).drop_first() =~= s.skip(i + 1));
        lemma_measured_is_char_width(s, ws, i + 1, budget, used + measured(ws, i));
    } else {
        assert(s.skip(i).len() == 0);
    }
}

/// Shorten `text`, whose width is `text_width` and whose characters measure
/// `widths` (one per character), to at most `max_width` cells, marking the
/// cut with `...`.
pub fn truncate_measured(text: &str, text_width: usize, widths: &Vec<Option<usize>>, max_width: usize) -> (r: String)
    ensures
        r@ == truncate_measured_spec(text@, text_width, widths@, max_width),
{
    if max_width == 0 {
        return String::new();
    }
    if text_width <= max_width {
        return owned(text);
    }
    if max_width < 3 {
        let mut r = String::new();
        let mut k: usize = 0;
        while k < max_width
            invariant
                0 <= k <= max_width,
                r@ == dots(k as nat),
            decreases max_width - k,
        {
            push_char(&mut r, '.');
            k = k + 1;
            assert(r@ =~= dots(k as nat));
        }
        return r;
    }
    let target = max_width - 3;
    let v = chars_of(text);
    let mut r = String::new();
    let mut used: usize = 0;
    let mut i: usize = 0;
    let mut stop = false;
    while i < v.len() && !stop
        invariant
            v@ == text@,
            0 <= i <= v@.len(),
            used <= target,
            fit_from(text@, widths@, 0, target as int, 0) == r@ + fit_from(text@, widths@, i as int, target as int, used as int),
            stop ==> fit_from(text@, widths@, i as int, target as int, used as int) == Seq::<char>::empty(),
        decreases v@.len() - i, if stop { 0int } else { 1int },
    {
        let c = v[i];
        let w: usize = if i < widths.len() {
            match widths[i] {
                Some(w) => w,
                None => 0,
            }
        } else {
            0
        };
        assert(w == measured(widths@, i as int));
        if w > target - used {
            stop = true;
        } else {
            push_char(&mut r, c);
            used = used + w;
            i = i + 1;
        }
    }
    assert(fit_from(text@, widths@, i as int, target as int, used as int) == Seq::<char>::empty());
    proof {
        reveal_strlit("...");
    }
    let out = crate::text::concat2(r.as_str(), "...");
    assert(r@ + Seq::<char>::empty() == r@);
    out
}

pub fn truncate_with_ellipsis(text: &str, max_width: usize) -> (r: String)
    ensures
        r@ == truncate_spec(text@, max_width),
{
    let v = chars_of(text);
    let mut widths: Vec<Option<usize>> = Vec::new();
    let mut i: usize = 0;
    while i < v.len()
        invariant
            0 <= i <= v@.len(),
            widths@.len() == i,
            forall|k: int| 0 <= k < i ==> widths@[k] == char_width(v@[k]),
        decreases v@.len() - i,
    {
        widths.push(char_display_width(v[i]));
        i = i + 1;
    }
    let r = truncate_measured(text, display_width(text), &widths, max_width);
    proof {
        if max_width >= 3 {
            lemma_measured_is_char_width(text@, widths@, 0, (max_width - 3) as int, 0);
            assert(text@.skip(0) == text@);
        }
    }
    r
}

/// The width of a table column: the widest cell, and never narrower than its header.
pub open spec fn column_width_spec(cells: Seq<usize>, header: usize) -> usize {
    let m = max_width_of(cells);
    if header > m { header } else { m }
}

/// Room left for the last-message column: what the terminal leaves after the
/// other columns, the table's own padding and a 4-cell safety margin, but at
/// least one cell.
pub open spec fn last_message_budget_spec(fixed: int, terminal: int) -> int {
    if terminal > fixed + 4 { terminal - (fixed + 4) } else { 1 }
}

pub fn last_message_budget(
    name_width: usize,
    id_width: usize,
    unread_width: usize,
    overhead: usize,
    terminal: usize,
) -> (r: usize)
    requires
        name_width + id_width + unread_width + overhead + 4 <= usize::MAX,
    ensures
        r == last_message_budget_spec(name_width + id_width + unread_width + overhead, terminal as int),
{
    let base = name_width + id_width + unread_width + overhead;
    let available = if terminal > base + 4 { terminal - (base + 4) } else { 0 };
    if available > 1 { available } else { 1 }
}

/// The widest of `cells` in terminal cells, but at least `header`.
pub fn column_width(cells: &Vec<String>, header: &str) -> (r: usize)
    ensures
        r == column_width_spec(cells@.map_values(|c: String| str_width(c@)), str_width(header@)),
{
    let ghost ws = cells@.map_values(|c: String| str_width(c@));
    let mut best: usize = 0;
    let mut i: usize = 0;
    while i < cells.len()
        invariant
            ws == cells@.map_values(|c: String| str_width(c@)),
            0 <= i <= cells@.len(),
            best == max_width_of(ws.take(i as int)),
        decreases cells@.len() - i,
    {
        let w = display_width(cells[i].as_str());
        assert(ws.take(i + 1).drop_last() == ws.take(i as int));
        if w > best {
            best = w;
        }
        i = i + 1;
    }
    assert(ws.take(cells@.len() as int) == ws);
    let h = display_width(header);
    if h > best { h } else { best }
}

/// The last-message cell of a chat row: the preview on one line, `-` when
/// there is none, shortened to the column budget.
pub fn last_message_cell(chat: &ChatInfo, max_width: usize) -> (r: String)
    ensures
        r@ == truncate_spec(
            single_line_spec(match chat.last_message { Some(m) => m@, None => "-"@ }),
            max_width,
        ),
{
    let raw = match &chat.last_message {
        Some(m) => m.as_str(),
        None => "-",
    };
    let flat = single_line(raw);
    truncate_with_ellipsis(flat.as_str(), max_width)
}

/// `s.parse::<usize>()`: digits with an optional `+`; a `-` is refused.
pub open spec fn parse_usize_spec(s: Seq<char>) -> Option<usize> {
    if s.len() > 0 && s[0] == '-' {
        None
    } else {
        match crate::text::parse_int_spec(s) {
            Some(v) => if 0 <= v <= usize::MAX { Some(v as usize) } else { None },
            None => None,
        }
    }
}

/// The terminal width to lay tables out for: the terminal's own width when
/// known, else a positive `COLUMNS`, else 80.
pub open spec fn terminal_columns_spec(terminal: Option<u16>, columns: Option<Seq<char>>) -> usize {
    match terminal {
        Some(w) => w as usize,
        None => match columns {
            Some(c) => match parse_usize_spec(c) {
                Some(n) => if n > 0 { n } else { 80 },
                None => 80,
            },
            None => 80,
        },
    }
}

pub fn terminal_columns(terminal: Option<u16>, columns: Option<String>) -> (r: usize)
    ensures
        r == terminal_columns_spec(terminal, crate::media::opt_view(columns)),
{
    match terminal {
        Some(w) => w as usize,
        None => match columns {
            Some(c) => {
                let v = chars_of(c.as_str());
                if v.len() > 0 && v[0] == '-' {
                    return 80;
                }
                match crate::text::parse_i64(c.as_str()) {
                    Some(n) => {
                        if n > 0 && (n as u64) <= (usize::MAX as u64) {
                            n as usize
                        } else if n > 0 {
                            80
                        } else {
                            80
                        }
                    },
                    None => {
                        // Values past i64::MAX still fit a usize only on
                        // 64-bit targets; treat them as the unsigned parse would.
                        parse_big_usize(c.as_str())
                    },
                }
            },
            None => 80,
        },
    }
}

/// The `COLUMNS` fallback for values `parse_i64` refused: an unsigned value
/// past `i64::MAX` that still fits a `usize`, or 80.
fn parse_big_usize(s: &str) -> (r: usize)
    requires
        crate::text::parse_i64_spec(s@) is None,
        !(s@.len() > 0 && s@[0] == '-'),
    ensures
        r == match parse_usize_spec(s@) {
            Some(n) => if n > 0 { n } else { 80 },
            None => 80,
        },
{
    let v = chars_of(s);
    let start: usize = if v.len() > 0 && v[0] == '+' { 1 } else { 0 };
    if start > v.len() {
        return 80;
    }
    let mut acc: u128 = 0;
    let mut i: usize = start;
    if i >= v.len() {
        proof { lemma_parse_usize_none_empty(s@, start as int); }
        return 80;
    }
    while i < v.len()
        invariant
            v@ == s@,
            start <= i <= v@.len(),
            start == (if s@.len() > 0 && s@[0] == '+' { 1int } else { 0int }),
            start < v@.len(),
            crate::text::all_digits(v@.skip(start as int).take(i - start)),
            acc == crate::text::digits_value(v@.skip(start as int).take(i - start)),
            acc <= usize::MAX,
            crate::text::parse_i64_spec(s@) is None,
            !(s@.len() > 0 && s@[0] == '-'),
        decreases v@.len() - i,
    {
        let c = v[i];
        if !('0' <= c && c <= '9') {
            proof { lemma_parse_usize_bad_digit(s@, start as int, i as int); }
            return 80;
        }
        let d: u128 = (c as u32 - '0' as u32) as u128;
        assert(d <= 9 && d as nat == crate::text::digit_value(c));
        let ghost body = v@.skip(start as int);
        assert(body.take(i - start + 1).drop_last() == body.take(i - start));
        let next = acc * 10 + d;
        assert(all_digits_step(body, i - start)) by {
            assert forall|j: int| 0 <= j < body.take(i - start + 1).len() implies crate::text::is_digit(
                #[trigger] body.take(i - start + 1)[j]
            ) by {
                if j < i - start {
                    assert(body.take(i - start + 1)[j] == body.take(i - start)[j]);
                }
            }
        }
        if next > usize::MAX as u128 {
            proof { lemma_parse_usize_too_big(s@, start as int, i as int + 1); }
            return 80;
        }
        acc = next;
        i = i + 1;
    }
    proof {
        assert(v@.skip(start as int).take(i - start) == v@.skip(start as int));
        lemma_parse_usize_value(s@, start as int);
    }
    if acc > 0 { acc as usize } else { 80 }
}

pub open spec fn all_digits_step(body: Seq<char>, k: int) -> bool {
    crate::text::all_digits(body.take(k + 1))
}

proof fn lemma_parse_usize_none_empty(s: Seq<char>, start: int)
    requires
        start == (if s.len() > 0 && s[0] == '+' { 1int } else { 0int }),
        start >= s.len(),
    ensures
        parse_usize_spec(s) is None,
{
}

proof fn lemma_parse_usize_bad_digit(s: Seq<char>, start: int, i: int)
    requires
        start == (if s.len() > 0 && s[0] == '+' { 1int } else { 0int }),
        start <= i < s.len(),
        !crate::text::is_digit(s[i]),
    ensures
        parse_usize_spec(s) is None,
{
    assert(!crate::text::is_digit(s.skip(start)[i - start]));
    if start == 0 {
        assert(s.skip(0) == s);
    }
}

proof fn lemma_parse_usize_too_big(s: Seq<char>, start: int, k: int)
    requires
        start == (if s.len() > 0 && s[0] == '+' { 1int } else { 0int }),
        start < k <= s.len(),
        crate::text::all_digits(s.skip(start).take(k - start)),
        crate::text::digits_value(s.skip(start).take(k - start)) > usize::MAX,
    ensures
        parse_usize_spec(s) is None,
{
    let body = s.skip(start);
    if crate::text::all_digits(body) {
        lemma_digits_value_mono_pub(body, k - start);
    }
    if start == 0 {
        assert(s.skip(0) == s);
    }
}

proof fn lemma_digits_value_mono_pub(s: Seq<char>, i: int)
    requires
        0 <= i <= s.len(),
        crate::text::all_digits(s),
    ensures
        crate::text::digits_value(s.take(i)) <= crate::text::digits_value(s),
    decreases s.len() - i,
{
    if i < s.len() {
        assert(s.take(i + 1).drop_last() == s.take(i));
        lemma_digits_value_mono_pub(s, i + 1);
    } else {
        assert(s.take(i) == s);
    }
}

proof fn lemma_parse_usize_value(s: Seq<char>, start: int)
    requires
        start == (if s.len() > 0 && s[0] == '+' { 1int } else { 0int }),
        start < s.len(),
        !(s.len() > 0 && s[0] == '-'),
        crate::text::all_digits(s.skip(start)),
        crate::text::digits_value(s.skip(start)) <= usize::MAX,
    ensures
        parse_usize_spec(s) == Some(crate::text::digits_value(s.skip(start)) as usize),
{
    if start == 0 {
        assert(s.skip(0) == s);
    }
}

} // verus!
