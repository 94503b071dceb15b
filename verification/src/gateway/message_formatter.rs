//! Message formatting and chunking for IM platforms.
use vstd::prelude::*;
use crate::gateway::traits::Platform;
use crate::model::provider::AgentProfileRecord;
use crate::model::thread::{ThreadStatus, ThreadSummaryDto};
use crate::model::workspace::WorkspaceRecord;
use crate::text::{decimal, decimal_string, join_on, lemma_join_split};
use crate::text::{
    chars_of, ends_with, has_prefix, has_suffix, lines, lines_of, slice_chars, split_by,
    split_seq, starts_with, string_from_chars, trim, trim_chars, words, words_of,
};

verus! {

/// Maximum text length (in characters) per message for each platform.
pub open spec fn max_len(platform: Platform) -> nat {
    match platform {
        Platform::Weixin => 2000,
        Platform::Wecom => 4000,
        Platform::Feishu => 6000,
        Platform::WhatsApp => 4096,
    }
}

/// Maximum text length per message for each platform.
pub fn max_message_length(platform: Platform) -> (r: usize)
    ensures
        r == max_len(platform),
{
    match platform {
        Platform::Weixin => 2000,
        Platform::Wecom => 4000,
        Platform::Feishu => 6000,
        Platform::WhatsApp => 4096,
    }
}

/// Accumulates streamed message deltas and produces the final text.
#[derive(Debug, Default)]
pub struct MessageAccumulator {
    buffer: String,
    has_error: bool,
}

impl MessageAccumulator {
    /// The accumulated text so far.
    pub closed spec fn text(&self) -> Seq<char> {
        self.buffer@
    }

    /// Whether an error was recorded.
    pub closed spec fn errored(&self) -> bool {
        self.has_error
    }

    /// An empty accumulator.
    pub fn new() -> (r: Self)
        ensures
            r.text() == Seq::<char>::empty(),
            !r.errored(),
    {
        MessageAccumulator { buffer: String::new(), has_error: false }
    }

    /// Appends a text delta.
    pub fn push_text(&mut self, delta: &str)
        ensures
            final(self).text() == old(self).text() + delta@,
            final(self).errored() == old(self).errored(),
    {
        self.buffer.append(delta);
    }

    /// Records an error message, separated from earlier text by a blank line.
    pub fn push_error(&mut self, error: &str)
        ensures
            final(self).errored(),
            final(self).text() == old(self).text() + (if old(self).text().len() > 0 {
                "\n\n"@
            } else {
                Seq::<char>::empty()
            }) + "❌ 错误: "@ + error@,
    {
        self.has_error = true;
        let nonempty = chars_of(self.buffer.as_str()).len() > 0;
        let ghost before = self.buffer@;
        if nonempty {
            self.buffer.append("\n\n");
        }
        self.buffer.append("❌ 错误: ");
        self.buffer.append(error);
        proof {
            if before.len() > 0 {
                assert(self.buffer@ =~= before + "\n\n"@ + "❌ 错误: "@ + error@);
            } else {
                assert(self.buffer@ =~= before + Seq::<char>::empty() + "❌ 错误: "@ + error@);
            }
        }
    }

    /// The accumulated text.
    pub fn finalize(self) -> (r: String)
        ensures
            r@ == self.text(),
    {
        self.buffer
    }

    /// Whether the accumulated content contains an error.
    pub fn has_error(&self) -> (r: bool)
        ensures
            r == self.errored(),
    {
        self.has_error
    }

    /// Whether nothing was accumulated.
    pub fn is_empty(&self) -> (r: bool)
        ensures
            r == (self.text().len() == 0),
    {
        chars_of(self.buffer.as_str()).len() == 0
    }
}

/// `after` is `before` with the text delta `delta` pushed.
pub open spec fn pushed_text(before: MessageAccumulator, delta: Seq<char>, after: MessageAccumulator) -> bool {
    after.text() == before.text() + delta && after.errored() == before.errored()
}

/// `after` is `before` with the error `error` pushed.
pub open spec fn pushed_error(before: MessageAccumulator, error: Seq<char>, after: MessageAccumulator) -> bool {
    &&& after.errored()
    &&& after.text() == before.text() + (if before.text().len() > 0 {
        "\n\n"@
    } else {
        Seq::<char>::empty()
    }) + "❌ 错误: "@ + error
}

/// The deltas joined in order, with nothing between them.
pub open spec fn concat_deltas(ds: Seq<Seq<char>>) -> Seq<char>
    decreases ds.len(),
{
    if ds.len() == 0 {
        Seq::empty()
    } else {
        concat_deltas(ds.drop_last()) + ds.last()
    }
}

/// An accumulator that starts empty and only receives text deltas ends
/// with their concatenation in order, and without an error.
pub proof fn lemma_accumulated_text_is_concatenation(accs: Seq<MessageAccumulator>, deltas: Seq<Seq<char>>)
    requires
        accs.len() == deltas.len() + 1,
        accs[0].text() == Seq::<char>::empty(),
        !accs[0].errored(),
        forall|i: int| 0 <= i < deltas.len() ==> pushed_text(accs[i], #[trigger] deltas[i], accs[i + 1]),
    ensures
        accs.last().text() == concat_deltas(deltas),
        !accs.last().errored(),
    decreases deltas.len(),
{
    if deltas.len() > 0 {
        let n = deltas.len() - 1;
        let a = accs.drop_last();
        let d = deltas.drop_last();
        assert forall|i: int| 0 <= i < d.len() implies pushed_text(a[i], #[trigger] d[i], a[i + 1]) by {
            assert(pushed_text(accs[i], deltas[i], accs[i + 1]));
        }
        lemma_accumulated_text_is_concatenation(a, d);
        assert(pushed_text(accs[n], deltas[n], accs[n + 1]));
        assert(a.last() == accs[n]);
    }
}

/// Over any run of pushes on a fresh accumulator, it holds an error exactly
/// when one of the pushes was an error (`errors[i]` tells which); text
/// pushes neither set nor clear it.
pub proof fn lemma_error_flag_records_error_pushes(
    accs: Seq<MessageAccumulator>,
    errors: Seq<bool>,
    pieces: Seq<Seq<char>>,
)
    requires
        accs.len() == errors.len() + 1,
        pieces.len() == errors.len(),
        !accs[0].errored(),
        forall|i: int|
            0 <= i < errors.len() ==> if #[trigger] errors[i] {
                pushed_error(accs[i], pieces[i], accs[i + 1])
            } else {
                pushed_text(accs[i], pieces[i], accs[i + 1])
            },
    ensures
        accs.last().errored() <==> exists|i: int| 0 <= i < errors.len() && #[trigger] errors[i],
    decreases errors.len(),
{
    if errors.len() > 0 {
        let n = errors.len() - 1;
        let a = accs.drop_last();
        let e = errors.drop_last();
        let p = pieces.drop_last();
        assert forall|i: int| 0 <= i < e.len() implies if #[trigger] e[i] {
            pushed_error(a[i], p[i], a[i + 1])
        } else {
            pushed_text(a[i], p[i], a[i + 1])
        } by {
            assert(errors[i] == e[i]);
        }
        lemma_error_flag_records_error_pushes(a, e, p);
        assert(errors[n] ==> pushed_error(accs[n], pieces[n], accs[n + 1]));
        assert(!errors[n] ==> pushed_text(accs[n], pieces[n], accs[n + 1]));
        assert(a.last() == accs[n]);
        if exists|i: int| 0 <= i < e.len() && #[trigger] e[i] {
            let i = choose|i: int| 0 <= i < e.len() && #[trigger] e[i];
            assert(errors[i]);
        }
        if exists|i: int| 0 <= i < errors.len() && #[trigger] errors[i] {
            let i = choose|i: int| 0 <= i < errors.len() && #[trigger] errors[i];
            if i < n {
                assert(e[i]);
            }
        }
    }
}

// ---------------------------------------------------------------------------
// Line wrapping
// ---------------------------------------------------------------------------

/// Greedy word wrapping state after the words `ws`: the text produced and
/// the length of the current output line.
pub open spec fn wrap_state(ws: Seq<Seq<char>>, width: nat) -> (Seq<char>, nat)
    decreases ws.len(),
{
    if ws.len() == 0 {
        (Seq::empty(), 0)
    } else {
        let (out, cur) = wrap_state(ws.drop_last(), width);
        let w = ws.last();
        let (out1, cur1) = if cur > 0 && cur + 1 + w.len() > width {
            (out.push('\n'), 0nat)
        } else {
            (out, cur)
        };
        let (out2, cur2) = if cur1 > 0 {
            (out1.push(' '), cur1 + 1)
        } else {
            (out1, cur1)
        };
        (out2 + w, cur2 + w.len())
    }
}

/// A long line wrapped at about `width` characters, ending in a newline.
pub open spec fn wrapped(line: Seq<char>, width: nat) -> Seq<char> {
    wrap_state(words(line), width).0.push('\n')
}

/// Wraps a long line at approximately `width` characters onto `output`.
pub fn wrap_line(line: &Vec<char>, width: usize, output: &mut Vec<char>)
    ensures
        final(output)@ == old(output)@ + wrapped(line@, width as nat),
{
    let ws = words_of(line);
    let ghost wv = ws.deep_view();
    let ghost start = output@;
    let mut current_len: usize = 0;
    let mut i: usize = 0;
    proof {
        assert(wv.subrange(0, 0) =~= Seq::<Seq<char>>::empty());
        assert(output@ =~= start + wrap_state(wv.subrange(0, 0), width as nat).0);
    }
    while i < ws.len()
        invariant
            wv == ws.deep_view(),
            wv == words(line@),
            i <= ws@.len(),
            output@ == start + wrap_state(wv.subrange(0, i as int), width as nat).0,
            current_len as nat == wrap_state(wv.subrange(0, i as int), width as nat).1,
        decreases ws@.len() - i,
    {
        let word = &ws[i];
        let ghost w = wv[i as int];
        assert(word@ =~= w);
        let word_len = word.len();
        assert(wv.subrange(0, i + 1).drop_last() =~= wv.subrange(0, i as int));
        if current_len > 0 && (current_len >= width || word_len > width - current_len - 1) {
            output.push('\n');
            current_len = 0;
        }
        if current_len > 0 {
            output.push(' ');
            current_len += 1;
        }
        let mut k: usize = 0;
        let ghost before = output@;
        while k < word.len()
            invariant
                k <= word@.len(),
                output@ == before + word@.subrange(0, k as int),
            decreases word@.len() - k,
        {
            output.push(word[k]);
            k += 1;
        }
        assert(word@.subrange(0, k as int) =~= word@);
        current_len += word_len;
        i += 1;
    }
    output.push('\n');
    assert(wv.subrange(0, i as int) =~= wv);
}


// ---------------------------------------------------------------------------
// Markdown normalization
// ---------------------------------------------------------------------------

/// `s` without leading `|` characters.
pub open spec fn trim_bars_start(s: Seq<char>) -> Seq<char>
    decreases s.len(),
{
    if s.len() > 0 && s[0] == '|' {
        trim_bars_start(s.drop_first())
    } else {
        s
    }
}

/// `s` without trailing `|` characters.
pub open spec fn trim_bars_end(s: Seq<char>) -> Seq<char>
    decreases s.len(),
{
    if s.len() > 0 && s.last() == '|' {
        trim_bars_end(s.drop_last())
    } else {
        s
    }
}

/// `s` without leading and trailing `|` characters (`trim_matches('|')`).
pub open spec fn trim_bars(s: Seq<char>) -> Seq<char> {
    trim_bars_end(trim_bars_start(s))
}

fn trim_bars_chars(s: &Vec<char>) -> (r: Vec<char>)
    ensures
        r@ == trim_bars(s@),
{
    let n = s.len();
    let mut i: usize = 0;
    assert(s@.subrange(0, n as int) =~= s@);
    while i < n && s[i] == '|'
        invariant
            i <= n == s@.len(),
            trim_bars_start(s@) == trim_bars_start(s@.subrange(i as int, n as int)),
        decreases n - i,
    {
        assert(s@.subrange(i as int, n as int).drop_first() =~= s@.subrange(i + 1, n as int));
        i += 1;
    }
    let mut j: usize = n;
    while j > i && s[j - 1] == '|'
        invariant
            i <= j <= n == s@.len(),
            trim_bars_start(s@) == s@.subrange(i as int, n as int),
            trim_bars_end(s@.subrange(i as int, n as int)) == trim_bars_end(
                s@.subrange(i as int, j as int),
            ),
        decreases j - i,
    {
        assert(s@.subrange(i as int, j as int).drop_last() =~= s@.subrange(i as int, j - 1));
        j -= 1;
    }
    slice_chars(s, i, j)
}

/// Whether a table line only holds `|`, `-`, `:` and spaces (a separator row).
pub open spec fn is_table_separator(line: Seq<char>) -> bool {
    forall|i: int| 0 <= i < line.len() ==> (line[i] == '|' || line[i] == '-' || line[i] == ':' || line[i] == ' ')
}

fn table_separator(line: &Vec<char>) -> (r: bool)
    ensures
        r == is_table_separator(line@),
{
    let mut i: usize = 0;
    while i < line.len()
        invariant
            i <= line@.len(),
            forall|k: int| 0 <= k < i ==> (line@[k] == '|' || line@[k] == '-' || line@[k] == ':'
                || line@[k] == ' '),
        decreases line@.len() - i,
    {
        let c = line[i];
        if !(c == '|' || c == '-' || c == ':' || c == ' ') {
            return false;
        }
        i += 1;
    }
    true
}

/// The output of table cells: each non-empty trimmed cell on its own
/// line, indented by two spaces.
pub open spec fn cells_text(cells: Seq<Seq<char>>) -> Seq<char>
    decreases cells.len(),
{
    if cells.len() == 0 {
        Seq::empty()
    } else {
        let c = trim(cells.last());
        cells_text(cells.drop_last()) + (if c.len() > 0 {
            "  "@ + c + seq!['\n']
        } else {
            Seq::empty()
        })
    }
}

/// The output for a table row line.
pub open spec fn table_row_text(line: Seq<char>) -> Seq<char> {
    cells_text(split_seq(trim_bars(line), seq!['|']))
}

fn push_all(out: &mut Vec<char>, s: &[char])
    ensures
        final(out)@ == old(out)@ + s@,
{
    let mut k: usize = 0;
    let ghost before = out@;
    while k < s.len()
        invariant
            k <= s@.len(),
            out@ == before + s@.subrange(0, k as int),
        decreases s@.len() - k,
    {
        out.push(s[k]);
        k += 1;
    }
    assert(s@.subrange(0, k as int) =~= s@);
}

fn push_str(out: &mut Vec<char>, s: &str)
    ensures
        final(out)@ == old(out)@ + s@,
{
    let cs = chars_of(s);
    push_all(out, cs.as_slice());
}

fn table_row(line: &Vec<char>, output: &mut Vec<char>)
    ensures
        final(output)@ == old(output)@ + table_row_text(line@),
{
    let inner = trim_bars_chars(line);
    let bar = ['|'];
    assert(bar@ =~= seq!['|']);
    let cells = split_by(&inner, &bar);
    let ghost cv = cells.deep_view();
    let ghost start = output@;
    let mut i: usize = 0;
    assert(cv.subrange(0, 0) =~= Seq::<Seq<char>>::empty());
    while i < cells.len()
        invariant
            cv == cells.deep_view(),
            i <= cells@.len(),
            output@ == start + cells_text(cv.subrange(0, i as int)),
        decreases cells@.len() - i,
    {
        assert(cells@[i as int]@ =~= cv[i as int]);
        let cell = trim_chars(&cells[i]);
        assert(cv.subrange(0, i + 1).drop_last() =~= cv.subrange(0, i as int));
        let ghost before = output@;
        if cell.len() > 0 {
            push_str(output, "  ");
            push_all(output, cell.as_slice());
            output.push('\n');
            assert(output@ =~= before + ("  "@ + cell@ + seq!['\n']));
        } else {
            assert(output@ =~= before + Seq::<char>::empty());
        }
        i += 1;
    }
    assert(cv.subrange(0, i as int) =~= cv);
}

/// The number of `#` characters a line starts with.
pub open spec fn leading_hashes(line: Seq<char>) -> nat
    decreases line.len(),
{
    if line.len() > 0 && line[0] == '#' {
        1 + leading_hashes(line.drop_first())
    } else {
        0
    }
}

/// A heading of level two or deeper: two or more `#` and then a space.
pub open spec fn is_deep_heading(line: Seq<char>) -> bool {
    &&& leading_hashes(line) >= 2
    &&& leading_hashes(line) < line.len()
    &&& line[leading_hashes(line) as int] == ' '
}

proof fn lemma_leading_hashes_bounded(line: Seq<char>)
    ensures
        leading_hashes(line) <= line.len(),
    decreases line.len(),
{
    if line.len() > 0 && line[0] == '#' {
        lemma_leading_hashes_bounded(line.drop_first());
    }
}

/// Counts the `#` characters a line starts with.
fn count_leading_hashes(line: &Vec<char>) -> (r: usize)
    ensures
        r == leading_hashes(line@),
{
    let mut i: usize = 0;
    assert(line@.subrange(0, line@.len() as int) =~= line@);
    while i < line.len() && line[i] == '#'
        invariant
            i <= line@.len(),
            leading_hashes(line@) == i + leading_hashes(line@.subrange(i as int, line@.len() as int)),
        decreases line@.len() - i,
    {
        let ghost sub = line@.subrange(i as int, line@.len() as int);
        assert(sub.drop_first() =~= line@.subrange(i + 1, line@.len() as int));
        i += 1;
    }
    let ghost sub = line@.subrange(i as int, line@.len() as int);
    assert(sub.len() == 0 || sub[0] != '#');
    i
}

/// The output produced for one line, given whether a code block is open;
/// also returns whether a code block is open afterwards.
pub open spec fn line_text(line: Seq<char>, in_code: bool) -> (Seq<char>, bool) {
    if has_prefix(line, "```"@) {
        (line.push('\n'), !in_code)
    } else if in_code {
        (line.push('\n'), in_code)
    } else if has_prefix(line, "# "@) {
        ("【"@ + trim(line.subrange(2, line.len() as int)) + "】\n"@, in_code)
    } else if is_deep_heading(line) {
        (
            "**"@ + trim(line.subrange(leading_hashes(line) as int + 1, line.len() as int)) + "**\n"@,
            in_code,
        )
    } else if has_prefix(line, "| "@) && has_suffix(line, " |"@) {
        if is_table_separator(line) {
            (Seq::empty(), in_code)
        } else {
            (table_row_text(line), in_code)
        }
    } else if line.len() > 120 && !has_prefix(line, " "@) && !has_prefix(line, "\t"@) {
        (wrapped(line, 120), in_code)
    } else {
        (line.push('\n'), in_code)
    }
}

/// Output text and code-block state after the lines `ls`.
pub open spec fn normalize_state(ls: Seq<Seq<char>>) -> (Seq<char>, bool)
    decreases ls.len(),
{
    if ls.len() == 0 {
        (Seq::empty(), false)
    } else {
        let (out, in_code) = normalize_state(ls.drop_last());
        let (piece, in_code2) = line_text(ls.last(), in_code);
        (out + piece, in_code2)
    }
}

/// Markdown normalized for IM display.
pub open spec fn normalized(text: Seq<char>) -> Seq<char> {
    let out = normalize_state(lines(text)).0;
    if out.len() > 0 && out.last() == '\n' {
        out.drop_last()
    } else {
        out
    }
}

fn starts_with_lit(s: &Vec<char>, p: &str) -> (r: bool)
    ensures
        r == has_prefix(s@, p@),
{
    let pv = chars_of(p);
    starts_with(s.as_slice(), pv.as_slice())
}

fn ends_with_lit(s: &Vec<char>, p: &str) -> (r: bool)
    ensures
        r == has_suffix(s@, p@),
{
    let pv = chars_of(p);
    ends_with(s.as_slice(), pv.as_slice())
}

/// Whether a line is a heading of level two or deeper.
fn is_deep_heading_line(line: &Vec<char>) -> (r: bool)
    ensures
        r == is_deep_heading(line@),
{
    let n = count_leading_hashes(line);
    proof {
        lemma_leading_hashes_bounded(line@);
    }
    n >= 2 && n < line.len() && line[n] == ' '
}

/// Emits the output for one line; returns the new code-block state.
fn normalize_line(line: &Vec<char>, in_code: bool, output: &mut Vec<char>) -> (r: bool)
    ensures
        (final(output)@, r) == ({
            let (piece, c) = line_text(line@, in_code);
            (old(output)@ + piece, c)
        }),
{
    let ghost before = output@;
    if starts_with_lit(line, "```") {
        push_all(output, line.as_slice());
        output.push('\n');
        assert(output@ =~= before + line@.push('\n'));
        return !in_code;
    }
    if in_code {
        push_all(output, line.as_slice());
        output.push('\n');
        assert(output@ =~= before + line@.push('\n'));
        return in_code;
    }
    if starts_with_lit(line, "# ") {
        proof {
            reveal_strlit("# ");
        }
        let rest = slice_chars(line, 2, line.len());
        let t = trim_chars(&rest);
        push_str(output, "【");
        push_all(output, t.as_slice());
        push_str(output, "】\n");
        assert(output@ =~= before + ("【"@ + t@ + "】\n"@));
    } else if is_deep_heading_line(line) {
        let n = count_leading_hashes(line);
        let len = line.len();
        assert(n < len);
        let rest = slice_chars(line, n + 1, len);
        let t = trim_chars(&rest);
        push_str(output, "**");
        push_all(output, t.as_slice());
        push_str(output, "**\n");
        assert(output@ =~= before + ("**"@ + t@ + "**\n"@));
    } else if starts_with_lit(line, "| ") && ends_with_lit(line, " |") {
        if table_separator(line) {
            assert(output@ =~= before + Seq::<char>::empty());
        } else {
            table_row(line, output);
        }
    } else if line.len() > 120 && !starts_with_lit(line, " ") && !starts_with_lit(line, "\t") {
        wrap_line(line, 120, output);
    } else {
        push_all(output, line.as_slice());
        output.push('\n');
        assert(output@ =~= before + line@.push('\n'));
    }
    in_code
}

/// Normalizes Markdown for IM display: `# H1` becomes `【H1】`, headings of
/// level two and deeper (`##`, `###`, `####`, ...) become bold, table rows become indented cell lists, long lines
/// are wrapped at 120 characters, and code blocks are kept as they are.
pub fn normalize_markdown_chars(text: &Vec<char>) -> (r: Vec<char>)
    ensures
        r@ == normalized(text@),
{
    let ls = lines_of(text);
    let ghost lv = ls.deep_view();
    let mut output: Vec<char> = Vec::new();
    let mut in_code = false;
    let mut i: usize = 0;
    assert(lv.subrange(0, 0) =~= Seq::<Seq<char>>::empty());
    while i < ls.len()
        invariant
            lv == ls.deep_view(),
            lv == lines(text@),
            i <= ls@.len(),
            (output@, in_code) == normalize_state(lv.subrange(0, i as int)),
        decreases ls@.len() - i,
    {
        assert(ls@[i as int]@ =~= lv[i as int]);
        assert(lv.subrange(0, i + 1).drop_last() =~= lv.subrange(0, i as int));
        in_code = normalize_line(&ls[i], in_code, &mut output);
        i += 1;
    }
    assert(lv.subrange(0, i as int) =~= lv);
    if output.len() > 0 && output[output.len() - 1] == '\n' {
        output.pop();
    }
    output
}

/// Normalizes Markdown for IM display (see [`normalize_markdown_chars`]).
pub fn normalize_markdown_for_im(text: &str) -> (r: String)
    ensures
        r@ == normalized(text@),
{
    let cs = chars_of(text);
    let out = normalize_markdown_chars(&cs);
    string_from_chars(out.as_slice())
}


// ---------------------------------------------------------------------------
// Chunking
// ---------------------------------------------------------------------------

/// The character position after `max_chars` characters of `s` (the whole
/// length when `s` is shorter).
pub fn char_boundary_at_count(s: &Vec<char>, max_chars: usize) -> (r: usize)
    ensures
        r == if s@.len() <= max_chars { s@.len() } else { max_chars as nat },
{
    if s.len() <= max_chars {
        s.len()
    } else {
        max_chars
    }
}

/// Hard split of `p` into consecutive pieces of `max` characters (the last
/// one possibly shorter).
pub open spec fn hard_split(p: Seq<char>, max: nat) -> Seq<Seq<char>>
    decreases p.len(),
{
    if p.len() == 0 || max == 0 {
        Seq::empty()
    } else if p.len() <= max {
        seq![p]
    } else {
        seq![p.subrange(0, max as int)] + hard_split(p.subrange(max as int, p.len() as int), max)
    }
}

/// The chunks produced so far and the current chunk, after the paragraphs `ps`.
pub open spec fn split_state(ps: Seq<Seq<char>>, max: nat) -> (Seq<Seq<char>>, Seq<char>)
    decreases ps.len(),
{
    if ps.len() == 0 {
        (Seq::empty(), Seq::empty())
    } else {
        let (chunks, cur) = split_state(ps.drop_last(), max);
        let p = ps.last();
        let candidate = if cur.len() == 0 {
            p
        } else {
            cur + "\n\n"@ + p
        };
        if candidate.len() <= max {
            (chunks, candidate)
        } else if cur.len() == 0 {
            (chunks + hard_split(p, max), Seq::empty())
        } else if p.len() <= max {
            (chunks.push(cur), p)
        } else {
            (chunks.push(cur) + hard_split(p, max), Seq::empty())
        }
    }
}

/// The chunks a formatted text is sent in on a platform.
pub open spec fn chunks_of(text: Seq<char>, platform: Platform) -> Seq<Seq<char>> {
    let n = normalized(text);
    let max = max_len(platform);
    if n.len() == 0 {
        Seq::empty()
    } else if n.len() <= max {
        seq![n]
    } else {
        let (chunks, cur) = split_state(split_seq(n, "\n\n"@), max);
        if cur.len() > 0 {
            chunks.push(cur)
        } else {
            chunks
        }
    }
}

proof fn lemma_hard_split_nonempty(p: Seq<char>, max: nat)
    ensures
        forall|i: int| 0 <= i < hard_split(p, max).len() ==> #[trigger] hard_split(p, max)[i].len() > 0,
    decreases p.len(),
{
    if p.len() == 0 || max == 0 {
    } else if p.len() <= max {
    } else {
        let rest = p.subrange(max as int, p.len() as int);
        lemma_hard_split_nonempty(rest, max);
        let h = hard_split(p, max);
        assert forall|i: int| 0 <= i < h.len() implies #[trigger] h[i].len() > 0 by {
            if i > 0 {
                assert(h[i] == hard_split(rest, max)[i - 1]);
            }
        }
    }
}

proof fn lemma_split_state_nonempty(ps: Seq<Seq<char>>, max: nat)
    ensures
        forall|i: int| 0 <= i < split_state(ps, max).0.len() ==> #[trigger] split_state(ps, max).0[i].len() > 0,
    decreases ps.len(),
{
    if ps.len() > 0 {
        lemma_split_state_nonempty(ps.drop_last(), max);
        lemma_hard_split_nonempty(ps.last(), max);
        let (chunks, cur) = split_state(ps.drop_last(), max);
        let p = ps.last();
        let r = split_state(ps, max).0;
        assert forall|i: int| 0 <= i < r.len() implies #[trigger] r[i].len() > 0 by {
            if i >= chunks.len() {
                let candidate = if cur.len() == 0 { p } else { cur + "\n\n"@ + p };
                if candidate.len() <= max {
                } else if cur.len() == 0 {
                    assert(r[i] == hard_split(p, max)[i - chunks.len()]);
                } else {
                }
            } else {
                assert(r[i] == chunks[i]);
            }
        }
    }
}

/// What goes between two chunks when they are read back as one text: a
/// paragraph break (`true`) or nothing, where a paragraph was cut (`false`).
pub open spec fn boundary(paragraph_break: bool) -> Seq<char> {
    if paragraph_break {
        "\n\n"@
    } else {
        Seq::empty()
    }
}

/// Chunks read back as one text, with `breaks[i]` telling what stood between
/// chunk `i` and chunk `i + 1`.
pub open spec fn rejoined(cs: Seq<Seq<char>>, breaks: Seq<bool>) -> Seq<char>
    decreases cs.len(),
{
    if cs.len() == 0 {
        Seq::empty()
    } else if cs.len() == 1 {
        cs[0]
    } else {
        rejoined(cs.drop_last(), breaks.drop_last()) + boundary(breaks.last()) + cs.last()
    }
}

/// `n` boundaries, all cuts.
pub open spec fn cuts(n: nat) -> Seq<bool> {
    Seq::new(n, |i: int| false)
}

proof fn lemma_rejoined_grow_last(cs: Seq<Seq<char>>, c: Seq<char>, x: Seq<char>, b: Seq<bool>)
    requires
        b.len() == cs.len(),
    ensures
        rejoined(cs.push(c + x), b) == rejoined(cs.push(c), b) + x,
{
    let l1 = cs.push(c + x);
    let l0 = cs.push(c);
    assert(l1.drop_last() =~= cs);
    assert(l0.drop_last() =~= cs);
    if cs.len() == 0 {
    } else {
        assert(rejoined(l1, b) =~= rejoined(l0, b) + x);
    }
}

proof fn lemma_rejoined_push(cs: Seq<Seq<char>>, b: Seq<bool>, brk: bool, c: Seq<char>)
    requires
        cs.len() >= 1,
        b.len() + 1 == cs.len(),
    ensures
        rejoined(cs.push(c), b.push(brk)) == rejoined(cs, b) + boundary(brk) + c,
{
    assert(cs.push(c).drop_last() =~= cs);
    assert(b.push(brk).drop_last() =~= b);
}

proof fn lemma_rejoined_append(cs: Seq<Seq<char>>, b: Seq<bool>, brk: bool, ds: Seq<Seq<char>>, db: Seq<bool>)
    requires
        cs.len() >= 1,
        b.len() + 1 == cs.len(),
        ds.len() >= 1,
        db.len() + 1 == ds.len(),
    ensures
        rejoined(cs + ds, b.push(brk) + db) == rejoined(cs, b) + boundary(brk) + rejoined(ds, db),
    decreases ds.len(),
{
    if ds.len() == 1 {
        assert(cs + ds =~= cs.push(ds[0]));
        assert(b.push(brk) + db =~= b.push(brk));
        lemma_rejoined_push(cs, b, brk, ds[0]);
    } else {
        let ds0 = ds.drop_last();
        let db0 = db.drop_last();
        lemma_rejoined_append(cs, b, brk, ds0, db0);
        let all = cs + ds;
        let ab = b.push(brk) + db;
        assert(all.drop_last() =~= cs + ds0);
        assert(ab.drop_last() =~= b.push(brk) + db0);
        assert(ab.last() == db.last());
        assert(all.last() == ds.last());
        assert(rejoined(all, ab) =~= rejoined(cs, b) + boundary(brk) + rejoined(ds, db));
    }
}

proof fn lemma_hard_split_rejoins(p: Seq<char>, max: nat)
    requires
        p.len() > 0,
        max > 0,
    ensures
        hard_split(p, max).len() >= 1,
        rejoined(hard_split(p, max), cuts((hard_split(p, max).len() - 1) as nat)) == p,
    decreases p.len(),
{
    if p.len() <= max {
        assert(cuts(0) =~= Seq::<bool>::empty());
    } else {
        let rest = p.subrange(max as int, p.len() as int);
        lemma_hard_split_rejoins(rest, max);
        let hr = hard_split(rest, max);
        let h = hard_split(p, max);
        let first = seq![p.subrange(0, max as int)];
        assert(h == first + hr);
        assert(cuts((h.len() - 1) as nat) =~= Seq::<bool>::empty().push(false) + cuts((hr.len() - 1) as nat));
        lemma_rejoined_append(first, Seq::<bool>::empty(), false, hr, cuts((hr.len() - 1) as nat));
        assert(p.subrange(0, max as int) + Seq::<char>::empty() + rest =~= p);
    }
}

/// The chunks a split has produced so far, with the chunk being filled when
/// there is one.
pub open spec fn split_chunks_so_far(ps: Seq<Seq<char>>, max: nat) -> Seq<Seq<char>> {
    let (cs, cur) = split_state(ps, max);
    if cur.len() > 0 {
        cs.push(cur)
    } else {
        cs
    }
}

proof fn lemma_split_state_rejoins(ps: Seq<Seq<char>>, max: nat) -> (breaks: Seq<bool>)
    requires
        max > 0,
        forall|i: int| 0 <= i < ps.len() ==> #[trigger] ps[i].len() > 0,
    ensures
        ps.len() == 0 ==> split_state(ps, max).0.len() == 0 && split_state(ps, max).1.len() == 0,
        ps.len() > 0 ==> split_chunks_so_far(ps, max).len() >= 1 && breaks.len() + 1 == split_chunks_so_far(
            ps,
            max,
        ).len() && rejoined(split_chunks_so_far(ps, max), breaks) == join_on(ps, "\n\n"@),
    decreases ps.len(),
{
    if ps.len() == 0 {
        Seq::empty()
    } else {
        let prev = ps.drop_last();
        assert forall|i: int| 0 <= i < prev.len() implies #[trigger] prev[i].len() > 0 by {
            assert(prev[i] == ps[i]);
        }
        let b = lemma_split_state_rejoins(prev, max);
        let (cs, cur) = split_state(prev, max);
        let full = split_chunks_so_far(prev, max);
        let p = ps.last();
        assert(p.len() > 0);
        let j = join_on(prev, "\n\n"@);
        let jn = join_on(ps, "\n\n"@);
        if prev.len() == 0 {
            assert(ps =~= seq![p]);
        } else {
            assert(jn == j + "\n\n"@ + p);
        }
        let candidate = if cur.len() == 0 {
            p
        } else {
            cur + "\n\n"@ + p
        };
        if candidate.len() <= max {
            if cur.len() == 0 {
                assert(split_chunks_so_far(ps, max) == cs.push(p));
                if prev.len() == 0 {
                    assert(cs.push(p) =~= seq![p]);
                    Seq::empty()
                } else {
                    assert(full == cs);
                    lemma_rejoined_push(cs, b, true, p);
                    b.push(true)
                }
            } else {
                assert(cur + "\n\n"@ + p =~= cur + ("\n\n"@ + p));
                assert(split_state(ps, max) == (cs, cur + "\n\n"@ + p));
                assert(split_chunks_so_far(ps, max) == cs.push(cur + ("\n\n"@ + p)));
                lemma_rejoined_grow_last(cs, cur, "\n\n"@ + p, b);
                assert(j + "\n\n"@ + p =~= j + ("\n\n"@ + p));
                b
            }
        } else if cur.len() == 0 {
            let hs = hard_split(p, max);
            lemma_hard_split_rejoins(p, max);
            let hb = cuts((hs.len() - 1) as nat);
            assert(split_chunks_so_far(ps, max) == cs + hs);
            if prev.len() == 0 {
                assert(cs + hs =~= hs);
                hb
            } else {
                assert(full == cs);
                lemma_rejoined_append(cs, b, true, hs, hb);
                b.push(true) + hb
            }
        } else if p.len() <= max {
            assert(split_chunks_so_far(ps, max) == cs.push(cur).push(p));
            assert(full == cs.push(cur));
            lemma_rejoined_push(full, b, true, p);
            b.push(true)
        } else {
            let hs = hard_split(p, max);
            lemma_hard_split_rejoins(p, max);
            let hb = cuts((hs.len() - 1) as nat);
            assert(split_chunks_so_far(ps, max) == cs.push(cur) + hs);
            assert(full == cs.push(cur));
            lemma_rejoined_append(full, b, true, hs, hb);
            b.push(true) + hb
        }
    }
}

/// Nothing of a reply is lost or repeated by splitting: when no paragraph
/// of the formatted text is empty (or the text fits in one message), its
/// chunks, read back in order with a paragraph break or nothing (where a
/// long paragraph was cut) between each two, are exactly the formatted text.
/// The returned `breaks` say which boundary is which.
pub proof fn lemma_chunks_rejoin_text(text: Seq<char>, platform: Platform) -> (breaks: Seq<bool>)
    requires
        normalized(text).len() <= max_len(platform) || forall|i: int|
            0 <= i < split_seq(normalized(text), "\n\n"@).len() ==> #[trigger] split_seq(normalized(text), "\n\n"@)[i].len()
                > 0,
    ensures
        normalized(text).len() == 0 <==> chunks_of(text, platform).len() == 0,
        normalized(text).len() > 0 ==> breaks.len() + 1 == chunks_of(text, platform).len() && rejoined(
            chunks_of(text, platform),
            breaks,
        ) == normalized(text),
{
    let n = normalized(text);
    let max = max_len(platform);
    if n.len() == 0 {
        Seq::empty()
    } else if n.len() <= max {
        Seq::empty()
    } else {
        reveal_strlit("\n\n");
        let ps = split_seq(n, "\n\n"@);
        lemma_join_split(n, "\n\n"@);
        let b = lemma_split_state_rejoins(ps, max);
        if ps.len() == 0 {
            assert(join_on(ps, "\n\n"@).len() == 0);
        }
        assert(chunks_of(text, platform) == split_chunks_so_far(ps, max));
        b
    }
}

/// No chunk of a formatted text is empty.
pub proof fn lemma_chunks_nonempty(text: Seq<char>, platform: Platform)
    ensures
        forall|i: int| 0 <= i < chunks_of(text, platform).len() ==> #[trigger] chunks_of(text, platform)[i].len() > 0,
{
    let n = normalized(text);
    let max = max_len(platform);
    if n.len() > max {
        lemma_split_state_nonempty(split_seq(n, "\n\n"@), max);
    }
}

proof fn lemma_hard_split_bounded(p: Seq<char>, max: nat)
    ensures
        forall|i: int| 0 <= i < hard_split(p, max).len() ==> #[trigger] hard_split(p, max)[i].len() <= max,
    decreases p.len(),
{
    if p.len() == 0 || max == 0 {
    } else if p.len() <= max {
    } else {
        let rest = p.subrange(max as int, p.len() as int);
        lemma_hard_split_bounded(rest, max);
        let h = hard_split(p, max);
        assert forall|i: int| 0 <= i < h.len() implies #[trigger] h[i].len() <= max by {
            if i > 0 {
                assert(h[i] == hard_split(rest, max)[i - 1]);
            }
        }
    }
}

proof fn lemma_split_state_bounded(ps: Seq<Seq<char>>, max: nat)
    ensures
        split_state(ps, max).1.len() <= max,
        forall|i: int| 0 <= i < split_state(ps, max).0.len() ==> #[trigger] split_state(ps, max).0[i].len() <= max,
    decreases ps.len(),
{
    if ps.len() > 0 {
        let prev = ps.drop_last();
        lemma_split_state_bounded(prev, max);
        let (chunks, cur) = split_state(prev, max);
        let p = ps.last();
        lemma_hard_split_bounded(p, max);
        let r = split_state(ps, max).0;
        assert forall|i: int| 0 <= i < r.len() implies #[trigger] r[i].len() <= max by {
            let candidate = if cur.len() == 0 { p } else { cur + "\n\n"@ + p };
            if i < chunks.len() {
                assert(r[i] == chunks[i]);
            } else if candidate.len() <= max {
            } else if cur.len() == 0 {
                assert(r[i] == hard_split(p, max)[i - chunks.len()]);
            } else if i > chunks.len() {
                assert(r[i] == hard_split(p, max)[i - chunks.len() - 1]);
            }
        }
    }
}

/// Every chunk a formatted text is sent in holds at least one and at most
/// the platform's limit of characters.
pub proof fn lemma_chunks_bounded(text: Seq<char>, platform: Platform)
    ensures
        forall|i: int|
            0 <= i < chunks_of(text, platform).len() ==> 0 < #[trigger] chunks_of(text, platform)[i].len() <= max_len(
                platform,
            ),
{
    lemma_chunks_nonempty(text, platform);
    let n = normalized(text);
    let max = max_len(platform);
    if n.len() > max {
        let ps = split_seq(n, "\n\n"@);
        lemma_split_state_bounded(ps, max);
        let (chunks, cur) = split_state(ps, max);
        let c = chunks_of(text, platform);
        assert forall|i: int| 0 <= i < c.len() implies #[trigger] c[i].len() <= max by {
            if i < chunks.len() {
                assert(c[i] == chunks[i]);
            }
        }
    }
}

fn push_hard_split(chunks: &mut Vec<Vec<char>>, p: &Vec<char>, max: usize)
    requires
        max > 0,
    ensures
        final(chunks).deep_view() == old(chunks).deep_view() + hard_split(p@, max as nat),
{
    let mut start: usize = 0;
    let ghost base = chunks.deep_view();
    assert(p@.subrange(0, p@.len() as int) =~= p@);
    assert(base =~= base + Seq::<Seq<char>>::empty());
    while start < p.len()
        invariant
            max > 0,
            start <= p@.len(),
            base + hard_split(p@, max as nat) == chunks.deep_view() + hard_split(
                p@.subrange(start as int, p@.len() as int),
                max as nat,
            ),
        decreases p@.len() - start,
    {
        let ghost rest = p@.subrange(start as int, p@.len() as int);
        let end = if p.len() - start <= max {
            p.len()
        } else {
            start + max
        };
        let piece = slice_chars(p, start, end);
        let ghost old_dv = chunks.deep_view();
        chunks.push(piece);
        proof {
            assert(chunks@.last().deep_view() =~= piece@);
            assert(chunks.deep_view() =~= old_dv.push(piece@));
            if rest.len() <= max {
                assert(piece@ =~= rest);
                assert(p@.subrange(end as int, p@.len() as int) =~= Seq::<char>::empty());
                assert(hard_split(rest, max as nat) == seq![rest]);
                assert(old_dv + seq![rest] =~= old_dv.push(piece@) + hard_split(Seq::<char>::empty(), max as nat));
            } else {
                assert(piece@ =~= rest.subrange(0, max as int));
                assert(rest.subrange(max as int, rest.len() as int) =~= p@.subrange(end as int, p@.len() as int));
                assert(old_dv + hard_split(rest, max as nat) =~= old_dv.push(piece@) + hard_split(p@.subrange(end as int, p@.len() as int), max as nat));
            }
        }
        start = end;
    }
    assert(p@.subrange(start as int, p@.len() as int) =~= Seq::<char>::empty());
    assert(chunks.deep_view() + Seq::<Seq<char>>::empty() =~= chunks.deep_view());
}

fn concat_chars(a: &Vec<char>, sep: &str, b: &Vec<char>) -> (r: Vec<char>)
    ensures
        r@ == a@ + sep@ + b@,
{
    let mut out = a.clone();
    assert(out@ =~= a@);
    push_str(&mut out, sep);
    push_all(&mut out, b.as_slice());
    out
}

/// Formats agent output for a platform and splits it into chunks: the
/// whole normalized text when it fits, else paragraphs packed greedily,
/// with every paragraph longer than the limit hard-split at the limit.
pub fn format_and_split_chars(text: &Vec<char>, platform: Platform) -> (r: Vec<Vec<char>>)
    ensures
        r.deep_view() == chunks_of(text@, platform),
{
    let normalized_text = normalize_markdown_chars(text);
    let max_chars = max_message_length(platform);
    let mut chunks: Vec<Vec<char>> = Vec::new();
    if normalized_text.len() == 0 {
        assert(chunks.deep_view() =~= chunks_of(text@, platform));
        return chunks;
    }
    if normalized_text.len() <= max_chars {
        let ghost nv = normalized_text@;
        chunks.push(normalized_text);
        assert(chunks@[0].deep_view() =~= nv);
        assert(chunks.deep_view() =~= chunks_of(text@, platform));
        return chunks;
    }
    let sep = chars_of("\n\n");
    proof {
        reveal_strlit("\n\n");
    }
    let paragraphs = split_by(&normalized_text, sep.as_slice());
    let ghost pv = paragraphs.deep_view();
    let mut current: Vec<char> = Vec::new();
    let mut i: usize = 0;
    assert(pv.subrange(0, 0) =~= Seq::<Seq<char>>::empty());
    while i < paragraphs.len()
        invariant
            pv == paragraphs.deep_view(),
            pv == split_seq(normalized(text@), "\n\n"@),
            max_chars == max_len(platform),
            max_chars > 0,
            i <= paragraphs@.len(),
            (chunks.deep_view(), current@) == split_state(pv.subrange(0, i as int), max_chars as nat),
        decreases paragraphs@.len() - i,
    {
        let paragraph = &paragraphs[i];
        assert(paragraph@ =~= pv[i as int]);
        assert(pv.subrange(0, i + 1).drop_last() =~= pv.subrange(0, i as int));
        let candidate = if current.len() == 0 {
            paragraph.clone()
        } else {
            concat_chars(&current, "\n\n", paragraph)
        };
        assert(candidate@ =~= (if current@.len() == 0 { paragraph@ } else { current@ + "\n\n"@ + paragraph@ }));
        if candidate.len() <= max_chars {
            current = candidate;
        } else if current.len() == 0 {
            push_hard_split(&mut chunks, paragraph, max_chars);
        } else {
            let ghost old_dv = chunks.deep_view();
            let ghost cv = current@;
            chunks.push(current);
            assert(chunks@.last().deep_view() =~= cv);
            assert(chunks.deep_view() =~= old_dv.push(cv));
            if paragraph.len() <= max_chars {
                current = paragraph.clone();
                assert(current@ =~= paragraph@);
            } else {
                current = Vec::new();
                push_hard_split(&mut chunks, paragraph, max_chars);
                assert(current@ =~= Seq::<char>::empty());
            }
        }
        i += 1;
    }
    assert(pv.subrange(0, i as int) =~= pv);
    if current.len() > 0 {
        let ghost old_dv = chunks.deep_view();
        let ghost cv = current@;
        chunks.push(current);
        assert(chunks@.last().deep_view() =~= cv);
        assert(chunks.deep_view() =~= old_dv.push(cv));
    }
    chunks
}

/// Formats agent output for a platform and splits it into message chunks,
/// each of one to `max_message_length(platform)` characters.
pub fn format_and_split(text: &str, platform: Platform) -> (r: Vec<String>)
    ensures
        r@.len() == chunks_of(text@, platform).len(),
        forall|i: int| 0 <= i < r@.len() ==> #[trigger] r@[i]@ == chunks_of(text@, platform)[i],
        forall|i: int| 0 <= i < r@.len() ==> 0 < #[trigger] r@[i]@.len() <= max_len(platform),
{
    proof {
        lemma_chunks_bounded(text@, platform);
    }
    let cs = chars_of(text);
    let chunks = format_and_split_chars(&cs, platform);
    let mut out: Vec<String> = Vec::new();
    let mut i: usize = 0;
    while i < chunks.len()
        invariant
            chunks.deep_view() == chunks_of(text@, platform),
            i <= chunks@.len(),
            out@.len() == i,
            forall|k: int| 0 <= k < i ==> #[trigger] out@[k]@ == chunks_of(text@, platform)[k],
        decreases chunks@.len() - i,
    {
        assert(chunks@[i as int]@ =~= chunks.deep_view()[i as int]);
        out.push(string_from_chars(chunks[i].as_slice()));
        i += 1;
    }
    out
}


/// Whether the item with id `id` is the current one.
pub open spec fn is_current(id: Seq<char>, current: Option<Seq<char>>) -> bool {
    match current {
        Some(c) => c == id,
        None => false,
    }
}

/// The text an optional string slice holds.
pub open spec fn str_view(o: Option<&str>) -> Option<Seq<char>> {
    match o {
        Some(c) => Some(c@),
        None => None,
    }
}

fn current_matches(id: &String, current: Option<&str>) -> (r: bool)
    ensures
        r == is_current(id@, str_view(current)),
{
    match current {
        Some(c) => crate::text::str_eq(id.as_str(), c),
        None => false,
    }
}

/// The list number of the item at index `i`.
pub open spec fn item_number(i: int) -> Seq<char> {
    decimal((i + 1) as nat)
}

/// One line of the workspace list.
pub open spec fn workspace_line(w: WorkspaceRecord, i: int, current: Option<Seq<char>>) -> Seq<char> {
    "  "@ + item_number(i) + ". "@ + w.name@ + (if w.is_default {
        " [默认]"@
    } else {
        ""@
    }) + (if is_current(w.id@, current) {
        " ★"@
    } else {
        ""@
    }) + " ("@ + w.display_path@ + ")\n"@
}

/// The lines of the first `n` workspaces.
pub open spec fn workspace_lines(ws: Seq<WorkspaceRecord>, current: Option<Seq<char>>, n: int) -> Seq<char>
    decreases n,
{
    if n <= 0 {
        Seq::empty()
    } else {
        workspace_lines(ws, current, n - 1) + workspace_line(ws[n - 1], n - 1, current)
    }
}

/// The workspace list as shown in chat.
pub open spec fn workspace_list_text(ws: Seq<WorkspaceRecord>, current: Option<Seq<char>>) -> Seq<char> {
    if ws.len() == 0 {
        "📁 暂无 workspace\n\n发送 /ws add <路径> 添加"@
    } else {
        "📁 Workspace 列表:\n"@ + workspace_lines(ws, current, ws.len() as int)
            + "\n回复编号切换，/ws add <路径> 添加新 workspace"@
    }
}

fn workspace_line_text(w: &WorkspaceRecord, i: usize, current: Option<&str>) -> (r: String)
    requires
        i < usize::MAX,
    ensures
        r@ == workspace_line(*w, i as int, str_view(current)),
{
    let mut out = String::from_str("  ");
    out.append(decimal_string((i + 1) as u64).as_str());
    out.append(". ");
    out.append(w.name.as_str());
    if w.is_default {
        out.append(" [默认]");
    }
    if current_matches(&w.id, current) {
        out.append(" ★");
    }
    out.append(" (");
    out.append(w.display_path.as_str());
    out.append(")\n");
    proof {
        reveal_strlit("");
    }
    out
}

/// Render a numbered workspace list for IM display.
pub fn render_workspace_list(workspaces: &[WorkspaceRecord], current_id: Option<&str>) -> (r: String)
    ensures
        r@ == workspace_list_text(workspaces@, str_view(current_id)),
{
    if workspaces.len() == 0 {
        return String::from_str("📁 暂无 workspace\n\n发送 /ws add <路径> 添加");
    }
    let mut out = String::from_str("📁 Workspace 列表:\n");
    let mut i: usize = 0;
    while i < workspaces.len()
        invariant
            i <= workspaces@.len(),
            out@ == "📁 Workspace 列表:\n"@ + workspace_lines(workspaces@, str_view(current_id), i as int),
        decreases workspaces@.len() - i,
    {
        let line = workspace_line_text(&workspaces[i], i, current_id);
        let ghost before = out@;
        out.append(line.as_str());
        proof {
            assert(out@ =~= before + workspace_line(workspaces@[i as int], i as int, str_view(current_id)));
        }
        i += 1;
    }
    out.append("\n回复编号切换，/ws add <路径> 添加新 workspace");
    out
}

/// The status tag shown after a thread's title.
pub open spec fn thread_status_tag(st: ThreadStatus) -> Seq<char> {
    match st {
        ThreadStatus::Running => " [运行中]"@,
        ThreadStatus::Failed => " [失败]"@,
        ThreadStatus::Interrupted => " [中断]"@,
        ThreadStatus::WaitingApproval => " [待审批]"@,
        ThreadStatus::NeedsReply => " [需回复]"@,
        _ => ""@,
    }
}

fn status_tag(st: ThreadStatus) -> (r: &'static str)
    ensures
        r@ == thread_status_tag(st),
{
    match st {
        ThreadStatus::Running => " [运行中]",
        ThreadStatus::Failed => " [失败]",
        ThreadStatus::Interrupted => " [中断]",
        ThreadStatus::WaitingApproval => " [待审批]",
        ThreadStatus::NeedsReply => " [需回复]",
        _ => "",
    }
}

/// A thread's title, or a placeholder when it has none.
pub open spec fn shown_title(title: Seq<char>) -> Seq<char> {
    if title.len() == 0 {
        "(无标题)"@
    } else {
        title
    }
}

/// One line of the thread list.
pub open spec fn thread_line(t: ThreadSummaryDto, i: int, current: Option<Seq<char>>) -> Seq<char> {
    "  "@ + item_number(i) + ". "@ + shown_title(t.title@) + thread_status_tag(t.status) + (
    if is_current(t.id@, current) {
        " ★"@
    } else {
        ""@
    }) + "\n"@
}

/// The lines of the first `n` threads.
pub open spec fn thread_lines(ts: Seq<ThreadSummaryDto>, current: Option<Seq<char>>, n: int) -> Seq<char>
    decreases n,
{
    if n <= 0 {
        Seq::empty()
    } else {
        thread_lines(ts, current, n - 1) + thread_line(ts[n - 1], n - 1, current)
    }
}

/// The thread list as shown in chat.
pub open spec fn thread_list_text(ts: Seq<ThreadSummaryDto>, current: Option<Seq<char>>) -> Seq<char> {
    if ts.len() == 0 {
        "💬 暂无会话\n\n发送 /new 创建新会话"@
    } else {
        "💬 会话列表:\n"@ + thread_lines(ts, current, ts.len() as int)
            + "\n回复编号进入会话，/new 创建新会话"@
    }
}

proof fn lemma_thread_lines_contain(ts: Seq<ThreadSummaryDto>, current: Option<Seq<char>>, n: int, i: int) -> (post: Seq<char>)
    requires
        0 <= i < n,
    ensures
        thread_lines(ts, current, n) == thread_lines(ts, current, i) + thread_line(ts[i], i, current) + post,
    decreases n,
{
    if n == i + 1 {
        assert(thread_lines(ts, current, n) =~= thread_lines(ts, current, i) + thread_line(ts[i], i, current)
            + Seq::<char>::empty());
        Seq::empty()
    } else {
        let p = lemma_thread_lines_contain(ts, current, n - 1, i);
        let post = p + thread_line(ts[n - 1], n - 1, current);
        assert(thread_lines(ts, current, n) =~= thread_lines(ts, current, i) + thread_line(ts[i], i, current)
            + post);
        post
    }
}

/// Every thread of a listed thread list has its own numbered line, and the
/// line shows its status: running `[运行中]`, failed `[失败]`, interrupted
/// `[中断]`, waiting for approval `[待审批]`, needing a reply `[需回复]`,
/// nothing for the others; the current thread is starred.
pub proof fn lemma_thread_list_shows_status(ts: Seq<ThreadSummaryDto>, current: Option<Seq<char>>, i: int) -> (around: (
    Seq<char>,
    Seq<char>,
))
    requires
        0 <= i < ts.len(),
    ensures
        ({
            let (pre, post) = around;
            let tag = match ts[i].status {
                ThreadStatus::Running => " [运行中]"@,
                ThreadStatus::Failed => " [失败]"@,
                ThreadStatus::Interrupted => " [中断]"@,
                ThreadStatus::WaitingApproval => " [待审批]"@,
                ThreadStatus::NeedsReply => " [需回复]"@,
                _ => ""@,
            };
            let star = if is_current(ts[i].id@, current) {
                " ★"@
            } else {
                ""@
            };
            thread_list_text(ts, current) == pre + ("  "@ + item_number(i) + ". "@ + shown_title(ts[i].title@) + tag
                + star + "\n"@) + post
        }),
{
    let p = lemma_thread_lines_contain(ts, current, ts.len() as int, i);
    let pre = "💬 会话列表:\n"@ + thread_lines(ts, current, i);
    let post = p + "\n回复编号进入会话，/new 创建新会话"@;
    let line = thread_line(ts[i], i, current);
    assert(thread_list_text(ts, current) =~= pre + line + post);
    (pre, post)
}

fn thread_line_text(t: &ThreadSummaryDto, i: usize, current: Option<&str>) -> (r: String)
    requires
        i < usize::MAX,
    ensures
        r@ == thread_line(*t, i as int, str_view(current)),
{
    let mut out = String::from_str("  ");
    out.append(decimal_string((i + 1) as u64).as_str());
    out.append(". ");
    if t.title.as_str().unicode_len() == 0 {
        out.append("(无标题)");
    } else {
        out.append(t.title.as_str());
    }
    out.append(status_tag(t.status));
    if current_matches(&t.id, current) {
        out.append(" ★");
    }
    out.append("\n");
    proof {
        reveal_strlit("");
    }
    out
}

/// Render a numbered thread list for IM display.
pub fn render_thread_list(threads: &[ThreadSummaryDto], current_id: Option<&str>) -> (r: String)
    ensures
        r@ == thread_list_text(threads@, str_view(current_id)),
{
    if threads.len() == 0 {
        return String::from_str("💬 暂无会话\n\n发送 /new 创建新会话");
    }
    let mut out = String::from_str("💬 会话列表:\n");
    let mut i: usize = 0;
    while i < threads.len()
        invariant
            i <= threads@.len(),
            out@ == "💬 会话列表:\n"@ + thread_lines(threads@, str_view(current_id), i as int),
        decreases threads@.len() - i,
    {
        let line = thread_line_text(&threads[i], i, current_id);
        let ghost before = out@;
        out.append(line.as_str());
        proof {
            assert(out@ =~= before + thread_line(threads@[i as int], i as int, str_view(current_id)));
        }
        i += 1;
    }
    out.append("\n回复编号进入会话，/new 创建新会话");
    out
}

/// The primary-model note shown after a profile's name.
pub open spec fn model_note(model: Option<String>) -> Seq<char> {
    match model {
        Some(id) => if id@.len() > 0 {
            " ("@ + id@ + ")"@
        } else {
            ""@
        },
        None => ""@,
    }
}

/// One line of the profile list.
pub open spec fn profile_line(p: AgentProfileRecord, i: int, current: Option<Seq<char>>) -> Seq<char> {
    "  "@ + item_number(i) + ". "@ + p.name@ + model_note(p.primary_model_id) + (if p.is_default {
        " [默认]"@
    } else {
        ""@
    }) + (if is_current(p.id@, current) {
        " ★"@
    } else {
        ""@
    }) + "\n"@
}

/// The lines of the first `n` profiles.
pub open spec fn profile_lines(ps: Seq<AgentProfileRecord>, current: Option<Seq<char>>, n: int) -> Seq<char>
    decreases n,
{
    if n <= 0 {
        Seq::empty()
    } else {
        profile_lines(ps, current, n - 1) + profile_line(ps[n - 1], n - 1, current)
    }
}

/// The profile list as shown in chat.
pub open spec fn profile_list_text(ps: Seq<AgentProfileRecord>, current: Option<Seq<char>>) -> Seq<char> {
    if ps.len() == 0 {
        "🔧 暂无 Profile\n\n请在 TiyCode 设置中配置"@
    } else {
        "🔧 Profile 列表:\n"@ + profile_lines(ps, current, ps.len() as int)
            + "\n/profile <编号> 切换当前会话的 Profile"@
    }
}

fn profile_line_text(p: &AgentProfileRecord, i: usize, current: Option<&str>) -> (r: String)
    requires
        i < usize::MAX,
    ensures
        r@ == profile_line(*p, i as int, str_view(current)),
{
    let mut out = String::from_str("  ");
    out.append(decimal_string((i + 1) as u64).as_str());
    out.append(". ");
    out.append(p.name.as_str());
    match &p.primary_model_id {
        Some(id) => if id.as_str().unicode_len() > 0 {
            out.append(" (");
            out.append(id.as_str());
            out.append(")");
        },
        None => {},
    }
    if p.is_default {
        out.append(" [默认]");
    }
    if current_matches(&p.id, current) {
        out.append(" ★");
    }
    out.append("\n");
    proof {
        reveal_strlit("");
    }
    out
}

/// Render a numbered profile list for IM display.
pub fn render_profile_list(profiles: &[AgentProfileRecord], current_profile_id: Option<&str>) -> (r:
    String)
    ensures
        r@ == profile_list_text(profiles@, str_view(current_profile_id)),
{
    if profiles.len() == 0 {
        return String::from_str("🔧 暂无 Profile\n\n请在 TiyCode 设置中配置");
    }
    let mut out = String::from_str("🔧 Profile 列表:\n");
    let mut i: usize = 0;
    while i < profiles.len()
        invariant
            i <= profiles@.len(),
            out@ == "🔧 Profile 列表:\n"@ + profile_lines(profiles@, str_view(current_profile_id), i as int),
        decreases profiles@.len() - i,
    {
        let line = profile_line_text(&profiles[i], i, current_profile_id);
        let ghost before = out@;
        out.append(line.as_str());
        i += 1;
    }
    out.append("\n/profile <编号> 切换当前会话的 Profile");
    out
}


/// The pieces a platform adapter sends a reply in: the formatted chunks
/// when the text is longer than `max_bytes` bytes, else the text itself.
/// Each piece after the first is sent as a reply to the one before.
pub fn outgoing_chunks(text: &str, max_bytes: usize, platform: Platform) -> (r: Vec<String>)
    ensures
        vstd::utf8::encode_utf8(text@).len() > max_bytes ==> r@.len() == chunks_of(text@, platform).len() && forall|
            i: int,
        | 0 <= i < r@.len() ==> #[trigger] r@[i]@ == chunks_of(text@, platform)[i],
        vstd::utf8::encode_utf8(text@).len() <= max_bytes ==> r@.len() == 1 && r@[0]@ == text@,
{
    if text.as_bytes().len() > max_bytes {
        format_and_split(text, platform)
    } else {
        let mut v: Vec<String> = Vec::new();
        v.push(String::from_str(text));
        v
    }
}

} // verus!
