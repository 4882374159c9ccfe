//! Positional error reports.
//!
//! A [`Diagnostic`] records where in a guest source text a failure happened,
//! how the failure is classified, and a message.  The offset is a character
//! position; [`line_col`] derives the 0-based line and column that the
//! report printer turns into the 1-based pair shown to the user.

use vstd::prelude::*;

verus! {

/// How a guest-side failure is classified.
///
/// `ParseError` is malformed source, `TypeError` a wrong native value at a
/// bridge call, `RuntimeException` a guest-raised error during execution,
/// and `InternalFault` a host-level fault caught at the fault boundary.
#[derive(Clone, Copy, PartialEq, Eq, Structural, Debug)]
pub enum FaultKind {
    ParseError,
    TypeError,
    RuntimeException,
    InternalFault,
}

impl FaultKind {
    /// The category string a report prints for this kind.
    pub open spec fn spec_label(self) -> Seq<char> {
        match self {
            FaultKind::ParseError => "ParseError"@,
            FaultKind::TypeError => "TypeError"@,
            FaultKind::RuntimeException => "RuntimeException"@,
            FaultKind::InternalFault => "InternalFault"@,
        }
    }

    pub fn label(&self) -> (r: &'static str)
        ensures
            r@ == self.spec_label(),
    {
        match self {
            FaultKind::ParseError => "ParseError",
            FaultKind::TypeError => "TypeError",
            FaultKind::RuntimeException => "RuntimeException",
            FaultKind::InternalFault => "InternalFault",
        }
    }
}

/// A positional error report: a character offset into one source text, the
/// failure's classification, and a message.  Immutable once constructed.
#[derive(Debug)]
pub struct Diagnostic {
    pub offset: usize,
    pub kind: FaultKind,
    pub message: String,
}

/// Number of line breaks among the first `k` characters of `s`: the 0-based
/// line on which character `k` stands.
pub open spec fn line_of(s: Seq<char>, k: int) -> int
    decreases k,
{
    if k <= 0 {
        0
    } else if s[k - 1] == '\n' {
        line_of(s, k - 1) + 1
    } else {
        line_of(s, k - 1)
    }
}

/// Number of characters between the last line break before position `k` and
/// `k` itself: the 0-based column of character `k`.
pub open spec fn col_of(s: Seq<char>, k: int) -> int
    decreases k,
{
    if k <= 0 {
        0
    } else if s[k - 1] == '\n' {
        0
    } else {
        col_of(s, k - 1) + 1
    }
}

/// Scans `input` once from the start, counting line breaks, and returns the
/// 0-based line and column of the character position `offset`.
pub fn line_col(input: &str, offset: usize) -> (r: (usize, usize))
    requires
        offset <= input@.len(),
    ensures
        r.0 == line_of(input@, offset as int),
        r.1 == col_of(input@, offset as int),
{
    let mut i: usize = 0;
    let mut line: usize = 0;
    let mut col: usize = 0;
    while i < offset
        invariant
            i <= offset,
            offset <= input@.len(),
            line == line_of(input@, i as int),
            col == col_of(input@, i as int),
            line <= i,
            col <= i,
        decreases offset - i,
    {
        let c = input.get_char(i);
        if c == '\n' {
            line = line + 1;
            col = 0;
        } else {
            col = col + 1;
        }
        i = i + 1;
    }
    (line, col)
}

/// Position of the first line break at or after position `i`, or the length
/// of `s` when the rest of the text is free of line breaks: where the line
/// holding position `i` ends.
pub open spec fn line_end_from(s: Seq<char>, i: int) -> int
    decreases s.len() - i,
{
    if i >= s.len() {
        s.len() as int
    } else if s[i] == '\n' {
        i
    } else {
        line_end_from(s, i + 1)
    }
}

/// Position of the first character of the line holding position `k`.
pub open spec fn line_start(s: Seq<char>, k: int) -> int {
    k - col_of(s, k)
}

/// The full text of the line holding position `k`, without its line break.
pub open spec fn cur_line(s: Seq<char>, k: int) -> Seq<char> {
    s.subrange(line_start(s, k), line_end_from(s, k))
}

pub proof fn lemma_col_le(s: Seq<char>, k: int)
    requires
        0 <= k,
    ensures
        0 <= col_of(s, k) <= k,
        0 <= line_of(s, k) <= k,
    decreases k,
{
    if k > 0 {
        lemma_col_le(s, k - 1);
    }
}

pub proof fn lemma_line_end_bounds(s: Seq<char>, i: int)
    requires
        0 <= i <= s.len(),
    ensures
        i <= line_end_from(s, i) <= s.len(),
    decreases s.len() - i,
{
    if i < s.len() && s[i] != '\n' {
        lemma_line_end_bounds(s, i + 1);
    }
}

/// The characters between the start of the line holding `k` and `k` itself
/// hold no line break.
pub proof fn lemma_no_newline_on_line(s: Seq<char>, k: int)
    requires
        0 <= k,
    ensures
        forall|j: int| line_start(s, k) <= j < k ==> s[j] != '\n',
    decreases k,
{
    if k > 0 {
        lemma_no_newline_on_line(s, k - 1);
        lemma_col_le(s, k - 1);
    }
}

/// A line free of line breaks from `i` to `k` ends at or after `k`.
proof fn lemma_line_end_skips(s: Seq<char>, i: int, k: int)
    requires
        0 <= i <= k <= s.len(),
        forall|j: int| i <= j < k ==> s[j] != '\n',
    ensures
        line_end_from(s, i) == line_end_from(s, k),
    decreases k - i,
{
    if i < k {
        lemma_line_end_skips(s, i + 1, k);
    }
}

/// Counting line breaks never goes down as the position advances.
pub proof fn lemma_line_monotone(s: Seq<char>, j: int, k: int)
    requires
        0 <= j <= k,
    ensures
        line_of(s, j) <= line_of(s, k),
    decreases k,
{
    if j < k {
        lemma_line_monotone(s, j, k - 1);
    }
}

/// The character for a single decimal digit.
pub open spec fn digit_char(d: int) -> char {
    if d == 0 {
        '0'
    } else if d == 1 {
        '1'
    } else if d == 2 {
        '2'
    } else if d == 3 {
        '3'
    } else if d == 4 {
        '4'
    } else if d == 5 {
        '5'
    } else if d == 6 {
        '6'
    } else if d == 7 {
        '7'
    } else if d == 8 {
        '8'
    } else {
        '9'
    }
}

/// The decimal rendering of `n`, most significant digit first.
pub open spec fn dec_seq(n: int) -> Seq<char>
    decreases n,
{
    if n < 10 {
        seq![digit_char(n)]
    } else {
        dec_seq(n / 10).push(digit_char(n % 10))
    }
}

fn digit_str(d: usize) -> (r: &'static str)
    requires
        d < 10,
    ensures
        r@ == seq![digit_char(d as int)],
{
    if d == 0 {
        proof {
            reveal_strlit("0");
            assert("0"@ =~= seq![digit_char(0)]);
        }
        "0"
    } else if d == 1 {
        proof {
            reveal_strlit("1");
            assert("1"@ =~= seq![digit_char(1)]);
        }
        "1"
    } else if d == 2 {
        proof {
            reveal_strlit("2");
            assert("2"@ =~= seq![digit_char(2)]);
        }
        "2"
    } else if d == 3 {
        proof {
            reveal_strlit("3");
            assert("3"@ =~= seq![digit_char(3)]);
        }
        "3"
    } else if d == 4 {
        proof {
            reveal_strlit("4");
            assert("4"@ =~= seq![digit_char(4)]);
        }
        "4"
    } else if d == 5 {
        proof {
            reveal_strlit("5");
            assert("5"@ =~= seq![digit_char(5)]);
        }
        "5"
    } else if d == 6 {
        proof {
            reveal_strlit("6");
            assert("6"@ =~= seq![digit_char(6)]);
        }
        "6"
    } else if d == 7 {
        proof {
            reveal_strlit("7");
            assert("7"@ =~= seq![digit_char(7)]);
        }
        "7"
    } else if d == 8 {
        proof {
            reveal_strlit("8");
            assert("8"@ =~= seq![digit_char(8)]);
        }
        "8"
    } else {
        proof {
            reveal_strlit("9");
            assert("9"@ =~= seq![digit_char(9)]);
        }
        "9"
    }
}

/// Renders `n` in decimal.
pub fn decimal(n: usize) -> (r: String)
    ensures
        r@ == dec_seq(n as int),
    decreases n,
{
    if n < 10 {
        String::from_str(digit_str(n))
    } else {
        let mut s = decimal(n / 10);
        s.append(digit_str(n % 10));
        proof {
            assert(s@ =~= dec_seq(n as int));
        }
        s
    }
}

/// `n` copies of the character `c`.
pub open spec fn repeated(c: char, n: nat) -> Seq<char>
    decreases n,
{
    if n == 0 {
        Seq::empty()
    } else {
        repeated(c, (n - 1) as nat).push(c)
    }
}

/// Appends `n` copies of the one-character piece to `s`.
fn append_repeat(s: &mut String, piece: &str, n: usize)
    requires
        piece@.len() == 1,
    ensures
        final(s)@ == old(s)@ + repeated(piece@[0], n as nat),
{
    let mut i: usize = 0;
    proof {
        assert(s@ =~= old(s)@ + repeated(piece@[0], 0));
    }
    while i < n
        invariant
            i <= n,
            piece@.len() == 1,
            s@ == old(s)@ + repeated(piece@[0], i as nat),
        decreases n - i,
    {
        s.append(piece);
        i = i + 1;
        proof {
            assert(s@ =~= old(s)@ + repeated(piece@[0], i as nat));
        }
    }
}

/// A diagnostic whose offset lies inside the source maps to a position
/// inside that source: the 1-based line is at most the number of lines of
/// the text, and the 1-based column points into the offending line or just
/// past its end.
pub proof fn lemma_report_position_in_source(s: Seq<char>, k: int)
    requires
        0 <= k <= s.len(),
    ensures
        1 <= line_of(s, k) + 1 <= line_of(s, s.len() as int) + 1,
        1 <= col_of(s, k) + 1 <= cur_line(s, k).len() + 1,
{
    lemma_col_le(s, k);
    lemma_line_monotone(s, k, s.len() as int);
    lemma_no_newline_on_line(s, k);
    lemma_line_end_skips(s, line_start(s, k), k);
    lemma_line_end_bounds(s, k);
}

/// Second line of a report: the offending source line in quotes, annotated
/// with its 1-based line and column.
pub open spec fn spec_quoted_line(s: Seq<char>, k: int) -> Seq<char> {
    "      \""@ + cur_line(s, k) + "\"     at line "@ + dec_seq(line_of(s, k) + 1) + ", col "@
        + dec_seq(col_of(s, k) + 1)
}

/// Third line of a report: a caret under the offending column, annotated
/// with the failure's category.
pub open spec fn spec_caret_line(s: Seq<char>, k: int, kind: FaultKind) -> Seq<char> {
    "      "@ + repeated(' ', col_of(s, k) as nat) + "^      "@ + kind.spec_label()
}

/// Fourth line of a report: the message.
pub open spec fn spec_message_line(message: Seq<char>) -> Seq<char> {
    "ERROR: "@ + message
}

/// The horizontal rule opening and closing a report; its length is derived
/// from the message line (cosmetic only).
pub open spec fn spec_rule(message: Seq<char>) -> Seq<char> {
    repeated('-', (spec_message_line(message).len() / 2) as nat)
}

/// The whole five-line report for a diagnostic at position `k` of `s`.
pub open spec fn spec_report(s: Seq<char>, k: int, kind: FaultKind, message: Seq<char>) -> Seq<
    char,
> {
    spec_rule(message) + "\n"@ + spec_quoted_line(s, k) + "\n"@ + spec_caret_line(s, k, kind)
        + "\n"@ + spec_message_line(message) + "\n"@ + spec_rule(message)
}

/// Renders the five-line report for `exception`: a horizontal rule, the
/// offending source line with its 1-based line and column, a caret pointing
/// at the column with the failure's category, the message, and a closing
/// rule.  One scan of `input` translates the stored character offset into
/// the line/column pair.
pub fn errfmt(exception: &Diagnostic, input: &String) -> (r: String)
    requires
        exception.offset <= input@.len(),
        input@.len() < usize::MAX,
    ensures
        r@ == spec_report(input@, exception.offset as int, exception.kind, exception.message@),
{
    let offset = exception.offset;
    let (line, col) = line_col(input.as_str(), offset);
    proof {
        lemma_col_le(input@, offset as int);
    }
    let len = input.as_str().unicode_len();
    let mut end: usize = offset;
    while end < len && input.as_str().get_char(end) != '\n'
        invariant
            offset <= end <= len,
            len == input@.len(),
            line_end_from(input@, end as int) == line_end_from(input@, offset as int),
        decreases len - end,
    {
        end = end + 1;
    }
    proof {
        assert(line_end_from(input@, end as int) == end);
    }
    let start = offset - col;
    proof {
        lemma_no_newline_on_line(input@, offset as int);
        lemma_line_end_skips(input@, start as int, offset as int);
        lemma_line_end_bounds(input@, offset as int);
    }
    let theline = input.as_str().substring_char(start, end);

    let mut msgline = String::from_str("ERROR: ");
    msgline.append(exception.message.as_str());
    let halflen = msgline.as_str().unicode_len() / 2;

    let mut out = String::new();
    proof {
        reveal_strlit("-");
        reveal_strlit(" ");
    }
    append_repeat(&mut out, "-", halflen);
    out.append("\n");
    out.append("      \"");
    out.append(theline);
    out.append("\"     at line ");
    let linenum = decimal(line + 1);
    out.append(linenum.as_str());
    out.append(", col ");
    let colnum = decimal(col + 1);
    out.append(colnum.as_str());
    out.append("\n");
    out.append("      ");
    append_repeat(&mut out, " ", col);
    out.append("^      ");
    out.append(exception.kind.label());
    out.append("\n");
    out.append(msgline.as_str());
    out.append("\n");
    append_repeat(&mut out, "-", halflen);
    proof {
        assert(out@ =~= spec_report(
            input@,
            exception.offset as int,
            exception.kind,
            exception.message@,
        ));
    }
    out
}

} // verus!
