//! Character-level building blocks of the status grammar: character classes,
//! runs of characters, lines, trimming, whitespace-separated fields and
//! signed decimal numbers.
//!
//! Every executable function works on a slice of characters and is specified
//! by a function on `Seq<char>` of the same meaning.

use vstd::prelude::*;

verus! {

broadcast use vstd::string::group_string_axioms;

/// Whether `c` is white space: one of the code points that carry the Unicode
/// property `White_Space`.
pub open spec fn whitespace(c: char) -> bool {
    ||| '\u{9}' <= c <= '\u{d}'
    ||| c == ' '
    ||| c == '\u{85}'
    ||| c == '\u{a0}'
    ||| c == '\u{1680}'
    ||| '\u{2000}' <= c <= '\u{200a}'
    ||| c == '\u{2028}'
    ||| c == '\u{2029}'
    ||| c == '\u{202f}'
    ||| c == '\u{205f}'
    ||| c == '\u{3000}'
}

/// Executable form of [`whitespace`].
pub fn is_whitespace(c: char) -> (r: bool)
    ensures
        r == whitespace(c),
{
    ('\u{9}' <= c && c <= '\u{d}') || c == ' ' || c == '\u{85}' || c == '\u{a0}' || c
        == '\u{1680}' || ('\u{2000}' <= c && c <= '\u{200a}') || c == '\u{2028}' || c
        == '\u{2029}' || c == '\u{202f}' || c == '\u{205f}' || c == '\u{3000}'
}

/// The classes of characters that delimit the pieces of a status text.
#[derive(Clone, Copy, Debug, PartialEq, Eq)]
pub enum CharClass {
    /// White space, which separates fields and surrounds lines.
    Blank,
    /// Everything that is not white space: the characters of a field.
    Word,
    /// Everything but the line feed: the characters of a line.
    LineBody,
}

impl CharClass {
    /// Whether `c` belongs to the class.
    pub open spec fn holds(self, c: char) -> bool {
        match self {
            CharClass::Blank => whitespace(c),
            CharClass::Word => !whitespace(c),
            CharClass::LineBody => c != '\n',
        }
    }

    /// Executable form of [`CharClass::holds`].
    pub fn contains(self, c: char) -> (r: bool)
        ensures
            r == self.holds(c),
    {
        match self {
            CharClass::Blank => is_whitespace(c),
            CharClass::Word => !is_whitespace(c),
            CharClass::LineBody => c != '\n',
        }
    }
}

/// Length of the longest prefix of `s` made of characters of `class`.
pub open spec fn leading_run(s: Seq<char>, class: CharClass) -> nat
    decreases s.len(),
{
    if s.len() > 0 && class.holds(s[0]) {
        1 + leading_run(s.drop_first(), class)
    } else {
        0
    }
}

/// Length of the longest suffix of `s` made of characters of `class`.
pub open spec fn trailing_run(s: Seq<char>, class: CharClass) -> nat
    decreases s.len(),
{
    if s.len() > 0 && class.holds(s.last()) {
        1 + trailing_run(s.drop_last(), class)
    } else {
        0
    }
}

/// A leading run is a prefix of class characters that is followed by the end
/// of the sequence or by a character outside the class.
pub proof fn lemma_leading_run(s: Seq<char>, class: CharClass)
    ensures
        leading_run(s, class) <= s.len(),
        forall|i: int| 0 <= i < leading_run(s, class) ==> class.holds(#[trigger] s[i]),
        leading_run(s, class) < s.len() ==> !class.holds(s[leading_run(s, class) as int]),
    decreases s.len(),
{
    if s.len() > 0 && class.holds(s[0]) {
        let rest = s.drop_first();
        lemma_leading_run(rest, class);
        assert forall|i: int| 0 <= i < leading_run(s, class) implies class.holds(
            #[trigger] s[i],
        ) by {
            if i > 0 {
                assert(s[i] == rest[i - 1]);
            }
        }
        if leading_run(s, class) < s.len() {
            assert(s[leading_run(s, class) as int] == rest[leading_run(rest, class) as int]);
        }
    }
}

/// The only length that is a prefix of class characters and ends at the end
/// of the sequence or before a character outside the class is the leading run.
pub proof fn lemma_leading_run_is(s: Seq<char>, class: CharClass, n: int)
    requires
        0 <= n <= s.len(),
        forall|i: int| 0 <= i < n ==> class.holds(#[trigger] s[i]),
        n < s.len() ==> !class.holds(s[n]),
    ensures
        leading_run(s, class) == n,
    decreases n,
{
    if n > 0 {
        let rest = s.drop_first();
        assert forall|i: int| 0 <= i < n - 1 implies class.holds(#[trigger] rest[i]) by {
            assert(rest[i] == s[i + 1]);
        }
        lemma_leading_run_is(rest, class, n - 1);
    }
}

/// The only length that is a suffix of class characters and starts at the
/// start of the sequence or after a character outside the class is the
/// trailing run.
pub proof fn lemma_trailing_run_is(s: Seq<char>, class: CharClass, n: int)
    requires
        0 <= n <= s.len(),
        forall|i: int| s.len() - n <= i < s.len() ==> class.holds(#[trigger] s[i]),
        n < s.len() ==> !class.holds(s[s.len() - n - 1]),
    ensures
        trailing_run(s, class) == n,
    decreases n,
{
    if n > 0 {
        let rest = s.drop_last();
        assert forall|i: int| rest.len() - (n - 1) <= i < rest.len() implies class.holds(
            #[trigger] rest[i],
        ) by {
            assert(rest[i] == s[i]);
        }
        lemma_trailing_run_is(rest, class, n - 1);
    }
}

/// Scans forward from `from` over the characters of `class`, no further than
/// `to`, and returns where the run ends.
pub fn run_end(s: &[char], from: usize, to: usize, class: CharClass) -> (end: usize)
    requires
        from <= to <= s@.len(),
    ensures
        from <= end <= to,
        end == from + leading_run(s@.subrange(from as int, to as int), class),
{
    let mut end: usize = from;
    while end < to && class.contains(s[end])
        invariant
            from <= end <= to <= s@.len(),
            forall|i: int| from <= i < end ==> class.holds(#[trigger] s@[i]),
        decreases to - end,
    {
        end += 1;
    }
    proof {
        let window = s@.subrange(from as int, to as int);
        assert forall|i: int| 0 <= i < end - from implies class.holds(#[trigger] window[i]) by {
            assert(window[i] == s@[from + i]);
        }
        lemma_leading_run_is(window, class, end - from);
    }
    end
}

/// Scans backward from `to` over the characters of `class`, no further than
/// `from`, and returns where the run starts.
pub fn run_start(s: &[char], from: usize, to: usize, class: CharClass) -> (start: usize)
    requires
        from <= to <= s@.len(),
    ensures
        from <= start <= to,
        start == to - trailing_run(s@.subrange(from as int, to as int), class),
{
    let mut start: usize = to;
    while start > from && class.contains(s[start - 1])
        invariant
            from <= start <= to <= s@.len(),
            forall|i: int| start <= i < to ==> class.holds(#[trigger] s@[i]),
        decreases start - from,
    {
        start -= 1;
    }
    proof {
        let window = s@.subrange(from as int, to as int);
        assert forall|i: int| window.len() - (to - start) <= i < window.len() implies class.holds(
            #[trigger] window[i],
        ) by {
            assert(window[i] == s@[from + i]);
        }
        lemma_trailing_run_is(window, class, to - start);
    }
    start
}

/// The view of each element of `items`.
pub open spec fn views<T: View>(items: Seq<T>) -> Seq<T::V> {
    items.map_values(|item: T| item@)
}

/// `s` without its leading and trailing white space.
pub open spec fn trim(s: Seq<char>) -> Seq<char> {
    let rest = s.skip(leading_run(s, CharClass::Blank) as int);
    rest.take(rest.len() - trailing_run(rest, CharClass::Blank))
}

/// The bounds of `s[from..to]` once its leading and trailing white space is
/// left out.
pub fn trim_bounds(s: &[char], from: usize, to: usize) -> (bounds: (usize, usize))
    requires
        from <= to <= s@.len(),
    ensures
        from <= bounds.0 <= bounds.1 <= to,
        s@.subrange(bounds.0 as int, bounds.1 as int) == trim(s@.subrange(from as int, to as int)),
{
    let start = run_end(s, from, to, CharClass::Blank);
    let end = run_start(s, start, to, CharClass::Blank);
    proof {
        let window = s@.subrange(from as int, to as int);
        let rest = window.skip(start - from);
        assert(rest =~= s@.subrange(start as int, to as int));
        assert(rest.take(end - start) =~= s@.subrange(start as int, end as int));
    }
    (start, end)
}

/// The lines of `text`: the pieces that line feeds end. The last line needs
/// no line feed, and a text that ends in one has no empty line after it.
pub open spec fn lines(text: Seq<char>) -> Seq<Seq<char>>
    decreases text.len(),
{
    let n = leading_run(text, CharClass::LineBody) as int;
    if text.len() == 0 {
        seq![]
    } else if n >= text.len() {
        seq![text]
    } else {
        seq![text.take(n)] + lines(text.skip(n + 1))
    }
}

/// The lines of `text`, each trimmed. A carriage return before a line feed is
/// white space at the end of its line, so it is trimmed away with the rest.
pub open spec fn trimmed_lines(text: Seq<char>) -> Seq<Seq<char>> {
    lines(text).map_values(|line: Seq<char>| trim(line))
}

/// The trimmed lines of a text are its trimmed first line, which ends at the
/// first line feed or with the text, and the trimmed lines of what follows
/// that line feed.
pub proof fn lemma_trimmed_lines_step(text: Seq<char>)
    ensures
        ({
            let n = leading_run(text, CharClass::LineBody) as int;
            &&& 0 <= n <= text.len()
            &&& trimmed_lines(text) == if text.len() == 0 {
                seq![]
            } else if n >= text.len() {
                seq![trim(text)]
            } else {
                seq![trim(text.take(n))] + trimmed_lines(text.skip(n + 1))
            }
        }),
{
    let n = leading_run(text, CharClass::LineBody) as int;
    lemma_leading_run(text, CharClass::LineBody);
    if text.len() == 0 {
        assert(trimmed_lines(text) =~= seq![]);
    } else if n >= text.len() {
        assert(trimmed_lines(text) =~= seq![trim(text)]);
    } else {
        assert(trimmed_lines(text) =~= seq![trim(text.take(n))] + trimmed_lines(
            text.skip(n + 1),
        ));
    }
}

/// Splits `text` into its lines and trims each.
pub fn split_trimmed_lines(text: &[char]) -> (out: Vec<Vec<char>>)
    ensures
        views(out@) == trimmed_lines(text@),
{
    let mut out: Vec<Vec<char>> = Vec::new();
    let mut pos: usize = 0;
    proof {
        assert(text@.skip(0) =~= text@);
        assert(views(out@) + trimmed_lines(text@.skip(0)) =~= trimmed_lines(text@));
    }
    while pos < text.len()
        invariant
            pos <= text@.len(),
            views(out@) + trimmed_lines(text@.skip(pos as int)) == trimmed_lines(text@),
        decreases text@.len() - pos,
    {
        let end = run_end(text, pos, text.len(), CharClass::LineBody);
        let (start, stop) = trim_bounds(text, pos, end);
        let line = copy_range(text, start, stop);
        proof {
            let tail = text@.skip(pos as int);
            lemma_trimmed_lines_step(tail);
            assert(tail =~= text@.subrange(pos as int, text@.len() as int));
            assert(tail.take(end - pos) =~= text@.subrange(pos as int, end as int));
            if end < text@.len() {
                assert(tail.skip(end - pos + 1) =~= text@.skip(end + 1));
            } else {
                assert(tail =~= text@.subrange(pos as int, end as int));
                lemma_trimmed_lines_step(text@.skip(end as int));
            }
            assert(views(out@.push(line)) =~= views(out@) + seq![line@]);
        }
        out.push(line);
        pos = if end < text.len() {
            end + 1
        } else {
            end
        };
    }
    proof {
        lemma_trimmed_lines_step(text@.skip(pos as int));
    }
    out
}

/// Where the first field of `s` lies: after the leading white space, and, if
/// anything is left there, over at least one character.
pub proof fn lemma_first_field_bounds(s: Seq<char>)
    ensures
        ({
            let start = leading_run(s, CharClass::Blank) as int;
            let end = start + leading_run(s.skip(start), CharClass::Word);
            &&& 0 <= start <= end <= s.len()
            &&& start < s.len() ==> start < end
        }),
{
    let start = leading_run(s, CharClass::Blank) as int;
    lemma_leading_run(s, CharClass::Blank);
    let rest = s.skip(start);
    lemma_leading_run(rest, CharClass::Word);
    if start < s.len() {
        assert(rest[0] == s[start]);
    }
}

/// The fields of `s`: its maximal runs of characters that are not white space,
/// in order.
pub open spec fn fields(s: Seq<char>) -> Seq<Seq<char>>
    decreases s.len(),
{
    let start = leading_run(s, CharClass::Blank) as int;
    let end = start + leading_run(s.skip(start), CharClass::Word);
    if start < s.len() {
        proof {
            lemma_first_field_bounds(s);
        }
        seq![s.subrange(start, end)] + fields(s.skip(end))
    } else {
        seq![]
    }
}

/// Every field is a word: it is not empty and holds no white space.
pub proof fn lemma_fields_are_words(s: Seq<char>)
    ensures
        forall|k: int, i: int|
            0 <= k < fields(s).len() && 0 <= i < fields(s)[k].len() ==> !whitespace(
                #[trigger] fields(s)[k][i],
            ),
        forall|k: int| 0 <= k < fields(s).len() ==> (#[trigger] fields(s)[k]).len() > 0,
    decreases s.len(),
{
    let start = leading_run(s, CharClass::Blank) as int;
    let end = start + leading_run(s.skip(start), CharClass::Word);
    if start < s.len() {
        lemma_first_field_bounds(s);
        lemma_leading_run(s.skip(start), CharClass::Word);
        lemma_fields_are_words(s.skip(end));
        let first = s.subrange(start, end);
        let rest = fields(s.skip(end));
        assert forall|i: int| 0 <= i < first.len() implies !whitespace(#[trigger] first[i]) by {
            assert(first[i] == s.skip(start)[i]);
        }
        assert forall|k: int, i: int|
            0 <= k < fields(s).len() && 0 <= i < fields(s)[k].len() implies !whitespace(
            #[trigger] fields(s)[k][i],
        ) by {
            if k > 0 {
                assert(fields(s)[k] == rest[k - 1]);
            }
        }
        assert forall|k: int| 0 <= k < fields(s).len() implies (#[trigger] fields(s)[k]).len()
            > 0 by {
            if k > 0 {
                assert(fields(s)[k] == rest[k - 1]);
            }
        }
    }
}

/// Splits `line` into its fields.
pub fn split_fields(line: &[char]) -> (out: Vec<Vec<char>>)
    ensures
        views(out@) == fields(line@),
{
    let mut out: Vec<Vec<char>> = Vec::new();
    let mut pos: usize = 0;
    proof {
        assert(line@.skip(0) =~= line@);
        assert(views(out@) + fields(line@.skip(0)) =~= fields(line@));
    }
    loop
        invariant_except_break
            pos <= line@.len(),
            views(out@) + fields(line@.skip(pos as int)) == fields(line@),
        ensures
            views(out@) == fields(line@),
        decreases line@.len() - pos,
    {
        let start = run_end(line, pos, line.len(), CharClass::Blank);
        proof {
            let tail = line@.skip(pos as int);
            lemma_first_field_bounds(tail);
            assert(tail =~= line@.subrange(pos as int, line@.len() as int));
            assert(tail.skip(start - pos) =~= line@.subrange(start as int, line@.len() as int));
        }
        if start >= line.len() {
            proof {
                assert(views(out@) + seq![] =~= views(out@));
            }
            break ;
        }
        let end = run_end(line, start, line.len(), CharClass::Word);
        let field = copy_range(line, start, end);
        proof {
            let tail = line@.skip(pos as int);
            assert(tail.subrange(start - pos, end - pos) =~= field@);
            assert(tail.skip(end - pos) =~= line@.skip(end as int));
            assert(views(out@.push(field)) =~= views(out@) + seq![field@]);
        }
        out.push(field);
        pos = end;
    }
    out
}

/// Whether `c` is one of the decimal digits `0` to `9`.
pub open spec fn is_digit(c: char) -> bool {
    '0' <= c <= '9'
}

/// The number that the decimal digit `c` stands for.
pub open spec fn digit_value(c: char) -> int {
    c as int - '0' as int
}

/// Whether `s` holds decimal digits only.
pub open spec fn all_digits(s: Seq<char>) -> bool {
    forall|i: int| 0 <= i < s.len() ==> is_digit(#[trigger] s[i])
}

/// The number that the decimal digits `digits` write, most significant first.
pub open spec fn decimal_value(digits: Seq<char>) -> int
    decreases digits.len(),
{
    if digits.len() == 0 {
        0
    } else {
        10 * decimal_value(digits.drop_last()) + digit_value(digits.last())
    }
}

/// The number that `s` writes as a signed decimal: an optional `+` or `-`,
/// then one or more decimal digits, with a value that a 64-bit signed integer
/// holds. `None` for every other `s`.
pub open spec fn signed_decimal(s: Seq<char>) -> Option<int> {
    let signed = s.len() > 0 && (s[0] == '+' || s[0] == '-');
    let digits = if signed {
        s.drop_first()
    } else {
        s
    };
    let value = if s.len() > 0 && s[0] == '-' {
        -decimal_value(digits)
    } else {
        decimal_value(digits)
    };
    if digits.len() > 0 && all_digits(digits) && i64::MIN <= value <= i64::MAX {
        Some(value)
    } else {
        None
    }
}

/// Digits written after a number never make it smaller: the value of a prefix
/// of `digits` is at most the value of `digits`, and neither is negative.
pub proof fn lemma_decimal_value_prefix(digits: Seq<char>, k: int)
    requires
        all_digits(digits),
        0 <= k <= digits.len(),
    ensures
        0 <= decimal_value(digits.take(k)) <= decimal_value(digits),
    decreases digits.len(),
{
    if k == digits.len() {
        assert(digits.take(k) =~= digits);
        if k > 0 {
            lemma_decimal_value_prefix(digits.drop_last(), k - 1);
            assert(digits.drop_last().take(k - 1) =~= digits.drop_last());
        }
    } else {
        lemma_decimal_value_prefix(digits.drop_last(), k);
        assert(digits.drop_last().take(k) =~= digits.take(k));
    }
}

/// Reads `s` as a signed decimal number.
pub fn parse_signed_decimal(s: &[char]) -> (r: Option<i64>)
    ensures
        r is Some <==> signed_decimal(s@) is Some,
        r is Some ==> r->0 == signed_decimal(s@)->0,
{
    let n = s.len();
    if n == 0 {
        return None;
    }
    let negative = s[0] == '-';
    let first: usize = if s[0] == '+' || s[0] == '-' {
        1
    } else {
        0
    };
    if first == n {
        return None;
    }
    let limit: u64 = if negative {
        0x8000_0000_0000_0000
    } else {
        0x7fff_ffff_ffff_ffff
    };
    let ghost digits = s@.subrange(first as int, n as int);
    assert(digits =~= if first == 1 {
        s@.drop_first()
    } else {
        s@
    });
    let mut magnitude: u64 = 0;
    let mut i: usize = first;
    while i < n
        invariant
            first <= i <= n == s@.len(),
            digits == s@.subrange(first as int, n as int),
            digits == if s@[0] == '+' || s@[0] == '-' {
                s@.drop_first()
            } else {
                s@
            },
            negative == (s@[0] == '-'),
            limit == if negative {
                -i64::MIN
            } else {
                i64::MAX as int
            },
            all_digits(digits.take(i - first)),
            magnitude == decimal_value(digits.take(i - first)),
            magnitude <= limit,
        decreases n - i,
    {
        let c = s[i];
        proof {
            let seen = digits.take(i + 1 - first);
            assert(seen.drop_last() =~= digits.take(i - first));
            assert(seen.last() == c);
        }
        if !('0' <= c && c <= '9') {
            assert(digits[i - first] == c);
            return None;
        }
        let digit: u64 = (c as u32 - '0' as u32) as u64;
        if magnitude > (limit - digit) / 10 {
            proof {
                if all_digits(digits) {
                    lemma_decimal_value_prefix(digits, i + 1 - first);
                }
            }
            return None;
        }
        magnitude = magnitude * 10 + digit;
        i += 1;
    }
    assert(digits.take(n - first) =~= digits);
    if !negative {
        Some(magnitude as i64)
    } else if magnitude == 0x8000_0000_0000_0000 {
        Some(i64::MIN)
    } else {
        Some(-(magnitude as i64))
    }
}

/// Whether `s` starts with the characters of `prefix`.
pub fn starts_with(s: &[char], prefix: &[char]) -> (r: bool)
    ensures
        r == prefix@.is_prefix_of(s@),
{
    if prefix.len() > s.len() {
        return false;
    }
    let mut i: usize = 0;
    while i < prefix.len()
        invariant
            i <= prefix@.len() <= s@.len(),
            forall|j: int| 0 <= j < i ==> prefix@[j] == s@[j],
        decreases prefix@.len() - i,
    {
        if prefix[i] != s[i] {
            assert(s@.subrange(0, prefix@.len() as int)[i as int] != prefix@[i as int]);
            return false;
        }
        i += 1;
    }
    assert(prefix@ =~= s@.subrange(0, prefix@.len() as int));
    true
}

/// Whether `a` and `b` hold the same characters.
pub fn same_chars(a: &[char], b: &[char]) -> (r: bool)
    ensures
        r == (a@ == b@),
{
    let r = a.len() == b.len() && starts_with(a, b);
    proof {
        if a@.len() == b@.len() {
            assert(a@.subrange(0, b@.len() as int) =~= a@);
        }
    }
    r
}

/// A copy of the characters of `s` from `from` up to `to`.
pub fn copy_range(s: &[char], from: usize, to: usize) -> (out: Vec<char>)
    requires
        from <= to <= s@.len(),
    ensures
        out@ == s@.subrange(from as int, to as int),
{
    let mut out: Vec<char> = Vec::new();
    let mut i: usize = from;
    while i < to
        invariant
            from <= i <= to <= s@.len(),
            out@ == s@.subrange(from as int, i as int),
        decreases to - i,
    {
        out.push(s[i]);
        i += 1;
        assert(out@ =~= s@.subrange(from as int, i as int));
    }
    out
}

/// Appends the characters of `s` to `out`.
pub fn push_all(out: &mut Vec<char>, s: &[char])
    ensures
        final(out)@ == old(out)@ + s@,
{
    let mut i: usize = 0;
    while i < s.len()
        invariant
            i <= s@.len(),
            out@ == old(out)@ + s@.take(i as int),
        decreases s@.len() - i,
    {
        out.push(s[i]);
        i += 1;
        assert(out@ =~= old(out)@ + s@.take(i as int));
    }
    assert(s@.take(s@.len() as int) =~= s@);
}

/// The characters of `s`.
pub fn chars_of(s: &str) -> (out: Vec<char>)
    ensures
        out@ == s@,
{
    let mut out: Vec<char> = Vec::new();
    for c in it: s.chars()
        invariant
            it.seq() == s@,
            out@ == it.seq().take(it.index() as int),
    {
        out.push(c);
    }
    out
}

/// Builds a `String` with std's `String::from_iter`. Trusted: the string
/// holds the characters of `chars`, all of them and in their order.
#[verifier::external_body]
pub(crate) fn string_of(chars: &[char]) -> (s: String)
    ensures
        s@ == chars@,
{
    String::from_iter(chars)
}

} // verus!
