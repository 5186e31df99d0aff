//! Strings as rows of terminal cells: display width, padding, splitting into
//! lines and indentation.
use unicode_width::UnicodeWidthChar;
use vstd::prelude::*;
use vstd::string::*;
use vstd::utf8::{encode_utf8, is_ascii_chars, is_ascii_chars_encode_utf8};

verus! {

/// What `UnicodeWidthChar::width` of the `unicode_width` crate returns for a
/// character: its number of columns, and `None` for a control character.
pub uninterp spec fn char_columns(c: char) -> Option<usize>;

/// What `char::is_whitespace` of std returns for a character.
pub uninterp spec fn char_is_whitespace(c: char) -> bool;

/// Calls `UnicodeWidthChar::width` of the `unicode_width` crate. Trusted, not
/// proved: the result is a function of the character alone, the one that
/// `char_columns` names. Nothing is claimed of its value.
#[verifier::external_body]
fn unicode_columns(c: char) -> (r: Option<usize>)
    ensures
        r == char_columns(c),
{
    UnicodeWidthChar::width(c)
}

/// Calls `char::is_whitespace` of std. Trusted, not proved: the result is a
/// function of the character alone, the one that `char_is_whitespace` names.
/// Nothing is claimed of its value.
#[verifier::external_body]
fn std_is_whitespace(c: char) -> (r: bool)
    ensures
        r == char_is_whitespace(c),
{
    c.is_whitespace()
}

/// Printable ASCII, from the space to the tilde.
pub open spec fn is_printable_ascii(c: char) -> bool {
    0x20 <= c as u32 && c as u32 <= 0x7e
}

/// The number of terminal cells a character occupies. Printable ASCII takes
/// one cell; a control character takes none; any other character takes what
/// `unicode_width` says.
pub open spec fn cell_width(c: char) -> nat {
    if is_printable_ascii(c) {
        1
    } else {
        match char_columns(c) {
            Some(n) => n as nat,
            None => 0,
        }
    }
}

/// The display width of a text: the sum of the cells of its characters.
pub open spec fn text_width(s: Seq<char>) -> nat
    decreases s.len(),
{
    if s.len() == 0 {
        0
    } else {
        text_width(s.drop_last()) + cell_width(s.last())
    }
}

/// A row of `n` spaces.
pub open spec fn blanks(n: nat) -> Seq<char> {
    Seq::new(n, |i: int| ' ')
}

/// The display width of a concatenation is the sum of the widths.
pub proof fn lemma_text_width_concat(a: Seq<char>, b: Seq<char>)
    ensures
        text_width(a + b) == text_width(a) + text_width(b),
    decreases b.len(),
{
    if b.len() == 0 {
        assert(a + b =~= a);
    } else {
        lemma_text_width_concat(a, b.drop_last());
        assert((a + b).drop_last() =~= a + b.drop_last());
        assert((a + b).last() == b.last());
    }
}

/// A row of `n` spaces is `n` cells wide.
pub proof fn lemma_blanks_width(n: nat)
    ensures
        text_width(blanks(n)) == n,
    decreases n,
{
    if n > 0 {
        lemma_blanks_width((n - 1) as nat);
        assert(blanks(n).drop_last() =~= blanks((n - 1) as nat));
        assert(blanks(n).last() == ' ');
    }
}

/// The cells of one character.
pub fn char_width(c: char) -> (r: usize)
    ensures
        r == cell_width(c),
{
    let code: u32 = c as u32;
    if 0x20 <= code && code <= 0x7e {
        1
    } else {
        match unicode_columns(c) {
            Some(n) => n,
            None => 0,
        }
    }
}

/// The display width of `s`, or `None` when it is more than a `usize` holds.
pub fn display_width(s: &str) -> (r: Option<usize>)
    ensures
        r == if text_width(s@) <= usize::MAX {
            Some(text_width(s@) as usize)
        } else {
            None
        },
{
    let mut total: usize = 0;
    for c in it: s.chars()
        invariant
            it.seq() == s@,
            total == text_width(s@.take(it.index())),
    {
        proof {
            assert(s@.take(it.index() + 1).drop_last() =~= s@.take(it.index()));
            lemma_text_width_prefix(s@, it.index() + 1);
        }
        match total.checked_add(char_width(c)) {
            Some(t) => {
                total = t;
            },
            None => {
                return None;
            },
        }
    }
    proof {
        assert(s@.take(s@.len() as int) =~= s@);
    }
    Some(total)
}

/// A prefix is no wider than the whole text.
pub proof fn lemma_text_width_prefix(s: Seq<char>, n: int)
    requires
        0 <= n <= s.len(),
    ensures
        text_width(s.take(n)) <= text_width(s),
{
    assert(s =~= s.take(n) + s.skip(n));
    lemma_text_width_concat(s.take(n), s.skip(n));
}

/// Equality of two texts.
pub fn str_eq(a: &str, b: &str) -> (r: bool)
    ensures
        r == (a@ == b@),
{
    let x = a.to_owned();
    let y = b.to_owned();
    x == y
}

/// A string of `n` spaces.
pub fn spaces(n: usize) -> (r: String)
    ensures
        r@ == blanks(n as nat),
{
    let mut out = String::new();
    let mut k: usize = 0;
    while k < n
        invariant
            k <= n,
            out@ == blanks(k as nat),
        decreases n - k,
    {
        proof {
            reveal_strlit(" ");
            assert(blanks(k as nat) + " "@ =~= blanks((k + 1) as nat));
        }
        out.append(" ");
        k = k + 1;
    }
    out
}

/// The views of a list of strings.
pub open spec fn views(v: Seq<String>) -> Seq<Seq<char>> {
    Seq::new(v.len(), |i: int| v[i]@)
}

/// The segments of `s` between its line feeds, in order. A text without a
/// line feed is one segment; each line feed starts a new one, which may be
/// empty.
pub open spec fn segments(s: Seq<char>) -> Seq<Seq<char>>
    decreases s.len(),
{
    if s.len() == 0 {
        seq![Seq::<char>::empty()]
    } else {
        let before = segments(s.drop_last());
        if s.last() == '\n' {
            before.push(Seq::<char>::empty())
        } else {
            before.drop_last().push(before.last().push(s.last()))
        }
    }
}

/// The number of line feeds in `s`.
pub open spec fn line_feeds(s: Seq<char>) -> nat
    decreases s.len(),
{
    if s.len() == 0 {
        0
    } else {
        line_feeds(s.drop_last()) + if s.last() == '\n' {
            1nat
        } else {
            0nat
        }
    }
}

/// The segments joined again, with one line feed between neighbours.
pub open spec fn joined(parts: Seq<Seq<char>>) -> Seq<char>
    decreases parts.len(),
{
    if parts.len() == 0 {
        Seq::<char>::empty()
    } else if parts.len() == 1 {
        parts[0]
    } else {
        joined(parts.drop_last()) + seq!['\n'] + parts.last()
    }
}

/// A text has one segment more than it has line feeds, no segment holds a
/// line feed, and joining the segments gives the text back.
pub proof fn lemma_segments(s: Seq<char>)
    ensures
        segments(s).len() == line_feeds(s) + 1,
        forall|i: int, j: int|
            0 <= i < segments(s).len() && 0 <= j < segments(s)[i].len() ==> segments(s)[i][j]
                != '\n',
        joined(segments(s)) == s,
    decreases s.len(),
{
    if s.len() == 0 {
        assert(joined(segments(s)) =~= s);
    } else {
        let before = segments(s.drop_last());
        lemma_segments(s.drop_last());
        if s.last() == '\n' {
            let after = before.push(Seq::<char>::empty());
            assert(after.drop_last() =~= before);
            assert(joined(after) =~= s.drop_last() + seq!['\n']);
            assert(s.drop_last() + seq!['\n'] =~= s);
        } else {
            let after = before.drop_last().push(before.last().push(s.last()));
            if before.len() == 1 {
                assert(joined(before) == before[0]);
                assert(joined(after) =~= s.drop_last().push(s.last()));
            } else {
                assert(after.drop_last() =~= before.drop_last());
                assert(joined(after) =~= joined(before.drop_last()) + seq!['\n'] + before.last().push(
                    s.last(),
                ));
                assert(joined(after) =~= joined(before).push(s.last()));
            }
            assert(s.drop_last().push(s.last()) =~= s);
        }
    }
}

/// Splits `s` at its line feeds.
pub fn split_lines(s: &str) -> (r: Vec<String>)
    ensures
        views(r@) == segments(s@),
{
    let mut out: Vec<String> = Vec::new();
    let mut start: usize = 0;
    let mut pos: usize = 0;
    let total = s.unicode_len();
    proof {
        assert(s@.take(0) =~= Seq::<char>::empty());
        assert(segments(s@.take(0)) =~= views(out@).push(s@.subrange(0, 0)));
    }
    for c in it: s.chars()
        invariant
            it.seq() == s@,
            total == s@.len(),
            pos == it.index(),
            start <= pos,
            segments(s@.take(pos as int)) == views(out@).push(s@.subrange(start as int, pos as int)),
    {
        let ghost before = segments(s@.take(pos as int));
        proof {
            assert(s@.take(pos + 1).drop_last() =~= s@.take(pos as int));
            assert(s@.take(pos + 1).last() == c);
            assert(before.drop_last() =~= views(out@));
        }
        if c == '\n' {
            let piece = s.substring_char(start, pos).to_owned();
            proof {
                assert(views(out@.push(piece)) =~= before);
                assert(s@.subrange(pos + 1, pos + 1) =~= Seq::<char>::empty());
            }
            out.push(piece);
            start = pos + 1;
        } else {
            proof {
                assert(s@.subrange(start as int, pos as int).push(c) =~= s@.subrange(
                    start as int,
                    pos + 1,
                ));
            }
        }
        pos = pos + 1;
    }
    proof {
        assert(s@.take(s@.len() as int) =~= s@);
    }
    let ghost done = views(out@);
    let piece = s.substring_char(start, pos).to_owned();
    out.push(piece);
    proof {
        assert(views(out@) =~= done.push(piece@));
    }
    out
}

/// The number of white-space characters before the first other character.
pub open spec fn indent_of(s: Seq<char>) -> nat
    decreases s.len(),
{
    if s.len() == 0 || !char_is_whitespace(s[0]) {
        0
    } else {
        1 + indent_of(s.drop_first())
    }
}

/// Counts the leading white space of `s`.
pub fn leading_whitespace(s: &str) -> (r: usize)
    ensures
        r == indent_of(s@),
{
    let mut count: usize = 0;
    let total = s.unicode_len();
    proof {
        assert(s@.skip(0) =~= s@);
    }
    for c in it: s.chars()
        invariant
            it.seq() == s@,
            total == s@.len(),
            count == it.index(),
            indent_of(s@) == count + indent_of(s@.skip(count as int)),
    {
        if !std_is_whitespace(c) {
            return count;
        }
        proof {
            assert(s@.skip(count as int).drop_first() =~= s@.skip(count + 1));
        }
        count = count + 1;
    }
    count
}

/// Joins texts with one line feed between neighbours.
pub fn join_lines(parts: &Vec<String>) -> (r: String)
    ensures
        r@ == joined(views(parts@)),
{
    let mut out = String::new();
    let mut i: usize = 0;
    proof {
        assert(views(parts@).take(0) =~= Seq::<Seq<char>>::empty());
    }
    while i < parts.len()
        invariant
            i <= parts.len(),
            out@ == joined(views(parts@).take(i as int)),
        decreases parts.len() - i,
    {
        proof {
            let next = views(parts@).take(i + 1);
            assert(next.drop_last() =~= views(parts@).take(i as int));
            assert(next.last() == parts@[i as int]@);
            reveal_strlit("\n");
            assert("\n"@ =~= seq!['\n']);
            if i == 0 {
                assert(next[0] == parts@[0]@);
                assert(Seq::<char>::empty() + parts@[0]@ =~= parts@[0]@);
            }
        }
        if i > 0 {
            out.append("\n");
        }
        out.append(parts[i].as_str());
        i = i + 1;
    }
    proof {
        assert(views(parts@).take(parts.len() as int) =~= views(parts@));
    }
    out
}

/// The number of bytes of a text in UTF-8.
pub open spec fn byte_len(s: Seq<char>) -> nat {
    encode_utf8(s).len()
}

/// The bytes of a concatenation are the bytes of its parts, one after the
/// other.
pub proof fn lemma_bytes_concat(a: Seq<char>, b: Seq<char>)
    ensures
        encode_utf8(a + b) == encode_utf8(a) + encode_utf8(b),
    decreases a.len(),
{
    if a.len() == 0 {
        assert(a + b =~= b);
        assert(encode_utf8(a) + encode_utf8(b) =~= encode_utf8(b));
    } else {
        lemma_bytes_concat(a.drop_first(), b);
        assert((a + b).drop_first() =~= a.drop_first() + b);
        assert((a + b)[0] == a[0]);
        assert(encode_utf8(a + b) =~= encode_utf8(a) + encode_utf8(b));
    }
}

/// A row of `n` spaces takes `n` bytes.
pub proof fn lemma_blanks_bytes(n: nat)
    ensures
        byte_len(blanks(n)) == n,
{
    assert(is_ascii_chars(blanks(n)));
    is_ascii_chars_encode_utf8(blanks(n));
}

} // verus!
