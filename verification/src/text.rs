//! Text utilities: whitespace trimming, byte-order-mark stripping,
//! trim-insensitive output comparison, and decimal rendering of numbers.

use vstd::prelude::*;
use vstd::string::StrSliceExecFns;
use vstd::string::StringExecFns;

verus! {

/// The characters `char::is_whitespace` recognizes (the Unicode
/// `White_Space` property).
pub open spec fn is_ws(c: char) -> bool {
    c == ' ' || c == '\t' || c == '\n' || c == '\u{000b}' || c == '\u{000c}' || c == '\r'
        || c == '\u{0085}' || c == '\u{00a0}' || c == '\u{1680}' || c == '\u{2000}'
        || c == '\u{2001}' || c == '\u{2002}' || c == '\u{2003}' || c == '\u{2004}'
        || c == '\u{2005}' || c == '\u{2006}' || c == '\u{2007}' || c == '\u{2008}'
        || c == '\u{2009}' || c == '\u{200a}' || c == '\u{2028}' || c == '\u{2029}'
        || c == '\u{202f}' || c == '\u{205f}' || c == '\u{3000}'
}

/// Executable test for `is_ws`.
pub fn is_ws_char(c: char) -> (r: bool)
    ensures
        r == is_ws(c),
{
    c == ' ' || c == '\t' || c == '\n' || c == '\u{000b}' || c == '\u{000c}' || c == '\r'
        || c == '\u{0085}' || c == '\u{00a0}' || c == '\u{1680}' || c == '\u{2000}'
        || c == '\u{2001}' || c == '\u{2002}' || c == '\u{2003}' || c == '\u{2004}'
        || c == '\u{2005}' || c == '\u{2006}' || c == '\u{2007}' || c == '\u{2008}'
        || c == '\u{2009}' || c == '\u{200a}' || c == '\u{2028}' || c == '\u{2029}'
        || c == '\u{202f}' || c == '\u{205f}' || c == '\u{3000}'
}

/// `s` with leading whitespace removed.
pub open spec fn trim_front(s: Seq<char>) -> Seq<char>
    decreases s.len(),
{
    if s.len() > 0 && is_ws(s[0]) {
        trim_front(s.subrange(1, s.len() as int))
    } else {
        s
    }
}

/// `s` with trailing whitespace removed.
pub open spec fn trim_back(s: Seq<char>) -> Seq<char>
    decreases s.len(),
{
    if s.len() > 0 && is_ws(s[s.len() - 1]) {
        trim_back(s.subrange(0, s.len() - 1))
    } else {
        s
    }
}

/// `s` with both leading and trailing whitespace removed, as `str::trim`
/// produces it.
pub open spec fn trimmed(s: Seq<char>) -> Seq<char> {
    trim_front(trim_back(s))
}

proof fn lemma_trim_front_ix(s: Seq<char>, i: int)
    requires
        0 <= i <= s.len(),
        forall|k: int| 0 <= k < i ==> is_ws(s[k]),
        i == s.len() || !is_ws(s[i]),
    ensures
        trim_front(s) == s.subrange(i, s.len() as int),
    decreases i,
{
    if i == 0 {
        assert(s.subrange(0, s.len() as int) =~= s);
    } else {
        let s2 = s.subrange(1, s.len() as int);
        lemma_trim_front_ix(s2, i - 1);
        assert(s2.subrange(i - 1, s2.len() as int) =~= s.subrange(i, s.len() as int));
    }
}

proof fn lemma_trim_back_ix(s: Seq<char>, j: int)
    requires
        0 <= j <= s.len(),
        forall|k: int| j <= k < s.len() ==> is_ws(s[k]),
        j == 0 || !is_ws(s[j - 1]),
    ensures
        trim_back(s) == s.subrange(0, j),
    decreases s.len(),
{
    if j == s.len() {
        assert(s.subrange(0, j) =~= s);
    } else {
        let s2 = s.subrange(0, s.len() - 1);
        lemma_trim_back_ix(s2, j);
        assert(s2.subrange(0, j) =~= s.subrange(0, j));
    }
}

/// Characterizes `trimmed` by the first and last indices that carry
/// non-whitespace characters.
proof fn lemma_trimmed_ix(s: Seq<char>, i: int, j: int)
    requires
        0 <= i <= j <= s.len(),
        forall|k: int| 0 <= k < i ==> is_ws(s[k]),
        forall|k: int| j <= k < s.len() ==> is_ws(s[k]),
        i < j ==> !is_ws(s[i]) && !is_ws(s[j - 1]),
    ensures
        trimmed(s) == s.subrange(i, j),
    decreases s.len(),
{
    if i == j {
        lemma_trim_back_ix(s, 0);
        assert(trim_back(s) =~= Seq::<char>::empty());
        assert(s.subrange(i, j) =~= Seq::<char>::empty());
    } else {
        lemma_trim_back_ix(s, j);
        let sb = s.subrange(0, j);
        lemma_trim_front_ix(sb, i);
        assert(sb.subrange(i, sb.len() as int) =~= s.subrange(i, j));
    }
}

/// `str::trim`, verified: the leading and trailing whitespace of `s` is
/// removed and nothing else changes.
pub fn trim_str<'a>(s: &'a str) -> (r: &'a str)
    ensures
        r@ == trimmed(s@),
{
    let len = s.unicode_len();
    let mut start: usize = 0;
    while start < len && is_ws_char(s.get_char(start))
        invariant
            0 <= start <= len,
            len == s@.len(),
            forall|k: int| 0 <= k < start ==> is_ws(s@[k]),
        decreases len - start,
    {
        start = start + 1;
    }
    let mut end: usize = len;
    while end > start && is_ws_char(s.get_char(end - 1))
        invariant
            start <= end <= len,
            len == s@.len(),
            forall|k: int| 0 <= k < start ==> is_ws(s@[k]),
            start == len || !is_ws(s@[start as int]),
            forall|k: int| end <= k < len ==> is_ws(s@[k]),
        decreases end,
    {
        end = end - 1;
    }
    proof {
        lemma_trimmed_ix(s@, start as int, end as int);
    }
    s.substring_char(start, end)
}

/// Trim-insensitive comparison of two output texts: equality after both
/// are stripped of leading and trailing whitespace.
pub fn outputs_match(actual: &str, expected: &str) -> (r: bool)
    ensures
        r == (trimmed(actual@) == trimmed(expected@)),
{
    let a: String = trim_str(actual).to_owned();
    let b: String = trim_str(expected).to_owned();
    a == b
}

proof fn lemma_trim_back_cons_ws(c: char, s: Seq<char>)
    requires
        is_ws(c),
    ensures
        trim_back(seq![c] + s) == if trim_back(s).len() == 0 {
            Seq::<char>::empty()
        } else {
            seq![c] + trim_back(s)
        },
    decreases s.len(),
{
    let t = seq![c] + s;
    if s.len() == 0 {
        assert(t.len() == 1 && t[0] == c);
        assert(t.subrange(0, 0) =~= Seq::<char>::empty());
        assert(trim_back(t) == trim_back(t.subrange(0, 0)));
    } else if is_ws(s[s.len() - 1]) {
        let s2 = s.subrange(0, s.len() - 1);
        assert(t[t.len() - 1] == s[s.len() - 1]);
        assert(trim_back(t) == trim_back(t.subrange(0, t.len() - 1)));
        assert(t.subrange(0, t.len() - 1) =~= seq![c] + s2);
        lemma_trim_back_cons_ws(c, s2);
        assert(trim_back(s) == trim_back(s2));
    } else {
        assert(!is_ws(t[t.len() - 1]));
        assert(trim_back(t) == t);
        assert(trim_back(s) == s);
    }
}

/// Whitespace added at either end of a text does not change its trimmed
/// form, so trim-insensitive comparison ignores such padding.
pub proof fn lemma_trim_ws_padding(s: Seq<char>, c: char)
    requires
        is_ws(c),
    ensures
        trimmed(s.push(c)) == trimmed(s),
        trimmed(seq![c] + s) == trimmed(s),
{
    // Padding at the back: `trim_back` removes `c` in one step.
    let p = s.push(c);
    assert(p.len() == s.len() + 1 && is_ws(p[p.len() - 1]));
    assert(p.subrange(0, p.len() - 1) =~= s);
    // Padding at the front: `trim_back` keeps the added head in place,
    // and `trim_front` then removes it.
    lemma_trim_back_cons_ws(c, s);
    let tb = trim_back(s);
    if tb.len() == 0 {
    } else {
        let u = seq![c] + tb;
        assert(u.len() > 0 && is_ws(u[0]));
        assert(u.subrange(1, u.len() as int) =~= tb);
    }
}

/// `s` with every (non-overlapping, leftmost-first) `"\r\n"` pair
/// removed, as `str::replace("\r\n", "")` leaves it.
pub open spec fn strip_crlf(s: Seq<char>) -> Seq<char>
    decreases s.len(),
{
    if s.len() < 2 {
        s
    } else if s[0] == '\r' && s[1] == '\n' {
        strip_crlf(s.subrange(2, s.len() as int))
    } else {
        seq![s[0]] + strip_crlf(s.subrange(1, s.len() as int))
    }
}

/// `s` with every `'\n'` removed, as `str::replace('\n', "")` leaves it.
pub open spec fn strip_newlines(s: Seq<char>) -> Seq<char>
    decreases s.len(),
{
    if s.len() == 0 {
        s
    } else if s[0] == '\n' {
        strip_newlines(s.subrange(1, s.len() as int))
    } else {
        seq![s[0]] + strip_newlines(s.subrange(1, s.len() as int))
    }
}

/// A captured output line scrubbed for use as a path: trimmed, with every
/// `"\r\n"` pair and then every remaining `'\n'` removed, and trimmed
/// once more.
pub open spec fn scrubbed_line(s: Seq<char>) -> Seq<char> {
    trimmed(strip_newlines(strip_crlf(trimmed(s))))
}

fn remove_crlf(s: &str) -> (r: String)
    ensures
        r@ == strip_crlf(s@),
{
    let len = s.unicode_len();
    let mut out = String::new();
    let mut i: usize = 0;
    proof {
        assert(s@.subrange(0, len as int) =~= s@);
        assert(out@ + strip_crlf(s@) =~= strip_crlf(s@));
        assert(out@ + strip_newlines(s@) =~= strip_newlines(s@));
    }
    while i < len
        invariant
            i <= len,
            len == s@.len(),
            strip_crlf(s@) == out@ + strip_crlf(s@.subrange(i as int, len as int)),
        decreases len - i,
    {
        let ghost rest = s@.subrange(i as int, len as int);
        if i + 1 < len && s.get_char(i) == '\r' && s.get_char(i + 1) == '\n' {
            proof {
                assert(rest.subrange(2, rest.len() as int) =~= s@.subrange(
                    i as int + 2,
                    len as int,
                ));
            }
            i = i + 2;
        } else {
            let ghost out_before = out@;
            out.append(s.substring_char(i, i + 1));
            proof {
                assert(rest[0] == s@[i as int]);
                assert(rest.subrange(1, rest.len() as int) =~= s@.subrange(
                    i as int + 1,
                    len as int,
                ));
                assert(s@.subrange(i as int, i as int + 1) =~= seq![s@[i as int]]);
                assert(out_before + (seq![rest[0]] + strip_crlf(
                    s@.subrange(i as int + 1, len as int),
                )) =~= out@ + strip_crlf(s@.subrange(i as int + 1, len as int)));
            }
            i = i + 1;
        }
    }
    proof {
        assert(s@.subrange(len as int, len as int) =~= Seq::<char>::empty());
        assert(out@ + Seq::<char>::empty() =~= out@);
    }
    out
}

fn remove_newlines(s: &str) -> (r: String)
    ensures
        r@ == strip_newlines(s@),
{
    let len = s.unicode_len();
    let mut out = String::new();
    let mut i: usize = 0;
    proof {
        assert(s@.subrange(0, len as int) =~= s@);
        assert(out@ + strip_crlf(s@) =~= strip_crlf(s@));
        assert(out@ + strip_newlines(s@) =~= strip_newlines(s@));
    }
    while i < len
        invariant
            i <= len,
            len == s@.len(),
            strip_newlines(s@) == out@ + strip_newlines(s@.subrange(i as int, len as int)),
        decreases len - i,
    {
        let ghost rest = s@.subrange(i as int, len as int);
        proof {
            assert(rest[0] == s@[i as int]);
            assert(rest.subrange(1, rest.len() as int) =~= s@.subrange(i as int + 1, len as int));
        }
        if s.get_char(i) == '\n' {
        } else {
            let ghost out_before = out@;
            out.append(s.substring_char(i, i + 1));
            proof {
                assert(s@.subrange(i as int, i as int + 1) =~= seq![s@[i as int]]);
                assert(out_before + (seq![rest[0]] + strip_newlines(
                    s@.subrange(i as int + 1, len as int),
                )) =~= out@ + strip_newlines(s@.subrange(i as int + 1, len as int)));
            }
        }
        i = i + 1;
    }
    proof {
        assert(s@.subrange(len as int, len as int) =~= Seq::<char>::empty());
        assert(out@ + Seq::<char>::empty() =~= out@);
    }
    out
}

/// Scrubs a captured output line into a usable path: surrounding
/// whitespace is trimmed and every line break is removed.
pub fn scrub_line(s: &str) -> (r: String)
    ensures
        r@ == scrubbed_line(s@),
{
    let edge_trimmed = trim_str(s);
    let no_crlf = remove_crlf(edge_trimmed);
    let no_breaks = remove_newlines(no_crlf.as_str());
    trim_str(no_breaks.as_str()).to_owned()
}

/// Whether every character of `s` is whitespace.
pub open spec fn all_ws(s: Seq<char>) -> bool {
    forall|k: int| 0 <= k < s.len() ==> is_ws(s[k])
}

/// Whitespace padding around a text never changes its trimmed form, so
/// the comparison of outputs is insensitive to it.
pub proof fn lemma_trim_ignores_padding(front: Seq<char>, s: Seq<char>, back: Seq<char>)
    requires
        all_ws(front),
        all_ws(back),
    ensures
        trimmed(front + s + back) == trimmed(s),
    decreases front.len() + back.len(),
{
    if back.len() > 0 {
        let b2 = back.subrange(0, back.len() - 1);
        let c = back[back.len() - 1];
        assert(front + s + back =~= (front + s + b2).push(c));
        lemma_trim_ws_padding(front + s + b2, c);
        assert(all_ws(b2));
        lemma_trim_ignores_padding(front, s, b2);
    } else if front.len() > 0 {
        let f2 = front.subrange(1, front.len() as int);
        assert(front + s + back =~= seq![front[0]] + (f2 + s + back));
        lemma_trim_ws_padding(f2 + s + back, front[0]);
        assert(all_ws(f2));
        lemma_trim_ignores_padding(f2, s, back);
    } else {
        assert(front + s + back =~= s);
    }
}

/// The byte-order mark that may open a text file.
pub open spec fn bom() -> char {
    '\u{feff}'
}

/// `s` with one leading byte-order mark removed: a BOM-free text is
/// returned unchanged, and otherwise exactly the first character goes.
pub open spec fn strip_bom_spec(s: Seq<char>) -> Seq<char> {
    if s.len() > 0 && s[0] == bom() {
        s.subrange(1, s.len() as int)
    } else {
        s
    }
}

/// Removes one leading byte-order mark, if present.
pub fn strip_bom(s: &str) -> (r: String)
    ensures
        r@ == strip_bom_spec(s@),
{
    let len = s.unicode_len();
    if len > 0 && s.get_char(0) == '\u{feff}' {
        s.substring_char(1, len).to_owned()
    } else {
        s.to_owned()
    }
}

/// Stripping a byte-order mark is idempotent, except on a text that opens
/// with two marks in a row, where each pass removes one.
pub proof fn lemma_strip_bom_idempotent(s: Seq<char>)
    requires
        !(s.len() >= 2 && s[0] == bom() && s[1] == bom()),
    ensures
        strip_bom_spec(strip_bom_spec(s)) == strip_bom_spec(s),
{
}

/// The character for one decimal digit.
pub open spec fn digit_char(d: nat) -> char {
    if d == 0 {
        '0'
    } else if d == 1 {
        '1'
    } else if d == 2 {
        '2'
    } else if d == 3 {
        '3'
    } else if d == 4 {
        '4'
    } else if d == 5 {
        '5'
    } else if d == 6 {
        '6'
    } else if d == 7 {
        '7'
    } else if d == 8 {
        '8'
    } else {
        '9'
    }
}

/// The decimal rendering of `n`, most significant digit first.
pub open spec fn dec_str(n: nat) -> Seq<char>
    decreases n,
{
    if n < 10 {
        seq![digit_char(n)]
    } else {
        dec_str(n / 10).push(digit_char(n % 10))
    }
}

fn digit_str(d: u64) -> (r: &'static str)
    requires
        d < 10,
    ensures
        r@ == seq![digit_char(d as nat)],
{
    proof {
        reveal_strlit("0");
        reveal_strlit("1");
        reveal_strlit("2");
        reveal_strlit("3");
        reveal_strlit("4");
        reveal_strlit("5");
        reveal_strlit("6");
        reveal_strlit("7");
        reveal_strlit("8");
        reveal_strlit("9");
    }
    if d == 0 {
        proof { assert("0"@ =~= seq![digit_char(0)]); }
        "0"
    } else if d == 1 {
        proof { assert("1"@ =~= seq![digit_char(1)]); }
        "1"
    } else if d == 2 {
        proof { assert("2"@ =~= seq![digit_char(2)]); }
        "2"
    } else if d == 3 {
        proof { assert("3"@ =~= seq![digit_char(3)]); }
        "3"
    } else if d == 4 {
        proof { assert("4"@ =~= seq![digit_char(4)]); }
        "4"
    } else if d == 5 {
        proof { assert("5"@ =~= seq![digit_char(5)]); }
        "5"
    } else if d == 6 {
        proof { assert("6"@ =~= seq![digit_char(6)]); }
        "6"
    } else if d == 7 {
        proof { assert("7"@ =~= seq![digit_char(7)]); }
        "7"
    } else if d == 8 {
        proof { assert("8"@ =~= seq![digit_char(8)]); }
        "8"
    } else {
        proof { assert("9"@ =~= seq![digit_char(9)]); }
        "9"
    }
}

/// Renders `n` in decimal.
pub fn u64_to_string(n: u64) -> (r: String)
    ensures
        r@ == dec_str(n as nat),
    decreases n,
{
    if n < 10 {
        digit_str(n).to_owned()
    } else {
        let mut prefix = u64_to_string(n / 10);
        prefix.append(digit_str(n % 10));
        proof {
            assert(dec_str((n / 10) as nat).push(digit_char((n % 10) as nat)) =~= dec_str(
                (n / 10) as nat,
            ) + seq![digit_char((n % 10) as nat)]);
        }
        prefix
    }
}

/// Prepends a comment line carrying `url` to a solution text whose leading
/// byte-order mark, if any, is stripped first.
pub fn prepend_url_comment(source: &str, url: &str) -> (r: String)
    ensures
        r@ == "// "@ + url@ + "\n"@ + strip_bom_spec(source@),
{
    let mut r = String::from_str("// ");
    r.append(url);
    r.append("\n");
    let stripped = strip_bom(source);
    r.append(stripped.as_str());
    r
}

} // verus!
