//! Text building blocks: decimal numbers, HTML escaping, percent-encoding,
//! whitespace trimming, prefixes and constant-time comparison.
use vstd::prelude::*;
use vstd::string::*;
use maud::Render;
use percent_encoding::{utf8_percent_encode, NON_ALPHANUMERIC};
use subtle::ConstantTimeEq;

verus! {

// ---------------------------------------------------------------- decimal

/// The ASCII digit for `d` (`0 <= d < 10`).
pub open spec fn digit_char(d: nat) -> char {
    ((48 + d) as u32) as char
}

/// The decimal representation of `n`, without sign or leading zeros.
pub open spec fn decimal(n: nat) -> Seq<char>
    decreases n,
{
    if n < 10 {
        seq![digit_char(n)]
    } else {
        decimal(n / 10).push(digit_char(n % 10))
    }
}

fn digit_text(d: u64) -> (r: &'static str)
    requires
        d < 10,
    ensures
        r@ == seq![digit_char(d as nat)],
{
    proof {
        reveal_strlit("0");
        reveal_strlit("1");
        reveal_strlit("2");
        reveal_strlit("3");
        reveal_strlit("4");
        reveal_strlit("5");
        reveal_strlit("6");
        reveal_strlit("7");
        reveal_strlit("8");
        reveal_strlit("9");
    }
    let r = match d {
        0 => "0",
        1 => "1",
        2 => "2",
        3 => "3",
        4 => "4",
        5 => "5",
        6 => "6",
        7 => "7",
        8 => "8",
        _ => "9",
    };
    assert(r@ =~= seq![digit_char(d as nat)]);
    r
}

/// `n` written in decimal.
pub fn decimal_text(n: u64) -> (r: String)
    ensures
        r@ == decimal(n as nat),
    decreases n,
{
    if n < 10 {
        let mut s = String::new();
        s.append(digit_text(n));
        assert(s@ =~= decimal(n as nat));
        s
    } else {
        let mut s = decimal_text(n / 10);
        s.append(digit_text(n % 10));
        assert(s@ =~= decimal(n as nat));
        s
    }
}

// ---------------------------------------------------------------- html

/// What HTML escaping turns one character into.
pub open spec fn escape_char(c: char) -> Seq<char> {
    if c == '&' {
        seq!['&', 'a', 'm', 'p', ';']
    } else if c == '<' {
        seq!['&', 'l', 't', ';']
    } else if c == '>' {
        seq!['&', 'g', 't', ';']
    } else if c == '"' {
        seq!['&', 'q', 'u', 'o', 't', ';']
    } else {
        seq![c]
    }
}

/// HTML escaping of a whole text: each character escaped in turn.
pub open spec fn escape_html(s: Seq<char>) -> Seq<char>
    decreases s.len(),
{
    if s.len() == 0 {
        Seq::empty()
    } else {
        escape_html(s.drop_last()) + escape_char(s.last())
    }
}

/// Appends `s` to `out` escaped for HTML text or a double-quoted attribute,
/// through maud's `Render` for `str` (the escaping its `html!` templates use).
/// Claimed: maud replaces `&`, `<`, `>` and `"` by `&amp;`, `&lt;`, `&gt;`
/// and `&quot;` and copies every other character.
#[verifier::external_body]
pub fn push_escaped(out: &mut String, s: &str)
    ensures
        final(out)@ == old(out)@ + escape_html(s@),
{
    s.render_to(out);
}

/// Escaping distributes over concatenation.
pub proof fn lemma_escape_html_concat(a: Seq<char>, b: Seq<char>)
    ensures
        escape_html(a + b) == escape_html(a) + escape_html(b),
    decreases b.len(),
{
    if b.len() == 0 {
        assert(a + b =~= a);
        assert(escape_html(b) =~= Seq::empty());
        assert(escape_html(a) + escape_html(b) =~= escape_html(a));
    } else {
        lemma_escape_html_concat(a, b.drop_last());
        assert((a + b).drop_last() =~= a + b.drop_last());
        assert((a + b).last() == b.last());
        assert(escape_html(a) + escape_html(b.drop_last()) + escape_char(b.last()) =~= escape_html(
            a,
        ) + (escape_html(b.drop_last()) + escape_char(b.last())));
    }
}

/// Escaped text holds no `<`, `>` or `"`: markup and attribute quotes that a
/// user wrote can never come out of it.
pub proof fn lemma_escaped_has_no_markup(s: Seq<char>)
    ensures
        forall|i: int|
            0 <= i < escape_html(s).len() ==> {
                let c = #[trigger] escape_html(s)[i];
                c != '<' && c != '>' && c != '"'
            },
    decreases s.len(),
{
    if s.len() > 0 {
        lemma_escaped_has_no_markup(s.drop_last());
        let prev = escape_html(s.drop_last());
        let tail = escape_char(s.last());
        assert forall|i: int| 0 <= i < escape_html(s).len() implies {
            let c = #[trigger] escape_html(s)[i];
            c != '<' && c != '>' && c != '"'
        } by {
            if i < prev.len() {
                assert(escape_html(s)[i] == prev[i]);
            } else {
                assert(escape_html(s)[i] == tail[i - prev.len()]);
            }
        }
    }
}

/// Text without `&`, `<`, `>` or `"` is left as it is by escaping.
pub proof fn lemma_escape_html_plain(s: Seq<char>)
    requires
        forall|i: int|
            0 <= i < s.len() ==> {
                let c = #[trigger] s[i];
                c != '&' && c != '<' && c != '>' && c != '"'
            },
    ensures
        escape_html(s) == s,
    decreases s.len(),
{
    if s.len() > 0 {
        let p = s.drop_last();
        assert forall|i: int| 0 <= i < p.len() implies {
            let c = #[trigger] p[i];
            c != '&' && c != '<' && c != '>' && c != '"'
        } by {
            assert(p[i] == s[i]);
        }
        lemma_escape_html_plain(p);
        assert(escape_char(s.last()) =~= seq![s.last()]);
        assert(p.push(s.last()) =~= s);
    } else {
        assert(s =~= Seq::empty());
    }
}

// ---------------------------------------------------------------- percent-encoding

/// ASCII letters and digits: the bytes that percent-encoding with
/// `NON_ALPHANUMERIC` leaves alone.
pub open spec fn is_ascii_alphanumeric_byte(b: u8) -> bool {
    (48 <= b <= 57) || (65 <= b <= 90) || (97 <= b <= 122)
}

/// The upper-case hexadecimal digit for `d` (`0 <= d < 16`).
pub open spec fn hex_upper(d: u8) -> char {
    if d < 10 {
        ((48 + d) as u32) as char
    } else {
        ((55 + d) as u32) as char
    }
}

/// One byte percent-encoded: kept as its character when alphanumeric, else `%XX`.
pub open spec fn percent_encode_byte(b: u8) -> Seq<char> {
    if is_ascii_alphanumeric_byte(b) {
        seq![(b as u32) as char]
    } else {
        seq!['%', hex_upper(b / 16), hex_upper(b % 16)]
    }
}

/// Bytes percent-encoded one by one.
pub open spec fn percent_encoded(bytes: Seq<u8>) -> Seq<char>
    decreases bytes.len(),
{
    if bytes.len() == 0 {
        Seq::empty()
    } else {
        percent_encoded(bytes.drop_last()) + percent_encode_byte(bytes.last())
    }
}

/// The UTF-8 bytes of `s` percent-encoded with percent_encoding's
/// `utf8_percent_encode(s, NON_ALPHANUMERIC)`. Claimed, as its source shows:
/// every byte that is not an ASCII letter or digit becomes `%` and two
/// upper-case hex digits, every other byte is kept.
#[verifier::external_body]
pub fn percent_encode_text(s: &str) -> (r: String)
    ensures
        r@ == percent_encoded(s.spec_bytes()),
{
    utf8_percent_encode(s, NON_ALPHANUMERIC).to_string()
}

/// Percent-encoded text holds only ASCII letters, digits and `%`, so it can
/// stand in a query string as it is.
pub proof fn lemma_percent_encoded_is_query_safe(bytes: Seq<u8>)
    ensures
        forall|i: int|
            0 <= i < percent_encoded(bytes).len() ==> {
                let c = #[trigger] percent_encoded(bytes)[i];
                ('0' <= c && c <= '9') || ('A' <= c && c <= 'Z') || ('a' <= c && c <= 'z') || c == '%'
            },
    decreases bytes.len(),
{
    if bytes.len() > 0 {
        lemma_percent_encoded_is_query_safe(bytes.drop_last());
        let prev = percent_encoded(bytes.drop_last());
        let tail = percent_encode_byte(bytes.last());
        assert forall|i: int| 0 <= i < percent_encoded(bytes).len() implies {
            let c = #[trigger] percent_encoded(bytes)[i];
            ('0' <= c && c <= '9') || ('A' <= c && c <= 'Z') || ('a' <= c && c <= 'z') || c == '%'
        } by {
            if i < prev.len() {
                assert(percent_encoded(bytes)[i] == prev[i]);
            } else {
                assert(percent_encoded(bytes)[i] == tail[i - prev.len()]);
                let b = bytes.last();
                assert(b / 16 < 16 && b % 16 < 16);
            }
        }
    }
}

// ---------------------------------------------------------------- whitespace

/// The Unicode `White_Space` property, which `char::is_whitespace` and
/// `str::trim` follow.
pub open spec fn is_white_space(c: char) -> bool {
    let v = c as u32;
    (9 <= v <= 13) || v == 32 || v == 0x85 || v == 0xa0 || v == 0x1680 || (0x2000 <= v <= 0x200a)
        || v == 0x2028 || v == 0x2029 || v == 0x202f || v == 0x205f || v == 0x3000
}

/// `s` without its leading white space.
pub open spec fn trim_start(s: Seq<char>) -> Seq<char>
    decreases s.len(),
{
    if s.len() > 0 && is_white_space(s[0]) {
        trim_start(s.drop_first())
    } else {
        s
    }
}

/// `s` without its trailing white space.
pub open spec fn trim_end(s: Seq<char>) -> Seq<char>
    decreases s.len(),
{
    if s.len() > 0 && is_white_space(s.last()) {
        trim_end(s.drop_last())
    } else {
        s
    }
}

/// `s` without leading and trailing white space.
pub open spec fn trim(s: Seq<char>) -> Seq<char> {
    trim_end(trim_start(s))
}

fn white_space(c: char) -> (r: bool)
    ensures
        r == is_white_space(c),
{
    let v = c as u32;
    (9 <= v && v <= 13) || v == 32 || v == 0x85 || v == 0xa0 || v == 0x1680 || (0x2000 <= v && v
        <= 0x200a) || v == 0x2028 || v == 0x2029 || v == 0x202f || v == 0x205f || v == 0x3000
}

/// Leading white space up to `k`, and none at `k`: trimming the start
/// leaves what follows `k`.
pub proof fn lemma_trim_start_at(s: Seq<char>, k: int)
    requires
        0 <= k <= s.len(),
        forall|j: int| 0 <= j < k ==> is_white_space(#[trigger] s[j]),
        k < s.len() ==> !is_white_space(s[k]),
    ensures
        trim_start(s) == s.subrange(k, s.len() as int),
    decreases k,
{
    if k == 0 {
        if s.len() > 0 {
            assert(!is_white_space(s[0]));
        }
        assert(s.subrange(0, s.len() as int) =~= s);
    } else {
        let t = s.drop_first();
        assert forall|j: int| 0 <= j < k - 1 implies is_white_space(#[trigger] t[j]) by {
            assert(t[j] == s[j + 1]);
        }
        if k - 1 < t.len() {
            assert(t[k - 1] == s[k]);
        }
        lemma_trim_start_at(t, k - 1);
        assert(is_white_space(s[0]));
        assert(t.subrange(k - 1, t.len() as int) =~= s.subrange(k, s.len() as int));
    }
}

/// Trailing white space from `m` on, and none just before `m`: trimming
/// the end leaves what precedes `m`.
pub proof fn lemma_trim_end_at(s: Seq<char>, m: int)
    requires
        0 <= m <= s.len(),
        forall|j: int| m <= j < s.len() ==> is_white_space(#[trigger] s[j]),
        m > 0 ==> !is_white_space(s[m - 1]),
    ensures
        trim_end(s) == s.subrange(0, m),
    decreases s.len() - m,
{
    if m == s.len() {
        if s.len() > 0 {
            assert(!is_white_space(s.last()));
        }
        assert(s.subrange(0, m) =~= s);
    } else {
        let t = s.drop_last();
        assert forall|j: int| m <= j < t.len() implies is_white_space(#[trigger] t[j]) by {
            assert(t[j] == s[j]);
        }
        if m > 0 {
            assert(t[m - 1] == s[m - 1]);
        }
        lemma_trim_end_at(t, m);
        assert(is_white_space(s.last()));
        assert(t.subrange(0, m) =~= s.subrange(0, m));
    }
}

/// `s` without leading and trailing characters of the Unicode `White_Space`
/// property, as std's `str::trim` gives it.
pub fn trim_text(s: &str) -> (r: &str)
    ensures
        r@ == trim(s@),
{
    let n = s.unicode_len();
    let mut idx: usize = 0;
    let mut found = false;
    let mut start: usize = 0;
    let mut end: usize = 0;
    for c in it: s.chars()
        invariant
            it.seq() == s@,
            idx == it.index(),
            idx <= s@.len(),
            n == s@.len(),
            !found ==> end == 0,
            !found ==> forall|j: int| 0 <= j < idx ==> is_white_space(#[trigger] s@[j]),
            found ==> start < end <= idx,
            found ==> !is_white_space(s@[start as int]) && !is_white_space(s@[end - 1]),
            found ==> forall|j: int| 0 <= j < start ==> is_white_space(#[trigger] s@[j]),
            found ==> forall|j: int| end <= j < idx ==> is_white_space(#[trigger] s@[j]),
    {
        assert(c == s@[idx as int]);
        if !white_space(c) {
            if !found {
                found = true;
                start = idx;
            }
            end = idx + 1;
        }
        idx = idx + 1;
    }
    proof {
        if found {
            lemma_trim_start_at(s@, start as int);
            let t = s@.subrange(start as int, s@.len() as int);
            assert forall|j: int| end - start <= j < t.len() implies is_white_space(#[trigger] t[j]) by {
                assert(t[j] == s@[j + start]);
            }
            assert(t[end - start - 1] == s@[end - 1]);
            lemma_trim_end_at(t, end - start);
            assert(t.subrange(0, end - start) =~= s@.subrange(start as int, end as int));
        } else {
            lemma_trim_start_at(s@, s@.len() as int);
            assert(s@.subrange(s@.len() as int, s@.len() as int) =~= Seq::<char>::empty());
            lemma_trim_end_at(Seq::<char>::empty(), 0);
            assert(Seq::<char>::empty().subrange(0, 0) =~= Seq::<char>::empty());
            assert(s@.subrange(0, 0) =~= Seq::<char>::empty());
        }
    }
    if found {
        s.substring_char(start, end)
    } else {
        s.substring_char(0, 0)
    }
}

/// Trimmed text neither starts nor ends with white space.
pub proof fn lemma_trim_start_clean(s: Seq<char>)
    ensures
        trim_start(s).len() > 0 ==> !is_white_space(trim_start(s)[0]),
        trim_start(s).len() <= s.len(),
    decreases s.len(),
{
    if s.len() > 0 && is_white_space(s[0]) {
        lemma_trim_start_clean(s.drop_first());
    }
}

/// Trimming the end keeps a start that is not white space.
pub proof fn lemma_trim_end_keeps_start(s: Seq<char>)
    ensures
        trim_end(s).len() > 0 ==> trim_end(s)[0] == s[0],
        trim_end(s).len() > 0 ==> !is_white_space(trim_end(s).last()),
        trim_end(s).len() <= s.len(),
    decreases s.len(),
{
    if s.len() > 0 && is_white_space(s.last()) {
        lemma_trim_end_keeps_start(s.drop_last());
    }
}

/// Text without white space at either end is left as it is by trimming.
pub proof fn lemma_trim_clean(s: Seq<char>)
    requires
        s.len() > 0 ==> !is_white_space(s[0]) && !is_white_space(s.last()),
    ensures
        trim(s) == s,
{
}

/// Trimmed text has no white space at either end, so trimming twice is
/// trimming once.
pub proof fn lemma_trim_idempotent(s: Seq<char>)
    ensures
        trim(s).len() > 0 ==> !is_white_space(trim(s)[0]) && !is_white_space(trim(s).last()),
        trim(trim(s)) == trim(s),
{
    lemma_trim_start_clean(s);
    lemma_trim_end_keeps_start(trim_start(s));
    lemma_trim_clean(trim(s));
}

// ---------------------------------------------------------------- prefixes

/// Whether `s` begins with `p`.
pub fn has_prefix(s: &str, p: &str) -> (r: bool)
    ensures
        r == p@.is_prefix_of(s@),
{
    let n = p.unicode_len();
    let m = s.unicode_len();
    if n > m {
        return false;
    }
    let mut i: usize = 0;
    while i < n
        invariant
            n == p@.len(),
            m == s@.len(),
            n <= m,
            i <= n,
            forall|j: int| 0 <= j < i ==> p@[j] == s@[j],
        decreases n - i,
    {
        if p.get_char(i) != s.get_char(i) {
            return false;
        }
        i = i + 1;
    }
    true
}

// ---------------------------------------------------------------- comparison

/// subtle's `ConstantTimeEq::ct_eq` on byte slices, read as a `bool`.
/// Claimed, as its source shows: true exactly when both slices have the same
/// length and the same bytes (lengths are compared first, contents in
/// constant time).
#[verifier::external_body]
pub fn bytes_equal_constant_time(a: &[u8], b: &[u8]) -> (r: bool)
    ensures
        r == (a@ == b@),
{
    bool::from(a.ct_eq(b))
}

// ---------------------------------------------------------------- building

/// A new string holding `s`.
pub fn text(s: &str) -> (r: String)
    ensures
        r@ == s@,
{
    s.to_owned()
}

// ---------------------------------------------------------------- positions in a text

/// `x` stands somewhere in `s`, with some text before and after it.
pub open spec fn occurs_in(x: Seq<char>, s: Seq<char>) -> bool {
    exists|a: Seq<char>, b: Seq<char>| #[trigger] (a + x + b) == s
}

/// A text occurs in itself.
pub proof fn lemma_occurs_in_self(x: Seq<char>)
    ensures
        occurs_in(x, x),
{
    assert(Seq::<char>::empty() + x + Seq::<char>::empty() =~= x);
}

/// What occurs in `s` occurs in `p + s + q`.
pub proof fn lemma_occurs_in_extended(x: Seq<char>, s: Seq<char>, p: Seq<char>, q: Seq<char>)
    requires
        occurs_in(x, s),
    ensures
        occurs_in(x, p + s),
        occurs_in(x, s + q),
{
    let (a, b) = choose|a: Seq<char>, b: Seq<char>| #[trigger] (a + x + b) == s;
    assert((p + a) + x + b =~= p + s);
    assert(a + x + (b + q) =~= s + q);
}

/// The three pieces `x1`, `x2`, `x3` written one after the other after `p`
/// form a text that occurs in the whole.
pub proof fn lemma_occurs_in_run(p: Seq<char>, x1: Seq<char>, x2: Seq<char>, x3: Seq<char>)
    ensures
        occurs_in(x1 + x2 + x3, p + x1 + x2 + x3),
{
    assert(p + (x1 + x2 + x3) + Seq::<char>::empty() =~= p + x1 + x2 + x3);
}

/// A text is a prefix of itself followed by anything.
pub proof fn lemma_prefix_of_concat(p: Seq<char>, q: Seq<char>)
    ensures
        p.is_prefix_of(p + q),
{
    assert((p + q).subrange(0, p.len() as int) =~= p);
}

/// A prefix of a prefix is a prefix.
pub proof fn lemma_prefix_trans(a: Seq<char>, b: Seq<char>, c: Seq<char>)
    requires
        a.is_prefix_of(b),
        b.is_prefix_of(c),
    ensures
        a.is_prefix_of(c),
{
    assert(c.subrange(0, a.len() as int) =~= a) by {
        assert forall|i: int| 0 <= i < a.len() implies c.subrange(0, a.len() as int)[i] == a[i] by {
            assert(c.subrange(0, b.len() as int)[i] == c[i]);
        }
    }
}

/// A prefix stays a prefix when more text is written after the whole.
pub proof fn lemma_prefix_of_longer(p: Seq<char>, s: Seq<char>, q: Seq<char>)
    requires
        p.is_prefix_of(s),
    ensures
        p.is_prefix_of(s + q),
{
    lemma_prefix_of_concat(s, q);
    lemma_prefix_trans(p, s, s + q);
}

/// Putting the same text in front keeps a prefix a prefix.
pub proof fn lemma_prefix_after(x: Seq<char>, a: Seq<char>, b: Seq<char>)
    requires
        a.is_prefix_of(b),
    ensures
        (x + a).is_prefix_of(x + b),
{
    assert((x + b).subrange(0, (x + a).len() as int) =~= x + a) by {
        assert forall|i: int| 0 <= i < (x + a).len() implies (x + b).subrange(0, (x + a).len() as int)[i] == (x
            + a)[i] by {
            if i >= x.len() {
                assert(b.subrange(0, a.len() as int)[i - x.len()] == b[i - x.len()]);
            }
        }
    }
}

} // verus!
