//! Character-level text primitives that the panel formatters are built on:
//! template substitution, trimming, and decimal rendering of integers.
use vstd::prelude::*;

verus! {

// ---------------------------------------------------------------------------
// Specifications
// ---------------------------------------------------------------------------

/// Every non-overlapping occurrence of `pat` in `s`, scanned from the left,
/// replaced by `rep` (the meaning of `str::replace` for a non-empty pattern).
pub open spec fn replace_all(s: Seq<char>, pat: Seq<char>, rep: Seq<char>) -> Seq<char>
    decreases s.len(),
{
    if s.len() == 0 || pat.len() == 0 {
        s
    } else if pat.len() <= s.len() && s.take(pat.len() as int) == pat {
        rep + replace_all(s.skip(pat.len() as int), pat, rep)
    } else {
        seq![s[0]] + replace_all(s.skip(1), pat, rep)
    }
}

/// The Unicode `White_Space` property, which `char::is_whitespace` tests.
pub open spec fn is_whitespace(c: char) -> bool {
    ||| ('\u{9}' <= c && c <= '\u{d}')
    ||| c == ' '
    ||| c == '\u{85}'
    ||| c == '\u{a0}'
    ||| c == '\u{1680}'
    ||| ('\u{2000}' <= c && c <= '\u{200a}')
    ||| c == '\u{2028}'
    ||| c == '\u{2029}'
    ||| c == '\u{202f}'
    ||| c == '\u{205f}'
    ||| c == '\u{3000}'
}

/// `s` without its longest prefix of characters drawn from `set`.
pub open spec fn strip_start(s: Seq<char>, set: Seq<char>) -> Seq<char>
    decreases s.len(),
{
    if s.len() > 0 && set.contains(s[0]) {
        strip_start(s.drop_first(), set)
    } else {
        s
    }
}

/// `s` without its longest suffix of characters drawn from `set`.
pub open spec fn strip_end(s: Seq<char>, set: Seq<char>) -> Seq<char>
    decreases s.len(),
{
    if s.len() > 0 && set.contains(s.last()) {
        strip_end(s.drop_last(), set)
    } else {
        s
    }
}

/// `s` without its longest whitespace prefix.
pub open spec fn trim_start_ws(s: Seq<char>) -> Seq<char>
    decreases s.len(),
{
    if s.len() > 0 && is_whitespace(s[0]) {
        trim_start_ws(s.drop_first())
    } else {
        s
    }
}

/// `s` without its longest whitespace suffix.
pub open spec fn trim_end_ws(s: Seq<char>) -> Seq<char>
    decreases s.len(),
{
    if s.len() > 0 && is_whitespace(s.last()) {
        trim_end_ws(s.drop_last())
    } else {
        s
    }
}

/// What `str::trim` leaves of `s`.
pub open spec fn trim(s: Seq<char>) -> Seq<char> {
    trim_end_ws(trim_start_ws(s))
}

/// What `str::trim_matches` with a set of characters leaves of `s`.
pub open spec fn strip_both(s: Seq<char>, set: Seq<char>) -> Seq<char> {
    strip_end(strip_start(s, set), set)
}

/// The ASCII digit for `d < 10`.
pub open spec fn digit(d: nat) -> char {
    if d == 0 { '0' }
    else if d == 1 { '1' }
    else if d == 2 { '2' }
    else if d == 3 { '3' }
    else if d == 4 { '4' }
    else if d == 5 { '5' }
    else if d == 6 { '6' }
    else if d == 7 { '7' }
    else if d == 8 { '8' }
    else { '9' }
}

/// The decimal rendering of `n`, without leading zeros (what `to_string` gives).
pub open spec fn decimal(n: nat) -> Seq<char>
    decreases n,
{
    if n < 10 {
        seq![digit(n)]
    } else {
        decimal(n / 10).push(digit(n % 10))
    }
}

/// The decimal rendering of `n` padded with zeros to at least two digits
/// (what the format spec `{:02}` gives).
pub open spec fn decimal2(n: nat) -> Seq<char> {
    if n < 10 {
        seq!['0', digit(n)]
    } else {
        decimal(n)
    }
}


/// The parts joined with `sep` between neighbours (what `[String]::join` gives).
pub open spec fn join(parts: Seq<Seq<char>>, sep: Seq<char>) -> Seq<char>
    decreases parts.len(),
{
    if parts.len() == 0 {
        Seq::empty()
    } else if parts.len() == 1 {
        parts[0]
    } else {
        join(parts.drop_last(), sep) + sep + parts.last()
    }
}

/// `n` followed by a percent sign.
pub open spec fn percent(n: nat) -> Seq<char> {
    decimal(n) + "%"@
}

/// The positions of the items of `s` that `keep` accepts, in order: what a
/// `filter` keeps of a list, by index.
pub open spec fn kept_positions<T>(s: Seq<T>, keep: spec_fn(T) -> bool) -> Seq<int>
    decreases s.len(),
{
    if s.len() == 0 {
        Seq::empty()
    } else {
        let rest = kept_positions(s.drop_last(), keep);
        if keep(s.last()) {
            rest.push(s.len() - 1)
        } else {
            rest
        }
    }
}

/// The views of a list of strings.
pub open spec fn views(parts: Seq<String>) -> Seq<Seq<char>> {
    parts.map_values(|p: String| p@)
}

/// An ASCII hexadecimal digit (`char::is_ascii_hexdigit`).
pub open spec fn is_hex_digit(c: char) -> bool {
    ('0' <= c && c <= '9') || ('a' <= c && c <= 'f') || ('A' <= c && c <= 'F')
}

/// `a` sorts strictly before `b` in the order of `str`'s `Ord`: by code
/// point, a proper prefix first.
pub open spec fn text_before(a: Seq<char>, b: Seq<char>) -> bool
    decreases a.len(),
{
    if a.len() == 0 {
        b.len() > 0
    } else if b.len() == 0 {
        false
    } else if a[0] != b[0] {
        (a[0] as u32) < (b[0] as u32)
    } else {
        text_before(a.drop_first(), b.drop_first())
    }
}

/// The lower-case form of a text (`str::to_lowercase`, full Unicode case mapping).
pub uninterp spec fn lowercase(s: Seq<char>) -> Seq<char>;

/// A character with ASCII capitals made small (`char::to_ascii_lowercase`).
pub open spec fn ascii_lower_char(c: char) -> char {
    if 'A' <= c && c <= 'Z' {
        ((c as u32) + 32) as char
    } else {
        c
    }
}

/// A text with ASCII capitals made small (`str::to_ascii_lowercase`).
pub open spec fn ascii_lower(s: Seq<char>) -> Seq<char> {
    s.map_values(|c: char| ascii_lower_char(c))
}

/// Whether `s` ends with `suffix`.
pub open spec fn ends_with(s: Seq<char>, suffix: Seq<char>) -> bool {
    suffix.len() <= s.len() && s.subrange(s.len() - suffix.len(), s.len() as int) == suffix
}

/// `s` without `suffix` when it ends with it (`str::strip_suffix`, or `s` itself).
pub open spec fn without_suffix(s: Seq<char>, suffix: Seq<char>) -> Seq<char> {
    if ends_with(s, suffix) {
        s.subrange(0, s.len() - suffix.len())
    } else {
        s
    }
}

/// What `String::from_utf8_lossy` makes of `bytes`.
pub uninterp spec fn utf8_lossy(bytes: Seq<u8>) -> Seq<char>;

/// The upper-case form of a text (`str::to_uppercase`, full Unicode case mapping).
pub uninterp spec fn uppercase(s: Seq<char>) -> Seq<char>;

// ---------------------------------------------------------------------------
// Lemmas
// ---------------------------------------------------------------------------

/// Removing characters from the front never lengthens a sequence.
pub proof fn lemma_strip_start_is_suffix(s: Seq<char>, set: Seq<char>)
    ensures
        strip_start(s, set).len() <= s.len(),
        strip_start(s, set) == s.skip(s.len() - strip_start(s, set).len()),
    decreases s.len(),
{
    if s.len() > 0 && set.contains(s[0]) {
        lemma_strip_start_is_suffix(s.drop_first(), set);
        let r = strip_start(s.drop_first(), set);
        assert(s.drop_first().skip(s.drop_first().len() - r.len()) =~= s.skip(s.len() - r.len()));
    } else {
        assert(s.skip(0) =~= s);
    }
}

/// Extending a list by one item adds that item's position exactly when it is kept.
pub proof fn lemma_kept_positions_step<T>(s: Seq<T>, i: int, keep: spec_fn(T) -> bool)
    requires
        0 <= i < s.len(),
    ensures
        kept_positions(s.take(i + 1), keep) == (if keep(s[i]) {
            kept_positions(s.take(i), keep).push(i)
        } else {
            kept_positions(s.take(i), keep)
        }),
{
    assert(s.take(i + 1).drop_last() =~= s.take(i));
}

/// Every kept position lies inside the list, and positions ascend.
pub proof fn lemma_kept_positions_bounds<T>(s: Seq<T>, keep: spec_fn(T) -> bool)
    ensures
        forall|k: int| 0 <= k < kept_positions(s, keep).len() ==> 0 <= #[trigger] kept_positions(s, keep)[k] < s.len(),
        forall|k: int| 0 <= k < kept_positions(s, keep).len() ==> keep(s[#[trigger] kept_positions(s, keep)[k]]),
        forall|j: int, k: int| 0 <= j < k < kept_positions(s, keep).len() ==> kept_positions(s, keep)[j] < kept_positions(s, keep)[k],
    decreases s.len(),
{
    if s.len() > 0 {
        lemma_kept_positions_bounds(s.drop_last(), keep);
        let rest = kept_positions(s.drop_last(), keep);
        assert forall|k: int| 0 <= k < rest.len() implies s.drop_last()[rest[k]] == s[rest[k]] by {}
    }
}

/// Decimal renderings are never empty.
pub proof fn lemma_decimal_nonempty(n: nat)
    ensures
        decimal(n).len() >= 1,
    decreases n,
{
    if n >= 10 {
        lemma_decimal_nonempty(n / 10);
    }
}

// ---------------------------------------------------------------------------
// Executable primitives
// ---------------------------------------------------------------------------

/// Appends one character to a `String` (`String::push`).
#[verifier::external_body]
fn push_char(s: &mut String, c: char)
    ensures
        final(s)@ == old(s)@.push(c),
{
    s.push(c);
}

/// The characters of `s`, in order.
pub fn chars_of(s: &str) -> (out: Vec<char>)
    ensures
        out@ == s@,
{
    let mut out: Vec<char> = Vec::new();
    for c in it: s.chars()
        invariant
            out@ == it.seq().take(it.index() as int),
    {
        out.push(c);
    }
    out
}

/// A `String` holding exactly the characters of `v`.
pub fn string_of(v: &Vec<char>) -> (out: String)
    ensures
        out@ == v@,
{
    let mut out = String::new();
    let mut i: usize = 0;
    while i < v.len()
        invariant
            i <= v.len(),
            out@ == v@.take(i as int),
        decreases v.len() - i,
    {
        push_char(&mut out, v[i]);
        assert(v@.take(i + 1) =~= v@.take(i as int).push(v@[i as int]));
        i += 1;
    }
    assert(v@.take(v.len() as int) =~= v@);
    out
}

/// A `String` holding the characters of the literal `s`.
pub fn owned(s: &str) -> (out: String)
    ensures
        out@ == s@,
{
    s.to_owned()
}

/// Whether `pat` occurs in `s` at position `i`.
fn matches_at(s: &Vec<char>, i: usize, pat: &Vec<char>) -> (b: bool)
    requires
        i <= s.len(),
    ensures
        b == (i + pat.len() <= s.len() && s@.subrange(i as int, i + pat.len()) == pat@),
{
    if pat.len() > s.len() - i {
        return false;
    }
    let mut k: usize = 0;
    while k < pat.len()
        invariant
            k <= pat.len(),
            i + pat.len() <= s.len(),
            forall|j: int| 0 <= j < k ==> s@[i + j] == pat@[j],
        decreases pat.len() - k,
    {
        if s[i + k] != pat[k] {
            assert(s@.subrange(i as int, i + pat.len())[k as int] != pat@[k as int]);
            return false;
        }
        k += 1;
    }
    assert(s@.subrange(i as int, i + pat.len()) =~= pat@);
    true
}

/// `s` with every occurrence of the non-empty `pat` replaced by `rep`.
pub fn replace_chars(s: &Vec<char>, pat: &Vec<char>, rep: &Vec<char>) -> (out: Vec<char>)
    requires
        pat.len() > 0,
    ensures
        out@ == replace_all(s@, pat@, rep@),
{
    let mut out: Vec<char> = Vec::new();
    let mut i: usize = 0;
    assert(s@.skip(0) =~= s@);
    while i < s.len()
        invariant
            i <= s.len(),
            pat.len() > 0,
            out@ + replace_all(s@.skip(i as int), pat@, rep@) == replace_all(s@, pat@, rep@),
        decreases s.len() - i,
    {
        let ghost rest = s@.skip(i as int);
        let ghost before = out@;
        if matches_at(s, i, pat) {
            assert(rest.take(pat.len() as int) =~= s@.subrange(i as int, i + pat.len()));
            assert(rest.skip(pat.len() as int) =~= s@.skip(i + pat.len()));
            out.extend_from_slice(rep.as_slice());
            assert(before + (rep@ + replace_all(s@.skip(i + pat.len()), pat@, rep@)) =~= out@
                + replace_all(s@.skip(i + pat.len()), pat@, rep@));
            i += pat.len();
        } else {
            assert(pat.len() <= rest.len() ==> rest.take(pat.len() as int) =~= s@.subrange(
                i as int,
                i + pat.len(),
            ));
            assert(rest.skip(1) =~= s@.skip(i + 1));
            assert(rest[0] == s@[i as int]);
            out.push(s[i]);
            assert(before + (seq![s@[i as int]] + replace_all(s@.skip(i + 1), pat@, rep@)) =~= out@
                + replace_all(s@.skip(i + 1), pat@, rep@));
            i += 1;
        }
    }
    assert(s@.skip(i as int) =~= Seq::<char>::empty());
    assert(out@ + Seq::<char>::empty() =~= out@);
    out
}

/// Whether `c` is one of the characters in `set`.
fn in_set(set: &[char], c: char) -> (b: bool)
    ensures
        b == set@.contains(c),
{
    let mut i: usize = 0;
    while i < set.len()
        invariant
            i <= set.len(),
            forall|j: int| 0 <= j < i ==> set@[j] != c,
        decreases set.len() - i,
    {
        if set[i] == c {
            return true;
        }
        i += 1;
    }
    false
}

/// Whether `c` is whitespace (`char::is_whitespace`).
pub fn char_is_whitespace(c: char) -> (b: bool)
    ensures
        b == is_whitespace(c),
{
    ('\u{9}' <= c && c <= '\u{d}') || c == ' ' || c == '\u{85}' || c == '\u{a0}' || c == '\u{1680}'
        || ('\u{2000}' <= c && c <= '\u{200a}') || c == '\u{2028}' || c == '\u{2029}' || c
        == '\u{202f}' || c == '\u{205f}' || c == '\u{3000}'
}

/// The subrange `[lo, hi)` of `v`.
fn slice_chars(v: &Vec<char>, lo: usize, hi: usize) -> (out: Vec<char>)
    requires
        lo <= hi <= v.len(),
    ensures
        out@ == v@.subrange(lo as int, hi as int),
{
    let mut out: Vec<char> = Vec::new();
    let mut i = lo;
    while i < hi
        invariant
            lo <= i <= hi <= v.len(),
            out@ == v@.subrange(lo as int, i as int),
        decreases hi - i,
    {
        out.push(v[i]);
        assert(v@.subrange(lo as int, i + 1) =~= v@.subrange(lo as int, i as int).push(v@[i as int]));
        i += 1;
    }
    out
}

/// `v` without its longest suffix of characters from `set` (`trim_end_matches`).
pub fn strip_end_chars(v: &Vec<char>, set: &[char]) -> (out: Vec<char>)
    ensures
        out@ == strip_end(v@, set@),
{
    let mut hi = v.len();
    assert(v@.take(v.len() as int) =~= v@);
    while hi > 0 && in_set(set, v[hi - 1])
        invariant
            hi <= v.len(),
            strip_end(v@.take(hi as int), set@) == strip_end(v@, set@),
        decreases hi,
    {
        assert(v@.take(hi as int).drop_last() =~= v@.take(hi - 1));
        hi -= 1;
    }
    assert(v@.take(v.len() as int) =~= v@);
    let out = slice_chars(v, 0, hi);
    assert(out@ =~= v@.take(hi as int));
    out
}

/// `v` without its longest prefix of characters from `set` (`trim_start_matches`).
pub fn strip_start_chars(v: &Vec<char>, set: &[char]) -> (out: Vec<char>)
    ensures
        out@ == strip_start(v@, set@),
{
    let mut lo: usize = 0;
    assert(v@.skip(0) =~= v@);
    while lo < v.len() && in_set(set, v[lo])
        invariant
            lo <= v.len(),
            strip_start(v@.skip(lo as int), set@) == strip_start(v@, set@),
        decreases v.len() - lo,
    {
        assert(v@.skip(lo as int).drop_first() =~= v@.skip(lo + 1));
        lo += 1;
    }
    let out = slice_chars(v, lo, v.len());
    assert(out@ =~= v@.skip(lo as int));
    out
}

/// `v` with characters from `set` stripped from both ends (`trim_matches`).
pub fn strip_both_chars(v: &Vec<char>, set: &[char]) -> (out: Vec<char>)
    ensures
        out@ == strip_both(v@, set@),
{
    let front = strip_start_chars(v, set);
    strip_end_chars(&front, set)
}

/// `v` with leading and trailing whitespace removed (`str::trim`).
pub fn trim_chars(v: &Vec<char>) -> (out: Vec<char>)
    ensures
        out@ == trim(v@),
{
    let mut lo: usize = 0;
    assert(v@.skip(0) =~= v@);
    while lo < v.len() && char_is_whitespace(v[lo])
        invariant
            lo <= v.len(),
            trim_start_ws(v@.skip(lo as int)) == trim_start_ws(v@),
        decreases v.len() - lo,
    {
        assert(v@.skip(lo as int).drop_first() =~= v@.skip(lo + 1));
        lo += 1;
    }
    let front = slice_chars(v, lo, v.len());
    assert(front@ =~= v@.skip(lo as int));
    let mut hi = front.len();
    assert(front@.take(front.len() as int) =~= front@);
    while hi > 0 && char_is_whitespace(front[hi - 1])
        invariant
            hi <= front.len(),
            trim_end_ws(front@.take(hi as int)) == trim_end_ws(front@),
        decreases hi,
    {
        assert(front@.take(hi as int).drop_last() =~= front@.take(hi - 1));
        hi -= 1;
    }
    assert(front@.take(front.len() as int) =~= front@);
    let out = slice_chars(&front, 0, hi);
    assert(out@ =~= front@.take(hi as int));
    out
}

/// The digit character for `d < 10`.
fn digit_char(d: u64) -> (c: char)
    requires
        d < 10,
    ensures
        c == digit(d as nat),
{
    if d == 0 { '0' }
    else if d == 1 { '1' }
    else if d == 2 { '2' }
    else if d == 3 { '3' }
    else if d == 4 { '4' }
    else if d == 5 { '5' }
    else if d == 6 { '6' }
    else if d == 7 { '7' }
    else if d == 8 { '8' }
    else { '9' }
}

/// The decimal rendering of `n`.
pub fn decimal_chars(n: u64) -> (out: Vec<char>)
    ensures
        out@ == decimal(n as nat),
    decreases n,
{
    if n < 10 {
        let mut out: Vec<char> = Vec::new();
        out.push(digit_char(n));
        assert(out@ =~= seq![digit(n as nat)]);
        out
    } else {
        let mut out = decimal_chars(n / 10);
        out.push(digit_char(n % 10));
        out
    }
}

/// The decimal rendering of `n` padded to two digits.
pub fn decimal2_chars(n: u64) -> (out: Vec<char>)
    ensures
        out@ == decimal2(n as nat),
{
    if n < 10 {
        let mut out: Vec<char> = Vec::new();
        out.push('0');
        out.push(digit_char(n));
        assert(out@ =~= seq!['0', digit(n as nat)]);
        out
    } else {
        decimal_chars(n)
    }
}

/// `a` followed by `b`.
pub fn concat_chars(a: &Vec<char>, b: &Vec<char>) -> (out: Vec<char>)
    ensures
        out@ == a@ + b@,
{
    let mut out = a.clone();
    out.extend_from_slice(b.as_slice());
    out
}

/// Whether two character vectors are equal.
pub fn eq_chars(a: &Vec<char>, b: &Vec<char>) -> (r: bool)
    ensures
        r == (a@ == b@),
{
    if a.len() != b.len() {
        return false;
    }
    let mut i: usize = 0;
    while i < a.len()
        invariant
            i <= a.len(),
            a.len() == b.len(),
            forall|j: int| 0 <= j < i ==> a@[j] == b@[j],
        decreases a.len() - i,
    {
        if a[i] != b[i] {
            return false;
        }
        i += 1;
    }
    assert(a@ =~= b@);
    true
}

/// Whether two strings hold the same characters.
pub fn eq_str(a: &str, b: &str) -> (r: bool)
    ensures
        r == (a@ == b@),
{
    let x = chars_of(a);
    let y = chars_of(b);
    eq_chars(&x, &y)
}

/// Replaces `pat` (a non-empty literal) by `rep` in `s`.
pub fn replace_str(s: &Vec<char>, pat: &str, rep: &Vec<char>) -> (out: Vec<char>)
    requires
        pat@.len() > 0,
    ensures
        out@ == replace_all(s@, pat@, rep@),
{
    let p = chars_of(pat);
    replace_chars(s, &p, rep)
}

/// The upper-case form of `s`.
#[verifier::external_body]
pub(crate) fn to_uppercase(s: &str) -> (out: String)
    ensures
        out@ == uppercase(s@),
{
    s.to_uppercase()
}

/// `n` followed by a percent sign.
pub fn percent_text(n: u64) -> (out: String)
    ensures
        out@ == percent(n as nat),
{
    string_of(&concat_chars(&decimal_chars(n), &chars_of("%")))
}

/// The parts joined with `sep` between neighbours.
pub fn join_strings(parts: &Vec<String>, sep: &str) -> (out: String)
    ensures
        out@ == join(views(parts@), sep@),
{
    let ghost v = views(parts@);
    if parts.len() == 0 {
        return String::new();
    }
    let mut out = chars_of(parts[0].as_str());
    let sepc = chars_of(sep);
    let mut i: usize = 1;
    assert(v.take(1).drop_last() =~= Seq::<Seq<char>>::empty());
    while i < parts.len()
        invariant
            1 <= i <= parts.len(),
            v == views(parts@),
            sepc@ == sep@,
            out@ == join(v.take(i as int), sep@),
        decreases parts.len() - i,
    {
        let next = chars_of(parts[i].as_str());
        out = concat_chars(&concat_chars(&out, &sepc), &next);
        assert(v.take(i + 1).drop_last() =~= v.take(i as int));
        i += 1;
    }
    assert(v.take(parts.len() as int) =~= v);
    string_of(&out)
}

/// Whether `c` is an ASCII hexadecimal digit.
pub fn hex_digit(c: char) -> (out: bool)
    ensures
        out == is_hex_digit(c),
{
    ('0' <= c && c <= '9') || ('a' <= c && c <= 'f') || ('A' <= c && c <= 'F')
}

/// Whether `a` sorts strictly before `b`.
pub fn text_lt(a: &str, b: &str) -> (out: bool)
    ensures
        out == text_before(a@, b@),
{
    let x = chars_of(a);
    let y = chars_of(b);
    let mut i: usize = 0;
    assert(x@.skip(0) =~= x@);
    assert(y@.skip(0) =~= y@);
    while i < x.len() && i < y.len()
        invariant
            i <= x.len(),
            i <= y.len(),
            x@ == a@,
            y@ == b@,
            text_before(a@, b@) == text_before(x@.skip(i as int), y@.skip(i as int)),
        decreases x.len() - i,
    {
        if x[i] != y[i] {
            return (x[i] as u32) < (y[i] as u32);
        }
        assert(x@.skip(i as int).drop_first() =~= x@.skip(i + 1));
        assert(y@.skip(i as int).drop_first() =~= y@.skip(i + 1));
        i += 1;
    }
    i < y.len()
}

/// Whether `c` occurs in `v`.
pub fn contains_char(v: &Vec<char>, c: char) -> (out: bool)
    ensures
        out == v@.contains(c),
{
    let mut i: usize = 0;
    while i < v.len()
        invariant
            i <= v.len(),
            forall|j: int| 0 <= j < i ==> v@[j] != c,
        decreases v.len() - i,
    {
        if v[i] == c {
            assert(v@[i as int] == c);
            return true;
        }
        i += 1;
    }
    false
}

/// The lower-case form of `s`.
#[verifier::external_body]
pub(crate) fn to_lowercase(s: &str) -> (out: String)
    ensures
        out@ == lowercase(s@),
{
    s.to_lowercase()
}

/// `v` with ASCII capitals made small.
pub fn ascii_lowercase_chars(v: &Vec<char>) -> (out: Vec<char>)
    ensures
        out@ == ascii_lower(v@),
{
    let mut out: Vec<char> = Vec::new();
    let mut i: usize = 0;
    while i < v.len()
        invariant
            i <= v.len(),
            out@ == ascii_lower(v@.take(i as int)),
        decreases v.len() - i,
    {
        let c = v[i];
        let lower = if 'A' <= c && c <= 'Z' {
            ((c as u8) + 32) as char
        } else {
            c
        };
        proof {
            if 'A' <= c && c <= 'Z' {
                assert((c as u8) as u32 == c as u32);
            }
        }
        out.push(lower);
        assert(ascii_lower(v@.take(i + 1)) =~= ascii_lower(v@.take(i as int)).push(ascii_lower_char(c)));
        i += 1;
    }
    assert(v@.take(v.len() as int) =~= v@);
    out
}

/// Whether `v` ends with the characters of `suffix`.
pub fn ends_with_chars(v: &Vec<char>, suffix: &Vec<char>) -> (out: bool)
    ensures
        out == ends_with(v@, suffix@),
{
    if suffix.len() > v.len() {
        return false;
    }
    let start = v.len() - suffix.len();
    let mut k: usize = 0;
    while k < suffix.len()
        invariant
            k <= suffix.len(),
            start + suffix.len() == v.len(),
            forall|j: int| 0 <= j < k ==> v@[start + j] == suffix@[j],
        decreases suffix.len() - k,
    {
        if v[start + k] != suffix[k] {
            assert(v@.subrange(start as int, v.len() as int)[k as int] != suffix@[k as int]);
            return false;
        }
        k += 1;
    }
    assert(v@.subrange(start as int, v.len() as int) =~= suffix@);
    true
}

/// `v` without `suffix` when it ends with it.
pub fn without_suffix_chars(v: &Vec<char>, suffix: &Vec<char>) -> (out: Vec<char>)
    ensures
        out@ == without_suffix(v@, suffix@),
{
    if ends_with_chars(v, suffix) {
        let end = v.len() - suffix.len();
        slice_prefix(v, end)
    } else {
        v.clone()
    }
}

/// The first `n` characters of `v`.
pub fn slice_prefix(v: &Vec<char>, n: usize) -> (out: Vec<char>)
    requires
        n <= v.len(),
    ensures
        out@ == v@.subrange(0, n as int),
{
    let mut out: Vec<char> = Vec::new();
    let mut i: usize = 0;
    while i < n
        invariant
            i <= n,
            n <= v.len(),
            out@ == v@.subrange(0, i as int),
        decreases n - i,
    {
        out.push(v[i]);
        assert(v@.subrange(0, i + 1) =~= v@.subrange(0, i as int).push(v@[i as int]));
        i += 1;
    }
    out
}

/// Decodes bytes as UTF-8, replacing invalid sequences (`String::from_utf8_lossy`);
/// valid UTF-8 decodes to its characters.
#[verifier::external_body]
pub(crate) fn from_utf8_lossy(bytes: &[u8]) -> (out: String)
    ensures
        out@ == utf8_lossy(bytes@),
        vstd::utf8::valid_utf8(bytes@) ==> out@ == vstd::utf8::decode_utf8(bytes@),
{
    String::from_utf8_lossy(bytes).into_owned()
}

/// `v` without trailing whitespace.
pub fn trim_end_chars(v: &Vec<char>) -> (out: Vec<char>)
    ensures
        out@ == trim_end_ws(v@),
{
    let mut hi = v.len();
    assert(v@.take(v.len() as int) =~= v@);
    while hi > 0 && char_is_whitespace(v[hi - 1])
        invariant
            hi <= v.len(),
            trim_end_ws(v@.take(hi as int)) == trim_end_ws(v@),
        decreases hi,
    {
        assert(v@.take(hi as int).drop_last() =~= v@.take(hi - 1));
        hi -= 1;
    }
    let out = slice_chars(v, 0, hi);
    assert(out@ =~= v@.take(hi as int));
    out
}

} // verus!
