//! Character and string primitives shared by the validators and parsers.
//!
//! Every executable helper here is specified over the character sequence
//! (`Seq<char>`) of its input, so that the contracts of the callers can be
//! stated in the same mathematical vocabulary.
use vstd::prelude::*;

verus! {

/// Unicode `White_Space`, which is what `char::is_whitespace` tests.
pub open spec fn is_ws(c: char) -> bool {
    ||| ('\u{9}' <= c && c <= '\u{d}')
    ||| c == ' '
    ||| c == '\u{85}'
    ||| c == '\u{a0}'
    ||| c == '\u{1680}'
    ||| ('\u{2000}' <= c && c <= '\u{200a}')
    ||| c == '\u{2028}'
    ||| c == '\u{2029}'
    ||| c == '\u{202f}'
    ||| c == '\u{205f}'
    ||| c == '\u{3000}'
}

pub open spec fn is_ascii_upper(c: char) -> bool {
    'A' <= c && c <= 'Z'
}

pub open spec fn is_ascii_lower(c: char) -> bool {
    'a' <= c && c <= 'z'
}

pub open spec fn is_ascii_digit(c: char) -> bool {
    '0' <= c && c <= '9'
}

pub open spec fn is_ascii_alpha(c: char) -> bool {
    is_ascii_upper(c) || is_ascii_lower(c)
}

pub open spec fn is_ascii_alnum(c: char) -> bool {
    is_ascii_alpha(c) || is_ascii_digit(c)
}

/// `char::to_ascii_lowercase`.
pub open spec fn ascii_lower(c: char) -> char {
    if is_ascii_upper(c) {
        ((c as int) + 32) as char
    } else {
        c
    }
}

/// `str::to_ascii_lowercase`, character by character.
pub open spec fn lower_seq(s: Seq<char>) -> Seq<char> {
    s.map_values(|c: char| ascii_lower(c))
}

pub open spec fn has_ws(s: Seq<char>) -> bool {
    exists|i: int| 0 <= i < s.len() && is_ws(#[trigger] s[i])
}

/// `pat` occurs in `s` at position `i`.
pub open spec fn occurs_at(s: Seq<char>, pat: Seq<char>, i: int) -> bool {
    0 <= i && i + pat.len() <= s.len() && s.subrange(i, i + pat.len()) == pat
}

/// `str::contains` with a string pattern.
pub open spec fn contains_seq(s: Seq<char>, pat: Seq<char>) -> bool {
    exists|i: int| #[trigger] occurs_at(s, pat, i)
}

pub open spec fn starts_with_char(s: Seq<char>, c: char) -> bool {
    s.len() > 0 && s[0] == c
}

/// The pieces of `str::split` on one character: always at least one piece.
pub open spec fn split_on(s: Seq<char>, sep: char) -> Seq<Seq<char>>
    decreases s.len(),
{
    if s.len() == 0 {
        seq![Seq::<char>::empty()]
    } else {
        let rest = split_on(s.drop_last(), sep);
        if s.last() == sep {
            rest.push(Seq::<char>::empty())
        } else {
            rest.update(rest.len() - 1, rest.last().push(s.last()))
        }
    }
}

/// Removes one trailing carriage return.
pub open spec fn strip_cr(l: Seq<char>) -> Seq<char> {
    if l.len() > 0 && l.last() == '\r' {
        l.drop_last()
    } else {
        l
    }
}

/// `str::lines`: pieces ended by `\n` lose a trailing `\r`; a last empty
/// piece is not a line.
pub open spec fn lines_of(s: Seq<char>) -> Seq<Seq<char>> {
    let pieces = split_on(s, '\n');
    let body = pieces.take(pieces.len() - 1).map_values(|l: Seq<char>| strip_cr(l));
    if pieces.last().len() == 0 {
        body
    } else {
        body.push(pieces.last())
    }
}

pub open spec fn trim_start(s: Seq<char>) -> Seq<char>
    decreases s.len(),
{
    if s.len() > 0 && is_ws(s[0]) {
        trim_start(s.drop_first())
    } else {
        s
    }
}

pub open spec fn trim_end(s: Seq<char>) -> Seq<char>
    decreases s.len(),
{
    if s.len() > 0 && is_ws(s.last()) {
        trim_end(s.drop_last())
    } else {
        s
    }
}

/// `str::trim`.
pub open spec fn trimmed(s: Seq<char>) -> Seq<char> {
    trim_end(trim_start(s))
}

/// Index of the first `c` in `s`, or -1.
pub open spec fn first_index(s: Seq<char>, c: char) -> int
    decreases s.len(),
{
    if s.len() == 0 {
        -1
    } else if s[0] == c {
        0
    } else {
        let r = first_index(s.drop_first(), c);
        if r < 0 {
            -1
        } else {
            r + 1
        }
    }
}

/// `str::split_once` on one character.
pub open spec fn split_once(s: Seq<char>, c: char) -> Option<(Seq<char>, Seq<char>)> {
    let i = first_index(s, c);
    if i < 0 {
        None
    } else {
        Some((s.subrange(0, i), s.subrange(i + 1, s.len() as int)))
    }
}

pub proof fn lemma_first_index(s: Seq<char>, c: char)
    ensures
        first_index(s, c) < 0 <==> !s.contains(c),
        first_index(s, c) >= 0 ==> {
            &&& first_index(s, c) < s.len()
            &&& s[first_index(s, c)] == c
            &&& forall|j: int| 0 <= j < first_index(s, c) ==> s[j] != c
        },
        first_index(s, c) >= -1,
    decreases s.len(),
{
    if s.len() > 0 {
        lemma_first_index(s.drop_first(), c);
        if s[0] != c {
            if s.contains(c) {
                let k = choose|k: int| 0 <= k < s.len() && s[k] == c;
                assert(s.drop_first()[k - 1] == c);
            }
            if s.drop_first().contains(c) {
                let k = choose|k: int| 0 <= k < s.len() - 1 && s.drop_first()[k] == c;
                assert(s[k + 1] == c);
                let r = first_index(s.drop_first(), c);
                assert forall|j: int| 0 <= j < r + 1 implies s[j] != c by {
                    if j > 0 {
                        assert(s[j] == s.drop_first()[j - 1]);
                    }
                }
            }
        }
    }
}

pub proof fn lemma_first_index_unique(s: Seq<char>, c: char, i: int)
    requires
        0 <= i < s.len(),
        s[i] == c,
        forall|j: int| 0 <= j < i ==> s[j] != c,
    ensures
        first_index(s, c) == i,
{
    lemma_first_index(s, c);
    assert(s.contains(c));
}

proof fn lemma_trim_start_skip(s: Seq<char>, i: int)
    requires
        0 <= i <= s.len(),
        forall|j: int| 0 <= j < i ==> is_ws(s[j]),
    ensures
        trim_start(s) == trim_start(s.subrange(i, s.len() as int)),
    decreases i,
{
    if i > 0 {
        assert(s.drop_first().subrange(i - 1, s.len() - 1) =~= s.subrange(i, s.len() as int));
        lemma_trim_start_skip(s.drop_first(), i - 1);
    } else {
        assert(s.subrange(0, s.len() as int) =~= s);
    }
}

proof fn lemma_trim_end_skip(s: Seq<char>, k: int)
    requires
        0 <= k <= s.len(),
        forall|j: int| k <= j < s.len() ==> is_ws(s[j]),
    ensures
        trim_end(s) == trim_end(s.subrange(0, k)),
    decreases s.len() - k,
{
    if k < s.len() {
        assert(s.drop_last().subrange(0, k) =~= s.subrange(0, k));
        lemma_trim_end_skip(s.drop_last(), k);
    } else {
        assert(s.subrange(0, k) =~= s);
    }
}

/// The characters of a string slice.
pub fn chars_of(s: &str) -> (v: Vec<char>)
    ensures
        v@ == s@,
{
    broadcast use vstd::string::group_string_axioms;

    let mut v: Vec<char> = Vec::new();
    for c in it: s.chars()
        invariant
            v@ == it.seq().take(it.index() as int),
    {
        v.push(c);
    }
    v
}

/// `char::is_whitespace`.
pub fn is_whitespace(c: char) -> (r: bool)
    ensures
        r == is_ws(c),
{
    ('\u{9}' <= c && c <= '\u{d}') || c == ' ' || c == '\u{85}' || c == '\u{a0}' || c == '\u{1680}'
        || ('\u{2000}' <= c && c <= '\u{200a}') || c == '\u{2028}' || c == '\u{2029}' || c
        == '\u{202f}' || c == '\u{205f}' || c == '\u{3000}'
}

pub fn is_ascii_alphanumeric(c: char) -> (r: bool)
    ensures
        r == is_ascii_alnum(c),
{
    ('a' <= c && c <= 'z') || ('A' <= c && c <= 'Z') || ('0' <= c && c <= '9')
}

/// `char::to_ascii_lowercase`.
pub fn to_ascii_lower(c: char) -> (r: char)
    ensures
        r == ascii_lower(c),
{
    if 'A' <= c && c <= 'Z' {
        let b = c as u8;
        (b + 32) as char
    } else {
        c
    }
}

/// The ASCII-lowercased characters of `s`.
pub fn lower_chars(s: &[char]) -> (v: Vec<char>)
    ensures
        v@ == lower_seq(s@),
{
    let mut v: Vec<char> = Vec::new();
    let mut i: usize = 0;
    while i < s.len()
        invariant
            i <= s@.len(),
            v@ == lower_seq(s@.take(i as int)),
        decreases s@.len() - i,
    {
        v.push(to_ascii_lower(s[i]));
        assert(s@.take(i + 1) =~= s@.take(i as int).push(s@[i as int]));
        i = i + 1;
        assert(v@ =~= lower_seq(s@.take(i as int)));
    }
    assert(s@.take(s@.len() as int) =~= s@);
    v
}

pub fn has_char(s: &[char], c: char) -> (r: bool)
    ensures
        r == s@.contains(c),
{
    first_of(s, c).is_some()
}

/// Index of the first `c` in `s`.
pub fn first_of(s: &[char], c: char) -> (r: Option<usize>)
    ensures
        match r {
            Some(i) => i == first_index(s@, c),
            None => first_index(s@, c) < 0,
        },
        r is None <==> !s@.contains(c),
{
    proof {
        lemma_first_index(s@, c);
    }
    let mut i: usize = 0;
    while i < s.len()
        invariant
            i <= s@.len(),
            forall|j: int| 0 <= j < i ==> s@[j] != c,
        decreases s@.len() - i,
    {
        if s[i] == c {
            proof {
                lemma_first_index_unique(s@, c, i as int);
            }
            return Some(i);
        }
        i = i + 1;
    }
    None
}

pub fn has_whitespace(s: &[char]) -> (r: bool)
    ensures
        r == has_ws(s@),
{
    let mut i: usize = 0;
    while i < s.len()
        invariant
            i <= s@.len(),
            forall|j: int| 0 <= j < i ==> !is_ws(s@[j]),
        decreases s@.len() - i,
    {
        if is_whitespace(s[i]) {
            return true;
        }
        i = i + 1;
    }
    false
}

/// `pat` occurs in `s` at `i`.
fn matches_at(s: &[char], pat: &[char], i: usize) -> (r: bool)
    requires
        i + pat@.len() <= s@.len(),
    ensures
        r == occurs_at(s@, pat@, i as int),
{
    let n = s.len();
    let mut k: usize = 0;
    while k < pat.len()
        invariant
            n == s@.len(),
            i + pat@.len() <= s@.len(),
            k <= pat@.len(),
            forall|j: int| 0 <= j < k ==> s@[i + j] == pat@[j],
        decreases pat@.len() - k,
    {
        if s[i + k] != pat[k] {
            assert(s@.subrange(i as int, i + pat@.len())[k as int] != pat@[k as int]);
            return false;
        }
        k = k + 1;
    }
    assert(s@.subrange(i as int, i + pat@.len()) =~= pat@);
    true
}

/// `str::contains` with a string pattern.
pub fn contains_chars(s: &[char], pat: &[char]) -> (r: bool)
    ensures
        r == contains_seq(s@, pat@),
{
    if pat.len() > s.len() {
        return false;
    }
    if pat.len() == 0 {
        assert(s@.subrange(0, 0) =~= pat@);
        assert(occurs_at(s@, pat@, 0));
        return true;
    }
    let n = s.len();
    let last = n - pat.len();
    let mut i: usize = 0;
    while i <= last
        invariant
            n == s@.len(),
            last + pat@.len() == s@.len(),
            pat@.len() > 0,
            i <= last + 1,
            forall|j: int| 0 <= j < i ==> !occurs_at(s@, pat@, j),
        decreases last + 1 - i,
    {
        if matches_at(s, pat, i) {
            return true;
        }
        i = i + 1;
    }
    assert forall|j: int| !occurs_at(s@, pat@, j) by {
        if 0 <= j && j + pat@.len() <= s@.len() {
            assert(j <= last);
        }
    }
    false
}

/// `str::contains` with a string pattern.
pub fn str_contains(s: &str, pat: &str) -> (r: bool)
    ensures
        r == contains_seq(s@, pat@),
{
    let sc = chars_of(s);
    let pc = chars_of(pat);
    contains_chars(sc.as_slice(), pc.as_slice())
}

/// `str::contains` on the ASCII-lowercased string, with an already
/// lowercase pattern.
pub fn lower_contains(s: &str, pat: &str) -> (r: bool)
    ensures
        r == contains_seq(lower_seq(s@), pat@),
{
    let sc = chars_of(s);
    let lower = lower_chars(sc.as_slice());
    let pc = chars_of(pat);
    contains_chars(lower.as_slice(), pc.as_slice())
}

/// `str::trim`.
pub fn trim(s: &str) -> (r: String)
    ensures
        r@ == trimmed(s@),
{
    let v = chars_of(s);
    let n = v.len();
    let mut i: usize = 0;
    while i < n && is_whitespace(v[i])
        invariant
            n == v@.len(),
            i <= n,
            forall|j: int| 0 <= j < i ==> is_ws(v@[j]),
        decreases n - i,
    {
        i = i + 1;
    }
    proof {
        lemma_trim_start_skip(v@, i as int);
    }
    let ghost rest = v@.subrange(i as int, n as int);
    let mut k: usize = n;
    while k > i && is_whitespace(v[k - 1])
        invariant
            n == v@.len(),
            i <= k <= n,
            rest == v@.subrange(i as int, n as int),
            forall|j: int| k <= j < n ==> is_ws(v@[j]),
        decreases k,
    {
        k = k - 1;
    }
    proof {
        assert(rest.len() == n - i);
        assert forall|j: int| k - i <= j < rest.len() implies is_ws(rest[j]) by {
            assert(rest[j] == v@[j + i]);
        }
        lemma_trim_end_skip(rest, k - i);
        assert(rest.subrange(0, k - i) =~= v@.subrange(i as int, k as int));
        if k > i {
            assert(rest.subrange(0, k - i).last() == v@[k - 1]);
        }
        if i < n {
            assert(v@.subrange(i as int, n as int)[0] == v@[i as int]);
        }
    }
    s.substring_char(i, k).to_owned()
}

/// True when `str::trim` leaves nothing.
pub fn is_blank(s: &str) -> (r: bool)
    ensures
        r == (trimmed(s@).len() == 0),
{
    let t = trim(s);
    t.as_str().unicode_len() == 0
}

proof fn lemma_split_on_nonempty(s: Seq<char>, sep: char)
    ensures
        split_on(s, sep).len() >= 1,
    decreases s.len(),
{
    if s.len() > 0 {
        lemma_split_on_nonempty(s.drop_last(), sep);
    }
}

/// `str::split` on one character.
pub fn split_char(s: &str, sep: char) -> (r: Vec<String>)
    ensures
        r.deep_view() == split_on(s@, sep),
{
    let v = chars_of(s);
    let n = v.len();
    let mut pieces: Vec<String> = Vec::new();
    let mut start: usize = 0;
    let mut i: usize = 0;
    assert(v@.take(0) =~= Seq::<char>::empty());
    assert(v@.subrange(0, 0) =~= Seq::<char>::empty());
    while i < n
        invariant
            n == v@.len(),
            v@ == s@,
            start <= i <= n,
            split_on(v@.take(i as int), sep) =~= pieces.deep_view().push(
                v@.subrange(start as int, i as int),
            ),
        decreases n - i,
    {
        let ghost prev = v@.take(i as int);
        assert(v@.take(i + 1).drop_last() =~= prev);
        assert(v@.take(i + 1).last() == v@[i as int]);
        if v[i] == sep {
            let piece = s.substring_char(start, i).to_owned();
            pieces.push(piece);
            start = i + 1;
            assert(v@.subrange(start as int, (i + 1) as int) =~= Seq::<char>::empty());
        } else {
            assert(v@.subrange(start as int, i + 1) =~= v@.subrange(start as int, i as int).push(
                v@[i as int],
            ));
        }
        i = i + 1;
    }
    let last = s.substring_char(start, n).to_owned();
    pieces.push(last);
    assert(v@.take(n as int) =~= v@);
    pieces
}

/// `str::lines`.
pub fn lines(s: &str) -> (r: Vec<String>)
    ensures
        r.deep_view() == lines_of(s@),
{
    let pieces = split_char(s, '\n');
    proof {
        lemma_split_on_nonempty(s@, '\n');
    }
    let ghost pv = pieces.deep_view();
    let count = pieces.len();
    let mut out: Vec<String> = Vec::new();
    let mut i: usize = 0;
    while i + 1 < count
        invariant
            count == pv.len(),
            count >= 1,
            pv == pieces.deep_view(),
            i + 1 <= count,
            out.deep_view() =~= pv.take(i as int).map_values(|l: Seq<char>| strip_cr(l)),
        decreases count - i,
    {
        let p = pieces[i].as_str();
        let pc = chars_of(p);
        let len = pc.len();
        let line = if len > 0 && pc[len - 1] == '\r' {
            p.substring_char(0, len - 1).to_owned()
        } else {
            p.to_owned()
        };
        proof {
            assert(p@ == pv[i as int]);
            if len > 0 && pc@[len - 1] == '\r' {
                assert(p@.subrange(0, len - 1) =~= p@.drop_last());
            }
        }
        assert(line@ == strip_cr(pv[i as int]));
        let ghost before = out.deep_view();
        out.push(line);
        proof {
            assert(out.deep_view() =~= before.push(line@));
            assert(pv.take(i + 1) =~= pv.take(i as int).push(pv[i as int]));
            assert(pv.take(i + 1).map_values(|l: Seq<char>| strip_cr(l)) =~= pv.take(
                i as int,
            ).map_values(|l: Seq<char>| strip_cr(l)).push(strip_cr(pv[i as int])));
        }
        i = i + 1;
    }
    let last = pieces[count - 1].as_str();
    if last.unicode_len() > 0 {
        out.push(last.to_owned());
    }
    out
}

/// `str::split_once` on one character.
pub fn split_once_char(s: &str, c: char) -> (r: Option<(String, String)>)
    ensures
        match (r, split_once(s@, c)) {
            (Some((a, b)), Some((x, y))) => a@ == x && b@ == y,
            (None, None) => true,
            _ => false,
        },
{
    let v = chars_of(s);
    let n = v.len();
    match first_of(v.as_slice(), c) {
        Some(i) => {
            proof {
                lemma_first_index(v@, c);
            }
            assert(i < n);
            let a = s.substring_char(0, i).to_owned();
            let b = s.substring_char(i + 1, n).to_owned();
            Some((a, b))
        },
        None => None,
    }
}

/// Equality of two string slices.
pub fn str_eq(a: &str, b: &str) -> (r: bool)
    ensures
        r == (a@ == b@),
{
    let x = chars_of(a);
    let y = chars_of(b);
    if x.len() != y.len() {
        return false;
    }
    let mut i: usize = 0;
    while i < x.len()
        invariant
            x@ == a@,
            y@ == b@,
            x@.len() == y@.len(),
            i <= x@.len(),
            forall|j: int| 0 <= j < i ==> x@[j] == y@[j],
        decreases x@.len() - i,
    {
        if x[i] != y[i] {
            assert(a@[i as int] != b@[i as int]);
            return false;
        }
        i = i + 1;
    }
    assert(x@ =~= y@);
    true
}

/// The first character of `s` is `c`.
pub fn starts_with(s: &str, c: char) -> (r: bool)
    ensures
        r == starts_with_char(s@, c),
{
    s.unicode_len() > 0 && s.get_char(0) == c
}

/// `str::contains` with one character.
pub fn str_has_char(s: &str, c: char) -> (r: bool)
    ensures
        r == s@.contains(c),
{
    let v = chars_of(s);
    has_char(v.as_slice(), c)
}

/// `str::contains(char::is_whitespace)`.
pub fn str_has_whitespace(s: &str) -> (r: bool)
    ensures
        r == has_ws(s@),
{
    let v = chars_of(s);
    has_whitespace(v.as_slice())
}

/// `s` followed by `t`.
pub fn concat(s: &str, t: &str) -> (r: String)
    ensures
        r@ == s@ + t@,
{
    let mut r = s.to_owned();
    r.append(t);
    r
}

/// The decimal digits of `n`, most significant first, as `u32::to_string` gives them.
pub open spec fn decimal(n: nat) -> Seq<char>
    decreases n,
{
    if n < 10 {
        seq![digit_char(n)]
    } else {
        decimal(n / 10).push(digit_char(n % 10))
    }
}

pub open spec fn digit_char(d: nat) -> char {
    (('0' as int) + d) as char
}

fn digit_str(d: u32) -> (r: &'static str)
    requires
        d < 10,
    ensures
        r@ == seq![digit_char(d as nat)],
{
    proof {
        reveal_strlit("0");
        reveal_strlit("1");
        reveal_strlit("2");
        reveal_strlit("3");
        reveal_strlit("4");
        reveal_strlit("5");
        reveal_strlit("6");
        reveal_strlit("7");
        reveal_strlit("8");
        reveal_strlit("9");
    }
    if d == 0 {
        assert("0"@ =~= seq![digit_char(0)]);
        "0"
    } else if d == 1 {
        assert("1"@ =~= seq![digit_char(1)]);
        "1"
    } else if d == 2 {
        assert("2"@ =~= seq![digit_char(2)]);
        "2"
    } else if d == 3 {
        assert("3"@ =~= seq![digit_char(3)]);
        "3"
    } else if d == 4 {
        assert("4"@ =~= seq![digit_char(4)]);
        "4"
    } else if d == 5 {
        assert("5"@ =~= seq![digit_char(5)]);
        "5"
    } else if d == 6 {
        assert("6"@ =~= seq![digit_char(6)]);
        "6"
    } else if d == 7 {
        assert("7"@ =~= seq![digit_char(7)]);
        "7"
    } else if d == 8 {
        assert("8"@ =~= seq![digit_char(8)]);
        "8"
    } else {
        assert("9"@ =~= seq![digit_char(9)]);
        "9"
    }
}

/// `u32::to_string`: the decimal digits of `n`.
pub fn u32_to_decimal(n: u32) -> (r: String)
    ensures
        r@ == decimal(n as nat),
    decreases n,
{
    if n < 10 {
        digit_str(n).to_owned()
    } else {
        let mut s = u32_to_decimal(n / 10);
        s.append(digit_str(n % 10));
        s
    }
}

/// Index of the first whitespace character in `s`, or -1.
pub open spec fn first_ws(s: Seq<char>) -> int
    decreases s.len(),
{
    if s.len() == 0 {
        -1
    } else if is_ws(s[0]) {
        0
    } else {
        let r = first_ws(s.drop_first());
        if r < 0 {
            -1
        } else {
            r + 1
        }
    }
}

/// `str::split_once(char::is_whitespace)`.
pub open spec fn split_once_ws(s: Seq<char>) -> Option<(Seq<char>, Seq<char>)> {
    let i = first_ws(s);
    if i < 0 {
        None
    } else {
        Some((s.subrange(0, i), s.subrange(i + 1, s.len() as int)))
    }
}

pub proof fn lemma_first_ws(s: Seq<char>)
    ensures
        first_ws(s) < 0 <==> !has_ws(s),
        first_ws(s) >= 0 ==> {
            &&& first_ws(s) < s.len()
            &&& is_ws(s[first_ws(s)])
            &&& forall|j: int| 0 <= j < first_ws(s) ==> !is_ws(s[j])
        },
    decreases s.len(),
{
    if s.len() > 0 {
        lemma_first_ws(s.drop_first());
        if !is_ws(s[0]) {
            if has_ws(s) {
                let k = choose|k: int| 0 <= k < s.len() && is_ws(s[k]);
                assert(is_ws(s.drop_first()[k - 1]));
            }
            if has_ws(s.drop_first()) {
                let k = choose|k: int| 0 <= k < s.len() - 1 && is_ws(s.drop_first()[k]);
                assert(is_ws(s[k + 1]));
                let r = first_ws(s.drop_first());
                assert forall|j: int| 0 <= j < r + 1 implies !is_ws(s[j]) by {
                    if j > 0 {
                        assert(s[j] == s.drop_first()[j - 1]);
                    }
                }
            }
        } else {
            assert(is_ws(s[0]));
        }
    }
}

pub proof fn lemma_first_ws_unique(s: Seq<char>, i: int)
    requires
        0 <= i < s.len(),
        is_ws(s[i]),
        forall|j: int| 0 <= j < i ==> !is_ws(s[j]),
    ensures
        first_ws(s) == i,
{
    lemma_first_ws(s);
}

/// `str::split_once(char::is_whitespace)`.
pub fn split_once_whitespace(s: &str) -> (r: Option<(String, String)>)
    ensures
        match (r, split_once_ws(s@)) {
            (Some((a, b)), Some((x, y))) => a@ == x && b@ == y,
            (None, None) => true,
            _ => false,
        },
{
    let v = chars_of(s);
    let n = v.len();
    proof {
        lemma_first_ws(s@);
    }
    let mut i: usize = 0;
    while i < n
        invariant
            n == v@.len(),
            v@ == s@,
            i <= n,
            forall|j: int| 0 <= j < i ==> !is_ws(v@[j]),
        decreases n - i,
    {
        if is_whitespace(v[i]) {
            proof {
                lemma_first_ws_unique(s@, i as int);
            }
            let a = s.substring_char(0, i).to_owned();
            let b = s.substring_char(i + 1, n).to_owned();
            return Some((a, b));
        }
        i = i + 1;
    }
    assert(!has_ws(s@));
    None
}

/// Trimming the start leaves nothing of an all-whitespace text, and leaves
/// a text that starts with a non-whitespace character otherwise.
pub proof fn lemma_trim_start(s: Seq<char>)
    ensures
        (forall|i: int| 0 <= i < s.len() ==> is_ws(#[trigger] s[i])) ==> trim_start(s).len() == 0,
        (exists|i: int| 0 <= i < s.len() && !is_ws(#[trigger] s[i])) ==> (trim_start(s).len() > 0 && !is_ws(
            trim_start(s)[0],
        )),
    decreases s.len(),
{
    if s.len() > 0 && is_ws(s[0]) {
        let t = s.drop_first();
        lemma_trim_start(t);
        if forall|i: int| 0 <= i < s.len() ==> is_ws(#[trigger] s[i]) {
            assert forall|i: int| 0 <= i < t.len() implies is_ws(#[trigger] t[i]) by {
                assert(t[i] == s[i + 1]);
            }
        }
        if exists|i: int| 0 <= i < s.len() && !is_ws(#[trigger] s[i]) {
            let i = choose|i: int| 0 <= i < s.len() && !is_ws(#[trigger] s[i]);
            assert(i > 0);
            assert(t[i - 1] == s[i]);
        }
    }
}

/// Trimming the end keeps a text that starts with a non-whitespace character.
pub proof fn lemma_trim_end_keeps(s: Seq<char>)
    requires
        s.len() > 0,
        !is_ws(s[0]),
    ensures
        trim_end(s).len() > 0,
    decreases s.len(),
{
    if is_ws(s.last()) {
        if s.len() > 1 {
            assert(s.drop_last()[0] == s[0]);
            lemma_trim_end_keeps(s.drop_last());
        }
    }
}

/// A text trims to nothing exactly when every character of it is whitespace.
pub proof fn lemma_blank(s: Seq<char>)
    ensures
        trimmed(s).len() == 0 <==> forall|i: int| 0 <= i < s.len() ==> is_ws(#[trigger] s[i]),
{
    lemma_trim_start(s);
    if forall|i: int| 0 <= i < s.len() ==> is_ws(#[trigger] s[i]) {
        assert(trim_start(s).len() == 0);
        assert(trim_end(trim_start(s)) == trim_start(s));
    } else {
        assert(exists|i: int| 0 <= i < s.len() && !is_ws(#[trigger] s[i]));
        lemma_trim_end_keeps(trim_start(s));
    }
}

/// A text without the separator is one piece.
pub proof fn lemma_split_none(s: Seq<char>, sep: char)
    requires
        forall|i: int| 0 <= i < s.len() ==> #[trigger] s[i] != sep,
    ensures
        split_on(s, sep) == seq![s],
    decreases s.len(),
{
    if s.len() > 0 {
        let d = s.drop_last();
        assert forall|i: int| 0 <= i < d.len() implies #[trigger] d[i] != sep by {
            assert(d[i] == s[i]);
        }
        lemma_split_none(d, sep);
        assert(s.last() == s[s.len() - 1]);
        assert(s.last() != sep);
        let rest = split_on(d, sep);
        assert(rest == seq![d]);
        assert(rest.len() - 1 == 0);
        assert(rest.last() == d);
        assert(d.push(s.last()) =~= s);
        assert(rest.update(0, d.push(s.last())) =~= seq![s]);
    } else {
        assert(s =~= Seq::<char>::empty());
    }
}

/// Splitting `x`, the separator and a piece `y` without it gives the pieces
/// of `x`, then `y`.
pub proof fn lemma_split_join(x: Seq<char>, sep: char, y: Seq<char>)
    requires
        forall|i: int| 0 <= i < y.len() ==> #[trigger] y[i] != sep,
    ensures
        split_on(x + seq![sep] + y, sep) == split_on(x, sep).push(y),
    decreases y.len(),
{
    let s = x + seq![sep] + y;
    if y.len() == 0 {
        assert(y =~= Seq::<char>::empty());
        assert(s =~= x.push(sep));
        assert(s.drop_last() =~= x);
        assert(s.last() == sep);
        assert(split_on(x, sep).push(Seq::<char>::empty()) =~= split_on(x, sep).push(y));
    } else {
        let d = y.drop_last();
        assert forall|i: int| 0 <= i < d.len() implies #[trigger] d[i] != sep by {
            assert(d[i] == y[i]);
        }
        lemma_split_join(x, sep, d);
        assert(s.drop_last() =~= x + seq![sep] + d);
        assert(s.last() == y.last());
        let rest = split_on(x, sep).push(d);
        assert(d.push(y.last()) =~= y);
        assert(rest.update(rest.len() - 1, rest.last().push(s.last())) =~= split_on(x, sep).push(y));
    }
}

} // verus!
