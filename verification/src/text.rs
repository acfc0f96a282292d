//! Character-level text handling shared by the request parsers: Unicode
//! whitespace trimming, splitting on a separator, ASCII case folding, decimal
//! integer parsing and lowercase hexadecimal encoding.

use vstd::prelude::*;

verus! {

// ── Specifications ──────────────────────────────────────────────────────────

/// The Unicode `White_Space` property, which `char::is_whitespace` tests.
pub open spec fn is_ws(c: char) -> bool {
    let u = c as u32;
    ||| 0x9 <= u <= 0xD
    ||| u == 0x20
    ||| u == 0x85
    ||| u == 0xA0
    ||| u == 0x1680
    ||| 0x2000 <= u <= 0x200A
    ||| u == 0x2028
    ||| u == 0x2029
    ||| u == 0x202F
    ||| u == 0x205F
    ||| u == 0x3000
}

/// `s` with its leading whitespace removed.
pub open spec fn trim_start(s: Seq<char>) -> Seq<char>
    decreases s.len(),
{
    if s.len() > 0 && is_ws(s[0]) {
        trim_start(s.drop_first())
    } else {
        s
    }
}

/// `s` with its trailing whitespace removed.
pub open spec fn trim_end(s: Seq<char>) -> Seq<char>
    decreases s.len(),
{
    if s.len() > 0 && is_ws(s.last()) {
        trim_end(s.drop_last())
    } else {
        s
    }
}

/// `s` with leading and trailing whitespace removed (`str::trim`).
pub open spec fn trim(s: Seq<char>) -> Seq<char> {
    trim_end(trim_start(s))
}

/// The pieces of `s` between occurrences of `sep` (`str::split` with a char):
/// one more piece than there are separators.
pub open spec fn split(s: Seq<char>, sep: char) -> Seq<Seq<char>>
    decreases s.len(),
{
    if s.len() == 0 {
        seq![Seq::<char>::empty()]
    } else {
        let init = split(s.drop_last(), sep);
        if s.last() == sep {
            init.push(Seq::<char>::empty())
        } else {
            init.update(init.len() - 1, init.last().push(s.last()))
        }
    }
}

/// Index of the first occurrence of `c` in `s`, if any.
pub open spec fn first_index_of(s: Seq<char>, c: char) -> Option<int> {
    if exists|i: int| 0 <= i < s.len() && s[i] == c {
        Some(choose|i: int| 0 <= i < s.len() && s[i] == c && forall|j: int| 0 <= j < i ==> s[j] != c)
    } else {
        None
    }
}

/// The part of `s` before the first `c`, or all of `s` when `c` does not occur.
pub open spec fn before_first(s: Seq<char>, c: char) -> Seq<char> {
    match first_index_of(s, c) {
        Some(i) => s.subrange(0, i),
        None => s,
    }
}

pub open spec fn is_ascii_digit(c: char) -> bool {
    '0' <= c && c <= '9'
}

pub open spec fn is_ascii_hexdigit(c: char) -> bool {
    ||| is_ascii_digit(c)
    ||| ('a' <= c && c <= 'f')
    ||| ('A' <= c && c <= 'F')
}

pub open spec fn is_ascii_alnum_byte(b: u8) -> bool {
    ||| (48 <= b && b <= 57)
    ||| (65 <= b && b <= 90)
    ||| (97 <= b && b <= 122)
}

pub open spec fn is_ascii_char(c: char) -> bool {
    (c as u32) < 128
}

pub open spec fn all_ascii(s: Seq<char>) -> bool {
    forall|i: int| 0 <= i < s.len() ==> is_ascii_char(#[trigger] s[i])
}

/// `char::to_ascii_uppercase`.
pub open spec fn ascii_upper_char(c: char) -> char {
    if 'a' <= c && c <= 'z' {
        ((c as u32) - 32) as char
    } else {
        c
    }
}

/// `char::to_ascii_lowercase`.
pub open spec fn ascii_lower_char(c: char) -> char {
    if 'A' <= c && c <= 'Z' {
        ((c as u32) + 32) as char
    } else {
        c
    }
}

pub open spec fn ascii_upper(s: Seq<char>) -> Seq<char> {
    s.map_values(|c: char| ascii_upper_char(c))
}

pub open spec fn ascii_lower(s: Seq<char>) -> Seq<char> {
    s.map_values(|c: char| ascii_lower_char(c))
}

/// `str::eq_ignore_ascii_case`.
pub open spec fn eq_ignore_ascii_case(a: Seq<char>, b: Seq<char>) -> bool {
    ascii_lower(a) == ascii_lower(b)
}

pub open spec fn digit_value(c: char) -> int {
    (c as u32) - ('0' as u32)
}

pub open spec fn all_digits(s: Seq<char>) -> bool {
    forall|i: int| 0 <= i < s.len() ==> is_ascii_digit(#[trigger] s[i])
}

/// The number that the decimal digits `s` denote.
pub open spec fn decimal_value(s: Seq<char>) -> int
    decreases s.len(),
{
    if s.len() == 0 {
        0
    } else {
        decimal_value(s.drop_last()) * 10 + digit_value(s.last())
    }
}

/// What `str::parse` gives for an integer type with the bounds `min..=max`:
/// an optional `+` (or `-` where `signed`), then one or more ASCII digits,
/// whose value must lie within the bounds.
pub open spec fn parse_int(s: Seq<char>, signed: bool, min: int, max: int) -> Option<int> {
    let v: Option<int> = if s.len() > 0 && s[0] == '+' {
        if s.len() > 1 && all_digits(s.drop_first()) {
            Some(decimal_value(s.drop_first()))
        } else {
            None
        }
    } else if s.len() > 0 && s[0] == '-' && signed {
        if s.len() > 1 && all_digits(s.drop_first()) {
            Some(-decimal_value(s.drop_first()))
        } else {
            None
        }
    } else if s.len() > 0 && all_digits(s) {
        Some(decimal_value(s))
    } else {
        None
    };
    match v {
        Some(n) => if min <= n <= max { Some(n) } else { None },
        None => None,
    }
}

/// Lowercase hexadecimal digit for `n < 16`.
pub open spec fn hex_digit(n: int) -> char {
    if n < 10 {
        ((48 + n) as u32) as char
    } else {
        ((87 + n) as u32) as char
    }
}

/// Two lowercase hex digits per byte, most significant nibble first
/// (the `{:x}` formatting of a byte array).
pub open spec fn hex_of_bytes(b: Seq<u8>) -> Seq<char>
    decreases b.len(),
{
    if b.len() == 0 {
        Seq::<char>::empty()
    } else {
        hex_of_bytes(b.drop_last()) + seq![hex_digit((b.last() / 16) as int), hex_digit((b.last() % 16) as int)]
    }
}

/// A lowercase hex digit: `0-9` or `a-f`.
pub open spec fn is_lower_hex_char(c: char) -> bool {
    ('0' <= c && c <= '9') || ('a' <= c && c <= 'f')
}

/// The hex text of a byte string has two digits per byte, all lowercase hex.
pub proof fn lemma_hex_of_bytes_shape(b: Seq<u8>)
    ensures
        hex_of_bytes(b).len() == 2 * b.len(),
        forall|i: int| 0 <= i < hex_of_bytes(b).len() ==> is_lower_hex_char(#[trigger] hex_of_bytes(b)[i]),
    decreases b.len(),
{
    if b.len() > 0 {
        lemma_hex_of_bytes_shape(b.drop_last());
        let hi = (b.last() / 16) as int;
        let lo = (b.last() % 16) as int;
        assert(is_lower_hex_char(hex_digit(hi)));
        assert(is_lower_hex_char(hex_digit(lo)));
        let prev = hex_of_bytes(b.drop_last());
        assert forall|i: int| 0 <= i < hex_of_bytes(b).len() implies is_lower_hex_char(#[trigger] hex_of_bytes(b)[i]) by {
            if i < prev.len() {
                assert(hex_of_bytes(b)[i] == prev[i]);
            }
        }
    }
}

/// The 32 lowercase hex digits of a 128-bit value, most significant first.
pub open spec fn hex_of_u128(v: u128) -> Seq<char> {
    Seq::new(32, |i: int| hex_digit(((v >> ((4 * (31 - i)) as u128)) & 0xf) as int))
}

// ── Trusted items for std ───────────────────────────────────────────────────

/// `String::push`: appends one char to the string's contents.
#[verifier::external_body]
pub(crate) fn push_char(s: &mut String, c: char)
    ensures
        final(s)@ == old(s)@.push(c),
{
    s.push(c);
}

/// What `str::to_uppercase` gives: the Unicode upper-case mapping of each
/// character (some characters map to several).
pub uninterp spec fn unicode_upper(s: Seq<char>) -> Seq<char>;

/// The upper-casing of a text: the ASCII one on an all-ASCII text, the Unicode
/// mapping otherwise.
pub open spec fn upper_of(s: Seq<char>) -> Seq<char> {
    if all_ascii(s) { ascii_upper(s) } else { unicode_upper(s) }
}

/// `str::to_uppercase`. Its result is named; of it the documentation plainly
/// gives that ASCII letters map to their ASCII capitals, so on an all-ASCII text
/// the result is the ASCII upper-casing.
#[verifier::external_body]
pub(crate) fn to_upper(s: &str) -> (r: String)
    ensures
        r@ == unicode_upper(s@),
        all_ascii(s@) ==> r@ == ascii_upper(s@),
        r@ == upper_of(s@),
{
    s.to_uppercase()
}

/// What `str::to_lowercase` gives: the Unicode lower-case mapping of the text.
pub uninterp spec fn unicode_lower(s: Seq<char>) -> Seq<char>;

/// The lower-casing of a text: the ASCII one on an all-ASCII text, the Unicode
/// mapping otherwise.
pub open spec fn lower_of(s: Seq<char>) -> Seq<char> {
    if all_ascii(s) { ascii_lower(s) } else { unicode_lower(s) }
}

/// `str::to_lowercase`. Its result is named; on an all-ASCII text it is the
/// ASCII lower-casing.
#[verifier::external_body]
pub(crate) fn to_lower(s: &str) -> (r: String)
    ensures
        r@ == unicode_lower(s@),
        all_ascii(s@) ==> r@ == ascii_lower(s@),
        r@ == lower_of(s@),
{
    s.to_lowercase()
}

// ── Executable helpers ──────────────────────────────────────────────────────

/// `char::is_whitespace`.
pub fn is_whitespace(c: char) -> (r: bool)
    ensures
        r == is_ws(c),
{
    let u = c as u32;
    (0x9 <= u && u <= 0xD) || u == 0x20 || u == 0x85 || u == 0xA0 || u == 0x1680 || (0x2000 <= u
        && u <= 0x200A) || u == 0x2028 || u == 0x2029 || u == 0x202F || u == 0x205F || u == 0x3000
}

/// The characters of `s`, in order.
pub fn chars_of(s: &str) -> (v: Vec<char>)
    ensures
        v@ == s@,
{
    let n = s.unicode_len();
    let mut v: Vec<char> = Vec::new();
    let mut i: usize = 0;
    while i < n
        invariant
            n == s@.len(),
            i <= n,
            v@ == s@.subrange(0, i as int),
        decreases n - i,
    {
        let c = s.get_char(i);
        v.push(c);
        i = i + 1;
        assert(v@ =~= s@.subrange(0, i as int));
    }
    assert(v@ =~= s@);
    v
}

/// A `String` holding the characters `v`.
pub fn string_of(v: &[char]) -> (r: String)
    ensures
        r@ == v@,
{
    let mut r = String::new();
    let mut i: usize = 0;
    while i < v.len()
        invariant
            i <= v.len(),
            r@ == v@.subrange(0, i as int),
        decreases v.len() - i,
    {
        push_char(&mut r, v[i]);
        i = i + 1;
        assert(r@ =~= v@.subrange(0, i as int));
    }
    assert(r@ =~= v@);
    r
}

/// Appends the characters of `t` to `s`.
pub fn append_str(s: &mut String, t: &str)
    ensures
        final(s)@ == old(s)@ + t@,
{
    let v = chars_of(t);
    let mut i: usize = 0;
    let ghost start = s@;
    while i < v.len()
        invariant
            i <= v.len(),
            v@ == t@,
            s@ == start + v@.subrange(0, i as int),
        decreases v.len() - i,
    {
        push_char(s, v[i]);
        i = i + 1;
        assert(s@ =~= start + v@.subrange(0, i as int));
    }
    assert(v@.subrange(0, v.len() as int) =~= v@);
}

/// `a` followed by `b`, as a new string.
pub fn concat_str(a: &str, b: &str) -> (r: String)
    ensures
        r@ == a@ + b@,
{
    let mut r = a.to_owned();
    append_str(&mut r, b);
    r
}

/// Whether two strings hold the same characters.
pub fn str_eq(a: &str, b: &str) -> (r: bool)
    ensures
        r == (a@ == b@),
{
    let va = chars_of(a);
    let vb = chars_of(b);
    seq_eq(&va, &vb)
}

/// Whether two char sequences are equal.
pub fn seq_eq(a: &[char], b: &[char]) -> (r: bool)
    ensures
        r == (a@ == b@),
{
    if a.len() != b.len() {
        return false;
    }
    let mut i: usize = 0;
    while i < a.len()
        invariant
            a.len() == b.len(),
            i <= a.len(),
            forall|j: int| 0 <= j < i ==> a@[j] == b@[j],
        decreases a.len() - i,
    {
        if a[i] != b[i] {
            return false;
        }
        i = i + 1;
    }
    assert(a@ =~= b@);
    true
}

proof fn lemma_trim_start_step(s: Seq<char>, i: int)
    requires
        0 <= i < s.len(),
        is_ws(s[i]),
    ensures
        trim_start(s.subrange(i, s.len() as int)) == trim_start(s.subrange(i + 1, s.len() as int)),
{
    assert(s.subrange(i, s.len() as int).drop_first() =~= s.subrange(i + 1, s.len() as int));
}

proof fn lemma_trim_end_step(s: Seq<char>, j: int)
    requires
        0 < j <= s.len(),
        is_ws(s[j - 1]),
    ensures
        trim_end(s.subrange(0, j)) == trim_end(s.subrange(0, j - 1)),
{
    assert(s.subrange(0, j).drop_last() =~= s.subrange(0, j - 1));
}

/// `str::trim` on a char sequence.
pub fn trim_chars(v: &[char]) -> (r: Vec<char>)
    ensures
        r@ == trim(v@),
{
    let n = v.len();
    let mut i: usize = 0;
    assert(v@.subrange(0, n as int) =~= v@);
    while i < n && is_whitespace(v[i])
        invariant
            n == v.len(),
            i <= n,
            trim_start(v@) == trim_start(v@.subrange(i as int, n as int)),
        decreases n - i,
    {
        proof {
            lemma_trim_start_step(v@, i as int);
        }
        i = i + 1;
    }
    let ghost t = v@.subrange(i as int, n as int);
    assert(trim_start(t) == t);
    let mut j: usize = n;
    assert(t.subrange(0, (j - i) as int) =~= t);
    while j > i && is_whitespace(v[j - 1])
        invariant
            n == v.len(),
            i <= j <= n,
            t == v@.subrange(i as int, n as int),
            trim_end(t) == trim_end(t.subrange(0, (j - i) as int)),
        decreases j,
    {
        proof {
            lemma_trim_end_step(t, (j - i) as int);
        }
        j = j - 1;
    }
    let mut r: Vec<char> = Vec::new();
    let mut k: usize = i;
    while k < j
        invariant
            n == v.len(),
            i <= k <= j <= n,
            r@ == v@.subrange(i as int, k as int),
        decreases j - k,
    {
        r.push(v[k]);
        k = k + 1;
        assert(r@ =~= v@.subrange(i as int, k as int));
    }
    assert(t.subrange(0, (j - i) as int) =~= v@.subrange(i as int, j as int));
    r
}

/// `str::split` with a char separator, on a char sequence.
pub fn split_chars(v: &[char], sep: char) -> (r: Vec<Vec<char>>)
    ensures
        r@.len() == split(v@, sep).len(),
        forall|k: int| 0 <= k < r@.len() ==> #[trigger] r@[k]@ == split(v@, sep)[k],
{
    let mut pieces: Vec<Vec<char>> = Vec::new();
    pieces.push(Vec::new());
    let mut i: usize = 0;
    assert(v@.subrange(0, 0) =~= Seq::<char>::empty());
    assert(split(Seq::<char>::empty(), sep) == seq![Seq::<char>::empty()]);
    while i < v.len()
        invariant
            i <= v.len(),
            pieces@.len() == split(v@.subrange(0, i as int), sep).len(),
            pieces@.len() >= 1,
            forall|k: int| 0 <= k < pieces@.len() ==> #[trigger] pieces@[k]@ == split(v@.subrange(0, i as int), sep)[k],
        decreases v.len() - i,
    {
        let ghost prev = v@.subrange(0, i as int);
        let ghost next = v@.subrange(0, i + 1);
        assert(next.drop_last() =~= prev);
        assert(next.last() == v@[i as int]);
        let c = v[i];
        if c == sep {
            pieces.push(Vec::new());
        } else {
            let last = pieces.len() - 1;
            let mut cur = pieces.pop().unwrap();
            cur.push(c);
            pieces.push(cur);
            proof {
                assert(split(next, sep) == split(prev, sep).update(last as int, split(prev, sep)[last as int].push(c)));
            }
        }
        i = i + 1;
        proof {
            assert forall|k: int| 0 <= k < pieces@.len() implies #[trigger] pieces@[k]@ == split(v@.subrange(0, i as int), sep)[k] by {
            }
        }
    }
    assert(v@.subrange(0, v.len() as int) =~= v@);
    pieces
}

/// Index of the first `c` in `v`.
pub fn find_char(v: &[char], c: char) -> (r: Option<usize>)
    ensures
        r matches Some(i) ==> first_index_of(v@, c) == Some(i as int) && i < v@.len() && v@[i as int] == c
            && forall|j: int| 0 <= j < i ==> v@[j] != c,
        r is None ==> first_index_of(v@, c) is None,
{
    let mut i: usize = 0;
    while i < v.len()
        invariant
            i <= v.len(),
            forall|j: int| 0 <= j < i ==> v@[j] != c,
        decreases v.len() - i,
    {
        if v[i] == c {
            proof {
                let w = choose|w: int| 0 <= w < v@.len() && v@[w] == c && forall|j: int| 0 <= j < w ==> v@[j] != c;
                assert(0 <= i < v@.len() && v@[i as int] == c && forall|j: int| 0 <= j < i ==> v@[j] != c);
                if w < i {
                } else if w > i {
                }
                assert(w == i);
            }
            return Some(i);
        }
        i = i + 1;
    }
    None
}

/// The characters `v[from..to]`.
pub fn slice_chars(v: &[char], from: usize, to: usize) -> (r: Vec<char>)
    requires
        from <= to <= v.len(),
    ensures
        r@ == v@.subrange(from as int, to as int),
{
    let mut r: Vec<char> = Vec::new();
    let mut k: usize = from;
    while k < to
        invariant
            from <= k <= to <= v.len(),
            r@ == v@.subrange(from as int, k as int),
        decreases to - k,
    {
        r.push(v[k]);
        k = k + 1;
        assert(r@ =~= v@.subrange(from as int, k as int));
    }
    r
}

/// `char::to_ascii_lowercase`.
pub fn to_ascii_lower_char(c: char) -> (r: char)
    ensures
        r == ascii_lower_char(c),
{
    if 'A' <= c && c <= 'Z' {
        let u = (c as u32) + 32;
        assert(u == (c as u32) + 32);
        char_from_ascii(u)
    } else {
        c
    }
}

/// `char::to_ascii_uppercase`.
pub fn to_ascii_upper_char(c: char) -> (r: char)
    ensures
        r == ascii_upper_char(c),
{
    if 'a' <= c && c <= 'z' {
        let u = (c as u32) - 32;
        char_from_ascii(u)
    } else {
        c
    }
}

/// The char with an ASCII code point.
fn char_from_ascii(u: u32) -> (r: char)
    requires
        u < 128,
    ensures
        r == u as char,
{
    let b = u as u8;
    b as char
}

/// `str::eq_ignore_ascii_case`.
pub fn eq_ignore_case(a: &[char], b: &[char]) -> (r: bool)
    ensures
        r == eq_ignore_ascii_case(a@, b@),
{
    if a.len() != b.len() {
        proof {
            assert(ascii_lower(a@).len() != ascii_lower(b@).len());
        }
        return false;
    }
    let mut i: usize = 0;
    while i < a.len()
        invariant
            a.len() == b.len(),
            i <= a.len(),
            forall|j: int| 0 <= j < i ==> ascii_lower_char(a@[j]) == ascii_lower_char(b@[j]),
        decreases a.len() - i,
    {
        if to_ascii_lower_char(a[i]) != to_ascii_lower_char(b[i]) {
            proof {
                assert(ascii_lower(a@)[i as int] != ascii_lower(b@)[i as int]);
            }
            return false;
        }
        i = i + 1;
    }
    assert(ascii_lower(a@) =~= ascii_lower(b@));
    true
}

/// ASCII lowercase of every char.
pub fn ascii_lowercase(v: &[char]) -> (r: Vec<char>)
    ensures
        r@ == ascii_lower(v@),
{
    let mut r: Vec<char> = Vec::new();
    let mut i: usize = 0;
    while i < v.len()
        invariant
            i <= v.len(),
            r@ == ascii_lower(v@.subrange(0, i as int)),
        decreases v.len() - i,
    {
        r.push(to_ascii_lower_char(v[i]));
        i = i + 1;
        assert(r@ =~= ascii_lower(v@.subrange(0, i as int)));
    }
    assert(v@.subrange(0, v.len() as int) =~= v@);
    r
}

/// `char::is_ascii_hexdigit`.
pub fn is_hex_digit(c: char) -> (r: bool)
    ensures
        r == is_ascii_hexdigit(c),
{
    ('0' <= c && c <= '9') || ('a' <= c && c <= 'f') || ('A' <= c && c <= 'F')
}

proof fn lemma_decimal_value_nonneg(s: Seq<char>)
    requires
        all_digits(s),
    ensures
        decimal_value(s) >= 0,
    decreases s.len(),
{
    if s.len() > 0 {
        lemma_decimal_value_nonneg(s.drop_last());
    }
}

proof fn lemma_decimal_value_prefix_le(s: Seq<char>, k: int)
    requires
        all_digits(s),
        0 <= k <= s.len(),
    ensures
        decimal_value(s.subrange(0, k)) <= decimal_value(s),
    decreases s.len() - k,
{
    if k < s.len() {
        let t = s.subrange(0, k + 1);
        assert(t.drop_last() =~= s.subrange(0, k));
        lemma_decimal_value_nonneg(s.subrange(0, k));
        lemma_decimal_value_prefix_le(s, k + 1);
    } else {
        assert(s.subrange(0, k) =~= s);
    }
}

/// The value of the ASCII digits `v[from..]`, or `None` when it exceeds `bound`.
fn digits_value_bounded(v: &[char], from: usize, bound: u64) -> (r: Option<u64>)
    requires
        from < v.len(),
        all_digits(v@.subrange(from as int, v.len() as int)),
    ensures
        r matches Some(n) ==> n == decimal_value(v@.subrange(from as int, v.len() as int)) && n <= bound,
        r is None ==> decimal_value(v@.subrange(from as int, v.len() as int)) > bound,
{
    let ghost d = v@.subrange(from as int, v.len() as int);
    let mut acc: u128 = 0;
    let mut i: usize = from;
    assert(d.subrange(0, 0) =~= Seq::<char>::empty());
    while i < v.len()
        invariant
            from <= i <= v.len(),
            d == v@.subrange(from as int, v.len() as int),
            all_digits(d),
            acc <= bound,
            acc == decimal_value(d.subrange(0, (i - from) as int)),
        decreases v.len() - i,
    {
        let c = v[i];
        assert(d[(i - from) as int] == c);
        let dv = (c as u32) - ('0' as u32);
        let next = acc * 10 + dv as u128;
        proof {
            let p = d.subrange(0, (i - from + 1) as int);
            assert(p.drop_last() =~= d.subrange(0, (i - from) as int));
            assert(p.last() == c);
        }
        if next > bound as u128 {
            proof {
                lemma_decimal_value_prefix_le(d, (i - from + 1) as int);
            }
            return None;
        }
        acc = next;
        i = i + 1;
    }
    assert(d.subrange(0, (i - from) as int) =~= d);
    Some(acc as u64)
}

/// Checks that `v[from..]` is non-empty and all ASCII digits.
fn all_digits_from(v: &[char], from: usize) -> (r: bool)
    requires
        from <= v.len(),
    ensures
        r == (from < v.len() && all_digits(v@.subrange(from as int, v.len() as int))),
{
    if from >= v.len() {
        return false;
    }
    let mut i: usize = from;
    while i < v.len()
        invariant
            from <= i <= v.len(),
            forall|j: int| from <= j < i ==> is_ascii_digit(#[trigger] v@[j]),
        decreases v.len() - i,
    {
        if !('0' <= v[i] && v[i] <= '9') {
            proof {
                assert(!is_ascii_digit(v@.subrange(from as int, v.len() as int)[i - from]));
            }
            return false;
        }
        i = i + 1;
    }
    proof {
        assert forall|j: int| 0 <= j < v@.subrange(from as int, v.len() as int).len() implies is_ascii_digit(
            #[trigger] v@.subrange(from as int, v.len() as int)[j],
        ) by {
            assert(v@.subrange(from as int, v.len() as int)[j] == v@[j + from]);
        }
    }
    true
}

/// `str::parse::<i64>` on a char sequence.
pub fn parse_i64(v: &[char]) -> (r: Option<i64>)
    ensures
        r matches Some(n) ==> parse_int(v@, true, i64::MIN as int, i64::MAX as int) == Some(n as int),
        r is None ==> parse_int(v@, true, i64::MIN as int, i64::MAX as int) is None,
{
    let r = parse_signed(v, 0x8000_0000_0000_0000u64);
    match r {
        Some(n) => {
            if n < 0 {
                let m = (0 - (n + 1)) as u64;
                if m > 0x7fff_ffff_ffff_ffffu64 {
                    return None;
                }
                Some(-(m as i64) - 1)
            } else {
                if n > 0x7fff_ffff_ffff_ffffi128 {
                    return None;
                }
                Some(n as i64)
            }
        },
        None => None,
    }
}

/// `str::parse::<i32>` on a char sequence.
pub fn parse_i32(v: &[char]) -> (r: Option<i32>)
    ensures
        r matches Some(n) ==> parse_int(v@, true, i32::MIN as int, i32::MAX as int) == Some(n as int),
        r is None ==> parse_int(v@, true, i32::MIN as int, i32::MAX as int) is None,
{
    let r = parse_signed(v, 0x8000_0000u64);
    match r {
        Some(n) => {
            if n < -0x8000_0000i128 || n > 0x7fff_ffffi128 {
                None
            } else {
                Some(n as i32)
            }
        },
        None => None,
    }
}

/// `str::parse::<u32>` on a char sequence.
pub fn parse_u32(v: &[char]) -> (r: Option<u32>)
    ensures
        r matches Some(n) ==> parse_int(v@, false, 0, u32::MAX as int) == Some(n as int),
        r is None ==> parse_int(v@, false, 0, u32::MAX as int) is None,
{
    let plus = v.len() > 0 && v[0] == '+';
    let from: usize = if plus { 1 } else { 0 };
    if !all_digits_from(v, from) {
        proof {
            if !plus {
                assert(v@.subrange(0, v.len() as int) =~= v@);
            } else {
                assert(v@.subrange(1, v.len() as int) =~= v@.drop_first());
            }
        }
        return None;
    }
    proof {
        if !plus {
            assert(v@.subrange(0, v.len() as int) =~= v@);
        } else {
            assert(v@.subrange(1, v.len() as int) =~= v@.drop_first());
        }
        lemma_decimal_value_nonneg(v@.subrange(from as int, v.len() as int));
    }
    match digits_value_bounded(v, from, 0xffff_ffffu64) {
        Some(n) => Some(n as u32),
        None => None,
    }
}

/// Sign and magnitude parsing shared by the signed integer parsers: the value
/// of an optional sign followed by digits, when its magnitude is at most `bound`.
fn parse_signed(v: &[char], bound: u64) -> (r: Option<i128>)
    requires
        0 < bound <= 0x8000_0000_0000_0000u64,
    ensures
        r matches Some(n) ==> parse_int(v@, true, -(bound as int), bound as int) == Some(n as int),
        r is None ==> parse_int(v@, true, -(bound as int), bound as int) is None,
{
    let sign = v.len() > 0 && (v[0] == '+' || v[0] == '-');
    let neg = v.len() > 0 && v[0] == '-';
    let from: usize = if sign { 1 } else { 0 };
    proof {
        if !sign {
            assert(v@.subrange(0, v.len() as int) =~= v@);
        } else {
            assert(v@.subrange(1, v.len() as int) =~= v@.drop_first());
        }
    }
    if !all_digits_from(v, from) {
        return None;
    }
    proof {
        lemma_decimal_value_nonneg(v@.subrange(from as int, v.len() as int));
    }
    match digits_value_bounded(v, from, bound) {
        Some(n) => {
            if neg {
                Some(-(n as i128))
            } else {
                Some(n as i128)
            }
        },
        None => None,
    }
}

/// Lowercase hex digit of `n < 16`.
pub fn hex_digit_char(n: u8) -> (c: char)
    requires
        n < 16,
    ensures
        c == hex_digit(n as int),
{
    if n < 10 {
        char_from_ascii(48 + n as u32)
    } else {
        char_from_ascii(87 + n as u32)
    }
}

/// `{:x}` of a byte array: two lowercase hex digits per byte.
pub fn hex_encode(b: &[u8]) -> (r: String)
    ensures
        r@ == hex_of_bytes(b@),
{
    let mut r = String::new();
    let mut i: usize = 0;
    while i < b.len()
        invariant
            i <= b.len(),
            r@ == hex_of_bytes(b@.subrange(0, i as int)),
        decreases b.len() - i,
    {
        let x = b[i];
        push_char(&mut r, hex_digit_char(x / 16));
        push_char(&mut r, hex_digit_char(x % 16));
        proof {
            let p = b@.subrange(0, i + 1);
            assert(p.drop_last() =~= b@.subrange(0, i as int));
            assert(p.last() == x);
        }
        i = i + 1;
        assert(r@ =~= hex_of_bytes(b@.subrange(0, i as int)));
    }
    assert(b@.subrange(0, b.len() as int) =~= b@);
    r
}

/// The 32 lowercase hex digits of a 128-bit value (a UUID written without
/// hyphens).
pub fn hex_u128(v: u128) -> (r: String)
    ensures
        r@ == hex_of_u128(v),
{
    let mut r = String::new();
    let mut i: usize = 0;
    while i < 32
        invariant
            i <= 32,
            r@.len() == i,
            forall|k: int| 0 <= k < i ==> #[trigger] r@[k] == hex_of_u128(v)[k],
        decreases 32 - i,
    {
        let shift = (4 * (31 - i)) as u128;
        let nib = ((v >> shift) & 0xf) as u8;
        assert(((v >> shift) & 0xf) < 16) by (bit_vector);
        push_char(&mut r, hex_digit_char(nib));
        i = i + 1;
    }
    assert(r@ =~= hex_of_u128(v));
    r
}

/// The decimal digits of a natural number, most significant first (`0` for zero).
pub open spec fn digits_of(n: nat) -> Seq<char>
    decreases n,
{
    if n < 10 {
        seq![((48 + n) as u32) as char]
    } else {
        digits_of(n / 10).push((((48 + n % 10) as u32) as char))
    }
}

/// How `i64::to_string` writes a number: its digits, after `-` when negative.
pub open spec fn decimal_text(n: int) -> Seq<char> {
    if n < 0 { seq!['-'] + digits_of((-n) as nat) } else { digits_of(n as nat) }
}

fn digits_u64(n: u64) -> (r: Vec<char>)
    ensures
        r@ == digits_of(n as nat),
    decreases n,
{
    if n < 10 {
        let mut v: Vec<char> = Vec::new();
        v.push(((48 + n) as u8) as char);
        proof {
            assert(v@ =~= digits_of(n as nat));
        }
        v
    } else {
        let mut v = digits_u64(n / 10);
        v.push(((48 + n % 10) as u8) as char);
        proof {
            assert(v@ =~= digits_of(n as nat));
        }
        v
    }
}

/// `i64::to_string`.
pub fn i64_text(n: i64) -> (r: String)
    ensures
        r@ == decimal_text(n as int),
{
    if n < 0 {
        let m: u64 = ((-(n + 1)) as u64) + 1;
        let d = digits_u64(m);
        let mut r = String::new();
        push_char(&mut r, '-');
        let t = string_of(d.as_slice());
        append_str(&mut r, t.as_str());
        proof {
            assert(r@ =~= decimal_text(n as int));
        }
        r
    } else {
        let d = digits_u64(n as u64);
        string_of(d.as_slice())
    }
}

} // verus!
