//! Byte- and character-level text helpers shared by every URL and
//! query-string builder in the crate: RFC 3986 percent-encoding,
//! `application/x-www-form-urlencoded` encoding, decimal rendering
//! of integers, joining, and string comparison.

use vstd::prelude::*;
use vstd::string::StringExecFns;
use vstd::string::StringSliceAdditionalSpecFns;
use vstd::utf8::*;

verus! {

broadcast use vstd::string::group_string_axioms;

// -----------------------------------------------------------------------------
// Specifications.
// -----------------------------------------------------------------------------

/// Bytes that RFC 3986 lists as unreserved: `A-Z a-z 0-9 - . _ ~`.
pub open spec fn is_unreserved(b: u8) -> bool {
    (65 <= b <= 90) || (97 <= b <= 122) || (48 <= b <= 57) || b == 45 || b == 46 || b == 95
        || b == 126
}

/// Upper-case hexadecimal digit for a nibble below 16.
pub open spec fn hex_digit(n: u8) -> char {
    if n < 10 {
        ((48 + n) as u8) as char
    } else {
        ((55 + n) as u8) as char
    }
}

/// What one byte becomes under RFC 3986 percent-encoding.
pub open spec fn pct_byte(b: u8) -> Seq<char> {
    if is_unreserved(b) {
        seq![b as char]
    } else {
        seq!['%', hex_digit(b / 16), hex_digit(b % 16)]
    }
}

/// RFC 3986 percent-encoding of a byte string: unreserved bytes stay,
/// every other byte becomes `%XX` with upper-case hex.
pub open spec fn pct_encoded(bytes: Seq<u8>) -> Seq<char>
    decreases bytes.len(),
{
    if bytes.len() == 0 {
        seq![]
    } else {
        pct_encoded(bytes.drop_last()) + pct_byte(bytes.last())
    }
}

/// Bytes the `application/x-www-form-urlencoded` serializer leaves
/// alone: `* - . 0-9 A-Z _ a-z`.
pub open spec fn is_form_unchanged(b: u8) -> bool {
    b == 42 || b == 45 || b == 46 || (48 <= b <= 57) || (65 <= b <= 90) || b == 95 || (97 <= b
        <= 122)
}

/// What one byte becomes under form encoding: unchanged bytes stay,
/// a space becomes `+`, anything else `%XX`.
pub open spec fn form_byte(b: u8) -> Seq<char> {
    if is_form_unchanged(b) {
        seq![b as char]
    } else if b == 32 {
        seq!['+']
    } else {
        seq!['%', hex_digit(b / 16), hex_digit(b % 16)]
    }
}

/// `application/x-www-form-urlencoded` byte serialization.
pub open spec fn form_encoded(bytes: Seq<u8>) -> Seq<char>
    decreases bytes.len(),
{
    if bytes.len() == 0 {
        seq![]
    } else {
        form_encoded(bytes.drop_last()) + form_byte(bytes.last())
    }
}

/// The decimal digit character for `d < 10`.
pub open spec fn digit_char(d: nat) -> char {
    ((48 + d) as u8) as char
}

/// Decimal rendering of a natural number, without leading zeros.
pub open spec fn dec_chars(n: nat) -> Seq<char>
    decreases n,
{
    if n < 10 {
        seq![digit_char(n)]
    } else {
        dec_chars(n / 10) + seq![digit_char(n % 10)]
    }
}

/// Decimal rendering of an integer: a leading `-` for negatives.
pub open spec fn signed_dec_chars(n: int) -> Seq<char> {
    if n < 0 {
        seq!['-'] + dec_chars((-n) as nat)
    } else {
        dec_chars(n as nat)
    }
}

/// Join `parts` with the single separator character `sep`.
pub open spec fn joined(parts: Seq<Seq<char>>, sep: char) -> Seq<char>
    decreases parts.len(),
{
    if parts.len() == 0 {
        seq![]
    } else if parts.len() == 1 {
        parts[0]
    } else {
        joined(parts.drop_last(), sep) + seq![sep] + parts.last()
    }
}

/// The character views of a sequence of strings.
pub open spec fn views(v: Seq<String>) -> Seq<Seq<char>> {
    v.map_values(|s: String| s@)
}

/// The character views of a sequence of string slices.
pub open spec fn str_views(v: Seq<&str>) -> Seq<Seq<char>> {
    v.map_values(|s: &str| s@)
}

/// `true` when every character is an ASCII decimal digit.
pub open spec fn all_digits(s: Seq<char>) -> bool {
    forall|i: int| 0 <= i < s.len() ==> '0' <= #[trigger] s[i] <= '9'
}

// -----------------------------------------------------------------------------
// Lemmas.
// -----------------------------------------------------------------------------

/// A join of at least one part is empty only when all parts are.
pub proof fn lemma_joined_len(parts: Seq<Seq<char>>, sep: char)
    ensures
        parts.len() >= 2 ==> joined(parts, sep).len() > 0,
        parts.len() == 1 ==> joined(parts, sep) == parts[0],
        parts.len() == 0 ==> joined(parts, sep).len() == 0,
        (exists|i: int| 0 <= i < parts.len() && parts[i].len() > 0) ==> joined(parts, sep).len()
            > 0,
    decreases parts.len(),
{
    if parts.len() >= 2 {
        lemma_joined_len(parts.drop_last(), sep);
        if exists|i: int| 0 <= i < parts.len() && parts[i].len() > 0 {
        }
    }
}

/// Extending the list of parts appends a separator and the new part.
pub proof fn lemma_joined_push(parts: Seq<Seq<char>>, p: Seq<char>, sep: char)
    ensures
        joined(parts.push(p), sep) == if parts.len() == 0 {
            p
        } else {
            joined(parts, sep) + seq![sep] + p
        },
{
    assert(parts.push(p).drop_last() == parts);
}

/// `dec_chars` never yields the empty string.
pub proof fn lemma_dec_chars_nonempty(n: nat)
    ensures
        dec_chars(n).len() > 0,
    decreases n,
{
    if n >= 10 {
        lemma_dec_chars_nonempty(n / 10);
    }
}

// -----------------------------------------------------------------------------
// Executable helpers.
// -----------------------------------------------------------------------------

/// Appends one character to a `String` (`String::push`).
#[verifier::external_body]
pub(crate) fn push_char(s: &mut String, c: char)
    ensures
        final(s)@ == old(s)@.push(c),
{
    s.push(c);
}

/// Appends a string slice to a `String`.
pub(crate) fn push_str(s: &mut String, t: &str)
    ensures
        final(s)@ == old(s)@ + t@,
{
    s.append(t);
}

/// The text `{:?}` renders for the string `s` (std's `Debug` for `str`:
/// the string between double quotes, with quotes, backslashes and
/// characters that need it escaped).
pub uninterp spec fn str_debug(s: Seq<char>) -> Seq<char>;

/// `format!("{:?}", s)`: the result is the named `Debug` rendering of
/// `s`. Nothing is stated of the escaping rules.
#[verifier::external_body]
pub(crate) fn debug_str(s: &str) -> (r: String)
    ensures
        r@ == str_debug(s@),
{
    format!("{:?}", s)
}

/// The text std's `ParseIntError` displays when `u32::from_str`
/// refuses `s`.
pub uninterp spec fn u32_parse_error_text(s: Seq<char>) -> Seq<char>;

/// `s.parse::<u32>()`, keeping only the error's displayed text: `None`
/// exactly when the parse succeeds (an optional `+`, then one or more
/// ASCII digits whose value fits in `u32`, as `u32::from_str_radix`
/// documents), else the named text of the error.
#[verifier::external_body]
pub(crate) fn u32_parse_error(s: &str) -> (r: Option<String>)
    ensures
        r is None <==> parse_u32_spec(s@) is Some,
        r matches Some(t) ==> t@ == u32_parse_error_text(s@),
{
    s.parse::<u32>().err().map(|e| e.to_string())
}

/// The text `std::string::FromUtf8Error` displays for the bytes `b`
/// that `String::from_utf8` refused (it reports where the valid prefix
/// ends and how long the bad sequence is, both functions of `b`).
pub uninterp spec fn utf8_error_text(b: Seq<u8>) -> Seq<char>;

/// Builds a `String` from a byte vector (`String::from_utf8`): `Ok`
/// exactly when the bytes are valid UTF-8, and then the string's
/// encoding is those bytes; otherwise the error's displayed text,
/// named, not spelled out.
#[verifier::external_body]
pub(crate) fn string_from_utf8(bytes: Vec<u8>) -> (r: Result<String, String>)
    ensures
        r is Ok <==> valid_utf8(bytes@),
        r matches Ok(s) ==> encode_utf8(s@) == bytes@,
        r matches Err(e) ==> e@ == utf8_error_text(bytes@),
{
    String::from_utf8(bytes).map_err(|e| e.to_string())
}

/// An owned copy of a string slice.
pub fn owned(s: &str) -> (r: String)
    ensures
        r@ == s@,
{
    s.to_owned()
}

/// An owned copy of a `String`.
pub fn copy_string(s: &String) -> (r: String)
    ensures
        r@ == s@,
{
    s.as_str().to_owned()
}

/// An owned copy of an optional `String`.
pub fn copy_opt_string(s: &Option<String>) -> (r: Option<String>)
    ensures
        r is Some <==> s is Some,
        r matches Some(t) ==> t@ == s->0@,
{
    match s {
        Some(t) => Some(copy_string(t)),
        None => None,
    }
}

/// Upper-case hex digit for a nibble.
pub fn hex_char(n: u8) -> (c: char)
    requires
        n < 16,
    ensures
        c == hex_digit(n),
{
    if n < 10 {
        (48 + n) as char
    } else {
        (55 + n) as char
    }
}

/// Executable form of [`is_unreserved`].
pub fn unreserved(b: u8) -> (r: bool)
    ensures
        r == is_unreserved(b),
{
    (65 <= b && b <= 90) || (97 <= b && b <= 122) || (48 <= b && b <= 57) || b == 45 || b == 46
        || b == 95 || b == 126
}

/// The characters of a string slice, in order.
pub fn chars_of(s: &str) -> (v: Vec<char>)
    ensures
        v@ == s@,
{
    let mut v: Vec<char> = Vec::new();
    for c in it: s.chars()
        invariant
            it.seq() == s@,
            v@ == it.seq().take(it.index() as int),
    {
        v.push(c);
    }
    v
}

/// A `String` holding `chars[from..to]`.
pub fn string_of_range(chars: &Vec<char>, from: usize, to: usize) -> (s: String)
    requires
        from <= to <= chars@.len(),
    ensures
        s@ == chars@.subrange(from as int, to as int),
{
    let mut s = String::new();
    let mut i = from;
    while i < to
        invariant
            from <= i <= to <= chars@.len(),
            s@ == chars@.subrange(from as int, i as int),
        decreases to - i,
    {
        push_char(&mut s, chars[i]);
        proof {
            assert(chars@.subrange(from as int, i + 1) == chars@.subrange(from as int, i as int).push(
                chars@[i as int],
            ));
        }
        i += 1;
    }
    s
}

/// String equality by character content.
pub fn str_eq(a: &str, b: &str) -> (r: bool)
    ensures
        r == (a@ == b@),
{
    let va = chars_of(a);
    let vb = chars_of(b);
    if va.len() != vb.len() {
        return false;
    }
    let mut i: usize = 0;
    while i < va.len()
        invariant
            va@ == a@,
            vb@ == b@,
            va@.len() == vb@.len(),
            i <= va@.len(),
            forall|j: int| 0 <= j < i ==> va@[j] == vb@[j],
        decreases va@.len() - i,
    {
        if va[i] != vb[i] {
            return false;
        }
        i += 1;
    }
    assert(va@ =~= vb@);
    true
}

/// Percent-encode `input` byte by byte (RFC 3986): unreserved bytes
/// stay, every other byte becomes `%XX` with upper-case hex.
pub fn pct_encode(input: &str) -> (out: String)
    ensures
        out@ == pct_encoded(input.spec_bytes()),
{
    let bytes = input.as_bytes();
    let mut out = String::new();
    let mut i: usize = 0;
    while i < bytes.len()
        invariant
            i <= bytes@.len(),
            bytes@ == input.spec_bytes(),
            out@ == pct_encoded(bytes@.take(i as int)),
        decreases bytes@.len() - i,
    {
        let b = bytes[i];
        proof {
            assert(bytes@.take(i + 1).drop_last() == bytes@.take(i as int));
        }
        if unreserved(b) {
            push_char(&mut out, b as char);
        } else {
            push_char(&mut out, '%');
            push_char(&mut out, hex_char(b / 16));
            push_char(&mut out, hex_char(b % 16));
        }
        i += 1;
    }
    proof {
        assert(bytes@.take(bytes@.len() as int) == bytes@);
    }
    out
}

/// `application/x-www-form-urlencoded` serialization of `input`.
pub fn form_encode(input: &str) -> (out: String)
    ensures
        out@ == form_encoded(input.spec_bytes()),
{
    let bytes = input.as_bytes();
    let mut out = String::new();
    let mut i: usize = 0;
    while i < bytes.len()
        invariant
            i <= bytes@.len(),
            bytes@ == input.spec_bytes(),
            out@ == form_encoded(bytes@.take(i as int)),
        decreases bytes@.len() - i,
    {
        let b = bytes[i];
        proof {
            assert(bytes@.take(i + 1).drop_last() == bytes@.take(i as int));
        }
        if b == 42 || b == 45 || b == 46 || (48 <= b && b <= 57) || (65 <= b && b <= 90) || b
            == 95 || (97 <= b && b <= 122) {
            push_char(&mut out, b as char);
        } else if b == 32 {
            push_char(&mut out, '+');
        } else {
            push_char(&mut out, '%');
            push_char(&mut out, hex_char(b / 16));
            push_char(&mut out, hex_char(b % 16));
        }
        i += 1;
    }
    proof {
        assert(bytes@.take(bytes@.len() as int) == bytes@);
    }
    out
}

/// Appends the decimal rendering of `n`.
pub fn push_dec(s: &mut String, n: u64)
    ensures
        final(s)@ == old(s)@ + dec_chars(n as nat),
    decreases n,
{
    if n >= 10 {
        push_dec(s, n / 10);
    }
    let d: u8 = (n % 10) as u8;
    push_char(s, (48 + d) as char);
    proof {
        assert(n < 10 ==> n % 10 == n);
    }
}

/// Decimal rendering of an unsigned integer.
pub fn fmt_u64(n: u64) -> (s: String)
    ensures
        s@ == dec_chars(n as nat),
{
    let mut s = String::new();
    push_dec(&mut s, n);
    s
}

/// Decimal rendering of a signed integer.
pub fn fmt_i64(n: i64) -> (s: String)
    ensures
        s@ == signed_dec_chars(n as int),
{
    let mut s = String::new();
    if n < 0 {
        push_char(&mut s, '-');
        let m: u64 = ((-(n + 1)) as u64) + 1;
        push_dec(&mut s, m);
    } else {
        push_dec(&mut s, n as u64);
    }
    s
}

/// Join `parts` with the separator `sep`.
pub fn join_strings(parts: &Vec<String>, sep: char) -> (s: String)
    ensures
        s@ == joined(views(parts@), sep),
{
    let mut s = String::new();
    let mut i: usize = 0;
    while i < parts.len()
        invariant
            i <= parts@.len(),
            s@ == joined(views(parts@.take(i as int)), sep),
        decreases parts@.len() - i,
    {
        proof {
            assert(views(parts@.take(i + 1)) == views(parts@.take(i as int)).push(parts@[i as int]@));
            lemma_joined_push(views(parts@.take(i as int)), parts@[i as int]@, sep);
        }
        if i > 0 {
            push_char(&mut s, sep);
        }
        push_str(&mut s, parts[i].as_str());
        i += 1;
    }
    proof {
        assert(parts@.take(parts@.len() as int) == parts@);
    }
    s
}

/// Join string slices with the separator `sep`.
pub fn join_strs(parts: &[&str], sep: char) -> (s: String)
    ensures
        s@ == joined(str_views(parts@), sep),
{
    let mut s = String::new();
    let mut i: usize = 0;
    while i < parts.len()
        invariant
            i <= parts@.len(),
            s@ == joined(str_views(parts@.take(i as int)), sep),
        decreases parts@.len() - i,
    {
        proof {
            assert(str_views(parts@.take(i + 1)) == str_views(parts@.take(i as int)).push(
                parts@[i as int]@,
            ));
            lemma_joined_push(str_views(parts@.take(i as int)), parts@[i as int]@, sep);
        }
        if i > 0 {
            push_char(&mut s, sep);
        }
        push_str(&mut s, parts[i]);
        i += 1;
    }
    proof {
        assert(parts@.take(parts@.len() as int) == parts@);
    }
    s
}

// -----------------------------------------------------------------------------
// Splitting, trimming and number parsing.
// -----------------------------------------------------------------------------

/// The pieces of `s` between occurrences of `c` (always at least one
/// piece; empty pieces are kept), like `str::split`.
pub open spec fn split_on(s: Seq<char>, c: char) -> Seq<Seq<char>>
    decreases s.len(),
{
    if s.len() == 0 {
        seq![seq![]]
    } else {
        let prev = split_on(s.drop_last(), c);
        if s.last() == c {
            prev.push(seq![])
        } else {
            prev.update(prev.len() - 1, prev.last().push(s.last()))
        }
    }
}

/// `split_on` never yields an empty list of pieces.
pub proof fn lemma_split_on_nonempty(s: Seq<char>, c: char)
    ensures
        split_on(s, c).len() >= 1,
    decreases s.len(),
{
    if s.len() > 0 {
        lemma_split_on_nonempty(s.drop_last(), c);
    }
}

/// Unicode `White_Space` characters, the set `char::is_whitespace`
/// recognises and `str::trim` removes.
pub open spec fn is_ws(c: char) -> bool {
    let u = c as u32;
    (9 <= u <= 13) || u == 32 || u == 0x85 || u == 0xA0 || u == 0x1680 || (0x2000 <= u <= 0x200A)
        || u == 0x2028 || u == 0x2029 || u == 0x202F || u == 0x205F || u == 0x3000
}

/// `s` without leading whitespace.
pub open spec fn trim_start(s: Seq<char>) -> Seq<char>
    decreases s.len(),
{
    if s.len() > 0 && is_ws(s[0]) {
        trim_start(s.drop_first())
    } else {
        s
    }
}

/// `s` without trailing whitespace.
pub open spec fn trim_end(s: Seq<char>) -> Seq<char>
    decreases s.len(),
{
    if s.len() > 0 && is_ws(s.last()) {
        trim_end(s.drop_last())
    } else {
        s
    }
}

/// `s` without leading and trailing whitespace (`str::trim`).
pub open spec fn trimmed(s: Seq<char>) -> Seq<char> {
    trim_end(trim_start(s))
}

/// The value of a string of decimal digits.
pub open spec fn digits_value(s: Seq<char>) -> nat
    decreases s.len(),
{
    if s.len() == 0 {
        0
    } else {
        digits_value(s.drop_last()) * 10 + ((s.last() as u32) - 48) as nat
    }
}

/// What `u32::from_str` accepts: an optional `+`, then one or more
/// ASCII digits whose value fits in `u32`.
pub open spec fn parse_u32_spec(s: Seq<char>) -> Option<u32> {
    let d = if s.len() > 0 && s[0] == '+' { s.drop_first() } else { s };
    if d.len() == 0 || !all_digits(d) || digits_value(d) > u32::MAX {
        None
    } else {
        Some(digits_value(d) as u32)
    }
}

/// What `u64::from_str` accepts: an optional `+`, then one or more
/// ASCII digits whose value fits in `u64`.
pub open spec fn parse_u64_spec(s: Seq<char>) -> Option<u64> {
    let d = if s.len() > 0 && s[0] == '+' { s.drop_first() } else { s };
    if d.len() == 0 || !all_digits(d) || digits_value(d) > u64::MAX {
        None
    } else {
        Some(digits_value(d) as u64)
    }
}

/// What `i64::from_str` accepts: an optional sign, then one or more
/// ASCII digits whose signed value fits in `i64`.
pub open spec fn parse_i64_spec(s: Seq<char>) -> Option<i64> {
    let neg = s.len() > 0 && s[0] == '-';
    let d = if s.len() > 0 && (s[0] == '-' || s[0] == '+') { s.drop_first() } else { s };
    if d.len() == 0 || !all_digits(d) {
        None
    } else if neg {
        if digits_value(d) > 0x8000_0000_0000_0000 {
            None
        } else {
            Some((0 - digits_value(d)) as i64)
        }
    } else if digits_value(d) > i64::MAX {
        None
    } else {
        Some(digits_value(d) as i64)
    }
}

/// Index of the first occurrence of `c` in `s` at or after `from`.
pub open spec fn find_from(s: Seq<char>, c: char, from: int) -> Option<int>
    decreases s.len() - from,
{
    if from < 0 || from >= s.len() {
        None
    } else if s[from] == c {
        Some(from)
    } else {
        find_from(s, c, from + 1)
    }
}

/// `s` begins with `p`.
pub open spec fn has_prefix(s: Seq<char>, p: Seq<char>) -> bool {
    p.len() <= s.len() && s.take(p.len() as int) == p
}

/// `s` ends with `p`.
pub open spec fn has_suffix(s: Seq<char>, p: Seq<char>) -> bool {
    p.len() <= s.len() && s.skip(s.len() - p.len()) == p
}

/// Characters of a string slice split at every `c`.
pub fn split_chars(s: &Vec<char>, c: char) -> (v: Vec<String>)
    ensures
        views(v@) == split_on(s@, c),
{
    let mut v: Vec<String> = Vec::new();
    v.push(String::new());
    let mut i: usize = 0;
    proof {
        assert(views(v@) =~= split_on(s@.take(0), c));
    }
    while i < s.len()
        invariant
            i <= s@.len(),
            views(v@) == split_on(s@.take(i as int), c),
            v@.len() >= 1,
        decreases s@.len() - i,
    {
        let ch = s[i];
        proof {
            assert(s@.take(i + 1).drop_last() == s@.take(i as int));
        }
        let ghost prev = views(v@);
        if ch == c {
            v.push(String::new());
            proof {
                assert(views(v@) =~= prev.push(seq![]));
            }
        } else {
            let last = v.len() - 1;
            let mut cur = v.pop().unwrap();
            push_char(&mut cur, ch);
            v.push(cur);
            proof {
                assert(views(v@) =~= prev.update(prev.len() - 1, prev.last().push(ch)));
            }
        }
        i += 1;
    }
    proof {
        assert(s@.take(s@.len() as int) == s@);
    }
    v
}

/// `str::split` on one character, as owned pieces.
pub fn split_str(s: &str, c: char) -> (v: Vec<String>)
    ensures
        views(v@) == split_on(s@, c),
{
    let cs = chars_of(s);
    split_chars(&cs, c)
}

/// Executable form of [`is_ws`].
pub fn whitespace(c: char) -> (r: bool)
    ensures
        r == is_ws(c),
{
    let u = c as u32;
    (9 <= u && u <= 13) || u == 32 || u == 0x85 || u == 0xA0 || u == 0x1680 || (0x2000 <= u && u
        <= 0x200A) || u == 0x2028 || u == 0x2029 || u == 0x202F || u == 0x205F || u == 0x3000
}

/// `trim_start` of a suffix, as an index.
proof fn lemma_trim_start_skip(s: Seq<char>, i: int)
    requires
        0 <= i <= s.len(),
        forall|j: int| 0 <= j < i ==> is_ws(#[trigger] s[j]),
    ensures
        trim_start(s) == trim_start(s.skip(i)),
    decreases i,
{
    if i > 0 {
        assert(s.drop_first().skip(i - 1) =~= s.skip(i));
        lemma_trim_start_skip(s.drop_first(), i - 1);
    } else {
        assert(s.skip(0) =~= s);
    }
}

/// `trim_end` of a prefix, as an index.
proof fn lemma_trim_end_take(s: Seq<char>, e: int)
    requires
        0 <= e <= s.len(),
        forall|j: int| e <= j < s.len() ==> is_ws(#[trigger] s[j]),
    ensures
        trim_end(s) == trim_end(s.take(e)),
    decreases s.len() - e,
{
    if e < s.len() {
        assert(s.drop_last().take(e) =~= s.take(e));
        lemma_trim_end_take(s.drop_last(), e);
    } else {
        assert(s.take(e) =~= s);
    }
}

/// `str::trim`: the string without leading and trailing whitespace.
pub fn trim_string(s: &str) -> (r: String)
    ensures
        r@ == trimmed(s@),
{
    let cs = chars_of(s);
    let mut start: usize = 0;
    while start < cs.len() && whitespace(cs[start])
        invariant
            start <= cs@.len(),
            cs@ == s@,
            forall|j: int| 0 <= j < start ==> is_ws(#[trigger] cs@[j]),
        decreases cs@.len() - start,
    {
        start += 1;
    }
    proof {
        lemma_trim_start_skip(cs@, start as int);
    }
    let ghost t = cs@.skip(start as int);
    let mut end: usize = cs.len();
    while end > start && whitespace(cs[end - 1])
        invariant
            start <= end <= cs@.len(),
            t == cs@.skip(start as int),
            forall|j: int| end - start <= j < t.len() ==> is_ws(#[trigger] t[j]),
        decreases end - start,
    {
        end -= 1;
    }
    proof {
        lemma_trim_end_take(t, end - start);
        assert(!(t.len() > 0 && is_ws(t[0])) || start == cs@.len());
        assert(t.take(end - start) =~= cs@.subrange(start as int, end as int));
        if t.take(end - start).len() > 0 {
            assert(t.take(end - start).last() == cs@[end - 1]);
        }
    }
    string_of_range(&cs, start, end)
}

/// `u32::from_str`: an optional `+` then decimal digits fitting `u32`.
pub fn parse_u32(s: &str) -> (r: Option<u32>)
    ensures
        r == parse_u32_spec(s@),
{
    let cs = chars_of(s);
    let mut i: usize = 0;
    if cs.len() > 0 && cs[0] == '+' {
        i = 1;
    }
    let ghost d = if s@.len() > 0 && s@[0] == '+' { s@.drop_first() } else { s@ };
    proof {
        assert(d =~= cs@.skip(i as int));
    }
    if i >= cs.len() {
        return None;
    }
    let start = i;
    let mut acc: u64 = 0;
    let cap: u64 = 0x1_0000_0000;
    while i < cs.len()
        invariant
            1 <= start <= i <= cs@.len() || 0 == start <= i <= cs@.len(),
            start < cs@.len(),
            cap == 0x1_0000_0000u64,
            cs@ == s@,
            d == (if s@.len() > 0 && s@[0] == '+' { s@.drop_first() } else { s@ }),
            d == cs@.skip(start as int),
            all_digits(cs@.subrange(start as int, i as int)),
            acc == if digits_value(cs@.subrange(start as int, i as int)) >= cap {
                cap as nat
            } else {
                digits_value(cs@.subrange(start as int, i as int))
            },
        decreases cs@.len() - i,
    {
        let ch = cs[i];
        if !('0' <= ch && ch <= '9') {
            proof {
                assert(d[i - start] == ch);
                assert(!('0' <= d[i - start] <= '9'));
                assert(!all_digits(d));
            }
            return None;
        }
        assert(48 <= (ch as u32) <= 57);
        let dv: u64 = (ch as u32 - 48) as u64;
        proof {
            let pre = cs@.subrange(start as int, i as int);
            let nxt = cs@.subrange(start as int, i + 1);
            assert(nxt.drop_last() =~= pre);
            assert(nxt.last() == ch);
            assert(digits_value(nxt) == digits_value(pre) * 10 + dv);
            assert(all_digits(nxt));
        }
        if acc >= cap {
            acc = cap;
        } else {
            let n = acc * 10 + dv;
            acc = if n >= cap { cap } else { n };
        }
        i += 1;
    }
    proof {
        assert(cs@.subrange(start as int, cs@.len() as int) =~= d);
    }
    if acc >= cap {
        None
    } else {
        Some(acc as u32)
    }
}

/// `u64::from_str`: an optional `+` then decimal digits fitting `u32`.
pub fn parse_u64(s: &str) -> (r: Option<u64>)
    ensures
        r == parse_u64_spec(s@),
{
    let cs = chars_of(s);
    let mut i: usize = 0;
    if cs.len() > 0 && cs[0] == '+' {
        i = 1;
    }
    let ghost d = if s@.len() > 0 && s@[0] == '+' { s@.drop_first() } else { s@ };
    proof {
        assert(d =~= cs@.skip(i as int));
    }
    if i >= cs.len() {
        return None;
    }
    let start = i;
    let mut acc: u128 = 0;
    let cap: u128 = 0x1_0000_0000_0000_0000;
    while i < cs.len()
        invariant
            1 <= start <= i <= cs@.len() || 0 == start <= i <= cs@.len(),
            start < cs@.len(),
            cap == 0x1_0000_0000_0000_0000u128,
            cs@ == s@,
            d == (if s@.len() > 0 && s@[0] == '+' { s@.drop_first() } else { s@ }),
            d == cs@.skip(start as int),
            all_digits(cs@.subrange(start as int, i as int)),
            acc == if digits_value(cs@.subrange(start as int, i as int)) >= cap {
                cap as nat
            } else {
                digits_value(cs@.subrange(start as int, i as int))
            },
        decreases cs@.len() - i,
    {
        let ch = cs[i];
        if !('0' <= ch && ch <= '9') {
            proof {
                assert(d[i - start] == ch);
                assert(!('0' <= d[i - start] <= '9'));
                assert(!all_digits(d));
            }
            return None;
        }
        assert(48 <= (ch as u32) <= 57);
        let dv: u128 = (ch as u32 - 48) as u128;
        proof {
            let pre = cs@.subrange(start as int, i as int);
            let nxt = cs@.subrange(start as int, i + 1);
            assert(nxt.drop_last() =~= pre);
            assert(nxt.last() == ch);
            assert(digits_value(nxt) == digits_value(pre) * 10 + dv);
            assert(all_digits(nxt));
        }
        if acc >= cap {
            acc = cap;
        } else {
            let n = acc * 10 + dv;
            acc = if n >= cap { cap } else { n };
        }
        i += 1;
    }
    proof {
        assert(cs@.subrange(start as int, cs@.len() as int) =~= d);
    }
    if acc >= cap {
        None
    } else {
        Some(acc as u64)
    }
}

/// `i64::from_str`: an optional sign then decimal digits fitting `i64`.
pub fn parse_i64(s: &str) -> (r: Option<i64>)
    ensures
        r == parse_i64_spec(s@),
{
    let cs = chars_of(s);
    if cs.len() > 0 && cs[0] == '-' {
        let n = cs.len();
        let rest = string_of_range(&cs, 1, n);
        proof {
            assert(cs@.subrange(1, n as int) =~= s@.drop_first());
        }
        if n > 1 && cs[1] == '+' {
            proof {
                assert(rest@[0] == '+');
                assert(!('0' <= rest@[0] <= '9'));
            }
            return None;
        }
        proof {
            if rest@.len() > 0 {
                assert(rest@[0] == cs@[1]);
            }
        }
        match parse_u64(rest.as_str()) {
            Some(v) => {
                if v > 0x8000_0000_0000_0000 {
                    None
                } else if v == 0x8000_0000_0000_0000 {
                    Some(i64::MIN)
                } else {
                    Some(0 - (v as i64))
                }
            },
            None => None,
        }
    } else {
        match parse_u64(s) {
            Some(v) => {
                if v > 0x7fff_ffff_ffff_ffff {
                    None
                } else {
                    Some(v as i64)
                }
            },
            None => None,
        }
    }
}

/// The first index of `c` in `s` at or after `from`.
pub fn find_char(s: &Vec<char>, c: char, from: usize) -> (r: Option<usize>)
    ensures
        match r {
            Some(i) => find_from(s@, c, from as int) == Some(i as int),
            None => find_from(s@, c, from as int) is None,
        },
        r matches Some(i) ==> from <= i < s@.len() && s@[i as int] == c,
{
    let mut i = from;
    while i < s.len()
        invariant
            from <= i,
            find_from(s@, c, from as int) == find_from(s@, c, i as int),
        decreases s@.len() - i,
    {
        if s[i] == c {
            return Some(i);
        }
        i += 1;
    }
    None
}

/// `true` when `s` starts with `p`.
pub fn starts_with_chars(s: &Vec<char>, p: &str) -> (r: bool)
    ensures
        r == has_prefix(s@, p@),
{
    let pc = chars_of(p);
    if pc.len() > s.len() {
        return false;
    }
    let mut i: usize = 0;
    while i < pc.len()
        invariant
            pc@ == p@,
            pc@.len() <= s@.len(),
            i <= pc@.len(),
            forall|j: int| 0 <= j < i ==> s@[j] == pc@[j],
        decreases pc@.len() - i,
    {
        if s[i] != pc[i] {
            assert(s@.take(pc@.len() as int)[i as int] != pc@[i as int]);
            return false;
        }
        i += 1;
    }
    assert(s@.take(pc@.len() as int) =~= pc@);
    true
}

/// An optional attribute, with the empty string counting as absent.
pub open spec fn non_empty_view(o: Option<String>) -> Option<Seq<char>> {
    match o {
        Some(s) => if s@.len() > 0 {
            Some(s@)
        } else {
            None
        },
        None => None,
    }
}

/// Drop an empty optional attribute.
pub fn drop_empty(o: Option<String>) -> (r: Option<String>)
    ensures
        match r {
            Some(s) => non_empty_view(o) == Some(s@),
            None => non_empty_view(o) is None,
        },
{
    match o {
        Some(s) => if s.as_str().is_empty() {
            None
        } else {
            Some(s)
        },
        None => None,
    }
}

/// The UTF-8 bytes of `s`, owned.
pub fn string_bytes(s: &str) -> (v: Vec<u8>)
    ensures
        v@ == s.spec_bytes(),
{
    let bytes = s.as_bytes();
    let mut out: Vec<u8> = Vec::new();
    let mut i: usize = 0;
    while i < bytes.len()
        invariant
            i <= bytes@.len(),
            bytes@ == s.spec_bytes(),
            out@ == bytes@.take(i as int),
        decreases bytes@.len() - i,
    {
        out.push(bytes[i]);
        proof {
            assert(out@ =~= bytes@.take(i + 1));
        }
        i += 1;
    }
    proof {
        assert(bytes@.take(bytes@.len() as int) =~= bytes@);
    }
    out
}

/// The first character of `s` that is not whitespace.
pub fn first_non_ws(s: &str) -> (r: Option<char>)
    ensures
        r == if trim_start(s@).len() > 0 {
            Some(trim_start(s@)[0])
        } else {
            None::<char>
        },
{
    let cs = chars_of(s);
    let mut i: usize = 0;
    while i < cs.len() && whitespace(cs[i])
        invariant
            i <= cs@.len(),
            cs@ == s@,
            forall|j: int| 0 <= j < i ==> is_ws(#[trigger] cs@[j]),
        decreases cs@.len() - i,
    {
        i += 1;
    }
    proof {
        lemma_trim_start_skip(cs@, i as int);
        if i < cs@.len() {
            assert(!is_ws(cs@.skip(i as int)[0]));
        } else {
            assert(cs@.skip(i as int).len() == 0);
        }
    }
    if i < cs.len() {
        Some(cs[i])
    } else {
        None
    }
}

/// ASCII lower-casing of one character.
pub open spec fn lower_char(c: char) -> char {
    if 'A' <= c <= 'Z' {
        ((c as u32) + 32) as char
    } else {
        c
    }
}

/// ASCII lower-casing of a string.
pub open spec fn lowered(s: Seq<char>) -> Seq<char> {
    s.map_values(|c: char| lower_char(c))
}

/// ASCII lower-casing of one character (`char::to_ascii_lowercase`).
pub fn lower_ascii(c: char) -> (r: char)
    ensures
        r == lower_char(c),
{
    if 'A' <= c && c <= 'Z' {
        let b = c as u8;
        (b + 32) as char
    } else {
        c
    }
}

/// ASCII lower-casing of a string (`str::to_ascii_lowercase`).
pub fn lower_string(s: &str) -> (r: String)
    ensures
        r@ == lowered(s@),
{
    let cs = chars_of(s);
    let mut out = String::new();
    let mut i: usize = 0;
    while i < cs.len()
        invariant
            i <= cs@.len(),
            cs@ == s@,
            out@ == cs@.take(i as int).map_values(|c: char| lower_char(c)),
        decreases cs@.len() - i,
    {
        push_char(&mut out, lower_ascii(cs[i]));
        proof {
            assert(out@ =~= cs@.take(i + 1).map_values(|c: char| lower_char(c)));
        }
        i += 1;
    }
    proof {
        assert(cs@.take(cs@.len() as int) =~= cs@);
    }
    out
}

/// ASCII case-insensitive equality (`str::eq_ignore_ascii_case`).
pub fn eq_ignore_ascii_case(a: &str, b: &str) -> (r: bool)
    ensures
        r == (lowered(a@) == lowered(b@)),
{
    let la = lower_string(a);
    let lb = lower_string(b);
    str_eq(la.as_str(), lb.as_str())
}

} // verus!
