//! Parser for Plex smart-playlist / smart-collection filter URIs.
//!
//! Smart playlists and collections store their filter as a URI nested
//! inside a `library://` reference whose `/directory/` path carries the
//! percent-encoded inner `path?query`, for example
//! `/library/sections/<sid>/all?type=1&genre=2&year>=2000&sort=titleSort:desc`.
//! [`SmartFilter::from_uri`] accepts that wrapping form, a bare path, a
//! bare query string, or any absolute URL, and produces the section id,
//! metadata type, ordered clauses (operator inferred from the key's
//! suffix), group markers, sort string and unrecognised pairs.

use vstd::prelude::*;
use vstd::string::StringSliceAdditionalSpecFns;
use vstd::utf8::{decode_utf8, encode_utf8, is_ascii_chars, valid_utf8};

use crate::error::{Error, Result};
use crate::headers::opt_view;
use crate::library::filters::{FilterOp, filter_op_wire};
use crate::text::{
    chars_of, copy_string, debug_str, str_debug, dec_chars, digit_char, find_char, find_from, has_prefix, has_suffix, hex_digit,
    is_unreserved, owned, pct_byte, pct_encoded,
    parse_u32, parse_u32_spec, push_char, push_dec, push_str, split_chars, split_on, str_eq,
    string_from_utf8, string_of_range, trim_string, trimmed, utf8_error_text, views,
};
use crate::urls::{parse_url, url_parse};

verus! {

broadcast use vstd::string::group_string_axioms;

/// A parsed smart-filter URI.
#[derive(Debug, Clone, PartialEq, Eq)]
#[non_exhaustive]
pub struct SmartFilter {
    /// Section id from a `/library/sections/<id>/...` path.
    pub section_id: Option<u32>,
    /// Numeric `type=<n>`.
    pub libtype: Option<u32>,
    /// Filter clauses in source order.
    pub clauses: Vec<FilterClause>,
    /// `push=1` / `pop=1` / `and=1` / `or=1` markers in source order.
    pub group_markers: Vec<GroupMarker>,
    /// For each group marker, the number of clauses that came before it
    /// in the source.
    pub marker_positions: Vec<usize>,
    /// `sort` segments joined with `,`.
    pub sort: Option<String>,
    /// Pairs whose key names no field.
    pub extra: Vec<(String, String)>,
}

/// One filter clause.
#[derive(Debug, Clone, PartialEq, Eq)]
#[non_exhaustive]
pub struct FilterClause {
    /// Field name with the operator suffix stripped.
    pub field: String,
    /// Operator inferred from the suffix.
    pub op: FilterOp,
    /// Comma-split values (empty when the value is empty).
    pub values: Vec<String>,
}

/// Logical group marker.
#[derive(Debug, Clone, Copy, PartialEq, Eq)]
pub enum GroupMarker {
    /// `push=1` — open a sub-group.
    Push,
    /// `pop=1` — close the open sub-group.
    Pop,
    /// `and=1` — explicit AND between adjacent clauses.
    And,
    /// `or=1` — OR between adjacent clauses.
    Or,
}

/// Interleaved token returned by [`SmartFilter::tokens`].
#[derive(Debug, Clone, PartialEq, Eq)]
pub enum SmartToken<'a> {
    /// A filter clause.
    Clause(&'a FilterClause),
    /// A logical group marker.
    Marker(GroupMarker),
}

/// The abstract content of a [`SmartFilter`].
#[verifier::ext_equal]
pub struct SmartSpec {
    /// Section id.
    pub section_id: Option<u32>,
    /// Metadata type.
    pub libtype: Option<u32>,
    /// Clauses: field, operator, values.
    pub clauses: Seq<(Seq<char>, FilterOp, Seq<Seq<char>>)>,
    /// Group markers.
    pub group_markers: Seq<GroupMarker>,
    /// Clauses before each marker.
    pub marker_positions: Seq<nat>,
    /// Sort string.
    pub sort: Option<Seq<char>>,
    /// Unrecognised pairs.
    pub extra: Seq<(Seq<char>, Seq<char>)>,
}

/// The view of a clause.
pub open spec fn clause_of(c: FilterClause) -> (Seq<char>, FilterOp, Seq<Seq<char>>) {
    (c.field@, c.op, views(c.values@))
}

/// The abstract content of a filter.
pub open spec fn smart_view(f: SmartFilter) -> SmartSpec {
    SmartSpec {
        section_id: f.section_id,
        libtype: f.libtype,
        clauses: f.clauses@.map_values(|c: FilterClause| clause_of(c)),
        group_markers: f.group_markers@,
        marker_positions: f.marker_positions@.map_values(|p: usize| p as nat),
        sort: opt_view(f.sort),
        extra: f.extra@.map_values(|p: (String, String)| (p.0@, p.1@)),
    }
}

// -----------------------------------------------------------------------------
// Specification of the parser.
// -----------------------------------------------------------------------------

/// The value of an ASCII hex digit byte.
pub open spec fn hex_value(b: u8) -> Option<u8> {
    if 48 <= b <= 57 {
        Some((b - 48) as u8)
    } else if 97 <= b <= 102 {
        Some((b - 87) as u8)
    } else if 65 <= b <= 70 {
        Some((b - 55) as u8)
    } else {
        None
    }
}

/// Tolerant percent-decoding of `b[i..]`: `+` becomes a space, `%XY`
/// (when two more bytes follow) becomes the byte `0xXY` and fails on a
/// non-hex digit, and every other byte — including a `%` too close to
/// the end — is kept.
pub open spec fn pct_decode_from(b: Seq<u8>, i: int) -> Option<Seq<u8>>
    decreases b.len() - i,
{
    if i < 0 || i >= b.len() {
        Some(seq![])
    } else if b[i] == 43 {
        match pct_decode_from(b, i + 1) {
            Some(r) => Some(seq![32u8] + r),
            None => None,
        }
    } else if b[i] == 37 && i + 2 < b.len() {
        match (hex_value(b[i + 1]), hex_value(b[i + 2])) {
            (Some(h), Some(l)) => match pct_decode_from(b, i + 3) {
                Some(r) => Some(seq![(h * 16 + l) as u8] + r),
                None => None,
            },
            _ => None,
        }
    } else {
        match pct_decode_from(b, i + 1) {
            Some(r) => Some(seq![b[i]] + r),
            None => None,
        }
    }
}

/// The offset of the first bad escape in `b[i..]`: a `%` with two more
/// bytes after it that are not both hex digits. `None` when there is
/// none.
pub open spec fn pct_fail_from(b: Seq<u8>, i: int) -> Option<int>
    decreases b.len() - i,
{
    if i < 0 || i >= b.len() {
        None
    } else if b[i] == 43 {
        pct_fail_from(b, i + 1)
    } else if b[i] == 37 && i + 2 < b.len() {
        match (hex_value(b[i + 1]), hex_value(b[i + 2])) {
            (Some(_), Some(_)) => pct_fail_from(b, i + 3),
            _ => Some(i),
        }
    } else {
        pct_fail_from(b, i + 1)
    }
}

/// Decoding `b[i..]` fails exactly where a bad escape is.
pub proof fn lemma_pct_fail_iff(b: Seq<u8>, i: int)
    requires
        0 <= i,
    ensures
        pct_fail_from(b, i) is Some <==> pct_decode_from(b, i) is None,
    decreases b.len() - i,
{
    if i < b.len() {
        if b[i] == 43 {
            lemma_pct_fail_iff(b, i + 1);
        } else if b[i] == 37 && i + 2 < b.len() {
            if hex_value(b[i + 1]) is Some && hex_value(b[i + 2]) is Some {
                lemma_pct_fail_iff(b, i + 3);
            }
        } else {
            lemma_pct_fail_iff(b, i + 1);
        }
    }
}

/// The message `percent_decode_query` fails with on `s`, when it fails.
pub open spec fn percent_decode_error(s: Seq<char>) -> Seq<char> {
    match pct_fail_from(encode_utf8(s), 0) {
        Some(k) => "invalid percent-escape at byte "@ + dec_chars(k as nat),
        None => "decoded query was not utf-8: "@ + utf8_error_text(
            pct_decode_from(encode_utf8(s), 0)->0,
        ),
    }
}

/// The decoded text of `s`, or `None` on a bad escape or when the
/// decoded bytes are not UTF-8.
pub open spec fn percent_decoded(s: Seq<char>) -> Option<Seq<char>> {
    match pct_decode_from(encode_utf8(s), 0) {
        Some(o) => if valid_utf8(o) {
            Some(decode_utf8(o))
        } else {
            None
        },
        None => None,
    }
}

/// Index of the first `=` at or after `i` that is not followed by
/// another `=`.
pub open spec fn boundary_from(s: Seq<char>, i: int) -> Option<int>
    decreases s.len() - i,
{
    if i < 0 || i >= s.len() {
        None
    } else if s[i] == '=' && !(i + 1 < s.len() && s[i + 1] == '=') {
        Some(i)
    } else {
        boundary_from(s, i + 1)
    }
}

/// Split a raw pair at its boundary `=`; the key keeps that `=`.
pub open spec fn split_pair_spec(s: Seq<char>) -> (Seq<char>, Seq<char>) {
    match boundary_from(s, 0) {
        Some(i) => (s.take(i + 1), s.skip(i + 1)),
        None => (s, seq![]),
    }
}

/// The operator whose suffix `key` carries, longest first.
pub open spec fn suffix_op(key: Seq<char>) -> Option<(int, FilterOp)> {
    if has_suffix(key, "!=="@) {
        Some((3, FilterOp::NotExact))
    } else if has_suffix(key, ">>="@) {
        Some((3, FilterOp::GreaterThan))
    } else if has_suffix(key, "<<="@) {
        Some((3, FilterOp::LessThan))
    } else if has_suffix(key, "=="@) {
        Some((2, FilterOp::Exact))
    } else if has_suffix(key, "!="@) {
        Some((2, FilterOp::Not))
    } else if has_suffix(key, "<="@) {
        Some((2, FilterOp::StartsWith))
    } else if has_suffix(key, ">="@) {
        Some((2, FilterOp::EndsWith))
    } else if has_suffix(key, "&="@) {
        Some((2, FilterOp::AndValues))
    } else if has_suffix(key, "="@) {
        Some((1, FilterOp::Default))
    } else {
        None
    }
}

/// ASCII letter or digit.
pub open spec fn is_alnum(c: char) -> bool {
    ('0' <= c <= '9') || ('a' <= c <= 'z') || ('A' <= c <= 'Z')
}

/// The field and operator of a key, when the field left after removing
/// the operator suffix is non-empty and holds an ASCII letter or digit.
pub open spec fn split_field_op_spec(key: Seq<char>) -> Option<(Seq<char>, FilterOp)> {
    match suffix_op(key) {
        Some((n, op)) => {
            let field = key.take(key.len() - n);
            if field.len() == 0 || !(exists|j: int| 0 <= j < field.len() && is_alnum(#[trigger] field[j])) {
                None
            } else {
                Some((field, op))
            }
        },
        None => None,
    }
}

/// The empty filter for a given section id.
pub open spec fn empty_spec(section_id: Option<u32>) -> SmartSpec {
    SmartSpec {
        section_id,
        libtype: None,
        clauses: seq![],
        group_markers: seq![],
        marker_positions: seq![],
        sort: None,
        extra: seq![],
    }
}

/// The marker a reserved key names, when its value is `1`.
pub open spec fn marker_of(plain: Seq<char>) -> Option<GroupMarker> {
    if plain == "push"@ {
        Some(GroupMarker::Push)
    } else if plain == "pop"@ {
        Some(GroupMarker::Pop)
    } else if plain == "and"@ {
        Some(GroupMarker::And)
    } else if plain == "or"@ {
        Some(GroupMarker::Or)
    } else {
        None
    }
}

/// The effect of one decoded `key`/`value` pair on the filter.
pub open spec fn apply_pair(st: SmartSpec, key: Seq<char>, value: Seq<char>) -> SmartSpec {
    let ends = key.len() > 0 && key.last() == '=';
    let plain = if ends { key.drop_last() } else { key };
    if ends && plain == "type"@ {
        SmartSpec {
            libtype: match parse_u32_spec(value) {
                Some(n) => Some(n),
                None => st.libtype,
            },
            ..st
        }
    } else if ends && plain == "sort"@ {
        SmartSpec {
            sort: match st.sort {
                None => Some(value),
                Some(p) => Some(p + seq![','] + value),
            },
            ..st
        }
    } else if ends && value == "1"@ && marker_of(plain) is Some {
        SmartSpec {
            group_markers: st.group_markers.push(marker_of(plain)->0),
            marker_positions: st.marker_positions.push(st.clauses.len()),
            ..st
        }
    } else {
        match split_field_op_spec(key) {
            Some((field, op)) => SmartSpec {
                clauses: st.clauses.push(
                    (
                        field,
                        op,
                        if value.len() == 0 {
                            seq![]
                        } else {
                            split_on(value, ',')
                        },
                    ),
                ),
                ..st
            },
            None => SmartSpec { extra: st.extra.push((key, value)), ..st },
        }
    }
}

/// The effect of one raw `&`-separated piece: empty pieces are skipped,
/// otherwise the pair is split at its boundary and both halves are
/// percent-decoded (key first); a decoding failure fails the parse.
pub open spec fn apply_piece(st: SmartSpec, piece: Seq<char>) -> Option<SmartSpec> {
    if piece.len() == 0 {
        Some(st)
    } else {
        let (rk, rv) = split_pair_spec(piece);
        match percent_decoded(rk) {
            None => None,
            Some(key) => match percent_decoded(rv) {
                None => None,
                Some(value) => Some(apply_pair(st, key, value)),
            },
        }
    }
}

/// All pieces applied in order.
pub open spec fn fold_pieces(st: SmartSpec, pieces: Seq<Seq<char>>) -> Option<SmartSpec>
    decreases pieces.len(),
{
    if pieces.len() == 0 {
        Some(st)
    } else {
        match fold_pieces(st, pieces.drop_last()) {
            Some(s) => apply_piece(s, pieces.last()),
            None => None,
        }
    }
}

/// The section id of a `/library/sections/<id>/...` path.
pub open spec fn section_id_of(path: Seq<char>) -> Option<u32> {
    if has_prefix(path, "/library/sections/"@) {
        let rest = path.skip(18);
        match find_from(rest, '/', 0) {
            Some(k) => parse_u32_spec(rest.take(k)),
            None => None,
        }
    } else {
        None
    }
}

/// Parse an already-decoded `path?query`: the section id from the path,
/// then every `&`-separated query piece in order.
pub open spec fn parse_decoded_spec(decoded: Seq<char>) -> Option<SmartSpec> {
    let (path, query) = match find_from(decoded, '?', 0) {
        Some(i) => (decoded.take(i), decoded.skip(i + 1)),
        None => (decoded, seq![]),
    };
    fold_pieces(empty_spec(section_id_of(path)), split_on(query, '&'))
}

/// `c` occurs in `s`.
pub open spec fn has_char(s: Seq<char>, c: char) -> bool {
    find_from(s, c, 0) is Some
}

/// Reduce the accepted wrapping shapes to the inner `path?query`:
/// after trimming, the empty string fails; a string with `=` but no `/`
/// is a bare query; a string starting with `/` is a bare path; anything
/// else must parse as a URL, whose `/directory/<encoded>` path is
/// percent-decoded, or whose path and query are used as they are.
pub open spec fn decode_inner_spec(input: Seq<char>) -> Option<Seq<char>> {
    let t = trimmed(input);
    if t.len() == 0 {
        None
    } else if !has_char(t, '/') && has_char(t, '=') {
        Some(seq!['?'] + t)
    } else if has_prefix(t, "/"@) {
        Some(t)
    } else {
        match url_parse(t) {
            Some((_, path, query, _)) => if has_prefix(path, "/directory/"@) {
                percent_decoded(path.skip(11))
            } else {
                Some(
                    path + match query {
                        Some(q) => seq!['?'] + q,
                        None => seq![],
                    },
                )
            },
            None => None,
        }
    }
}

/// The message a failing piece is refused with: its key's decoding
/// error, else its value's.
pub open spec fn piece_error(piece: Seq<char>) -> Seq<char> {
    let (rk, rv) = split_pair_spec(piece);
    if percent_decoded(rk) is None {
        percent_decode_error(rk)
    } else {
        percent_decode_error(rv)
    }
}

/// The message of the first piece the fold fails on.
pub open spec fn fold_error(st: SmartSpec, pieces: Seq<Seq<char>>) -> Seq<char>
    decreases pieces.len(),
{
    if pieces.len() == 0 {
        seq![]
    } else if fold_pieces(st, pieces.drop_last()) is None {
        fold_error(st, pieces.drop_last())
    } else {
        piece_error(pieces.last())
    }
}

/// The message `parse_decoded` fails with on `decoded`, when it fails.
pub open spec fn parse_decoded_error(decoded: Seq<char>) -> Seq<char> {
    let (path, query) = match find_from(decoded, '?', 0) {
        Some(i) => (decoded.take(i), decoded.skip(i + 1)),
        None => (decoded, seq![]),
    };
    fold_error(empty_spec(section_id_of(path)), split_on(query, '&'))
}

/// The message `decode_inner_path` fails with on `input`, when it fails.
pub open spec fn decode_inner_error(input: Seq<char>) -> Seq<char> {
    let t = trimmed(input);
    if t.len() == 0 {
        "smart-filter URI is empty"@
    } else {
        match url_parse(t) {
            Some((_, path, _, _)) => percent_decode_error(path.skip(11)),
            None => "smart-filter URI not recognised: "@ + str_debug(t),
        }
    }
}

/// The message `SmartFilter::from_uri` fails with on `input`, when it
/// fails.
pub open spec fn from_uri_error(input: Seq<char>) -> Seq<char> {
    match decode_inner_spec(input) {
        None => decode_inner_error(input),
        Some(inner) => parse_decoded_error(inner),
    }
}

/// The whole parse.
pub open spec fn from_uri_spec(input: Seq<char>) -> Option<SmartSpec> {
    match decode_inner_spec(input) {
        Some(inner) => parse_decoded_spec(inner),
        None => None,
    }
}

/// A place in the interleaved token sequence: the clause or the marker
/// with that index.
pub enum TokenSlot {
    /// The clause with this index.
    Clause(nat),
    /// The group marker with this index.
    Marker(nat),
}

/// Where marker `k` stood: the number of clauses before it, or after all
/// `nc` clauses when no position was recorded for it.
pub open spec fn marker_pos(pos: Seq<usize>, k: nat, nc: nat) -> nat {
    if k < pos.len() {
        pos[k as int] as nat
    } else {
        nc
    }
}

/// The interleaving of clauses `i..nc` and markers `k..nm`, both in
/// source order: a marker comes out once the clauses that preceded it
/// in the source are out (or once every clause is), ahead of the next
/// clause; otherwise the next clause comes out.
pub open spec fn token_slots(i: nat, k: nat, nc: nat, nm: nat, pos: Seq<usize>) -> Seq<TokenSlot>
    decreases nc + nm - i - k,
{
    if i > nc || k > nm {
        seq![]
    } else if k < nm && (marker_pos(pos, k, nc) <= i || i == nc) {
        seq![TokenSlot::Marker(k)] + token_slots(i, k + 1, nc, nm, pos)
    } else if i < nc {
        seq![TokenSlot::Clause(i)] + token_slots(i + 1, k, nc, nm, pos)
    } else {
        seq![]
    }
}

/// The token a slot stands for in `f`.
pub open spec fn token_at<'a>(f: &'a SmartFilter, t: TokenSlot) -> SmartToken<'a> {
    match t {
        TokenSlot::Clause(j) => SmartToken::Clause(&f.clauses@[j as int]),
        TokenSlot::Marker(k) => SmartToken::Marker(f.group_markers@[k as int]),
    }
}

// -----------------------------------------------------------------------------
// Implementation.
// -----------------------------------------------------------------------------

impl SmartFilter {
    /// Parse a smart-filter URI: a bare query string, a bare path, a
    /// `library://…/directory/<encoded>` URI, or any absolute URL whose
    /// query carries the filter pairs.
    ///
    /// Fails with [`Error::Config`] exactly when the input matches none
    /// of these shapes or holds an undecodable percent-escape.
    pub fn from_uri(input: &str) -> (r: Result<Self>)
        ensures
            r is Ok <==> from_uri_spec(input@) is Some,
            r matches Ok(f) ==> from_uri_spec(input@) == Some(smart_view(f)),
            r matches Err(e) ==> (e matches Error::Config(m) && m@ == from_uri_error(input@)),
    {
        let inner = decode_inner_path(input)?;
        parse_decoded(inner.as_str())
    }

    /// Clauses and group markers interleaved in source order (see
    /// [`token_slots`]).
    pub fn tokens(&self) -> (out: Vec<SmartToken<'_>>)
        ensures
            out@ == token_slots(
                0,
                0,
                self.clauses@.len(),
                self.group_markers@.len(),
                self.marker_positions@,
            ).map_values(|t: TokenSlot| token_at(self, t)),
    {
        let ghost nc = self.clauses@.len();
        let ghost nm = self.group_markers@.len();
        let ghost pos = self.marker_positions@;
        let ghost all = token_slots(0, 0, nc, nm, pos);
        let ghost mut done: Seq<TokenSlot> = seq![];
        let mut out: Vec<SmartToken<'_>> = Vec::new();
        let mut i: usize = 0;
        let mut k: usize = 0;
        proof {
            assert(done + token_slots(0, 0, nc, nm, pos) =~= all);
        }
        while i < self.clauses.len() || k < self.group_markers.len()
            invariant
                nc == self.clauses@.len(),
                nm == self.group_markers@.len(),
                pos == self.marker_positions@,
                i <= nc,
                k <= nm,
                done + token_slots(i as nat, k as nat, nc, nm, pos) == all,
                out@ == done.map_values(|t: TokenSlot| token_at(self, t)),
            decreases nc + nm - i - k,
        {
            let take_marker = k < self.group_markers.len() && (i == self.clauses.len() || (k
                < self.marker_positions.len() && self.marker_positions[k] <= i));
            if take_marker {
                proof {
                    let rest = token_slots(i as nat, (k + 1) as nat, nc, nm, pos);
                    assert(token_slots(i as nat, k as nat, nc, nm, pos) == seq![TokenSlot::Marker(k as nat)] + rest);
                    assert(done.push(TokenSlot::Marker(k as nat)) + rest =~= done + (seq![
                        TokenSlot::Marker(k as nat),
                    ] + rest));
                    assert(done.push(TokenSlot::Marker(k as nat)).map_values(|t: TokenSlot| token_at(self, t))
                        =~= done.map_values(|t: TokenSlot| token_at(self, t)).push(
                        SmartToken::Marker(self.group_markers@[k as int]),
                    ));
                    done = done.push(TokenSlot::Marker(k as nat));
                }
                out.push(SmartToken::Marker(self.group_markers[k]));
                k += 1;
            } else {
                proof {
                    let rest = token_slots((i + 1) as nat, k as nat, nc, nm, pos);
                    assert(token_slots(i as nat, k as nat, nc, nm, pos) == seq![TokenSlot::Clause(i as nat)] + rest);
                    assert(done.push(TokenSlot::Clause(i as nat)) + rest =~= done + (seq![
                        TokenSlot::Clause(i as nat),
                    ] + rest));
                    assert(done.push(TokenSlot::Clause(i as nat)).map_values(|t: TokenSlot| token_at(self, t))
                        =~= done.map_values(|t: TokenSlot| token_at(self, t)).push(
                        SmartToken::Clause(&self.clauses@[i as int]),
                    ));
                    done = done.push(TokenSlot::Clause(i as nat));
                }
                out.push(SmartToken::Clause(&self.clauses[i]));
                i += 1;
            }
        }
        proof {
            assert(token_slots(i as nat, k as nat, nc, nm, pos) == Seq::<TokenSlot>::empty());
            assert(done =~= all);
        }
        out
    }
}

/// The bytes `b` hold a bad percent-escape: a `%` followed by two bytes
/// that are not both hex digits.
pub open spec fn holds_bad_escape(b: Seq<u8>) -> bool {
    exists|k: int|
        0 <= k && k + 2 < b.len() && #[trigger] b[k] == 37 && !(hex_value(b[k + 1]) is Some
            && hex_value(b[k + 2]) is Some)
}

/// A raw query piece whose key or value, in UTF-8, holds a bad
/// percent-escape.
pub open spec fn piece_has_bad_escape(piece: Seq<char>) -> bool {
    piece.len() > 0 && (holds_bad_escape(encode_utf8(split_pair_spec(piece).0))
        || holds_bad_escape(encode_utf8(split_pair_spec(piece).1)))
}

/// Decoding reaches a bad escape at `k` from any earlier position: no
/// valid escape can swallow the `%` at `k`, since `%` is no hex digit.
proof fn lemma_bad_escape_fails(b: Seq<u8>, i: int, k: int)
    requires
        0 <= i <= k,
        k + 2 < b.len(),
        b[k] == 37,
        !(hex_value(b[k + 1]) is Some && hex_value(b[k + 2]) is Some),
    ensures
        pct_fail_from(b, i) is Some,
    decreases k - i,
{
    if i < k {
        if b[i] == 37 && i + 2 < b.len() && hex_value(b[i + 1]) is Some && hex_value(b[i + 2]) is Some {
            assert(hex_value(37u8) is None);
            lemma_bad_escape_fails(b, i + 3, k);
        } else if b[i] == 37 && i + 2 < b.len() {
        } else {
            lemma_bad_escape_fails(b, i + 1, k);
        }
    }
}

proof fn lemma_bad_escape_fails_from_start(b: Seq<u8>)
    requires
        holds_bad_escape(b),
    ensures
        pct_fail_from(b, 0) is Some,
{
    let k = choose|k: int|
        0 <= k && k + 2 < b.len() && #[trigger] b[k] == 37 && !(hex_value(b[k + 1]) is Some
            && hex_value(b[k + 2]) is Some);
    lemma_bad_escape_fails(b, 0, k);
}

/// Once a piece fails, the whole fold fails.
proof fn lemma_fold_fails_on_bad_piece(st: SmartSpec, pieces: Seq<Seq<char>>, j: int)
    requires
        0 <= j < pieces.len(),
        forall|s1: SmartSpec| #[trigger] apply_piece(s1, pieces[j]) is None,
    ensures
        fold_pieces(st, pieces) is None,
    decreases pieces.len(),
{
    if j < pieces.len() - 1 {
        assert(pieces.drop_last()[j] == pieces[j]);
        lemma_fold_fails_on_bad_piece(st, pieces.drop_last(), j);
    } else {
        match fold_pieces(st, pieces.drop_last()) {
            Some(s) => {
                assert(apply_piece(s, pieces[j]) is None);
            },
            None => {},
        }
    }
}

/// Blank input — nothing but whitespace, the empty string included — is
/// refused by the smart-filter parser.
pub proof fn law_from_uri_rejects_blank(input: Seq<char>)
    requires
        trimmed(input).len() == 0,
    ensures
        from_uri_spec(input) is None,
{
}

/// A bare query (after trimming, an `=` and no `/`) is refused when one
/// of its `&`-separated pieces has, in its key or its value, a `%`
/// followed by two bytes that are not both hex digits.
pub proof fn law_from_uri_rejects_bad_escape(input: Seq<char>, j: int)
    requires
        !has_char(trimmed(input), '/'),
        has_char(trimmed(input), '='),
        0 <= j < split_on(trimmed(input), '&').len(),
        piece_has_bad_escape(split_on(trimmed(input), '&')[j]),
    ensures
        from_uri_spec(input) is None,
{
    let t = trimmed(input);
    assert(t.len() > 0);
    let d = seq!['?'] + t;
    assert(decode_inner_spec(input) == Some(d));
    assert(find_from(d, '?', 0) == Some(0int));
    assert(d.skip(1) =~= t);
    let pieces = split_on(t, '&');
    let p = pieces[j];
    let (rk, rv) = split_pair_spec(p);
    if holds_bad_escape(encode_utf8(rk)) {
        lemma_bad_escape_fails_from_start(encode_utf8(rk));
    } else {
        lemma_bad_escape_fails_from_start(encode_utf8(rv));
    }
    lemma_pct_fail_iff(encode_utf8(rk), 0);
    lemma_pct_fail_iff(encode_utf8(rv), 0);
    let st0 = empty_spec(section_id_of(d.take(0)));
    assert forall|s1: SmartSpec| #[trigger] apply_piece(s1, p) is None by {}
    lemma_fold_fails_on_bad_piece(st0, pieces, j);
}

/// Every group marker has a recorded position, positions never go
/// down, and none passes the number of clauses.
pub open spec fn positions_in_order(sp: SmartSpec) -> bool {
    &&& sp.marker_positions.len() == sp.group_markers.len()
    &&& forall|i: int, j: int|
        0 <= i <= j < sp.marker_positions.len() ==> #[trigger] sp.marker_positions[i]
            <= #[trigger] sp.marker_positions[j]
    &&& forall|i: int| 0 <= i < sp.marker_positions.len() ==> #[trigger] sp.marker_positions[i] <= sp.clauses.len()
}

proof fn lemma_apply_pair_keeps_positions(st: SmartSpec, key: Seq<char>, value: Seq<char>)
    requires
        positions_in_order(st),
    ensures
        positions_in_order(apply_pair(st, key, value)),
{
    let r = apply_pair(st, key, value);
    if r.marker_positions.len() > st.marker_positions.len() {
        assert forall|i: int, j: int|
            0 <= i <= j < r.marker_positions.len() implies #[trigger] r.marker_positions[i]
            <= #[trigger] r.marker_positions[j] by {
            if j == st.marker_positions.len() {
                assert(r.marker_positions[j] == st.clauses.len());
            }
        }
    }
}

proof fn lemma_fold_keeps_positions(st: SmartSpec, pieces: Seq<Seq<char>>)
    requires
        positions_in_order(st),
        fold_pieces(st, pieces) is Some,
    ensures
        positions_in_order(fold_pieces(st, pieces)->0),
    decreases pieces.len(),
{
    if pieces.len() > 0 {
        lemma_fold_keeps_positions(st, pieces.drop_last());
        let s = fold_pieces(st, pieces.drop_last())->0;
        let piece = pieces.last();
        if piece.len() > 0 {
            let (rk, rv) = split_pair_spec(piece);
            lemma_apply_pair_keeps_positions(s, percent_decoded(rk)->0, percent_decoded(rv)->0);
        }
    }
}

/// In a parsed smart filter every group marker records how many clauses
/// came before it in the source, in source order: positions never go
/// down and never pass the number of clauses, so
/// [`SmartFilter::tokens`] interleaves clauses and markers as they
/// stood in the URI.
pub proof fn law_parsed_marker_positions_in_order(input: Seq<char>)
    requires
        from_uri_spec(input) is Some,
    ensures
        positions_in_order(from_uri_spec(input)->0),
{
    let inner = decode_inner_spec(input)->0;
    let (path, query) = match find_from(inner, '?', 0) {
        Some(i) => (inner.take(i), inner.skip(i + 1)),
        None => (inner, seq![]),
    };
    lemma_fold_keeps_positions(empty_spec(section_id_of(path)), split_on(query, '&'));
}

/// The value of a hex digit byte.
pub fn hex_val(b: u8) -> (r: Option<u8>)
    ensures
        r == hex_value(b),
{
    if 48 <= b && b <= 57 {
        Some(b - 48)
    } else if 97 <= b && b <= 102 {
        Some(b - 87)
    } else if 65 <= b && b <= 70 {
        Some(b - 55)
    } else {
        None
    }
}

/// Tolerant percent-decoder: `+` is a space, `%XY` a byte, a bad hex
/// digit an error naming the byte offset, and the result must be UTF-8.
pub fn percent_decode_query(s: &str) -> (r: std::result::Result<String, String>)
    ensures
        r is Ok <==> percent_decoded(s@) is Some,
        r matches Ok(t) ==> percent_decoded(s@) == Some(t@),
        r matches Err(m) ==> m@ == percent_decode_error(s@),
{
    let bytes = s.as_bytes();
    let mut out: Vec<u8> = Vec::new();
    let mut i: usize = 0;
    while i < bytes.len()
        invariant
            bytes@ == encode_utf8(s@),
            i <= bytes@.len(),
            pct_decode_from(bytes@, 0) == match pct_decode_from(bytes@, i as int) {
                Some(rest) => Some(out@ + rest),
                None => None,
            },
            pct_fail_from(bytes@, 0) == pct_fail_from(bytes@, i as int),
        decreases bytes@.len() - i,
    {
        let b = bytes[i];
        if b == 43 {
            proof {
                assert(out@.push(32u8) + pct_decode_from(bytes@, i + 1)->0 =~= out@ + (seq![32u8]
                    + pct_decode_from(bytes@, i + 1)->0));
            }
            out.push(32u8);
            i += 1;
        } else if b == 37 && bytes.len() - i > 2 {
            let hi = hex_val(bytes[i + 1]);
            let lo = hex_val(bytes[i + 2]);
            match (hi, lo) {
                (Some(h), Some(l)) => {
                    let v: u8 = h * 16 + l;
                    proof {
                        assert(out@.push(v) + pct_decode_from(bytes@, i + 3)->0 =~= out@ + (seq![v]
                            + pct_decode_from(bytes@, i + 3)->0));
                    }
                    out.push(v);
                    i += 3;
                },
                _ => {
                    let mut msg = owned("invalid percent-escape at byte ");
                    push_dec(&mut msg, i as u64);
                    proof {
                        assert(pct_fail_from(bytes@, i as int) == Some(i as int));
                        lemma_pct_fail_iff(bytes@, 0);
                    }
                    return Err(msg);
                },
            }
        } else {
            proof {
                assert(out@.push(b) + pct_decode_from(bytes@, i + 1)->0 =~= out@ + (seq![b]
                    + pct_decode_from(bytes@, i + 1)->0));
            }
            out.push(b);
            i += 1;
        }
    }
    proof {
        assert(out@ + seq![] =~= out@);
    }
    let ghost decoded = out@;
    proof {
        assert(pct_fail_from(bytes@, i as int) is None);
    }
    match string_from_utf8(out) {
        Ok(t) => {
            proof {
                vstd::utf8::encode_utf8_decode_utf8(t@);
            }
            Ok(t)
        },
        Err(e) => {
            let mut msg = owned("decoded query was not utf-8: ");
            push_str(&mut msg, e.as_str());
            Err(msg)
        },
    }
}

/// Split a raw pair at the first `=` not followed by another `=`; the
/// key keeps that `=`. Without such a `=` the whole pair is the key.
pub fn split_pair(pair: &Vec<char>) -> (r: (String, String))
    ensures
        r.0@ == split_pair_spec(pair@).0,
        r.1@ == split_pair_spec(pair@).1,
{
    let mut i: usize = 0;
    while i < pair.len()
        invariant
            i <= pair@.len(),
            boundary_from(pair@, 0) == boundary_from(pair@, i as int),
        decreases pair@.len() - i,
    {
        if pair[i] == '=' {
            if i + 1 < pair.len() && pair[i + 1] == '=' {
                i += 1;
                continue;
            }
            let k = string_of_range(pair, 0, i + 1);
            let v = string_of_range(pair, i + 1, pair.len());
            proof {
                assert(pair@.subrange(0, i + 1) =~= pair@.take(i + 1));
                assert(pair@.subrange(i + 1, pair@.len() as int) =~= pair@.skip(i + 1));
            }
            return (k, v);
        }
        i += 1;
    }
    let k = string_of_range(pair, 0, pair.len());
    proof {
        assert(pair@.subrange(0, pair@.len() as int) =~= pair@);
    }
    (k, String::new())
}

/// `true` when `s` ends with `p`.
fn ends_with_chars(s: &Vec<char>, p: &str) -> (r: bool)
    ensures
        r == has_suffix(s@, p@),
{
    let pc = chars_of(p);
    if pc.len() > s.len() {
        return false;
    }
    let off = s.len() - pc.len();
    let mut j: usize = off;
    while j < s.len()
        invariant
            pc@ == p@,
            pc@.len() <= s@.len(),
            off == s@.len() - pc@.len(),
            off <= j <= s@.len(),
            forall|t: int| 0 <= t < j - off ==> s@[off + t] == pc@[t],
        decreases s@.len() - j,
    {
        if s[j] != pc[j - off] {
            assert(s@.skip(off as int)[j - off] != pc@[j - off]);
            return false;
        }
        j += 1;
    }
    assert(s@.skip(off as int) =~= pc@);
    true
}

/// The operator suffix of a key, longest first.
fn suffix_of(key: &Vec<char>) -> (r: Option<(usize, FilterOp)>)
    ensures
        match r {
            Some((n, op)) => suffix_op(key@) == Some((n as int, op)),
            None => suffix_op(key@) is None,
        },
{
    if ends_with_chars(key, "!==") {
        Some((3, FilterOp::NotExact))
    } else if ends_with_chars(key, ">>=") {
        Some((3, FilterOp::GreaterThan))
    } else if ends_with_chars(key, "<<=") {
        Some((3, FilterOp::LessThan))
    } else if ends_with_chars(key, "==") {
        Some((2, FilterOp::Exact))
    } else if ends_with_chars(key, "!=") {
        Some((2, FilterOp::Not))
    } else if ends_with_chars(key, "<=") {
        Some((2, FilterOp::StartsWith))
    } else if ends_with_chars(key, ">=") {
        Some((2, FilterOp::EndsWith))
    } else if ends_with_chars(key, "&=") {
        Some((2, FilterOp::AndValues))
    } else if ends_with_chars(key, "=") {
        Some((1, FilterOp::Default))
    } else {
        None
    }
}

/// Split a key (including its trailing operator) into field and
/// operator; `None` when no operator suffix is found or the remaining
/// field is empty or has no ASCII letter or digit.
pub fn split_field_op(key: &str) -> (r: Option<(String, FilterOp)>)
    ensures
        match r {
            Some((f, op)) => split_field_op_spec(key@) == Some((f@, op)),
            None => split_field_op_spec(key@) is None,
        },
{
    let kc = chars_of(key);
    match suffix_of(&kc) {
        None => None,
        Some((n, op)) => {
            proof {
                assert(n <= kc@.len()) by {
                    reveal_strlit("!==");
                    reveal_strlit(">>=");
                    reveal_strlit("<<=");
                    reveal_strlit("==");
                    reveal_strlit("!=");
                    reveal_strlit("<=");
                    reveal_strlit(">=");
                    reveal_strlit("&=");
                    reveal_strlit("=");
                }
            }
            let flen = kc.len() - n;
            let mut j: usize = 0;
            let mut any = false;
            while j < flen
                invariant
                    flen <= kc@.len(),
                    j <= flen,
                    any == (exists|t: int| 0 <= t < j && is_alnum(#[trigger] kc@[t])),
                decreases flen - j,
            {
                let c = kc[j];
                if ('0' <= c && c <= '9') || ('a' <= c && c <= 'z') || ('A' <= c && c <= 'Z') {
                    any = true;
                }
                j += 1;
            }
            let ghost field = kc@.take(flen as int);
            proof {
                assert(any == (exists|t: int| 0 <= t < field.len() && is_alnum(#[trigger] field[t]))) by {
                    if any {
                        let t = choose|t: int| 0 <= t < flen && is_alnum(#[trigger] kc@[t]);
                        assert(field[t] == kc@[t]);
                    }
                    if exists|t: int| 0 <= t < field.len() && is_alnum(#[trigger] field[t]) {
                        let t = choose|t: int| 0 <= t < field.len() && is_alnum(#[trigger] field[t]);
                        assert(kc@[t] == field[t]);
                    }
                }
            }
            if flen == 0 || !any {
                None
            } else {
                let f = string_of_range(&kc, 0, flen);
                proof {
                    assert(kc@.subrange(0, flen as int) =~= field);
                }
                Some((f, op))
            }
        },
    }
}

/// Comma-split values; none for an empty value.
fn split_values(value: &String) -> (v: Vec<String>)
    ensures
        views(v@) == if value@.len() == 0 {
            seq![]
        } else {
            split_on(value@, ',')
        },
{
    if value.as_str().is_empty() {
        let v: Vec<String> = Vec::new();
        proof {
            assert(views(v@) =~= seq![]);
        }
        v
    } else {
        let cs = chars_of(value.as_str());
        split_chars(&cs, ',')
    }
}

/// Apply one decoded pair.
fn apply_decoded(f: &mut SmartFilter, key: String, value: String)
    ensures
        smart_view(*final(f)) == apply_pair(smart_view(*old(f)), key@, value@),
{
    proof {
        reveal_strlit("type");
        reveal_strlit("sort");
        reveal_strlit("push");
        reveal_strlit("pop");
        reveal_strlit("and");
        reveal_strlit("or");
        reveal_strlit("1");
    }
    let ghost st = smart_view(*f);
    let kc = chars_of(key.as_str());
    let ends = kc.len() > 0 && kc[kc.len() - 1] == '=';
    let plain = if ends {
        string_of_range(&kc, 0, kc.len() - 1)
    } else {
        copy_string(&key)
    };
    proof {
        if ends {
            assert(kc@.subrange(0, kc@.len() - 1) =~= key@.drop_last());
        }
    }
    if ends && str_eq(plain.as_str(), "type") {
        match parse_u32(value.as_str()) {
            Some(n) => {
                f.libtype = Some(n);
            },
            None => {},
        }
        proof {
            assert(smart_view(*f) =~= apply_pair(st, key@, value@));
        }
        return;
    }
    if ends && str_eq(plain.as_str(), "sort") {
        let prev = f.sort.take();
        let next = match prev {
            None => value,
            Some(mut p) => {
                push_char(&mut p, ',');
                push_str(&mut p, value.as_str());
                p
            },
        };
        f.sort = Some(next);
        proof {
            assert(smart_view(*f) =~= apply_pair(st, key@, value@));
        }
        return;
    }
    if ends && str_eq(value.as_str(), "1") {
        let m: Option<GroupMarker> = if str_eq(plain.as_str(), "push") {
            Some(GroupMarker::Push)
        } else if str_eq(plain.as_str(), "pop") {
            Some(GroupMarker::Pop)
        } else if str_eq(plain.as_str(), "and") {
            Some(GroupMarker::And)
        } else if str_eq(plain.as_str(), "or") {
            Some(GroupMarker::Or)
        } else {
            None
        };
        proof {
            assert(m == marker_of(plain@));
        }
        if let Some(mk) = m {
            let at = f.clauses.len();
            let ghost old_pos = f.marker_positions@;
            f.group_markers.push(mk);
            f.marker_positions.push(at);
            proof {
                assert(f.marker_positions@.map_values(|p: usize| p as nat) =~= old_pos.map_values(
                    |p: usize| p as nat,
                ).push(st.clauses.len()));
            }
            proof {
                assert(smart_view(*f) =~= apply_pair(st, key@, value@));
            }
            return;
        }
    }
    match split_field_op(key.as_str()) {
        Some((field, op)) => {
            let values = split_values(&value);
            let ghost old_clauses = f.clauses@;
            f.clauses.push(FilterClause { field, op, values });
            proof {
                assert(f.clauses@.map_values(|c: FilterClause| clause_of(c)) =~= old_clauses.map_values(
                    |c: FilterClause| clause_of(c),
                ).push(clause_of(f.clauses@.last())));
                assert(smart_view(*f) =~= apply_pair(st, key@, value@));
            }
        },
        None => {
            let ghost old_extra = f.extra@;
            let ghost kv = key@;
            let ghost vv = value@;
            f.extra.push((key, value));
            proof {
                assert(f.extra@.map_values(|p: (String, String)| (p.0@, p.1@)) =~= old_extra.map_values(
                    |p: (String, String)| (p.0@, p.1@),
                ).push((kv, vv)));
                assert(smart_view(*f) =~= apply_pair(st, kv, vv));
            }
        },
    }
}

/// Apply one raw `&`-separated piece.
fn apply_piece_exec(f: &mut SmartFilter, piece: &String) -> (r: Result<()>)
    ensures
        match apply_piece(smart_view(*old(f)), piece@) {
            Some(s) => r is Ok && smart_view(*final(f)) == s,
            None => r matches Err(e) && (e matches Error::Config(m) && m@ == piece_error(piece@)),
        },
{
    if piece.as_str().is_empty() {
        return Ok(());
    }
    let pc = chars_of(piece.as_str());
    let (rk, rv) = split_pair(&pc);
    let key = match percent_decode_query(rk.as_str()) {
        Ok(k) => k,
        Err(m) => {
            return Err(Error::Config(m));
        },
    };
    let value = match percent_decode_query(rv.as_str()) {
        Ok(v) => v,
        Err(m) => {
            return Err(Error::Config(m));
        },
    };
    apply_decoded(f, key, value);
    Ok(())
}

/// Once the fold fails on a prefix it fails on the whole sequence.
proof fn lemma_fold_none(st: SmartSpec, pieces: Seq<Seq<char>>, k: int)
    requires
        0 <= k <= pieces.len(),
        fold_pieces(st, pieces.take(k)) is None,
    ensures
        fold_pieces(st, pieces) is None,
    decreases pieces.len() - k,
{
    if k < pieces.len() {
        assert(pieces.take(k + 1).drop_last() =~= pieces.take(k));
        lemma_fold_none(st, pieces, k + 1);
    } else {
        assert(pieces.take(k) =~= pieces);
    }
}

/// Once the fold fails on a prefix, the failure message is that prefix's.
proof fn lemma_fold_error_settled(st: SmartSpec, pieces: Seq<Seq<char>>, k: int)
    requires
        0 <= k <= pieces.len(),
        fold_pieces(st, pieces.take(k)) is None,
    ensures
        fold_error(st, pieces) == fold_error(st, pieces.take(k)),
    decreases pieces.len() - k,
{
    if k < pieces.len() {
        assert(pieces.take(k + 1).drop_last() =~= pieces.take(k));
        assert(fold_error(st, pieces.take(k + 1)) == fold_error(st, pieces.take(k)));
        lemma_fold_error_settled(st, pieces, k + 1);
    } else {
        assert(pieces.take(k) =~= pieces);
    }
}

/// The section id carried by a `/library/sections/<id>/...` path.
fn section_id_from_path(path: &Vec<char>) -> (r: Option<u32>)
    ensures
        r == section_id_of(path@),
{
    proof {
        reveal_strlit("/library/sections/");
    }
    if !crate::text::starts_with_chars(path, "/library/sections/") {
        return None;
    }
    let rest = string_of_range(path, 18, path.len());
    let rc = chars_of(rest.as_str());
    proof {
        assert(rc@ =~= path@.skip(18));
    }
    match find_char(&rc, '/', 0) {
        Some(k) => {
            let sid = string_of_range(&rc, 0, k);
            proof {
                assert(rc@.subrange(0, k as int) =~= rc@.take(k as int));
            }
            parse_u32(sid.as_str())
        },
        None => None,
    }
}

/// Parse the already-decoded `path?query` shape.
pub fn parse_decoded(decoded: &str) -> (r: Result<SmartFilter>)
    ensures
        r is Ok <==> parse_decoded_spec(decoded@) is Some,
        r matches Ok(f) ==> parse_decoded_spec(decoded@) == Some(smart_view(f)),
        r matches Err(e) ==> (e matches Error::Config(m) && m@ == parse_decoded_error(decoded@)),
{
    let dc = chars_of(decoded);
    let n = dc.len();
    let (path, query) = match find_char(&dc, '?', 0) {
        Some(i) => {
            let p = string_of_range(&dc, 0, i);
            let q = string_of_range(&dc, i + 1, n);
            proof {
                assert(dc@.subrange(0, i as int) =~= dc@.take(i as int));
                assert(dc@.subrange(i + 1, dc@.len() as int) =~= dc@.skip(i + 1));
            }
            (p, q)
        },
        None => (string_of_range(&dc, 0, dc.len()), String::new()),
    };
    proof {
        assert(dc@.subrange(0, dc@.len() as int) =~= dc@);
    }
    let pc = chars_of(path.as_str());
    let section_id = section_id_from_path(&pc);
    let mut f = SmartFilter {
        section_id,
        libtype: None,
        clauses: Vec::new(),
        group_markers: Vec::new(),
        marker_positions: Vec::new(),
        sort: None,
        extra: Vec::new(),
    };
    proof {
        assert(smart_view(f) =~= empty_spec(section_id));
    }
    let qc = chars_of(query.as_str());
    let pieces = split_chars(&qc, '&');
    let ghost st0 = empty_spec(section_id);
    proof {
        assert(parse_decoded_spec(decoded@) == fold_pieces(st0, views(pieces@)));
        assert(parse_decoded_error(decoded@) == fold_error(st0, views(pieces@)));
    }
    let mut i: usize = 0;
    while i < pieces.len()
        invariant
            i <= pieces@.len(),
            parse_decoded_spec(decoded@) == fold_pieces(st0, views(pieces@)),
            parse_decoded_error(decoded@) == fold_error(st0, views(pieces@)),
            views(pieces@) == split_on(query@, '&'),
            fold_pieces(st0, views(pieces@).take(i as int)) == Some(smart_view(f)),
        decreases pieces@.len() - i,
    {
        proof {
            assert(views(pieces@).take(i + 1).drop_last() =~= views(pieces@).take(i as int));
        }
        let res = apply_piece_exec(&mut f, &pieces[i]);
        if res.is_err() {
            proof {
                assert(views(pieces@).take(i + 1).last() == pieces@[i as int]@);
                lemma_fold_none(st0, views(pieces@), i + 1);
                lemma_fold_error_settled(st0, views(pieces@), i + 1);
                assert(views(pieces@).take(pieces@.len() as int) =~= views(pieces@));
                assert(fold_error(st0, views(pieces@).take(i + 1)) == piece_error(pieces@[i as int]@));
            }
            return Err(res.unwrap_err());
        }
        i += 1;
    }
    proof {
        assert(views(pieces@).take(pieces@.len() as int) =~= views(pieces@));
    }
    Ok(f)
}

/// Reduce any of the supported wrapping shapes to the raw inner
/// `path?query` string.
pub fn decode_inner_path(input: &str) -> (r: Result<String>)
    ensures
        r is Ok <==> decode_inner_spec(input@) is Some,
        r matches Ok(s) ==> decode_inner_spec(input@) == Some(s@),
        r matches Err(e) ==> (e matches Error::Config(m) && m@ == decode_inner_error(input@)),
{
    proof {
        reveal_strlit("/");
        reveal_strlit("/directory/");
    }
    let trimmed_s = trim_string(input);
    let tc = chars_of(trimmed_s.as_str());
    if tc.len() == 0 {
        return Err(Error::Config(owned("smart-filter URI is empty")));
    }
    let has_slash = find_char(&tc, '/', 0).is_some();
    let has_eq = find_char(&tc, '=', 0).is_some();
    if !has_slash && has_eq {
        let mut s = owned("?");
        push_str(&mut s, trimmed_s.as_str());
        proof {
            reveal_strlit("?");
        }
        return Ok(s);
    }
    if tc[0] == '/' {
        proof {
            assert(tc@.take(1) =~= "/"@);
        }
        return Ok(trimmed_s);
    }
    proof {
        assert(!has_prefix(tc@, "/"@)) by {
            if has_prefix(tc@, "/"@) {
                assert(tc@.take(1)[0] == tc@[0]);
            }
        }
    }
    match parse_url(trimmed_s.as_str()) {
        Ok(url) => {
            let pc = chars_of(url.path.as_str());
            if crate::text::starts_with_chars(&pc, "/directory/") {
                let after = string_of_range(&pc, 11, pc.len());
                proof {
                    assert(pc@.subrange(11, pc@.len() as int) =~= pc@.skip(11));
                }
                match percent_decode_query(after.as_str()) {
                    Ok(d) => Ok(d),
                    Err(m) => Err(Error::Config(m)),
                }
            } else {
                let mut s = copy_string(&url.path);
                match &url.query {
                    Some(q) => {
                        push_char(&mut s, '?');
                        push_str(&mut s, q.as_str());
                    },
                    None => {},
                }
                Ok(s)
            }
        },
        Err(_) => {
            let mut msg = owned("smart-filter URI not recognised: ");
            let d = debug_str(trimmed_s.as_str());
            push_str(&mut msg, d.as_str());
            Err(Error::Config(msg))
        },
    }
}

/// A suffix of `f + w` longer than `w` holds the last character of `f`
/// just before its last `w.len()` characters.
proof fn lemma_longer_suffix(f: Seq<char>, w: Seq<char>, p: Seq<char>)
    requires
        has_suffix(f + w, p),
        p.len() > w.len(),
    ensures
        p[p.len() - w.len() - 1] == f.last(),
{
    let k = f + w;
    let i = p.len() - w.len() - 1;
    assert(k.skip(k.len() - p.len())[i] == k[k.len() - p.len() + i]);
    assert(k[k.len() - p.len() + i] == f[f.len() - 1]);
}

/// A suffix of `f + w` as long as `w` is `w`.
proof fn lemma_same_suffix(f: Seq<char>, w: Seq<char>, p: Seq<char>)
    requires
        p.len() == w.len(),
    ensures
        has_suffix(f + w, p) <==> p == w,
{
    let k = f + w;
    assert(k.skip(k.len() - w.len()) =~= w);
}

/// Operator round trip between the filter builder and the smart-filter
/// parser: a key written as a field followed by an operator's wire
/// suffix reads back as that field and that operator, provided the
/// field ends in an ASCII letter or digit (so its last character cannot
/// be taken for part of an operator).
pub proof fn law_operator_suffix_round_trip(field: Seq<char>, op: FilterOp)
    requires
        field.len() > 0,
        is_alnum(field.last()),
    ensures
        split_field_op_spec(field + filter_op_wire(op)) == Some((field, op)),
{
    reveal_strlit("=");
    reveal_strlit("!=");
    reveal_strlit("==");
    reveal_strlit("!==");
    reveal_strlit("<=");
    reveal_strlit(">=");
    reveal_strlit(">>=");
    reveal_strlit("<<=");
    reveal_strlit("&=");
    let w = filter_op_wire(op);
    let key = field + w;
    let pats: Seq<Seq<char>> = seq!["!=="@, ">>="@, "<<="@, "=="@, "!="@, "<="@, ">="@, "&="@, "="@];
    assert forall|i: int| 0 <= i < pats.len() && pats[i].len() > w.len() implies !has_suffix(
        key,
        #[trigger] pats[i],
    ) by {
        if has_suffix(key, pats[i]) {
            lemma_longer_suffix(field, w, pats[i]);
        }
    }
    assert forall|i: int| 0 <= i < pats.len() && pats[i].len() == w.len() implies (has_suffix(
        key,
        #[trigger] pats[i],
    ) <==> pats[i] == w) by {
        lemma_same_suffix(field, w, pats[i]);
    }
    assert(has_suffix(key, w)) by {
        lemma_same_suffix(field, w, w);
    }
    assert(key.take(key.len() - w.len()) =~= field);
    assert(is_alnum(field[field.len() - 1]));
    match op {
        FilterOp::Default => {
            assert(!has_suffix(key, pats[0]));
            assert(!has_suffix(key, pats[1]));
            assert(!has_suffix(key, pats[2]));
            assert(!has_suffix(key, pats[3]));
            assert(!has_suffix(key, pats[4]));
            assert(!has_suffix(key, pats[5]));
            assert(!has_suffix(key, pats[6]));
            assert(!has_suffix(key, pats[7]));
        },
        FilterOp::Not => {
            assert(!has_suffix(key, pats[0]));
            assert(!has_suffix(key, pats[1]));
            assert(!has_suffix(key, pats[2]));
            assert(pats[3][0] != w[0]);
            assert(!has_suffix(key, pats[3]));
        },
        FilterOp::Exact => {
            assert(!has_suffix(key, pats[0]));
            assert(!has_suffix(key, pats[1]));
            assert(!has_suffix(key, pats[2]));
        },
        FilterOp::NotExact => {
        },
        FilterOp::StartsWith => {
            assert(!has_suffix(key, pats[0]));
            assert(!has_suffix(key, pats[1]));
            assert(!has_suffix(key, pats[2]));
            assert(pats[3][0] != w[0]);
            assert(!has_suffix(key, pats[3]));
            assert(pats[4][0] != w[0]);
            assert(!has_suffix(key, pats[4]));
        },
        FilterOp::EndsWith => {
            assert(!has_suffix(key, pats[0]));
            assert(!has_suffix(key, pats[1]));
            assert(!has_suffix(key, pats[2]));
            assert(pats[3][0] != w[0]);
            assert(!has_suffix(key, pats[3]));
            assert(pats[4][0] != w[0]);
            assert(!has_suffix(key, pats[4]));
            assert(pats[5][0] != w[0]);
            assert(!has_suffix(key, pats[5]));
        },
        FilterOp::GreaterThan => {
            assert(pats[0][0] != w[0]);
            assert(!has_suffix(key, pats[0]));
        },
        FilterOp::LessThan => {
            assert(pats[0][0] != w[0]);
            assert(!has_suffix(key, pats[0]));
            assert(pats[1][0] != w[0]);
            assert(!has_suffix(key, pats[1]));
        },
        FilterOp::AndValues => {
            assert(!has_suffix(key, pats[0]));
            assert(!has_suffix(key, pats[1]));
            assert(!has_suffix(key, pats[2]));
            assert(pats[3][0] != w[0]);
            assert(!has_suffix(key, pats[3]));
            assert(pats[4][0] != w[0]);
            assert(!has_suffix(key, pats[4]));
            assert(pats[5][0] != w[0]);
            assert(!has_suffix(key, pats[5]));
            assert(pats[6][0] != w[0]);
            assert(!has_suffix(key, pats[6]));
        },
    }
}

/// Percent-encoding distributes over concatenation.
proof fn lemma_pct_encoded_concat(a: Seq<u8>, c: Seq<u8>)
    ensures
        pct_encoded(a + c) == pct_encoded(a) + pct_encoded(c),
    decreases c.len(),
{
    if c.len() == 0 {
        assert(a + c =~= a);
    } else {
        lemma_pct_encoded_concat(a, c.drop_last());
        assert((a + c).drop_last() =~= a + c.drop_last());
        assert((a + c).last() == c.last());
    }
}

/// Percent-encoded text is ASCII.
proof fn lemma_pct_encoded_ascii(bs: Seq<u8>)
    ensures
        is_ascii_chars(pct_encoded(bs)),
    decreases bs.len(),
{
    if bs.len() > 0 {
        lemma_pct_encoded_ascii(bs.drop_last());
        let e = pct_encoded(bs);
        let pre = pct_encoded(bs.drop_last());
        let pb = pct_byte(bs.last());
        assert(e == pre + pb);
        assert forall|i: int| 0 <= i < e.len() implies '\0' <= #[trigger] e[i] <= '\u{7f}' by {
            if i < pre.len() {
                assert(e[i] == pre[i]);
            } else {
                assert(e[i] == pb[i - pre.len()]);
            }
        }
    }
}

/// Reading a hexadecimal digit back gives its nibble.
proof fn lemma_hex_round_trip(n: u8)
    requires
        n < 16,
    ensures
        hex_value(hex_digit(n) as u8) == Some(n),
{
}

/// Decoding from an offset is decoding the remaining bytes.
proof fn lemma_decode_skip(x: Seq<u8>, k: int)
    requires
        0 <= k <= x.len(),
    ensures
        pct_decode_from(x, k) == pct_decode_from(x.skip(k), 0),
    decreases x.len() - k,
{
    let y = x.skip(k);
    if k < x.len() {
        assert(y[0] == x[k]);
        lemma_decode_skip(x, k + 1);
        lemma_decode_skip(y, 1);
        assert(x.skip(k + 1) =~= y.skip(1));
        if k + 2 < x.len() {
            assert(y[1] == x[k + 1]);
            assert(y[2] == x[k + 2]);
            lemma_decode_skip(x, k + 3);
            lemma_decode_skip(y, 3);
            assert(x.skip(k + 3) =~= y.skip(3));
        }
    }
}

/// Decoding the bytes of an encoding gives the encoded bytes back.
proof fn lemma_decode_encoded(bs: Seq<u8>)
    ensures
        pct_decode_from(encode_utf8(pct_encoded(bs)), 0) == Some(bs),
    decreases bs.len(),
{
    broadcast use vstd::utf8::group_utf8_lib;

    let e = pct_encoded(bs);
    lemma_pct_encoded_ascii(bs);
    let big = encode_utf8(e);
    if bs.len() == 0 {
        assert(big.len() == 0);
    } else {
        let b = bs[0];
        let rest = bs.drop_first();
        assert(bs =~= seq![b] + rest);
        lemma_pct_encoded_concat(seq![b], rest);
        assert(seq![b].drop_last() =~= Seq::<u8>::empty());
        assert(seq![b].last() == b);
        assert(pct_encoded(Seq::<u8>::empty()) =~= Seq::<char>::empty());
        assert(pct_encoded(seq![b]) =~= Seq::<char>::empty() + pct_byte(b));
        assert(pct_encoded(seq![b]) =~= pct_byte(b));
        let pb = pct_byte(b);
        let er = pct_encoded(rest);
        assert(e == pb + er);
        lemma_pct_encoded_ascii(rest);
        let small = encode_utf8(er);
        lemma_decode_encoded(rest);
        let m = pb.len() as int;
        assert(big.skip(m) =~= small) by {
            assert forall|j: int| 0 <= j < small.len() implies big.skip(m)[j] == small[j] by {
                assert(e[m + j] == er[j]);
                assert(big[m + j] == e[m + j] as u8);
                assert(small[j] == er[j] as u8);
            }
        }
        lemma_decode_skip(big, m);
        if is_unreserved(b) {
            assert(big[0] == e[0] as u8);
            assert(e[0] == b as char);
            assert(big[0] == b);
            assert(pct_decode_from(big, 0) == Some(seq![b] + rest));
        } else {
            lemma_hex_round_trip(b / 16);
            lemma_hex_round_trip(b % 16);
            assert(big[0] == e[0] as u8 && big[1] == e[1] as u8 && big[2] == e[2] as u8);
            assert(big[0] == 37);
            assert(big[1] == hex_digit(b / 16) as u8);
            assert(big[2] == hex_digit(b % 16) as u8);
            assert(((b / 16) * 16 + b % 16) as u8 == b);
            assert(pct_decode_from(big, 0) == Some(seq![b] + rest));
        }
    }
}

/// Percent-decoding undoes percent-encoding: the decoder of smart-filter
/// URIs reads back exactly the text the RFC 3986 encoder (the one the
/// filter builder and the play-queue URIs use) wrote.
pub proof fn law_percent_decoding_inverts_encoding(s: Seq<char>)
    ensures
        percent_decoded(pct_encoded(encode_utf8(s))) == Some(s),
{
    broadcast use vstd::utf8::group_utf8_lib;

    lemma_decode_encoded(encode_utf8(s));
}

} // verus!
