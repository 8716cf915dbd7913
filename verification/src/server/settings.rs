//! Plex Media Server preferences: the declared kind of a setting and the
//! list of valid values of an enumerated setting.

use vstd::prelude::*;

use crate::error::{Error, Result};
use crate::server::join_path;
use crate::text::{
    chars_of, fmt_i64, push_char, push_str, signed_dec_chars, str_views, find_char, find_from, owned, parse_i64, parse_i64_spec, split_on, split_str, str_eq,
    string_of_range, views, debug_str, str_debug,
};
use crate::order::{lemma_lt_irreflexive, lemma_lt_total, lemma_lt_transitive, seq_lt, str_lt};
use crate::urls::{append_query, pairs_view, parsed_view, url_join, with_query, ParsedUrl};

verus! {

broadcast use vstd::string::group_string_axioms;

/// Declared type of a setting.
#[derive(Debug, Clone, PartialEq, Eq)]
#[non_exhaustive]
pub enum SettingKind {
    /// `type="text"`.
    Text,
    /// `type="int"`.
    Int,
    /// `type="double"`.
    Double,
    /// `type="bool"`.
    Bool,
    /// `type="enum"`.
    Enum,
    /// Any other wire value, preserved verbatim.
    Other(String),
}

/// The wire spelling of a setting kind.
pub open spec fn setting_kind_wire(k: SettingKind) -> Seq<char> {
    match k {
        SettingKind::Text => "text"@,
        SettingKind::Int => "int"@,
        SettingKind::Double => "double"@,
        SettingKind::Bool => "bool"@,
        SettingKind::Enum => "enum"@,
        SettingKind::Other(s) => s@,
    }
}

/// `true` for the five spellings that have a variant of their own.
pub open spec fn is_known_kind(s: Seq<char>) -> bool {
    s == "text"@ || s == "int"@ || s == "double"@ || s == "bool"@ || s == "enum"@
}

impl SettingKind {
    /// Map the wire `type` attribute to a kind; unknown spellings are
    /// kept verbatim in [`SettingKind::Other`].
    pub fn from_wire(s: &str) -> (r: Self)
        ensures
            setting_kind_wire(r) == s@,
            r is Other <==> !is_known_kind(s@),
    {
        proof {
            reveal_strlit("text");
            reveal_strlit("int");
            reveal_strlit("double");
            reveal_strlit("bool");
            reveal_strlit("enum");
        }
        if str_eq(s, "text") {
            SettingKind::Text
        } else if str_eq(s, "int") {
            SettingKind::Int
        } else if str_eq(s, "double") {
            SettingKind::Double
        } else if str_eq(s, "bool") {
            SettingKind::Bool
        } else if str_eq(s, "enum") {
            SettingKind::Enum
        } else {
            SettingKind::Other(owned(s))
        }
    }
}

/// Enumerated-setting values: Plex emits them `|`-delimited, either as
/// bare keys or as `key:label` pairs.
#[derive(Debug, Clone, PartialEq)]
#[non_exhaustive]
pub enum EnumValues {
    /// Flat list of valid values.
    List(Vec<String>),
    /// `key:label` pairs in document order.
    Mapping(Vec<(String, String)>),
}

/// One `|`-separated chunk as a `(key, label)` pair: split at its first
/// `:`, or the chunk for both when it has none.
pub open spec fn enum_pair(chunk: Seq<char>) -> (Seq<char>, Seq<char>) {
    match find_from(chunk, ':', 0) {
        Some(k) => (chunk.take(k), chunk.skip(k + 1)),
        None => (chunk, chunk),
    }
}

/// What a raw enum string decodes to: a mapping when it holds a `:`
/// anywhere, a flat list otherwise.
pub open spec fn enum_values_spec(raw: Seq<char>) -> (bool, Seq<(Seq<char>, Seq<char>)>, Seq<
    Seq<char>,
>) {
    let chunks = split_on(raw, '|');
    if find_from(raw, ':', 0) is Some {
        (true, chunks.map_values(|c: Seq<char>| enum_pair(c)), seq![])
    } else {
        (false, seq![], chunks)
    }
}

/// `e` is what the raw enum string `raw` decodes to.
pub open spec fn enum_values_of(e: EnumValues, raw: Seq<char>) -> bool {
    match e {
        EnumValues::Mapping(p) => enum_values_spec(raw).0 && pairs_view(p@) == enum_values_spec(raw).1,
        EnumValues::List(v) => !enum_values_spec(raw).0 && views(v@) == enum_values_spec(raw).2,
    }
}

/// The `(key, label)` pair of one chunk.
fn enum_chunk_pair(chunk: &String) -> (r: (String, String))
    ensures
        (r.0@, r.1@) == enum_pair(chunk@),
{
    let cs = chars_of(chunk.as_str());
    let n = cs.len();
    match find_char(&cs, ':', 0) {
        Some(k) => {
            let key = string_of_range(&cs, 0, k);
            let label = string_of_range(&cs, k + 1, n);
            proof {
                assert(cs@.subrange(0, k as int) =~= chunk@.take(k as int));
                assert(cs@.subrange(k + 1, cs@.len() as int) =~= chunk@.skip(k + 1));
            }
            (key, label)
        },
        None => (owned(chunk.as_str()), owned(chunk.as_str())),
    }
}

impl EnumValues {
    /// Parse Plex's pipe-separated enum string: `"low|medium|high"` is a
    /// list, `"0:Off|1:On"` a mapping (a chunk without `:` maps to
    /// itself).
    pub fn from_wire(raw: &str) -> (r: Self)
        ensures
            enum_values_of(r, raw@),
    {
        let cs = chars_of(raw);
        let chunks = split_str(raw, '|');
        if find_char(&cs, ':', 0).is_some() {
            let mut pairs: Vec<(String, String)> = Vec::new();
            let mut i: usize = 0;
            while i < chunks.len()
                invariant
                    i <= chunks@.len(),
                    pairs@.len() == i,
                    views(chunks@) == split_on(raw@, '|'),
                    forall|j: int|
                        0 <= j < i ==> (#[trigger] pairs_view(pairs@)[j]) == enum_pair(
                            chunks@[j]@,
                        ),
                decreases chunks@.len() - i,
            {
                let p = enum_chunk_pair(&chunks[i]);
                let ghost before = pairs@;
                pairs.push(p);
                proof {
                    assert forall|j: int| 0 <= j < i implies (#[trigger] pairs_view(pairs@)[j])
                        == pairs_view(before)[j] by {
                        assert(pairs@[j] == before[j]);
                    }
                    assert(pairs_view(pairs@)[i as int] == enum_pair(chunks@[i as int]@));
                }
                i += 1;
            }
            proof {
                let want = split_on(raw@, '|').map_values(|c: Seq<char>| enum_pair(c));
                assert(split_on(raw@, '|').len() == chunks@.len());
                assert forall|j: int| 0 <= j < chunks@.len() implies pairs_view(pairs@)[j]
                    == want[j] by {
                    assert(views(chunks@)[j] == chunks@[j]@);
                }
                assert(pairs_view(pairs@) =~= want);
            }
            EnumValues::Mapping(pairs)
        } else {
            EnumValues::List(chunks)
        }
    }
}

/// A typed setting value. A `double` is carried by its IEEE-754 bits
/// (`f64::to_bits`), so values move through this library without
/// floating point.
#[derive(Debug, Clone, PartialEq, Eq)]
#[non_exhaustive]
pub enum SettingValue {
    /// `text` / `enum` value, or any string that did not parse.
    Text(String),
    /// Parsed `int` value.
    Int(i64),
    /// Parsed `double` value, as `f64::to_bits`.
    Double(u64),
    /// Parsed `bool` value.
    Bool(bool),
}

/// The value a raw wire string has for a declared kind, given what
/// `f64::from_str` made of it (as bits): an `int` that parses is an
/// integer, a `double` that parses a double, a `bool` is true exactly
/// for `true` and `1`; everything else stays text.
pub open spec fn is_parsed_value(
    v: SettingValue,
    kind: SettingKind,
    raw: Seq<char>,
    double_bits: Option<u64>,
) -> bool {
    let text = v matches SettingValue::Text(t) && t@ == raw;
    match kind {
        SettingKind::Int => match parse_i64_spec(raw) {
            Some(n) => v == SettingValue::Int(n),
            None => text,
        },
        SettingKind::Double => match double_bits {
            Some(b) => v == SettingValue::Double(b),
            None => text,
        },
        SettingKind::Bool => v == SettingValue::Bool(raw == "true"@ || raw == "1"@),
        _ => text,
    }
}

impl SettingValue {
    /// Parse a raw wire value according to the declared kind;
    /// `double_bits` is what `f64::from_str` made of `raw`, as bits.
    pub fn parse(kind: &SettingKind, raw: &str, double_bits: Option<u64>) -> (v: Self)
        ensures
            is_parsed_value(v, *kind, raw@, double_bits),
    {
        match kind {
            SettingKind::Int => match parse_i64(raw) {
                Some(n) => SettingValue::Int(n),
                None => SettingValue::Text(owned(raw)),
            },
            SettingKind::Double => match double_bits {
                Some(b) => SettingValue::Double(b),
                None => SettingValue::Text(owned(raw)),
            },
            SettingKind::Bool => SettingValue::Bool(str_eq(raw, "true") || str_eq(raw, "1")),
            _ => SettingValue::Text(owned(raw)),
        }
    }

    /// The string of a text value.
    pub fn as_text(&self) -> (r: Option<&str>)
        ensures
            match self {
                SettingValue::Text(t) => r matches Some(x) && x@ == t@,
                _ => r is None,
            },
    {
        match self {
            SettingValue::Text(t) => Some(t.as_str()),
            _ => None,
        }
    }

    /// The integer of an integer value.
    pub fn as_int(&self) -> (r: Option<i64>)
        ensures
            r == match self {
                SettingValue::Int(n) => Some(*n),
                _ => None,
            },
    {
        match self {
            SettingValue::Int(n) => Some(*n),
            _ => None,
        }
    }

    /// The bits of a double value.
    pub fn as_double_bits(&self) -> (r: Option<u64>)
        ensures
            r == match self {
                SettingValue::Double(b) => Some(*b),
                _ => None,
            },
    {
        match self {
            SettingValue::Double(b) => Some(*b),
            _ => None,
        }
    }

    /// The flag of a boolean value.
    pub fn as_bool(&self) -> (r: Option<bool>)
        ensures
            r == match self {
                SettingValue::Bool(b) => Some(*b),
                _ => None,
            },
    {
        match self {
            SettingValue::Bool(b) => Some(*b),
            _ => None,
        }
    }
}

/// The spelling of a value on the write path, for the values that need
/// no floating point: text verbatim, integers in decimal, booleans as
/// `true` / `false`.
pub open spec fn wire_text(v: SettingValue) -> Option<Seq<char>> {
    match v {
        SettingValue::Text(t) => Some(t@),
        SettingValue::Int(n) => Some(signed_dec_chars(n as int)),
        SettingValue::Bool(b) => Some(
            if b {
                "true"@
            } else {
                "false"@
            },
        ),
        SettingValue::Double(_) => None,
    }
}

impl SettingValue {
    /// The write-path spelling of the value; `None` for a double, whose
    /// decimal rendering is floating-point formatting.
    pub fn to_wire(&self) -> (r: Option<String>)
        ensures
            match r {
                Some(t) => wire_text(*self) == Some(t@),
                None => wire_text(*self) is None,
            },
    {
        match self {
            SettingValue::Text(t) => Some(owned(t.as_str())),
            SettingValue::Int(n) => Some(fmt_i64(*n)),
            SettingValue::Bool(b) => Some(
                if *b {
                    owned("true")
                } else {
                    owned("false")
                },
            ),
            SettingValue::Double(_) => None,
        }
    }
}

/// One server preference.
#[derive(Debug, Clone, PartialEq)]
#[non_exhaustive]
pub struct Setting {
    /// Stable id (e.g. `TranscoderQuality`).
    pub id: String,
    /// Short label.
    pub label: String,
    /// Long description.
    pub summary: String,
    /// Declared value type.
    pub kind: SettingKind,
    /// Factory default, typed per `kind`.
    pub default: SettingValue,
    /// Current value, typed per `kind`.
    pub value: SettingValue,
    /// Hidden in the standard UI.
    pub hidden: bool,
    /// Shown only in advanced mode.
    pub advanced: bool,
    /// The value is a secret.
    pub secure: bool,
    /// Display group (`general`, `transcoder`, …).
    pub group: String,
    /// Valid values of an enumerated setting.
    pub enum_values: Option<EnumValues>,
}

/// A `<Setting>` element as decoded from the wire, with what
/// `f64::from_str` made of its default and current value (as bits).
#[derive(Debug, Clone)]
pub struct SettingDto {
    /// `id`.
    pub id: String,
    /// `label`.
    pub label: String,
    /// `summary`.
    pub summary: String,
    /// `type`.
    pub kind: String,
    /// `default`.
    pub default: String,
    /// `value`.
    pub value: String,
    /// `hidden`.
    pub hidden: bool,
    /// `advanced`.
    pub advanced: bool,
    /// `secure`.
    pub secure: bool,
    /// `group`.
    pub group: String,
    /// `enumValues`.
    pub enum_values: Option<String>,
    /// `default` read as a double, as bits.
    pub default_double: Option<u64>,
    /// `value` read as a double, as bits.
    pub value_double: Option<u64>,
}

/// `s` is the setting the element `d` describes.
pub open spec fn setting_of(d: SettingDto, s: Setting) -> bool {
    &&& s.id@ == d.id@ && s.label@ == d.label@ && s.summary@ == d.summary@
    &&& setting_kind_wire(s.kind) == d.kind@ && (s.kind is Other <==> !is_known_kind(d.kind@))
    &&& is_parsed_value(s.default, s.kind, d.default@, d.default_double)
    &&& is_parsed_value(s.value, s.kind, d.value@, d.value_double)
    &&& s.hidden == d.hidden && s.advanced == d.advanced && s.secure == d.secure
    &&& s.group@ == d.group@
    &&& match d.enum_values {
        None => s.enum_values is None,
        Some(raw) => s.enum_values matches Some(e) && enum_values_of(e, raw@),
    }
}

impl SettingDto {
    /// The setting this element describes.
    pub fn into_domain(self) -> (s: Setting)
        ensures
            setting_of(self, s),
    {
        let kind = SettingKind::from_wire(self.kind.as_str());
        let default = SettingValue::parse(&kind, self.default.as_str(), self.default_double);
        let value = SettingValue::parse(&kind, self.value.as_str(), self.value_double);
        let enum_values = match &self.enum_values {
            Some(raw) => Some(EnumValues::from_wire(raw.as_str())),
            None => None,
        };
        Setting {
            id: self.id,
            label: self.label,
            summary: self.summary,
            kind,
            default,
            value,
            hidden: self.hidden,
            advanced: self.advanced,
            secure: self.secure,
            group: self.group,
            enum_values,
        }
    }
}

/// Settings sorted strictly by id (so no id occurs twice).
pub open spec fn ids_sorted(s: Seq<Setting>) -> bool {
    forall|i: int, j: int| 0 <= i < j < s.len() ==> seq_lt(#[trigger] s[i].id@, #[trigger] s[j].id@)
}

/// Some setting of `s` has id `id`.
pub open spec fn has_id(s: Seq<Setting>, id: Seq<char>) -> bool {
    exists|i: int| 0 <= i < s.len() && #[trigger] s[i].id@ == id
}

/// The settings of `s` in group `g`, in order.
pub open spec fn in_group(s: Seq<Setting>, g: Seq<char>) -> Seq<Setting>
    decreases s.len(),
{
    if s.len() == 0 {
        Seq::empty()
    } else if s.last().group@ == g {
        in_group(s.drop_last(), g).push(s.last())
    } else {
        in_group(s.drop_last(), g)
    }
}

/// Strings sorted strictly.
pub open spec fn strs_sorted(s: Seq<Seq<char>>) -> bool {
    forall|i: int, j: int| 0 <= i < j < s.len() ==> seq_lt(#[trigger] s[i], #[trigger] s[j])
}

/// All server preferences, kept sorted by id, one per id.
#[derive(Debug)]
pub struct Settings {
    entries: Vec<Setting>,
}

impl View for Settings {
    type V = Seq<Setting>;

    closed spec fn view(&self) -> Seq<Setting> {
        self.entries@
    }
}

/// `fin` is `old` with `s` put in: `s` is there, every other entry of
/// `fin` was in `old` under another id, and every entry of `old` under
/// another id is still there.
pub open spec fn put_in(old: Seq<Setting>, fin: Seq<Setting>, s: Setting) -> bool {
    &&& fin.contains(s)
    &&& forall|i: int|
        0 <= i < fin.len() ==> #[trigger] fin[i] == s || (fin[i].id@ != s.id@ && old.contains(
            fin[i],
        ))
    &&& forall|j: int| 0 <= j < old.len() && (#[trigger] old[j]).id@ != s.id@ ==> fin.contains(old[j])
}

impl Settings {
    #[verifier::type_invariant]
    spec fn sorted(self) -> bool {
        ids_sorted(self.entries@)
    }

    /// An empty collection.
    pub fn new() -> (r: Self)
        ensures
            r@ == Seq::<Setting>::empty(),
    {
        Settings { entries: Vec::new() }
    }

    /// The settings in id order; ids strictly increase.
    pub fn all(&self) -> (r: Vec<&Setting>)
        ensures
            r@.map_values(|x: &Setting| *x) == self@,
            ids_sorted(self@),
    {
        proof {
            use_type_invariant(self);
        }
        let mut out: Vec<&Setting> = Vec::new();
        let mut i: usize = 0;
        while i < self.entries.len()
            invariant
                i <= self.entries@.len(),
                out@.map_values(|x: &Setting| *x) == self.entries@.take(i as int),
            decreases self.entries@.len() - i,
        {
            let ghost before = out@;
            out.push(&self.entries[i]);
            proof {
                assert(out@ == before.push(&self.entries@[i as int]));
                assert(out@.map_values(|x: &Setting| *x) =~= before.map_values(|x: &Setting| *x).push(
                    self.entries@[i as int],
                ));
                assert(self.entries@.take(i + 1) =~= self.entries@.take(i as int).push(
                    self.entries@[i as int],
                ));
            }
            i += 1;
        }
        proof {
            assert(self.entries@.take(i as int) =~= self.entries@);
        }
        out
    }

    /// Number of settings.
    pub fn len(&self) -> (n: usize)
        ensures
            n == self@.len(),
    {
        self.entries.len()
    }

    /// `true` when there are no settings.
    pub fn is_empty(&self) -> (b: bool)
        ensures
            b == (self@.len() == 0),
    {
        self.entries.len() == 0
    }

    /// The setting with id `id` (case-sensitive).
    pub fn get(&self, id: &str) -> (r: Option<&Setting>)
        ensures
            match r {
                Some(x) => self@.contains(*x) && x.id@ == id@,
                None => !has_id(self@, id@),
            },
    {
        let mut i: usize = 0;
        while i < self.entries.len()
            invariant
                i <= self.entries@.len(),
                forall|j: int| 0 <= j < i ==> (#[trigger] self.entries@[j]).id@ != id@,
            decreases self.entries@.len() - i,
        {
            if str_eq(self.entries[i].id.as_str(), id) {
                return Some(&self.entries[i]);
            }
            i += 1;
        }
        None
    }

    /// The settings of group `group`, in id order.
    pub fn group(&self, group: &str) -> (r: Vec<&Setting>)
        ensures
            r@.map_values(|x: &Setting| *x) == in_group(self@, group@),
    {
        let mut out: Vec<&Setting> = Vec::new();
        let mut i: usize = 0;
        while i < self.entries.len()
            invariant
                i <= self.entries@.len(),
                out@.map_values(|x: &Setting| *x) == in_group(self.entries@.take(i as int), group@),
            decreases self.entries@.len() - i,
        {
            let ghost t = self.entries@.take(i + 1);
            proof {
                assert(t.drop_last() =~= self.entries@.take(i as int));
                assert(t.last() == self.entries@[i as int]);
            }
            if str_eq(self.entries[i].group.as_str(), group) {
                let ghost before = out@;
                out.push(&self.entries[i]);
                proof {
                    assert(out@ == before.push(&self.entries@[i as int]));
                    assert(out@.map_values(|x: &Setting| *x) =~= before.map_values(
                        |x: &Setting| *x,
                    ).push(self.entries@[i as int]));
                }
            }
            i += 1;
        }
        proof {
            assert(self.entries@.take(i as int) =~= self.entries@);
        }
        out
    }

    /// Put `s` in, replacing the setting with the same id.
    pub fn insert(&mut self, s: Setting)
        ensures
            put_in(old(self)@, final(self)@, s),
            ids_sorted(final(self)@),
    {
        proof {
            use_type_invariant(&*self);
        }
        let mut v: Vec<Setting> = Vec::new();
        std::mem::swap(&mut v, &mut self.entries);
        let ghost old_v = v@;
        let n = v.len();
        let mut k: usize = 0;
        while k < n && str_lt(v[k].id.as_str(), s.id.as_str())
            invariant
                k <= n,
                n == v@.len(),
                v@ == old_v,
                forall|i: int| 0 <= i < k ==> seq_lt((#[trigger] old_v[i]).id@, s.id@),
            decreases n - k,
        {
            k += 1;
        }
        let same = k < n && str_eq(v[k].id.as_str(), s.id.as_str());
        let ghost sid = s.id@;
        let ghost sv = s;
        if same {
            v.set(k, s);
            proof {
                assert forall|i: int, j: int| 0 <= i < j < v@.len() implies seq_lt(
                    #[trigger] v@[i].id@,
                    #[trigger] v@[j].id@,
                ) by {
                    assert(v@[i].id@ == old_v[i].id@);
                    assert(v@[j].id@ == old_v[j].id@);
                }
                assert(v@[k as int] == sv);
                assert forall|i: int| 0 <= i < v@.len() implies #[trigger] v@[i] == sv || (v@[i].id@
                    != sid && old_v.contains(v@[i])) by {
                    if i != k {
                        assert(v@[i] == old_v[i]);
                        if i < k {
                            lemma_lt_irreflexive(sid);
                        } else {
                            lemma_lt_irreflexive(sid);
                            assert(seq_lt(old_v[k as int].id@, old_v[i].id@));
                        }
                    }
                }
                assert forall|j: int| 0 <= j < old_v.len() && (#[trigger] old_v[j]).id@ != sid implies v@.contains(
                    old_v[j],
                ) by {
                    assert(j != k);
                    assert(v@[j] == old_v[j]);
                }
            }
        } else {
            v.insert(k, s);
            proof {
                if k < n {
                    lemma_lt_total(old_v[k as int].id@, sid);
                }
                assert forall|i: int, j: int| 0 <= i < j < v@.len() implies seq_lt(
                    #[trigger] v@[i].id@,
                    #[trigger] v@[j].id@,
                ) by {
                    if j < k {
                        assert(v@[i] == old_v[i] && v@[j] == old_v[j]);
                    } else if j == k {
                        assert(v@[i] == old_v[i]);
                    } else if i == k {
                        assert(v@[j] == old_v[j - 1]);
                        if j - 1 > k {
                            lemma_lt_transitive(sid, old_v[k as int].id@, old_v[j - 1].id@);
                        }
                    } else if i < k {
                        assert(v@[i] == old_v[i] && v@[j] == old_v[j - 1]);
                    } else {
                        assert(v@[i] == old_v[i - 1] && v@[j] == old_v[j - 1]);
                    }
                }
                assert(v@[k as int] == sv);
                assert forall|i: int| 0 <= i < v@.len() implies #[trigger] v@[i] == sv || (v@[i].id@
                    != sid && old_v.contains(v@[i])) by {
                    if i < k {
                        assert(v@[i] == old_v[i]);
                        lemma_lt_irreflexive(sid);
                    } else if i > k {
                        assert(v@[i] == old_v[i - 1]);
                        lemma_lt_irreflexive(sid);
                        if i - 1 > k {
                            lemma_lt_transitive(sid, old_v[k as int].id@, old_v[i - 1].id@);
                        }
                    }
                }
                assert forall|j: int| 0 <= j < old_v.len() && (#[trigger] old_v[j]).id@ != sid implies v@.contains(
                    old_v[j],
                ) by {
                    if j < k {
                        assert(v@[j] == old_v[j]);
                    } else {
                        assert(v@[j + 1] == old_v[j]);
                    }
                }
            }
        }
        self.entries = v;
    }

    /// The collection of `settings`, a later setting replacing an
    /// earlier one with the same id.
    pub fn from_settings(settings: Vec<Setting>) -> (r: Self)
        ensures
            ids_sorted(r@),
            forall|x: Setting| #[trigger] r@.contains(x) ==> settings@.contains(x),
            forall|i: int| 0 <= i < settings@.len() ==> has_id(r@, (#[trigger] settings@[i]).id@),
            forall|i: int|
                0 <= i < settings@.len() && last_with_id(settings@, i) ==> r@.contains(
                    #[trigger] settings@[i],
                ),
    {
        let mut out = Settings::new();
        let ghost all = settings@;
        let mut rest = settings;
        let mut i: usize = 0;
        let n = rest.len();
        while rest.len() > 0
            invariant
                all.len() == n,
                i <= n,
                rest@ == all.skip(i as int),
                forall|x: Setting| #[trigger] out@.contains(x) ==> all.take(i as int).contains(x),
                forall|j: int| 0 <= j < i ==> has_id(out@, (#[trigger] all[j]).id@),
                forall|j: int|
                    0 <= j < i && last_with_id(all.take(i as int), j) ==> out@.contains(
                        #[trigger] all[j],
                    ),
            decreases rest@.len(),
        {
            let s = rest.remove(0);
            let ghost before = out@;
            proof {
                assert(s == all[i as int]);
            }
            out.insert(s);
            proof {
                assert(rest@ =~= all.skip(i + 1));
                assert forall|x: Setting| #[trigger] out@.contains(x) implies all.take(i + 1).contains(x) by {
                    let k = choose|k: int| 0 <= k < out@.len() && out@[k] == x;
                    if x != s {
                        assert(before.contains(x));
                        let m = choose|m: int| 0 <= m < all.take(i as int).len() && all.take(i as int)[m] == x;
                        assert(all.take(i + 1)[m] == x);
                    } else {
                        assert(all.take(i + 1)[i as int] == x);
                    }
                }
                assert forall|j: int|
                    0 <= j < i + 1 && last_with_id(all.take(i + 1), j) implies out@.contains(
                    #[trigger] all[j],
                ) by {
                    if j < i {
                        assert(all.take(i + 1)[i as int] == s);
                        assert(all[j].id@ != s.id@);
                        assert forall|m: int| j < m < i implies all.take(i as int)[m].id@ != all.take(
                            i as int,
                        )[j].id@ by {
                            assert(all.take(i + 1)[m] == all[m]);
                        }
                        assert(last_with_id(all.take(i as int), j));
                        let q = choose|q: int| 0 <= q < before.len() && before[q] == all[j];
                        assert(before[q].id@ != s.id@);
                    } else {
                        assert(all[j] == s);
                    }
                }
                assert forall|j: int| 0 <= j < i + 1 implies has_id(out@, (#[trigger] all[j]).id@) by {
                    if j < i && all[j].id@ != s.id@ {
                        let m = choose|m: int| 0 <= m < before.len() && #[trigger] before[m].id@ == all[j].id@;
                        assert(out@.contains(before[m]));
                        let q = choose|q: int| 0 <= q < out@.len() && out@[q] == before[m];
                        assert(out@[q].id@ == all[j].id@);
                    } else {
                        let q = choose|q: int| 0 <= q < out@.len() && out@[q] == s;
                        assert(out@[q].id@ == s.id@);
                    }
                }
            }
            i += 1;
        }
        proof {
            assert(all.take(i as int) =~= all);
            use_type_invariant(&out);
        }
        out
    }
}

/// `s[i]` is the last entry of `s` with its id.
pub open spec fn last_with_id(s: Seq<Setting>, i: int) -> bool {
    forall|m: int| i < m < s.len() ==> #[trigger] s[m].id@ != s[i].id@
}

/// The path of the preferences endpoint.
pub const PREFS_PATH: &'static str = "/:/prefs";

/// `names` with `x` put in, kept sorted and free of duplicates.
fn insert_name<'a>(names: &mut Vec<&'a str>, x: &'a str)
    requires
        strs_sorted(str_views(old(names)@)),
    ensures
        strs_sorted(str_views(final(names)@)),
        forall|y: Seq<char>| #[trigger] str_views(final(names)@).contains(y) <==> (str_views(
            old(names)@,
        ).contains(y) || y == x@),
{
    let ghost old_v = str_views(names@);
    let n = names.len();
    let mut k: usize = 0;
    while k < n && str_lt(names[k], x)
        invariant
            k <= n,
            n == names@.len(),
            str_views(names@) == old_v,
            forall|i: int| 0 <= i < k ==> seq_lt(#[trigger] old_v[i], x@),
        decreases n - k,
    {
        k += 1;
    }
    if k < n && str_eq(names[k], x) {
        proof {
            assert(old_v[k as int] == x@);
        }
        return;
    }
    names.insert(k, x);
    proof {
        let v = str_views(names@);
        assert(v =~= old_v.take(k as int).push(x@) + old_v.skip(k as int));
        if k < n {
            lemma_lt_total(old_v[k as int], x@);
        }
        assert forall|i: int, j: int| 0 <= i < j < v.len() implies seq_lt(
            #[trigger] v[i],
            #[trigger] v[j],
        ) by {
            if j < k {
                assert(v[i] == old_v[i] && v[j] == old_v[j]);
            } else if j == k {
                assert(v[i] == old_v[i]);
            } else if i == k {
                assert(v[j] == old_v[j - 1]);
                if j - 1 > k {
                    lemma_lt_transitive(x@, old_v[k as int], old_v[j - 1]);
                }
            } else if i < k {
                assert(v[i] == old_v[i] && v[j] == old_v[j - 1]);
            } else {
                assert(v[i] == old_v[i - 1] && v[j] == old_v[j - 1]);
            }
        }
        assert forall|y: Seq<char>| #[trigger] v.contains(y) <==> (old_v.contains(y) || y == x@) by {
            if v.contains(y) {
                let i = choose|i: int| 0 <= i < v.len() && v[i] == y;
                if i < k {
                    assert(old_v[i] == y);
                } else if i > k {
                    assert(old_v[i - 1] == y);
                }
            }
            if old_v.contains(y) {
                let i = choose|i: int| 0 <= i < old_v.len() && old_v[i] == y;
                if i < k {
                    assert(v[i] == y);
                } else {
                    assert(v[i + 1] == y);
                }
            }
            if y == x@ {
                assert(v[k as int] == y);
            }
        }
    }
}

/// The value's variant fits the declared kind: text for text, enum and
/// unknown kinds, and the matching variant for the others.
pub open spec fn kind_accepts(kind: SettingKind, v: SettingValue) -> bool {
    match v {
        SettingValue::Text(_) => kind is Text || kind is Enum || kind is Other,
        SettingValue::Int(_) => kind is Int,
        SettingValue::Double(_) => kind is Double,
        SettingValue::Bool(_) => kind is Bool,
    }
}

/// A text value is one of the listed values (or mapping keys) when the
/// setting lists any; other values are not checked.
pub open spec fn enum_accepts(e: Option<EnumValues>, v: SettingValue) -> bool {
    match (e, v) {
        (Some(EnumValues::List(opts)), SettingValue::Text(t)) => views(opts@).contains(t@),
        (Some(EnumValues::Mapping(p)), SettingValue::Text(t)) => exists|i: int|
            0 <= i < p@.len() && (#[trigger] p@[i]).0@ == t@,
        _ => true,
    }
}

/// Setting `x` accepts value `v`.
pub open spec fn accepts(x: Setting, v: SettingValue) -> bool {
    kind_accepts(x.kind, v) && enum_accepts(x.enum_values, v)
}

/// The setting of `s` with id `id` accepts `v`.
pub open spec fn valid_update(s: Seq<Setting>, id: Seq<char>, v: SettingValue) -> bool {
    exists|i: int| 0 <= i < s.len() && #[trigger] s[i].id@ == id && accepts(s[i], v)
}

/// Whether `opts` holds `t`.
fn list_holds(opts: &Vec<String>, t: &str) -> (b: bool)
    ensures
        b == views(opts@).contains(t@),
{
    let mut i: usize = 0;
    while i < opts.len()
        invariant
            i <= opts@.len(),
            forall|j: int| 0 <= j < i ==> (#[trigger] opts@[j])@ != t@,
        decreases opts@.len() - i,
    {
        if str_eq(opts[i].as_str(), t) {
            proof {
                assert(views(opts@)[i as int] == t@);
            }
            return true;
        }
        i += 1;
    }
    proof {
        if views(opts@).contains(t@) {
            let j = choose|j: int| 0 <= j < views(opts@).len() && views(opts@)[j] == t@;
            assert(opts@[j]@ == t@);
        }
    }
    false
}

/// Whether some pair of `p` has key `t`.
fn mapping_holds(p: &Vec<(String, String)>, t: &str) -> (b: bool)
    ensures
        b == exists|i: int| 0 <= i < p@.len() && (#[trigger] p@[i]).0@ == t@,
{
    let mut i: usize = 0;
    while i < p.len()
        invariant
            i <= p@.len(),
            forall|j: int| 0 <= j < i ==> (#[trigger] p@[j]).0@ != t@,
        decreases p@.len() - i,
    {
        if str_eq(p[i].0.as_str(), t) {
            return true;
        }
        i += 1;
    }
    false
}

/// `s` as `{:?}` renders it.
pub open spec fn quoted(s: Seq<char>) -> Seq<char> {
    str_debug(s)
}

/// Quoted items separated by `, `.
pub open spec fn quoted_items(s: Seq<Seq<char>>) -> Seq<char>
    decreases s.len(),
{
    if s.len() == 0 {
        Seq::empty()
    } else if s.len() == 1 {
        quoted(s[0])
    } else {
        quoted_items(s.drop_last()) + ", "@ + quoted(s.last())
    }
}

/// The name of a kind in messages.
pub open spec fn kind_name(k: SettingKind) -> Seq<char> {
    match k {
        SettingKind::Text => "Text"@,
        SettingKind::Int => "Int"@,
        SettingKind::Double => "Double"@,
        SettingKind::Bool => "Bool"@,
        SettingKind::Enum => "Enum"@,
        SettingKind::Other(s) => "Other("@ + quoted(s@) + seq![')'],
    }
}

/// How a value is named in messages (a double by its variant only).
pub open spec fn value_name(v: SettingValue) -> Seq<char> {
    match v {
        SettingValue::Text(t) => "Text("@ + quoted(t@) + seq![')'],
        SettingValue::Int(n) => "Int("@ + signed_dec_chars(n as int) + seq![')'],
        SettingValue::Double(_) => "Double"@,
        SettingValue::Bool(b) => if b {
            "Bool(true)"@
        } else {
            "Bool(false)"@
        },
    }
}

/// The message for a value of the wrong kind.
pub open spec fn kind_message(id: Seq<char>, k: SettingKind, v: SettingValue) -> Seq<char> {
    "setting "@ + id + ": declared "@ + kind_name(k) + " but supplied value is "@ + value_name(v)
}

/// The message for a text outside the enumerated values `opts`.
pub open spec fn enum_message(id: Seq<char>, t: Seq<char>, opts: Seq<Seq<char>>) -> Seq<char> {
    "setting "@ + id + ": "@ + quoted(t) + " not in enum ["@ + quoted_items(opts) + seq![']']
}

/// The keys of a mapping.
pub open spec fn mapping_keys(p: Seq<(String, String)>) -> Seq<Seq<char>> {
    p.map_values(|q: (String, String)| q.0@)
}

/// The message a rejected value gets from setting `x`.
pub open spec fn reject_message(x: Setting, v: SettingValue) -> Seq<char> {
    if !kind_accepts(x.kind, v) {
        kind_message(x.id@, x.kind, v)
    } else {
        match (x.enum_values, v) {
            (Some(EnumValues::List(opts)), SettingValue::Text(t)) => enum_message(x.id@, t@, views(opts@)),
            (Some(EnumValues::Mapping(p)), SettingValue::Text(t)) => enum_message(
                x.id@,
                t@,
                mapping_keys(p@),
            ),
            _ => Seq::empty(),
        }
    }
}

/// Append `s` as `{:?}` renders it.
fn push_quoted(out: &mut String, s: &str)
    ensures
        final(out)@ == old(out)@ + quoted(s@),
{
    let d = debug_str(s);
    push_str(out, d.as_str());
}

/// Append the quoted, comma-separated items.
fn push_quoted_items(out: &mut String, items: &Vec<&str>)
    ensures
        final(out)@ == old(out)@ + quoted_items(str_views(items@)),
{
    let ghost start = out@;
    let mut i: usize = 0;
    while i < items.len()
        invariant
            i <= items@.len(),
            out@ == start + quoted_items(str_views(items@).take(i as int)),
        decreases items@.len() - i,
    {
        let ghost t = str_views(items@).take(i + 1);
        proof {
            assert(t.drop_last() =~= str_views(items@).take(i as int));
            assert(t.last() == items@[i as int]@);
        }
        if i > 0 {
            push_str(out, ", ");
        }
        push_quoted(out, items[i]);
        proof {
            if i == 0 {
                assert(str_views(items@).take(0) =~= Seq::<Seq<char>>::empty());
                assert(out@ =~= start + quoted_items(t));
            } else {
                assert(out@ =~= start + quoted_items(t));
            }
        }
        i += 1;
    }
    proof {
        assert(str_views(items@).take(i as int) =~= str_views(items@));
    }
}

/// The name of a kind, as in [`kind_name`].
fn push_kind_name(out: &mut String, k: &SettingKind)
    ensures
        final(out)@ == old(out)@ + kind_name(*k),
{
    match k {
        SettingKind::Text => push_str(out, "Text"),
        SettingKind::Int => push_str(out, "Int"),
        SettingKind::Double => push_str(out, "Double"),
        SettingKind::Bool => push_str(out, "Bool"),
        SettingKind::Enum => push_str(out, "Enum"),
        SettingKind::Other(s) => {
            push_str(out, "Other(");
            push_quoted(out, s.as_str());
            push_char(out, ')');
            proof {
                assert(final(out)@ =~= old(out)@ + kind_name(*k));
            }
        },
    }
}

/// The name of a value, as in [`value_name`].
fn push_value_name(out: &mut String, v: &SettingValue)
    ensures
        final(out)@ == old(out)@ + value_name(*v),
{
    match v {
        SettingValue::Text(t) => {
            push_str(out, "Text(");
            push_quoted(out, t.as_str());
            push_char(out, ')');
        },
        SettingValue::Int(n) => {
            push_str(out, "Int(");
            let d = fmt_i64(*n);
            push_str(out, d.as_str());
            push_char(out, ')');
        },
        SettingValue::Double(_) => push_str(out, "Double"),
        SettingValue::Bool(b) => if *b {
            push_str(out, "Bool(true)")
        } else {
            push_str(out, "Bool(false)")
        },
    }
    proof {
        assert(final(out)@ =~= old(out)@ + value_name(*v));
    }
}

/// The message a rejected value gets.
fn reject(x: &Setting, v: &SettingValue) -> (m: String)
    ensures
        m@ == reject_message(*x, *v),
{
    let mut out = owned("setting ");
    push_str(&mut out, x.id.as_str());
    if !kind_fits(&x.kind, v) {
        push_str(&mut out, ": declared ");
        push_kind_name(&mut out, &x.kind);
        push_str(&mut out, " but supplied value is ");
        push_value_name(&mut out, v);
        proof {
            assert(out@ =~= reject_message(*x, *v));
        }
        return out;
    }
    let mut items: Vec<&str> = Vec::new();
    let t: &str = match v {
        SettingValue::Text(t) => t.as_str(),
        _ => {
            proof {
                reveal_strlit("");
            }
            return owned("");
        },
    };
    match &x.enum_values {
        Some(EnumValues::List(opts)) => {
            let mut i: usize = 0;
            while i < opts.len()
                invariant
                    i <= opts@.len(),
                    items@.len() == i,
                    str_views(items@) == views(opts@).take(i as int),
                decreases opts@.len() - i,
            {
                let ghost before = items@;
                items.push(opts[i].as_str());
                proof {
                    assert(items@.len() == before.len() + 1);
                    assert(items@[i as int]@ == opts@[i as int]@);
                    assert(forall|j: int| 0 <= j < i ==> items@[j] == before[j]);
                    assert(str_views(items@) =~= str_views(before).push(opts@[i as int]@));
                    assert(views(opts@).take(i + 1) =~= views(opts@).take(i as int).push(
                        opts@[i as int]@,
                    ));
                }
                i += 1;
            }
            proof {
                assert(views(opts@).take(i as int) =~= views(opts@));
            }
        },
        Some(EnumValues::Mapping(p)) => {
            let mut i: usize = 0;
            while i < p.len()
                invariant
                    i <= p@.len(),
                    items@.len() == i,
                    str_views(items@) == mapping_keys(p@).take(i as int),
                decreases p@.len() - i,
            {
                let ghost before = items@;
                items.push(p[i].0.as_str());
                proof {
                    assert(items@.len() == before.len() + 1);
                    assert(items@[i as int]@ == p@[i as int].0@);
                    assert(forall|j: int| 0 <= j < i ==> items@[j] == before[j]);
                    assert(str_views(items@) =~= str_views(before).push(p@[i as int].0@));
                    assert(mapping_keys(p@).take(i + 1) =~= mapping_keys(p@).take(i as int).push(
                        p@[i as int].0@,
                    ));
                }
                i += 1;
            }
            proof {
                assert(mapping_keys(p@).take(i as int) =~= mapping_keys(p@));
            }
        },
        None => {
            proof {
                reveal_strlit("");
            }
            return owned("");
        },
    }
    push_str(&mut out, ": ");
    push_quoted(&mut out, t);
    push_str(&mut out, " not in enum [");
    push_quoted_items(&mut out, &items);
    push_char(&mut out, ']');
    proof {
        assert(out@ =~= reject_message(*x, *v));
    }
    out
}

/// Whether a value's variant fits a kind.
fn kind_fits(k: &SettingKind, v: &SettingValue) -> (b: bool)
    ensures
        b == kind_accepts(*k, *v),
{
    match v {
        SettingValue::Text(_) => match k {
            SettingKind::Text | SettingKind::Enum | SettingKind::Other(_) => true,
            _ => false,
        },
        SettingValue::Int(_) => match k {
            SettingKind::Int => true,
            _ => false,
        },
        SettingValue::Double(_) => match k {
            SettingKind::Double => true,
            _ => false,
        },
        SettingValue::Bool(_) => match k {
            SettingKind::Bool => true,
            _ => false,
        },
    }
}

/// Whether a value is one of the enumerated ones (when listed).
fn enum_fits(e: &Option<EnumValues>, v: &SettingValue) -> (b: bool)
    ensures
        b == enum_accepts(*e, *v),
{
    match (e, v) {
        (Some(EnumValues::List(opts)), SettingValue::Text(t)) => list_holds(opts, t.as_str()),
        (Some(EnumValues::Mapping(p)), SettingValue::Text(t)) => mapping_holds(p, t.as_str()),
        _ => true,
    }
}

/// The resource a missing setting is reported as.
pub open spec fn missing_resource(id: Seq<char>) -> Seq<char> {
    "/:/prefs/"@ + id
}

/// `r` is what validating `v` for id `id` against `s` gives: the
/// setting when it accepts the value; [`Error::NotFound`] when no
/// setting has the id; [`Error::Config`] with the rejection message
/// otherwise.
pub open spec fn validation_outcome(s: Seq<Setting>, id: Seq<char>, v: SettingValue, r: Result<Setting>) -> bool {
    match r {
        Ok(x) => s.contains(x) && x.id@ == id && accepts(x, v),
        Err(Error::NotFound { resource }) => !has_id(s, id) && resource@ == missing_resource(id),
        Err(Error::Config(m)) => exists|i: int|
            0 <= i < s.len() && #[trigger] s[i].id@ == id && !accepts(s[i], v) && m@
                == reject_message(s[i], v),
        Err(_) => false,
    }
}

impl Settings {
    /// Every group name that appears, sorted, each once.
    pub fn group_names(&self) -> (r: Vec<&str>)
        ensures
            strs_sorted(str_views(r@)),
            forall|g: Seq<char>| #[trigger] str_views(r@).contains(g) <==> exists|i: int|
                0 <= i < self@.len() && (#[trigger] self@[i]).group@ == g,
    {
        let mut names: Vec<&str> = Vec::new();
        let mut i: usize = 0;
        while i < self.entries.len()
            invariant
                i <= self.entries@.len(),
                strs_sorted(str_views(names@)),
                forall|g: Seq<char>| #[trigger] str_views(names@).contains(g) <==> exists|j: int|
                    0 <= j < i && (#[trigger] self.entries@[j]).group@ == g,
            decreases self.entries@.len() - i,
        {
            insert_name(&mut names, self.entries[i].group.as_str());
            proof {
                assert forall|g: Seq<char>| #[trigger] str_views(names@).contains(g) <==> exists|j: int|
                    0 <= j < i + 1 && (#[trigger] self.entries@[j]).group@ == g by {
                    if g == self.entries@[i as int].group@ {
                        assert(self.entries@[i as int].group@ == g);
                    }
                }
            }
            i += 1;
        }
        names
    }

    /// Check that a setting with id `id` exists and accepts `value`;
    /// the setting on success.
    pub fn validate(&self, id: &str, value: &SettingValue) -> (r: Result<&Setting>)
        ensures
            validation_outcome(
                self@,
                id@,
                *value,
                match r {
                    Ok(x) => Ok(*x),
                    Err(e) => Err(e),
                },
            ),
    {
        let x = match self.get(id) {
            Some(x) => x,
            None => {
                let mut resource = owned("/:/prefs/");
                push_str(&mut resource, id);
                return Err(Error::NotFound { resource });
            },
        };
        let ok = kind_fits(&x.kind, value) && enum_fits(&x.enum_values, value);
        if !ok {
            let m = reject(x, value);
            proof {
                let i = choose|i: int| 0 <= i < self@.len() && self@[i] == *x;
                assert(self@[i].id@ == id@);
            }
            return Err(Error::Config(m));
        }
        Ok(x)
    }

    /// Check a batch of updates before writing them: at least one, and
    /// each accepted; the first failure is reported.
    pub fn check_updates(&self, updates: &Vec<(String, SettingValue)>) -> (r: Result<()>)
        ensures
            updates@.len() == 0 ==> (r matches Err(Error::Config(m))
                && m@ == "set_many requires at least one update"@),
            updates@.len() > 0 ==> (r is Ok <==> forall|i: int|
                0 <= i < updates@.len() ==> valid_update(
                    self@,
                    (#[trigger] updates@[i]).0@,
                    updates@[i].1,
                )),
            updates@.len() > 0 ==> (r matches Err(e) ==> exists|k: int|
                0 <= k < updates@.len() && (forall|j: int|
                    0 <= j < k ==> valid_update(self@, (#[trigger] updates@[j]).0@, updates@[j].1))
                    && validation_outcome(self@, (#[trigger] updates@[k]).0@, updates@[k].1, Err(e))),
    {
        if updates.len() == 0 {
            return Err(Error::Config(owned("set_many requires at least one update")));
        }
        let mut i: usize = 0;
        while i < updates.len()
            invariant
                i <= updates@.len(),
                forall|j: int|
                    0 <= j < i ==> valid_update(self@, (#[trigger] updates@[j]).0@, updates@[j].1),
            decreases updates@.len() - i,
        {
            match self.validate(updates[i].0.as_str(), &updates[i].1) {
                Ok(x) => {
                    proof {
                        let m = choose|m: int| 0 <= m < self@.len() && self@[m] == *x;
                        assert(self@[m].id@ == updates@[i as int].0@);
                    }
                },
                Err(e) => {
                    proof {
                        assert(validation_outcome(self@, updates@[i as int].0@, updates@[i as int].1, Err(e)));
                        if valid_update(self@, updates@[i as int].0@, updates@[i as int].1) {
                            use_type_invariant(self);
                            let m = choose|m: int| 0 <= m < self@.len() && #[trigger] self@[m].id@ == updates@[i as int].0@ && accepts(self@[m], updates@[i as int].1);
                            if e is Config {
                                let q = choose|q: int| 0 <= q < self@.len() && #[trigger] self@[q].id@ == updates@[i as int].0@ && !accepts(self@[q], updates@[i as int].1);
                                if m < q {
                                    lemma_lt_irreflexive(self@[m].id@);
                                } else if q < m {
                                    lemma_lt_irreflexive(self@[m].id@);
                                }
                            }
                        }
                    }
                    return Err(e);
                },
            }
            i += 1;
        }
        Ok(())
    }
}

/// The URL that writes `pairs` (id, wire value) to the server at
/// `base_url`: `/:/prefs` with the pairs form-encoded as its query.
pub fn build_write_url(base_url: &str, pairs: &Vec<(String, String)>) -> (r: Result<ParsedUrl>)
    ensures
        match url_join(base_url@, PREFS_PATH@) {
            None => r matches Err(Error::Url(_)),
            Some(u) => r matches Ok(p) && parsed_view(p) == with_query(u, pairs_view(pairs@)),
        },
{
    let url = join_path(base_url, PREFS_PATH)?;
    Ok(append_query(url, pairs))
}

/// A read gives back what was written: once a setting is put in, the
/// one found under its id is that setting, and every setting that was
/// there under another id is still there.
pub proof fn law_insert_then_get(old: Seq<Setting>, fin: Seq<Setting>, s: Setting)
    requires
        put_in(old, fin, s),
    ensures
        has_id(fin, s.id@),
        forall|x: Setting| #[trigger] fin.contains(x) && x.id@ == s.id@ ==> x == s,
        forall|y: Setting| #[trigger] old.contains(y) && y.id@ != s.id@ ==> fin.contains(y),
{
    let k = choose|k: int| 0 <= k < fin.len() && fin[k] == s;
    assert(fin[k].id@ == s.id@);
    assert forall|x: Setting| #[trigger] fin.contains(x) && x.id@ == s.id@ implies x == s by {
        let i = choose|i: int| 0 <= i < fin.len() && fin[i] == x;
        assert(fin[i] == s || fin[i].id@ != s.id@);
    }
    assert forall|y: Setting| #[trigger] old.contains(y) && y.id@ != s.id@ implies fin.contains(y) by {
        let j = choose|j: int| 0 <= j < old.len() && old[j] == y;
        assert(old[j].id@ != s.id@);
    }
}

} // verus!
