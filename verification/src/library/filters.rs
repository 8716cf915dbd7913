//! [`FilterBuilder`] — typed wrapper over Plex's filter / sort /
//! pagination query parameters.
//!
//! Each clause is `field<op>=value`. The operators: `=` (is / contains),
//! `!=` (is not / does not contain), `==` (string exact), `!==` (string
//! exact-not), `<=` (begins with), `>=` (ends with), `>>=` (greater /
//! after), `<<=` (less / before) and `&=` (AND-combine values).

use vstd::prelude::*;
use vstd::string::StringSliceAdditionalSpecFns;
use vstd::utf8::encode_utf8;

use crate::text::{
    dec_chars, hex_char, hex_digit, join_strings, join_strs, joined, lemma_joined_len, owned,
    pct_encode, pct_encoded, push_dec, push_str, str_views, views,
};

verus! {

/// Wire-level filter operator suffix.
#[derive(Debug, Clone, Copy, PartialEq, Eq, Hash)]
#[non_exhaustive]
pub enum FilterOp {
    /// `field=value` — int/tag/bool: equal. str: contains.
    Default,
    /// `field!=value` — default negated.
    Not,
    /// `field==value` — string exact-equal.
    Exact,
    /// `field!==value` — string exact-not-equal.
    NotExact,
    /// `field<=value` — string starts-with.
    StartsWith,
    /// `field>=value` — string ends-with.
    EndsWith,
    /// `field>>=value` — numeric / datetime greater-than.
    GreaterThan,
    /// `field<<=value` — numeric / datetime less-than.
    LessThan,
    /// `field&=v1,v2,…` — AND-combine values.
    AndValues,
}

/// The literal suffix of an operator.
pub open spec fn filter_op_wire(op: FilterOp) -> Seq<char> {
    match op {
        FilterOp::Default => "="@,
        FilterOp::Not => "!="@,
        FilterOp::Exact => "=="@,
        FilterOp::NotExact => "!=="@,
        FilterOp::StartsWith => "<="@,
        FilterOp::EndsWith => ">="@,
        FilterOp::GreaterThan => ">>="@,
        FilterOp::LessThan => "<<="@,
        FilterOp::AndValues => "&="@,
    }
}

impl FilterOp {
    /// The literal suffix Plex expects between field name and value.
    pub fn wire_op(self) -> (r: &'static str)
        ensures
            r@ == filter_op_wire(self),
    {
        match self {
            FilterOp::Default => "=",
            FilterOp::Not => "!=",
            FilterOp::Exact => "==",
            FilterOp::NotExact => "!==",
            FilterOp::StartsWith => "<=",
            FilterOp::EndsWith => ">=",
            FilterOp::GreaterThan => ">>=",
            FilterOp::LessThan => "<<=",
            FilterOp::AndValues => "&=",
        }
    }
}

/// Sort direction.
#[derive(Debug, Clone, Copy, PartialEq, Eq, Hash)]
pub enum SortDirection {
    /// Ascending — `sort=field:asc`.
    Asc,
    /// Descending — `sort=field:desc`.
    Desc,
}

/// The literal sort-direction string.
pub open spec fn sort_direction_wire(d: SortDirection) -> Seq<char> {
    match d {
        SortDirection::Asc => "asc"@,
        SortDirection::Desc => "desc"@,
    }
}

impl SortDirection {
    /// The literal Plex sort-direction string.
    pub fn as_wire(self) -> (r: &'static str)
        ensures
            r@ == sort_direction_wire(self),
    {
        match self {
            SortDirection::Asc => "asc",
            SortDirection::Desc => "desc",
        }
    }
}

/// Fluent builder over Plex's filter / sort / pagination query
/// parameters.
#[derive(Debug, Clone, Default)]
pub struct FilterBuilder {
    clauses: Vec<(String, FilterOp, String)>,
    sort: Option<(String, SortDirection)>,
    limit: Option<u32>,
    container_start: Option<u32>,
    container_size: Option<u32>,
    libtype: Option<u32>,
}

/// The abstract content of a [`FilterBuilder`].
pub struct FilterSpec {
    /// Clauses in insertion order: field, operator, value.
    pub clauses: Seq<(Seq<char>, FilterOp, Seq<char>)>,
    /// Sort field and direction.
    pub sort: Option<(Seq<char>, SortDirection)>,
    /// `limit=` cap.
    pub limit: Option<u32>,
    /// `X-Plex-Container-Start` offset.
    pub container_start: Option<u32>,
    /// `X-Plex-Container-Size` page size.
    pub container_size: Option<u32>,
    /// `type=` metadata type.
    pub libtype: Option<u32>,
}

/// The abstract view of one clause.
pub open spec fn clause_view(c: (String, FilterOp, String)) -> (Seq<char>, FilterOp, Seq<char>) {
    (c.0@, c.1, c.2@)
}

impl View for FilterBuilder {
    type V = FilterSpec;

    closed spec fn view(&self) -> FilterSpec {
        FilterSpec {
            clauses: self.clauses@.map_values(|c: (String, FilterOp, String)| clause_view(c)),
            sort: match self.sort {
                Some(s) => Some((s.0@, s.1)),
                None => None,
            },
            limit: self.limit,
            container_start: self.container_start,
            container_size: self.container_size,
            libtype: self.libtype,
        }
    }
}

/// RFC 3986 percent-encoding of a string's UTF-8 bytes.
pub open spec fn pct_of(s: Seq<char>) -> Seq<char> {
    pct_encoded(encode_utf8(s))
}

/// One rendered clause: `pct(field)` `op` `pct(value)`.
pub open spec fn clause_part(c: (Seq<char>, FilterOp, Seq<char>)) -> Seq<char> {
    pct_of(c.0) + filter_op_wire(c.1) + pct_of(c.2)
}

/// `name` followed by the decimal rendering of `n`, when present.
pub open spec fn num_part(name: Seq<char>, n: Option<u32>) -> Seq<Seq<char>> {
    match n {
        Some(v) => seq![name + dec_chars(v as nat)],
        None => seq![],
    }
}

/// The rendered query parameters in order: `type`, the clauses, `sort`,
/// `limit`, `X-Plex-Container-Start`, `X-Plex-Container-Size`.
pub open spec fn query_parts(v: FilterSpec) -> Seq<Seq<char>> {
    num_part("type="@, v.libtype) + v.clauses.map_values(
        |c: (Seq<char>, FilterOp, Seq<char>)| clause_part(c),
    ) + match v.sort {
        Some(s) => seq!["sort="@ + pct_of(s.0) + "%3A"@ + sort_direction_wire(s.1)],
        None => seq![],
    } + num_part("limit="@, v.limit) + num_part("X-Plex-Container-Start="@, v.container_start)
        + num_part("X-Plex-Container-Size="@, v.container_size)
}

/// The rendered query string (without `?`): the parts joined with `&`.
pub open spec fn rendered_query(v: FilterSpec) -> Seq<char> {
    joined(query_parts(v), '&')
}

/// Nothing is configured.
pub open spec fn filter_is_empty(v: FilterSpec) -> bool {
    v.clauses.len() == 0 && v.sort is None && v.limit is None && v.container_start is None
        && v.container_size is None && v.libtype is None
}

impl FilterBuilder {
    /// An empty builder.
    pub fn new() -> (b: Self)
        ensures
            filter_is_empty(b@),
    {
        FilterBuilder {
            clauses: Vec::new(),
            sort: None,
            limit: None,
            container_start: None,
            container_size: None,
            libtype: None,
        }
    }

    /// Restrict the listing to a Plex metadata type (`type=N`).
    pub fn libtype(self, type_id: u32) -> (b: Self)
        ensures
            b@ == (FilterSpec { libtype: Some(type_id), ..self@ }),
    {
        FilterBuilder { libtype: Some(type_id), ..self }
    }

    /// Append a clause with an explicit operator.
    pub fn clause(self, field: &str, op: FilterOp, value: &str) -> (b: Self)
        ensures
            b@ == (FilterSpec { clauses: self@.clauses.push((field@, op, value@)), ..self@ }),
    {
        let mut me = self;
        let ghost old_clauses = me.clauses@;
        me.clauses.push((owned(field), op, owned(value)));
        proof {
            assert(me.clauses@.map_values(|c: (String, FilterOp, String)| clause_view(c))
                =~= old_clauses.map_values(|c: (String, FilterOp, String)| clause_view(c)).push(
                (field@, op, value@),
            ));
        }
        me
    }

    /// Append `field=value` (tag/int/bool: equal; string: contains).
    pub fn equal(self, field: &str, value: &str) -> (b: Self)
        ensures
            b@ == (FilterSpec {
                clauses: self@.clauses.push((field@, FilterOp::Default, value@)),
                ..self@
            }),
    {
        self.clause(field, FilterOp::Default, value)
    }

    /// Append `field!=value`.
    pub fn not_equal(self, field: &str, value: &str) -> (b: Self)
        ensures
            b@ == (FilterSpec {
                clauses: self@.clauses.push((field@, FilterOp::Not, value@)),
                ..self@
            }),
    {
        self.clause(field, FilterOp::Not, value)
    }

    /// Append `field==value` (string exact).
    pub fn exact(self, field: &str, value: &str) -> (b: Self)
        ensures
            b@ == (FilterSpec {
                clauses: self@.clauses.push((field@, FilterOp::Exact, value@)),
                ..self@
            }),
    {
        self.clause(field, FilterOp::Exact, value)
    }

    /// Append `field!==value` (string exact-not).
    pub fn not_exact(self, field: &str, value: &str) -> (b: Self)
        ensures
            b@ == (FilterSpec {
                clauses: self@.clauses.push((field@, FilterOp::NotExact, value@)),
                ..self@
            }),
    {
        self.clause(field, FilterOp::NotExact, value)
    }

    /// Append `field<=value` (string starts-with).
    pub fn starts_with(self, field: &str, value: &str) -> (b: Self)
        ensures
            b@ == (FilterSpec {
                clauses: self@.clauses.push((field@, FilterOp::StartsWith, value@)),
                ..self@
            }),
    {
        self.clause(field, FilterOp::StartsWith, value)
    }

    /// Append `field>=value` (string ends-with).
    pub fn ends_with(self, field: &str, value: &str) -> (b: Self)
        ensures
            b@ == (FilterSpec {
                clauses: self@.clauses.push((field@, FilterOp::EndsWith, value@)),
                ..self@
            }),
    {
        self.clause(field, FilterOp::EndsWith, value)
    }

    /// Append `field>>=value` (numeric / datetime greater-than).
    pub fn gt(self, field: &str, value: &str) -> (b: Self)
        ensures
            b@ == (FilterSpec {
                clauses: self@.clauses.push((field@, FilterOp::GreaterThan, value@)),
                ..self@
            }),
    {
        self.clause(field, FilterOp::GreaterThan, value)
    }

    /// Append `field<<=value` (numeric / datetime less-than).
    pub fn lt(self, field: &str, value: &str) -> (b: Self)
        ensures
            b@ == (FilterSpec {
                clauses: self@.clauses.push((field@, FilterOp::LessThan, value@)),
                ..self@
            }),
    {
        self.clause(field, FilterOp::LessThan, value)
    }

    /// Append `field&=v1,v2,…`: all values must match.
    pub fn and_values(self, field: &str, values: &[&str]) -> (b: Self)
        ensures
            b@ == (FilterSpec {
                clauses: self@.clauses.push(
                    (field@, FilterOp::AndValues, joined(str_views(values@), ',')),
                ),
                ..self@
            }),
    {
        let joined_values = join_strs(values, ',');
        self.clause(field, FilterOp::AndValues, joined_values.as_str())
    }

    /// Sort by `field` ascending (`sort=field:asc`).
    pub fn sort_by(self, field: &str) -> (b: Self)
        ensures
            b@ == (FilterSpec { sort: Some((field@, SortDirection::Asc)), ..self@ }),
    {
        FilterBuilder { sort: Some((owned(field), SortDirection::Asc)), ..self }
    }

    /// Sort by `field` descending (`sort=field:desc`).
    pub fn sort_by_desc(self, field: &str) -> (b: Self)
        ensures
            b@ == (FilterSpec { sort: Some((field@, SortDirection::Desc)), ..self@ }),
    {
        FilterBuilder { sort: Some((owned(field), SortDirection::Desc)), ..self }
    }

    /// Cap the response size (`limit=`).
    pub fn limit(self, n: u32) -> (b: Self)
        ensures
            b@ == (FilterSpec { limit: Some(n), ..self@ }),
    {
        FilterBuilder { limit: Some(n), ..self }
    }

    /// Offset for paginated listings (`X-Plex-Container-Start=`).
    pub fn offset(self, n: u32) -> (b: Self)
        ensures
            b@ == (FilterSpec { container_start: Some(n), ..self@ }),
    {
        FilterBuilder { container_start: Some(n), ..self }
    }

    /// Page size for paginated listings (`X-Plex-Container-Size=`).
    pub fn page_size(self, n: u32) -> (b: Self)
        ensures
            b@ == (FilterSpec { container_size: Some(n), ..self@ }),
    {
        FilterBuilder { container_size: Some(n), ..self }
    }

    /// Render the query string (without the leading `?`); empty when
    /// nothing is configured.
    pub fn build_query(&self) -> (q: String)
        ensures
            q@ == rendered_query(self@),
    {
        let ghost v = self@;
        let mut parts: Vec<String> = Vec::new();
        push_num_part(&mut parts, "type=", self.libtype);
        push_clause_parts(&mut parts, &self.clauses);
        let ghost mid = views(parts@);
        if let Some((field, dir)) = &self.sort {
            let mut p = owned("sort=");
            let enc = pct_encode(field.as_str());
            push_str(&mut p, enc.as_str());
            push_str(&mut p, "%3A");
            push_str(&mut p, dir.as_wire());
            parts.push(p);
        }
        proof {
            assert(views(parts@) =~= mid + match v.sort {
                Some(s) => seq!["sort="@ + pct_of(s.0) + "%3A"@ + sort_direction_wire(s.1)],
                None => seq![],
            });
        }
        push_num_part(&mut parts, "limit=", self.limit);
        push_num_part(&mut parts, "X-Plex-Container-Start=", self.container_start);
        push_num_part(&mut parts, "X-Plex-Container-Size=", self.container_size);
        proof {
            assert(views(parts@) =~= query_parts(v));
        }
        join_strings(&parts, '&')
    }

    /// `true` when the builder would emit an empty query string.
    pub fn is_empty(&self) -> (r: bool)
        ensures
            r == filter_is_empty(self@),
    {
        self.clauses.len() == 0 && self.sort.is_none() && self.limit.is_none()
            && self.container_start.is_none() && self.container_size.is_none()
            && self.libtype.is_none()
    }
}

/// Appends `name` + decimal `n` when `n` is present.
fn push_num_part(parts: &mut Vec<String>, name: &str, n: Option<u32>)
    ensures
        views(final(parts)@) == views(old(parts)@) + num_part(name@, n),
{
    let ghost before = views(parts@);
    if let Some(t) = n {
        let mut p = owned(name);
        push_dec(&mut p, t as u64);
        parts.push(p);
    }
    proof {
        assert(views(parts@) =~= before + num_part(name@, n));
    }
}

/// Appends the rendering of every clause, in order.
fn push_clause_parts(parts: &mut Vec<String>, clauses: &Vec<(String, FilterOp, String)>)
    ensures
        views(final(parts)@) == views(old(parts)@) + clauses@.map_values(
            |c: (String, FilterOp, String)| clause_part(clause_view(c)),
        ),
{
    let ghost base = views(parts@);
    let ghost all = clauses@.map_values(|c: (String, FilterOp, String)| clause_part(clause_view(c)));
    let mut i: usize = 0;
    while i < clauses.len()
        invariant
            i <= clauses@.len(),
            all == clauses@.map_values(|c: (String, FilterOp, String)| clause_part(clause_view(c))),
            views(parts@) == base + all.take(i as int),
        decreases clauses@.len() - i,
    {
        let (field, op, value) = &clauses[i];
        let mut p = pct_encode(field.as_str());
        push_str(&mut p, op.wire_op());
        let enc = pct_encode(value.as_str());
        push_str(&mut p, enc.as_str());
        let ghost pv = views(parts@);
        parts.push(p);
        proof {
            assert(views(parts@) =~= pv.push(p@));
            assert(all.take(i + 1) =~= all.take(i as int).push(all[i as int]));
        }
        i += 1;
    }
    proof {
        assert(all.take(clauses@.len() as int) =~= all);
    }
}

/// Upper-case hex digit for a nibble; `?` for anything above 15.
pub fn hex_upper(n: u8) -> (c: char)
    ensures
        n < 16 ==> c == hex_digit(n),
        n >= 16 ==> c == '?',
{
    if n < 16 {
        hex_char(n)
    } else {
        '?'
    }
}

/// A later sort replaces an earlier one: setting the sort twice renders
/// the same query as setting only the later sort, so the query holds at
/// most one `sort=` pair.
pub proof fn law_later_sort_replaces_earlier(
    v: FilterSpec,
    first: (Seq<char>, SortDirection),
    second: (Seq<char>, SortDirection),
)
    ensures
        rendered_query(FilterSpec { sort: Some(second), ..FilterSpec { sort: Some(first), ..v } })
            == rendered_query(FilterSpec { sort: Some(second), ..v }),
{
    assert(FilterSpec { sort: Some(second), ..FilterSpec { sort: Some(first), ..v } }
        == FilterSpec { sort: Some(second), ..v });
}

/// The empty query law: a builder renders the empty query string
/// exactly when nothing is configured.
pub proof fn law_empty_builder_renders_empty_query(v: FilterSpec)
    ensures
        filter_is_empty(v) <==> rendered_query(v).len() == 0,
{
    let parts = query_parts(v);
    if filter_is_empty(v) {
        assert(parts =~= seq![]);
    } else {
        reveal_strlit("type=");
        reveal_strlit("sort=");
        reveal_strlit("limit=");
        reveal_strlit("X-Plex-Container-Start=");
        reveal_strlit("X-Plex-Container-Size=");
        reveal_strlit("=");
        reveal_strlit("!=");
        reveal_strlit("==");
        reveal_strlit("!==");
        reveal_strlit("<=");
        reveal_strlit(">=");
        reveal_strlit(">>=");
        reveal_strlit("<<=");
        reveal_strlit("&=");
        let c = v.clauses.map_values(|c: (Seq<char>, FilterOp, Seq<char>)| clause_part(c));
        let a = num_part("type="@, v.libtype);
        let s = match v.sort {
            Some(s) => seq!["sort="@ + pct_of(s.0) + "%3A"@ + sort_direction_wire(s.1)],
            None => seq![],
        };
        let l = num_part("limit="@, v.limit);
        let st = num_part("X-Plex-Container-Start="@, v.container_start);
        let sz = num_part("X-Plex-Container-Size="@, v.container_size);
        assert(parts == a + c + s + l + st + sz);
        let witness: int = if v.libtype is Some {
            0
        } else if v.clauses.len() > 0 {
            a.len() as int
        } else if v.sort is Some {
            (a.len() + c.len()) as int
        } else if v.limit is Some {
            (a.len() + c.len() + s.len()) as int
        } else if v.container_start is Some {
            (a.len() + c.len() + s.len() + l.len()) as int
        } else {
            (a.len() + c.len() + s.len() + l.len() + st.len()) as int
        };
        if v.clauses.len() > 0 {
            assert(c[0] == clause_part(v.clauses[0]));
            assert(filter_op_wire(v.clauses[0].1).len() > 0);
        }
        assert(0 <= witness < parts.len());
        assert(parts[witness].len() > 0);
        lemma_joined_len(parts, '&');
    }
}

} // verus!
