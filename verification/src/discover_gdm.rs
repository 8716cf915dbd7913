//! GDM (the "G'Day Mate" local discovery protocol): the reply a Plex
//! Media Server sends to an `M-SEARCH` probe, read as an HTTP-like
//! status line followed by `Name: value` headers.

use vstd::prelude::*;
use vstd::utf8::{decode_utf8, encode_utf8, valid_utf8};

use crate::headers::opt_view;
use crate::urls::{parse_url, parsed_view, url_parse, ParsedUrl};
use crate::text::{
    chars_of, copy_string, dec_chars, find_char, find_from, fmt_u64, has_prefix, lower_string,
    lowered, parse_i64, parse_i64_spec, parse_u32, parse_u32_spec, push_char, push_str, split_on,
    split_str, starts_with_chars, str_eq, string_from_utf8, string_of_range, trim_string, trimmed,
    views,
};

verus! {

broadcast use vstd::string::group_string_axioms;

/// The `M-SEARCH` probe a client multicasts.
pub const M_SEARCH: &'static str = "M-SEARCH * HTTP/1.0\r\n\r\n";

/// The multicast port servers listen on.
pub const SERVER_PORT: u16 = 32414;

/// A line without the `\r` of a `\r\n` ending.
pub open spec fn strip_cr(l: Seq<char>) -> Seq<char> {
    if l.len() > 0 && l.last() == '\r' {
        l.drop_last()
    } else {
        l
    }
}

/// The lines of a text as `str::lines` yields them: split at `\n`,
/// `\r\n` endings stripped, no line after a final `\n`.
pub open spec fn lines_of(s: Seq<char>) -> Seq<Seq<char>> {
    let parts = split_on(s, '\n');
    let inner = parts.take(parts.len() - 1).map_values(|l: Seq<char>| strip_cr(l));
    if parts.last().len() > 0 {
        inner.push(parts.last())
    } else {
        inner
    }
}

/// The header a line holds: the trimmed, lower-cased name before its
/// first `:` and the trimmed value after it; none for an empty line or
/// one without `:`.
pub open spec fn header_of(line: Seq<char>) -> Option<(Seq<char>, Seq<char>)> {
    if line.len() == 0 {
        None
    } else {
        match find_from(line, ':', 0) {
            Some(k) => Some(
                (
                    lowered(trimmed(line.take(k))),
                    trimmed(line.skip(k + 1)),
                ),
            ),
            None => None,
        }
    }
}

/// The headers of a list of lines, in order.
pub open spec fn headers_of(ls: Seq<Seq<char>>) -> Seq<(Seq<char>, Seq<char>)>
    decreases ls.len(),
{
    if ls.len() == 0 {
        Seq::empty()
    } else {
        match header_of(ls.last()) {
            Some(h) => headers_of(ls.drop_last()).push(h),
            None => headers_of(ls.drop_last()),
        }
    }
}

/// The value of the last header named `key` (later headers win).
pub open spec fn lookup(hs: Seq<(Seq<char>, Seq<char>)>, key: Seq<char>) -> Option<Seq<char>>
    decreases hs.len(),
{
    if hs.len() == 0 {
        None
    } else if hs.last().0 == key {
        Some(hs.last().1)
    } else {
        lookup(hs.drop_last(), key)
    }
}

/// What `u16::from_str` accepts.
pub open spec fn parse_u16_spec(s: Seq<char>) -> Option<u16> {
    match parse_u32_spec(s) {
        Some(v) => if v <= 65535 {
            Some(v as u16)
        } else {
            None
        },
        None => None,
    }
}

/// The address a reply came from: the IP address as text, whether it is
/// an IPv6 address, and the UDP port.
#[derive(Debug, Clone)]
pub struct SourceAddr {
    /// The address, as `Ipv4Addr`/`Ipv6Addr` display it.
    pub ip: String,
    /// Whether `ip` is an IPv6 address.
    pub ipv6: bool,
    /// The port the reply came from.
    pub port: u16,
}

/// One Plex Media Server discovered on the LAN.
#[derive(Debug, Clone)]
#[non_exhaustive]
pub struct GdmEntry {
    /// Address the server replied from.
    pub source: SourceAddr,
    /// `Resource-Identifier`: the server's machine identifier.
    pub machine_identifier: Option<String>,
    /// `Name`.
    pub name: Option<String>,
    /// `Port`, when it is a `u16`.
    pub port: Option<u16>,
    /// `Version`.
    pub version: Option<String>,
    /// `Content-Type`.
    pub content_type: Option<String>,
    /// `Updated-At` (epoch seconds), when it is an `i64`.
    pub updated_at: Option<i64>,
    /// Every header, in order, names lower-cased.
    pub headers: Vec<(String, String)>,
}

/// The reply `text` describes, or `None` when its first line is not an
/// `HTTP/` status line.
pub open spec fn reply_spec(text: Seq<char>) -> Option<(Seq<(Seq<char>, Seq<char>)>)> {
    let ls = lines_of(text);
    if ls.len() == 0 || !has_prefix(ls[0], "HTTP/"@) {
        None
    } else {
        Some(headers_of(ls.skip(1)))
    }
}

/// Pair views.
pub open spec fn header_views(v: Seq<(String, String)>) -> Seq<(Seq<char>, Seq<char>)> {
    v.map_values(|p: (String, String)| (p.0@, p.1@))
}

/// `r` is the reply whose headers are `hs`.
pub open spec fn reply_of(r: GdmEntry, hs: Seq<(Seq<char>, Seq<char>)>) -> bool {
    &&& header_views(r.headers@) == hs
    &&& opt_view(r.machine_identifier) == lookup(hs, "resource-identifier"@)
    &&& opt_view(r.name) == lookup(hs, "name"@)
    &&& r.port == match lookup(hs, "port"@) {
        Some(p) => parse_u16_spec(p),
        None => None,
    }
    &&& opt_view(r.version) == lookup(hs, "version"@)
    &&& opt_view(r.content_type) == lookup(hs, "content-type"@)
    &&& r.updated_at == match lookup(hs, "updated-at"@) {
        Some(u) => parse_i64_spec(u),
        None => None,
    }
}

/// The lines of a text.
fn lines(text: &str) -> (v: Vec<String>)
    ensures
        views(v@) == lines_of(text@),
{
    let parts = split_str(text, '\n');
    proof {
        crate::text::lemma_split_on_nonempty(text@, '\n');
    }
    let n = parts.len();
    let ghost ps = split_on(text@, '\n');
    let mut out: Vec<String> = Vec::new();
    let mut i: usize = 0;
    while i + 1 < n
        invariant
            n == parts@.len(),
            n >= 1,
            views(parts@) == ps,
            ps == split_on(text@, '\n'),
            i < n,
            views(out@) == ps.take(i as int).map_values(|l: Seq<char>| strip_cr(l)),
        decreases n - i,
    {
        let cs = chars_of(parts[i].as_str());
        let len = cs.len();
        let l = if len > 0 && cs[len - 1] == '\r' {
            string_of_range(&cs, 0, len - 1)
        } else {
            string_of_range(&cs, 0, len)
        };
        proof {
            assert(ps[i as int] == parts@[i as int]@);
            assert(cs@.subrange(0, len as int) =~= cs@);
            if len > 0 {
                assert(cs@.subrange(0, len - 1) =~= cs@.drop_last());
            }
            assert(l@ == strip_cr(ps[i as int]));
        }
        let ghost before = out@;
        out.push(l);
        proof {
            assert(views(out@) =~= views(before).push(strip_cr(ps[i as int])));
            assert(ps.take(i + 1).map_values(|l: Seq<char>| strip_cr(l)) =~= ps.take(
                i as int,
            ).map_values(|l: Seq<char>| strip_cr(l)).push(strip_cr(ps[i as int])));
        }
        i += 1;
    }
    proof {
        assert(ps[n - 1] == parts@[n - 1]@);
        assert(ps.last() == ps[n - 1]);
    }
    if !parts[n - 1].as_str().is_empty() {
        let last = copy_string(&parts[n - 1]);
        let ghost before = out@;
        out.push(last);
        proof {
            assert(views(out@) =~= views(before).push(ps.last()));
        }
    }
    out
}

/// The header of one line.
fn header(line: &String) -> (r: Option<(String, String)>)
    ensures
        match r {
            Some(p) => header_of(line@) == Some((p.0@, p.1@)),
            None => header_of(line@) is None,
        },
{
    let cs = chars_of(line.as_str());
    let n = cs.len();
    if n == 0 {
        return None;
    }
    match find_char(&cs, ':', 0) {
        Some(k) => {
            let name = string_of_range(&cs, 0, k);
            let value = string_of_range(&cs, k + 1, n);
            proof {
                assert(cs@.subrange(0, k as int) =~= line@.take(k as int));
                assert(cs@.subrange(k + 1, n as int) =~= line@.skip(k + 1));
            }
            let tn = trim_string(name.as_str());
            let ln = lower_string(tn.as_str());
            let tv = trim_string(value.as_str());
            Some((ln, tv))
        },
        None => None,
    }
}

/// The value of the last header named `key`.
fn find_header(hs: &Vec<(String, String)>, key: &str) -> (r: Option<String>)
    ensures
        opt_view(r) == lookup(header_views(hs@), key@),
{
    let mut i = hs.len();
    proof {
        assert(header_views(hs@).take(hs@.len() as int) =~= header_views(hs@));
    }
    while i > 0
        invariant
            i <= hs@.len(),
            lookup(header_views(hs@), key@) == lookup(header_views(hs@).take(i as int), key@),
        decreases i,
    {
        let ghost t = header_views(hs@).take(i as int);
        proof {
            assert(t.drop_last() =~= header_views(hs@).take(i - 1));
            assert(t.last() == (hs@[i - 1].0@, hs@[i - 1].1@));
        }
        if str_eq(hs[i - 1].0.as_str(), key) {
            return Some(copy_string(&hs[i - 1].1));
        }
        i -= 1;
    }
    proof {
        assert(header_views(hs@).take(0) =~= Seq::<(Seq<char>, Seq<char>)>::empty());
    }
    None
}

/// `u16::from_str`.
fn parse_u16(s: &str) -> (r: Option<u16>)
    ensures
        r == parse_u16_spec(s@),
{
    match parse_u32(s) {
        Some(v) => if v <= 65535 {
            Some(v as u16)
        } else {
            None
        },
        None => None,
    }
}

/// Read a GDM reply: `None` when the bytes are not UTF-8 or the first
/// line is not an `HTTP/` status line; otherwise the headers of the
/// following lines (empty lines and lines without `:` skipped) and the
/// well-known ones, the last of each name winning.
pub fn parse_reply(bytes: &[u8], source: SourceAddr) -> (r: Option<GdmEntry>)
    ensures
        !valid_utf8(bytes@) ==> r is None,
        valid_utf8(bytes@) ==> match reply_spec(decode_utf8(bytes@)) {
            None => r is None,
            Some(hs) => r matches Some(g) && reply_of(g, hs) && g.source == source,
        },
{
    let mut owned_bytes: Vec<u8> = Vec::new();
    let mut i: usize = 0;
    while i < bytes.len()
        invariant
            i <= bytes@.len(),
            owned_bytes@ == bytes@.take(i as int),
        decreases bytes@.len() - i,
    {
        owned_bytes.push(bytes[i]);
        proof {
            assert(owned_bytes@ =~= bytes@.take(i + 1));
        }
        i += 1;
    }
    proof {
        assert(bytes@.take(bytes@.len() as int) =~= bytes@);
    }
    let text = match string_from_utf8(owned_bytes) {
        Ok(t) => t,
        Err(_) => {
            return None;
        },
    };
    proof {
        broadcast use vstd::utf8::group_utf8_lib;

        assert(decode_utf8(encode_utf8(text@)) == text@);
    }
    let ls = lines(text.as_str());
    if ls.len() == 0 {
        return None;
    }
    let first = chars_of(ls[0].as_str());
    proof {
        assert(views(ls@)[0] == ls@[0]@);
    }
    if !starts_with_chars(&first, "HTTP/") {
        return None;
    }
    let ghost rest = lines_of(text@).skip(1);
    let mut hs: Vec<(String, String)> = Vec::new();
    let mut j: usize = 1;
    while j < ls.len()
        invariant
            1 <= j <= ls@.len(),
            views(ls@) == lines_of(text@),
            rest == lines_of(text@).skip(1),
            header_views(hs@) == headers_of(rest.take(j - 1)),
        decreases ls@.len() - j,
    {
        let h = header(&ls[j]);
        proof {
            assert(views(ls@)[j as int] == ls@[j as int]@);
            assert(rest.take(j as int).drop_last() =~= rest.take(j - 1));
            assert(rest.take(j as int).last() == ls@[j as int]@);
        }
        match h {
            Some(p) => {
                let ghost before = hs@;
                hs.push(p);
                proof {
                    assert(header_views(hs@) =~= header_views(before).push((p.0@, p.1@)));
                }
            },
            None => {},
        }
        j += 1;
    }
    proof {
        assert(rest.take(ls@.len() - 1) =~= rest);
    }
    let machine_identifier = find_header(&hs, "resource-identifier");
    let name = find_header(&hs, "name");
    let port = match find_header(&hs, "port") {
        Some(p) => parse_u16(p.as_str()),
        None => None,
    };
    let version = find_header(&hs, "version");
    let content_type = find_header(&hs, "content-type");
    let updated_at = match find_header(&hs, "updated-at") {
        Some(u) => parse_i64(u.as_str()),
        None => None,
    };
    Some(
        GdmEntry {
            source,
            machine_identifier,
            name,
            port,
            version,
            content_type,
            updated_at,
            headers: hs,
        },
    )
}

/// The text of the probable server URL for a reply received from
/// `ip` (bracketed when it is an IPv6 address) and the port it names.
pub open spec fn base_url_text(ip: Seq<char>, ipv6: bool, port: u16) -> Seq<char> {
    let host = if ipv6 {
        seq!['['] + ip + seq![']']
    } else {
        ip
    };
    "http://"@ + host + seq![':'] + dec_chars(port as nat) + seq!['/']
}

impl GdmEntry {
    /// The value of header `name` (lower-case), the last one winning.
    pub fn header(&self, name: &str) -> (r: Option<String>)
        ensures
            opt_view(r) == lookup(header_views(self.headers@), name@),
    {
        find_header(&self.headers, name)
    }

    /// The probable base URL of the server that sent this reply:
    /// `http://{source ip}:{port}/`, `None` without a port or when the
    /// text does not parse as a URL.
    pub fn base_url(&self) -> (r: Option<ParsedUrl>)
        ensures
            match self.port {
                None => r is None,
                Some(p) => match url_parse(base_url_text(self.source.ip@, self.source.ipv6, p)) {
                    None => r is None,
                    Some(u) => r matches Some(v) && parsed_view(v) == u,
                },
            },
    {
        let port = match self.port {
            Some(p) => p,
            None => {
                return None;
            },
        };
        let ip = self.source.ip.as_str();
        let ipv6 = self.source.ipv6;
        let mut text = String::new();
        push_str(&mut text, "http://");
        if ipv6 {
            push_char(&mut text, '[');
            push_str(&mut text, ip);
            push_char(&mut text, ']');
        } else {
            push_str(&mut text, ip);
        }
        push_char(&mut text, ':');
        let digits = fmt_u64(port as u64);
        push_str(&mut text, digits.as_str());
        push_char(&mut text, '/');
        proof {
            let host = if ipv6 {
                seq!['['] + ip@ + seq![']']
            } else {
                ip@
            };
            assert(text@ =~= base_url_text(ip@, ipv6, port));
        }
        match parse_url(text.as_str()) {
            Ok(u) => Some(u),
            Err(_) => None,
        }
    }
}

/// The machine identifier of a reply.
pub open spec fn id_of(r: GdmEntry) -> Option<Seq<char>> {
    opt_view(r.machine_identifier)
}

/// The last position in `acc` of a reply with identifier `id`.
pub open spec fn position_of(acc: Seq<GdmEntry>, id: Seq<char>) -> Option<int>
    decreases acc.len(),
{
    if acc.len() == 0 {
        None
    } else if id_of(acc.last()) == Some(id) {
        Some(acc.len() - 1)
    } else {
        position_of(acc.drop_last(), id)
    }
}

/// Replies that name a machine, one per machine: the last reply of each
/// machine, at the place of that machine's first reply.
pub open spec fn identified(s: Seq<GdmEntry>) -> Seq<GdmEntry>
    decreases s.len(),
{
    if s.len() == 0 {
        Seq::empty()
    } else {
        let acc = identified(s.drop_last());
        match id_of(s.last()) {
            None => acc,
            Some(id) => match position_of(acc, id) {
                Some(k) => acc.update(k, s.last()),
                None => acc.push(s.last()),
            },
        }
    }
}

/// Replies that name no machine, in arrival order.
pub open spec fn anonymous(s: Seq<GdmEntry>) -> Seq<GdmEntry>
    decreases s.len(),
{
    if s.len() == 0 {
        Seq::empty()
    } else if id_of(s.last()) is None {
        anonymous(s.drop_last()).push(s.last())
    } else {
        anonymous(s.drop_last())
    }
}

proof fn lemma_position_in_range(acc: Seq<GdmEntry>, id: Seq<char>)
    ensures
        position_of(acc, id) matches Some(k) ==> 0 <= k < acc.len() && id_of(acc[k]) == Some(id),
    decreases acc.len(),
{
    if acc.len() > 0 {
        lemma_position_in_range(acc.drop_last(), id);
    }
}

/// Where a reply naming `id` stands among `acc`.
fn position_in(acc: &Vec<GdmEntry>, id: &String) -> (r: Option<usize>)
    ensures
        match r {
            Some(k) => position_of(acc@, id@) == Some(k as int),
            None => position_of(acc@, id@) is None,
        },
{
    let mut i = acc.len();
    proof {
        assert(acc@.take(acc@.len() as int) =~= acc@);
    }
    while i > 0
        invariant
            i <= acc@.len(),
            position_of(acc@, id@) == position_of(acc@.take(i as int), id@),
        decreases i,
    {
        let ghost t = acc@.take(i as int);
        proof {
            assert(t.drop_last() =~= acc@.take(i - 1));
            assert(t.last() == acc@[i - 1]);
        }
        let hit = match &acc[i - 1].machine_identifier {
            Some(m) => str_eq(m.as_str(), id.as_str()),
            None => false,
        };
        if hit {
            return Some(i - 1);
        }
        i -= 1;
    }
    None
}

/// Collapse the replies of one discovery round: one entry per machine
/// identifier (its last reply, where that machine first answered), then
/// the replies that name no machine, in arrival order.
pub fn merge_replies(replies: Vec<GdmEntry>) -> (r: Vec<GdmEntry>)
    ensures
        r@ == identified(replies@) + anonymous(replies@),
{
    let ghost all = replies@;
    let n = replies.len();
    let mut rest = replies;
    let mut named: Vec<GdmEntry> = Vec::new();
    let mut anon: Vec<GdmEntry> = Vec::new();
    let mut i: usize = 0;
    while rest.len() > 0
        invariant
            i <= all.len(),
            all.len() == n,
            rest@ == all.skip(i as int),
            named@ == identified(all.take(i as int)),
            anon@ == anonymous(all.take(i as int)),
        decreases rest@.len(),
    {
        let r = rest.remove(0);
        let ghost seen = all.take(i + 1);
        proof {
            assert(seen.drop_last() =~= all.take(i as int));
            assert(r == all[i as int]);
            assert(seen.last() == r);
        }
        match &r.machine_identifier {
            Some(id) => {
                let pos = position_in(&named, id);
                proof {
                    lemma_position_in_range(named@, id@);
                }
                match pos {
                    Some(k) => {
                        named.set(k, r);
                    },
                    None => {
                        named.push(r);
                    },
                }
            },
            None => {
                anon.push(r);
            },
        }
        proof {
            assert(rest@ =~= all.skip(i + 1));
        }
        i += 1;
    }
    proof {
        assert(all.take(i as int) =~= all);
    }
    named.append(&mut anon);
    named
}

proof fn lemma_position_absent(acc: Seq<GdmEntry>, id: Seq<char>)
    ensures
        position_of(acc, id) is None ==> forall|k: int| 0 <= k < acc.len() ==> id_of(#[trigger] acc[k]) != Some(id),
    decreases acc.len(),
{
    if acc.len() > 0 {
        lemma_position_absent(acc.drop_last(), id);
        if position_of(acc, id) is None {
            assert forall|k: int| 0 <= k < acc.len() implies id_of(#[trigger] acc[k]) != Some(id) by {
                if k < acc.len() - 1 {
                    assert(acc[k] == acc.drop_last()[k]);
                }
            }
        }
    }
}

/// Replies are deduplicated by machine identifier: after a discovery
/// round is collapsed, every entry that names a machine names it, and
/// no machine appears twice.
pub proof fn law_one_entry_per_machine(replies: Seq<GdmEntry>)
    ensures
        forall|k: int| 0 <= k < identified(replies).len() ==> id_of(#[trigger] identified(replies)[k]) is Some,
        forall|i: int, j: int|
            0 <= i < j < identified(replies).len() ==> id_of(#[trigger] identified(replies)[i]) != id_of(
                #[trigger] identified(replies)[j],
            ),
    decreases replies.len(),
{
    if replies.len() > 0 {
        let acc = identified(replies.drop_last());
        law_one_entry_per_machine(replies.drop_last());
        let r = replies.last();
        match id_of(r) {
            None => {},
            Some(id) => {
                lemma_position_in_range(acc, id);
                lemma_position_absent(acc, id);
                match position_of(acc, id) {
                    Some(p) => {
                        let out = acc.update(p, r);
                        assert forall|i: int, j: int|
                            0 <= i < j < out.len() implies id_of(#[trigger] out[i]) != id_of(#[trigger] out[j]) by {
                            if i == p {
                                assert(id_of(out[i]) == id_of(acc[i]));
                            }
                            if j == p {
                                assert(id_of(out[j]) == id_of(acc[j]));
                            }
                        }
                    },
                    None => {
                        let out = acc.push(r);
                        assert forall|i: int, j: int|
                            0 <= i < j < out.len() implies id_of(#[trigger] out[i]) != id_of(#[trigger] out[j]) by {
                            if j == acc.len() {
                                assert(out[i] == acc[i]);
                            } else {
                                assert(out[i] == acc[i] && out[j] == acc[j]);
                            }
                        }
                    },
                }
            },
        }
    }
}

} // verus!
