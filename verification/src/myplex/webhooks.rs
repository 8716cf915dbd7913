//! Webhooks of a plex.tv account: the form that replaces the list, the
//! XML fallback reader of the list, and the add / delete edits.

use vstd::prelude::*;
use vstd::string::StringSliceAdditionalSpecFns;
use vstd::utf8::encode_utf8;

use crate::auth::{form_body, push_form_pair};
use crate::error::{Error, Result};
use crate::text::{
    chars_of, copy_string, owned, push_str, str_eq, string_bytes, string_of_range, trim_start, views,
};

verus! {

broadcast use vstd::string::group_string_axioms;

/// `<base>/api/v2/user/webhooks`.
pub fn webhooks_url(base: &str) -> (u: String)
    ensures
        u@ == base@ + "/api/v2/user/webhooks"@,
{
    let mut u = owned(base);
    push_str(&mut u, "/api/v2/user/webhooks");
    u
}

/// The form fields that set the list to `urls`: one `urls[]` per URL,
/// or a single empty `urls` to clear it.
pub open spec fn webhook_fields(urls: Seq<Seq<char>>) -> Seq<(Seq<char>, Seq<char>)> {
    if urls.len() == 0 {
        seq![("urls"@, Seq::<char>::empty())]
    } else {
        urls.map_values(|u: Seq<char>| ("urls[]"@, u))
    }
}

/// The form body that sets the webhook list to `urls`.
pub fn encode_form(urls: &[String]) -> (b: Vec<u8>)
    ensures
        b@ == encode_utf8(form_body(webhook_fields(urls@.map_values(|u: String| u@)))),
{
    let ghost us = urls@.map_values(|u: String| u@);
    let ghost fields = webhook_fields(us);
    let mut s = String::new();
    if urls.len() == 0 {
        push_form_pair(&mut s, "urls", "", true);
        proof {
            reveal_strlit("");
            assert(fields.drop_last() =~= Seq::<(Seq<char>, Seq<char>)>::empty());
            assert(s@ =~= form_body(fields));
        }
    } else {
        let mut i: usize = 0;
        while i < urls.len()
            invariant
                i <= urls@.len(),
                urls@.len() > 0,
                us == urls@.map_values(|u: String| u@),
                fields == webhook_fields(us),
                fields.len() == urls@.len(),
                s@ == form_body(fields.take(i as int)),
            decreases urls@.len() - i,
        {
            push_form_pair(&mut s, "urls[]", urls[i].as_str(), i == 0);
            proof {
                assert(fields[i as int] == ("urls[]"@, urls@[i as int]@));
                assert(fields.take(i + 1).drop_last() =~= fields.take(i as int));
                assert(fields.take(i + 1).last() == fields[i as int]);
                if i == 0 {
                    assert(fields.take(0) =~= Seq::<(Seq<char>, Seq<char>)>::empty());
                }
            }
            i += 1;
        }
        proof {
            assert(fields.take(urls@.len() as int) =~= fields);
        }
    }
    string_bytes(s.as_str())
}

/// The text that opens a `url` attribute: `url="`.
pub open spec fn attr_marker() -> Seq<char> {
    seq!['u', 'r', 'l', '=', '"']
}

/// The first index at or after `from` where `needle` occurs in `s`.
pub open spec fn find_sub(s: Seq<char>, needle: Seq<char>, from: int) -> Option<int>
    decreases s.len() - from,
{
    if from < 0 || from >= s.len() || from + needle.len() > s.len() {
        None
    } else if s.subrange(from, from + needle.len()) == needle {
        Some(from)
    } else {
        find_sub(s, needle, from + 1)
    }
}

/// The first index at or after `from` holding `c`.
pub open spec fn find_quote(s: Seq<char>, from: int) -> Option<int>
    decreases s.len() - from,
{
    if from < 0 || from >= s.len() {
        None
    } else if s[from] == '"' {
        Some(from)
    } else {
        find_quote(s, from + 1)
    }
}

/// The values of the `url="…"` attributes from `cursor` on, in order; the
/// scan stops at an unterminated value.
pub open spec fn url_attrs_from(s: Seq<char>, cursor: int) -> Seq<Seq<char>>
    decreases s.len() - cursor,
{
    if cursor < 0 || cursor > s.len() {
        Seq::empty()
    } else {
        match find_sub(s, attr_marker(), cursor) {
            None => Seq::empty(),
            Some(p) => match find_quote(s, p + 5) {
                None => Seq::empty(),
                Some(e) => if cursor < e + 1 && e < s.len() {
                    seq![s.subrange(p + 5, e)] + url_attrs_from(s, e + 1)
                } else {
                    Seq::empty()
                },
            },
        }
    }
}

/// Properties of `find_sub`.
proof fn lemma_find_sub(s: Seq<char>, needle: Seq<char>, from: int)
    ensures
        find_sub(s, needle, from) matches Some(p) ==> from <= p && p + needle.len() <= s.len(),
    decreases s.len() - from,
{
    if !(from < 0 || from >= s.len() || from + needle.len() > s.len()) && s.subrange(
        from,
        from + needle.len(),
    ) != needle {
        lemma_find_sub(s, needle, from + 1);
    }
}

/// Properties of `find_quote`.
proof fn lemma_find_quote(s: Seq<char>, from: int)
    ensures
        find_quote(s, from) matches Some(e) ==> from <= e < s.len(),
    decreases s.len() - from,
{
    if !(from < 0 || from >= s.len()) && s[from] != '"' {
        lemma_find_quote(s, from + 1);
    }
}

/// The next occurrence of `url="` at or after `from`.
fn next_attr(cs: &Vec<char>, from: usize) -> (r: Option<usize>)
    ensures
        match r {
            Some(p) => find_sub(cs@, attr_marker(), from as int) == Some(p as int),
            None => find_sub(cs@, attr_marker(), from as int) is None,
        },
{
    let needle: Vec<char> = vec!['u', 'r', 'l', '=', '"'];
    proof {
        assert(needle@ =~= attr_marker());
    }
    let n = needle.len();
    let mut i = from;
    while n <= cs.len() && i < cs.len() && i <= cs.len() - n
        invariant
            needle@ == attr_marker(),
            n == needle@.len(),
            from <= i,
            find_sub(cs@, needle@, from as int) == find_sub(cs@, needle@, i as int),
        decreases cs@.len() - i,
    {
        let len = cs.len();
        let mut t: usize = 0;
        let mut same = true;
        while t < n
            invariant
                n == needle@.len(),
                len == cs@.len(),
                i + n <= len,
                t <= n,
                same == (forall|u: int| 0 <= u < t ==> cs@[i + u] == needle@[u]),
            decreases n - t,
        {
            if cs[i + t] != needle[t] {
                same = false;
            }
            t += 1;
        }
        if same {
            proof {
                assert(cs@.subrange(i as int, i + n) =~= needle@);
            }
            return Some(i);
        }
        proof {
            assert(cs@.subrange(i as int, i + n) != needle@) by {
                let u = choose|u: int| 0 <= u < n && cs@[i + u] != needle@[u];
                assert(cs@.subrange(i as int, i + n)[u] == cs@[i + u]);
            }
        }
        i += 1;
    }
    None
}

/// The next `"` at or after `from`.
fn next_quote(cs: &Vec<char>, from: usize) -> (r: Option<usize>)
    ensures
        match r {
            Some(e) => find_quote(cs@, from as int) == Some(e as int),
            None => find_quote(cs@, from as int) is None,
        },
{
    let mut i = from;
    while i < cs.len()
        invariant
            from <= i,
            find_quote(cs@, from as int) == find_quote(cs@, i as int),
        decreases cs@.len() - i,
    {
        if cs[i] == '"' {
            return Some(i);
        }
        i += 1;
    }
    None
}

/// The values of every `url="…"` attribute of an XML body, in order.
pub fn parse_xml_url_attrs(body: &str) -> (v: Vec<String>)
    ensures
        views(v@) == url_attrs_from(body@, 0),
{
    let cs = chars_of(body);
    let mut out: Vec<String> = Vec::new();
    let mut cursor: usize = 0;
    let mut done = false;
    while !done && cursor <= cs.len()
        invariant
            cs@ == body@,
            cursor <= cs@.len() + 1,
            views(out@) + url_attrs_from(cs@, cursor as int) == url_attrs_from(cs@, 0),
            done ==> url_attrs_from(cs@, cursor as int) =~= Seq::<Seq<char>>::empty(),
        decreases cs@.len() + 2 - cursor - (if done { 1int } else { 0int }),
    {
        proof {
            lemma_find_sub(cs@, attr_marker(), cursor as int);
        }
        match next_attr(&cs, cursor) {
            None => {
                done = true;
            },
            Some(p) => {
                proof {
                    lemma_find_quote(cs@, p + 5);
                }
                match next_quote(&cs, p + 5) {
                    None => {
                        done = true;
                    },
                    Some(e) => {
                        let v = string_of_range(&cs, p + 5, e);
                        let ghost before = out@;
                        out.push(v);
                        proof {
                            assert(views(out@) =~= views(before).push(cs@.subrange(p + 5, e as int)));
                            assert(url_attrs_from(cs@, cursor as int) == seq![
                                cs@.subrange(p + 5, e as int),
                            ] + url_attrs_from(cs@, e + 1));
                            assert(views(out@) + url_attrs_from(cs@, e + 1) =~= views(before)
                                + url_attrs_from(cs@, cursor as int));
                        }
                        cursor = e + 1;
                    },
                }
            },
        }
    }
    proof {
        if !done {
            assert(url_attrs_from(cs@, cursor as int) =~= Seq::<Seq<char>>::empty());
        }
        assert(views(out@) + url_attrs_from(cs@, cursor as int) =~= views(out@));
    }
    out
}

/// The list a body holds when it is neither a JSON array nor a JSON
/// envelope: the `url` attributes when it looks like XML (first
/// non-blank character `<`), else nothing.
pub fn webhook_list_fallback(body: &str) -> (v: Vec<String>)
    ensures
        views(v@) == if trim_start(body@).len() > 0 && trim_start(body@)[0] == '<' {
            url_attrs_from(body@, 0)
        } else {
            Seq::empty()
        },
{
    if crate::text::first_non_ws(body) == Some('<') {
        parse_xml_url_attrs(body)
    } else {
        Vec::new()
    }
}

/// The webhook list a body holds, given what JSON decoding made of it:
/// the URLs of a top-level array when it decoded as one, else those of
/// a `{"webhooks": [...]}` envelope, else [`webhook_list_fallback`].
pub fn parse_webhook_list(
    as_array: Option<Vec<String>>,
    as_envelope: Option<Vec<String>>,
    body: &str,
) -> (v: Vec<String>)
    ensures
        match (as_array, as_envelope) {
            (Some(a), _) => v@ == a@,
            (None, Some(e)) => v@ == e@,
            (None, None) => views(v@) == if trim_start(body@).len() > 0 && trim_start(body@)[0]
                == '<' {
                url_attrs_from(body@, 0)
            } else {
                Seq::empty()
            },
        },
{
    match as_array {
        Some(a) => a,
        None => match as_envelope {
            Some(e) => e,
            None => webhook_list_fallback(body),
        },
    }
}

/// The list with `url` added at the end, or `None` when it is already
/// there (nothing to change).
pub fn with_webhook(urls: Vec<String>, url: &str) -> (r: Option<Vec<String>>)
    ensures
        (exists|i: int| 0 <= i < urls@.len() && #[trigger] urls@[i]@ == url@) ==> r is None,
        !(exists|i: int| 0 <= i < urls@.len() && #[trigger] urls@[i]@ == url@) ==> (r matches Some(
            v,
        ) && views(v@) == views(urls@).push(url@)),
{
    let mut i: usize = 0;
    while i < urls.len()
        invariant
            i <= urls@.len(),
            forall|j: int| 0 <= j < i ==> #[trigger] urls@[j]@ != url@,
        decreases urls@.len() - i,
    {
        if str_eq(urls[i].as_str(), url) {
            return None;
        }
        i += 1;
    }
    let mut v = urls;
    let ghost before = v@;
    v.push(owned(url));
    proof {
        assert(views(v@) =~= views(before).push(url@));
    }
    Some(v)
}

/// The entries of `urls` other than `url`.
pub open spec fn without(urls: Seq<Seq<char>>, url: Seq<char>) -> Seq<Seq<char>>
    decreases urls.len(),
{
    if urls.len() == 0 {
        urls
    } else if urls.last() == url {
        without(urls.drop_last(), url)
    } else {
        without(urls.drop_last(), url).push(urls.last())
    }
}

/// The list without `url`; fails with [`Error::NotFound`] when `url` is
/// not in it.
pub fn without_webhook(urls: Vec<String>, url: &str) -> (r: Result<Vec<String>>)
    ensures
        without(views(urls@), url@).len() == urls@.len() ==> (r matches Err(Error::NotFound { resource })
            && resource@ == "webhook "@ + url@),
        without(views(urls@), url@).len() != urls@.len() ==> (r matches Ok(v) && views(v@)
            == without(views(urls@), url@)),
{
    let ghost src = views(urls@);
    let n = urls.len();
    let mut out: Vec<String> = Vec::new();
    let mut i: usize = 0;
    while i < urls.len()
        invariant
            i <= urls@.len(),
            src == views(urls@),
            views(out@) == without(src.take(i as int), url@),
        decreases urls@.len() - i,
    {
        proof {
            assert(src.take(i + 1).drop_last() =~= src.take(i as int));
            assert(src.take(i + 1).last() == urls@[i as int]@);
        }
        if !str_eq(urls[i].as_str(), url) {
            let c = copy_string(&urls[i]);
            let ghost before = out@;
            out.push(c);
            proof {
                assert(views(out@) =~= views(before).push(urls@[i as int]@));
            }
        }
        i += 1;
    }
    proof {
        assert(src.take(src.len() as int) =~= src);
    }
    if out.len() == n {
        let mut msg = owned("webhook ");
        push_str(&mut msg, url);
        return Err(Error::NotFound { resource: msg });
    }
    Ok(out)
}

/// Removing a URL that is not in the list changes nothing.
proof fn lemma_without_absent(urls: Seq<Seq<char>>, url: Seq<char>)
    requires
        !urls.contains(url),
    ensures
        without(urls, url) == urls,
    decreases urls.len(),
{
    if urls.len() > 0 {
        assert(!urls.drop_last().contains(url)) by {
            if urls.drop_last().contains(url) {
                let i = choose|i: int| 0 <= i < urls.drop_last().len() && urls.drop_last()[i] == url;
                assert(urls[i] == url);
            }
        }
        lemma_without_absent(urls.drop_last(), url);
        assert(urls.last() != url) by {
            assert(urls[urls.len() - 1] == urls.last());
        }
        assert(urls.drop_last().push(urls.last()) =~= urls);
    }
}

/// Adding a webhook and deleting it again gives back the list it was
/// added to: the delete finds it (the list shrinks) and leaves exactly
/// the earlier entries.
pub proof fn law_add_then_delete_webhook(urls: Seq<Seq<char>>, url: Seq<char>)
    requires
        !urls.contains(url),
    ensures
        without(urls.push(url), url) == urls,
        without(urls.push(url), url).len() != urls.push(url).len(),
{
    assert(urls.push(url).drop_last() =~= urls);
    lemma_without_absent(urls, url);
}

/// The test an entry passes to stay when `url` is deleted.
pub open spec fn differs_from(url: Seq<char>) -> spec_fn(Seq<char>) -> bool {
    |u: Seq<char>| u != url
}

/// Deleting a webhook removes exactly that URL: the list afterwards is
/// the list before with every entry equal to `url` filtered out, the
/// others kept in their order. So `url` is gone and every other entry
/// is still there.
pub proof fn law_delete_keeps_every_other_webhook(urls: Seq<Seq<char>>, url: Seq<char>)
    ensures
        without(urls, url) == urls.filter(differs_from(url)),
        !without(urls, url).contains(url),
        forall|i: int| 0 <= i < urls.len() && urls[i] != url ==> without(urls, url).contains(
            #[trigger] urls[i],
        ),
    decreases urls.len(),
{
    let w = without(urls, url);
    if urls.len() > 0 {
        let rest = urls.drop_last();
        law_delete_keeps_every_other_webhook(rest, url);
        let wr = without(rest, url);
        reveal(Seq::filter);
        assert(urls.filter(differs_from(url)) == if differs_from(url)(urls.last()) {
            rest.filter(differs_from(url)).push(urls.last())
        } else {
            rest.filter(differs_from(url))
        });
        assert(!w.contains(url)) by {
            if w.contains(url) {
                let k = choose|k: int| 0 <= k < w.len() && w[k] == url;
                if urls.last() != url && k == wr.len() {
                } else {
                    assert(wr[k] == url);
                }
            }
        }
        assert forall|i: int| 0 <= i < urls.len() && urls[i] != url implies w.contains(
            #[trigger] urls[i],
        ) by {
            if i < urls.len() - 1 {
                assert(rest[i] == urls[i]);
                assert(wr.contains(rest[i]));
                let k = choose|k: int| 0 <= k < wr.len() && wr[k] == rest[i];
                assert(w[k] == urls[i]);
            } else {
                assert(w[wr.len() as int] == urls[i]);
            }
        }
    }
}

} // verus!
