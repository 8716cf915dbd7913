//! plex.tv account services: Discover search, the watchlist, the
//! metadata provider and the resources (servers and players) of an
//! account.

pub mod devices;
pub mod discover;
pub mod friends;
pub mod metadata_provider;
pub mod resources;
pub mod watchlist;
pub mod webhooks;

use vstd::prelude::*;

use crate::myplex::resources::MyPlexResource;
use crate::text::{chars_of, eq_ignore_ascii_case, lowered, owned, push_str, string_of_range};

verus! {

/// Default plex.tv base URL.
pub const PLEX_TV_BASE: &'static str = "https://plex.tv";

/// Default base URL of the Discover catalogue and the watchlist.
pub const DISCOVER_BASE: &'static str = "https://discover.provider.plex.tv";

/// Default base URL of the metadata provider (per-user item state).
pub const METADATA_BASE: &'static str = "https://metadata.provider.plex.tv";

/// `s` without its trailing `/` characters.
pub open spec fn strip_trailing_slashes(s: Seq<char>) -> Seq<char>
    decreases s.len(),
{
    if s.len() > 0 && s.last() == '/' {
        strip_trailing_slashes(s.drop_last())
    } else {
        s
    }
}

/// A plex.tv base URL as the client keeps it: taken verbatim, trailing
/// slashes stripped.
pub fn normalize_base(base: &str) -> (r: String)
    ensures
        r@ == strip_trailing_slashes(base@),
{
    let cs = chars_of(base);
    let mut end = cs.len();
    proof {
        assert(cs@.take(end as int) =~= cs@);
    }
    while end > 0 && cs[end - 1] == '/'
        invariant
            end <= cs@.len(),
            cs@ == base@,
            strip_trailing_slashes(base@) == strip_trailing_slashes(cs@.take(end as int)),
        decreases end,
    {
        proof {
            assert(cs@.take(end as int).drop_last() =~= cs@.take(end - 1));
        }
        end -= 1;
    }
    let r = string_of_range(&cs, 0, end);
    proof {
        assert(cs@.subrange(0, end as int) =~= cs@.take(end as int));
    }
    r
}

/// The resources listing URL under a base.
pub fn resources_url(base: &str) -> (r: String)
    ensures
        r@ == base@ + "/api/v2/resources?includeHttps=1&includeRelay=1"@,
{
    let mut s = owned(base);
    push_str(&mut s, "/api/v2/resources?includeHttps=1&includeRelay=1");
    s
}

/// `r` is named `name`, ASCII case ignored.
pub open spec fn is_named(r: MyPlexResource, name: Seq<char>) -> bool {
    lowered(r.name@) == lowered(name)
}

/// No resource before position `i` is named `name`.
pub open spec fn none_named_before(s: Seq<MyPlexResource>, name: Seq<char>, i: int) -> bool {
    forall|j: int| 0 <= j < i ==> !is_named(#[trigger] s[j], name)
}

/// The first resource named `name` (ASCII case ignored), if any.
pub fn find_resource(resources: Vec<MyPlexResource>, name: &str) -> (r: Option<MyPlexResource>)
    ensures
        match r {
            None => forall|i: int| 0 <= i < resources@.len() ==> !is_named(#[trigger] resources@[i], name@),
            Some(x) => exists|i: int|
                0 <= i < resources@.len() && #[trigger] resources@[i] == x && is_named(x, name@)
                    && none_named_before(resources@, name@, i),
        },
{
    let ghost all = resources@;
    let mut rest = resources;
    let mut i: usize = 0;
    while i < rest.len()
        invariant
            rest@ == all,
            all == resources@,
            i <= all.len(),
            forall|j: int| 0 <= j < i ==> !is_named(#[trigger] all[j], name@),
        decreases all.len() - i,
    {
        if eq_ignore_ascii_case(rest[i].name.as_str(), name) {
            let x = rest.remove(i);
            proof {
                assert(all[i as int] == x);
                assert(is_named(all[i as int], name@));
                assert(none_named_before(all, name@, i as int));

            }
            return Some(x);
        }
        i += 1;
    }
    None
}

} // verus!
