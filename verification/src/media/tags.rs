//! Tags attached to library items (genres, people, collections, …) and
//! their flattening from the per-family wire arrays.

use vstd::prelude::*;

use crate::headers::opt_view;

verus! {

broadcast use vstd::string::group_string_axioms;

/// The family a tag belongs to.
#[derive(Debug, Clone, PartialEq, Eq, Hash)]
#[non_exhaustive]
pub enum TagKind {
    /// `<Genre>`.
    Genre,
    /// `<Director>`.
    Director,
    /// `<Writer>`.
    Writer,
    /// `<Country>`.
    Country,
    /// `<Producer>`.
    Producer,
    /// `<Role>` — an actor credit.
    Role,
    /// `<Collection>`.
    Collection,
    /// `<Label>`.
    Label,
    /// `<Mood>`.
    Mood,
    /// `<Style>`.
    Style,
    /// Any other element name, kept verbatim.
    Other(String),
}

/// The canonical element name of a tag family.
pub open spec fn tag_kind_wire(k: TagKind) -> Seq<char> {
    match k {
        TagKind::Genre => "Genre"@,
        TagKind::Director => "Director"@,
        TagKind::Writer => "Writer"@,
        TagKind::Country => "Country"@,
        TagKind::Producer => "Producer"@,
        TagKind::Role => "Role"@,
        TagKind::Collection => "Collection"@,
        TagKind::Label => "Label"@,
        TagKind::Mood => "Mood"@,
        TagKind::Style => "Style"@,
        TagKind::Other(s) => s@,
    }
}

impl TagKind {
    /// The canonical element name.
    pub fn as_wire(&self) -> (r: &str)
        ensures
            r@ == tag_kind_wire(*self),
    {
        match self {
            TagKind::Genre => "Genre",
            TagKind::Director => "Director",
            TagKind::Writer => "Writer",
            TagKind::Country => "Country",
            TagKind::Producer => "Producer",
            TagKind::Role => "Role",
            TagKind::Collection => "Collection",
            TagKind::Label => "Label",
            TagKind::Mood => "Mood",
            TagKind::Style => "Style",
            TagKind::Other(s) => s.as_str(),
        }
    }
}

/// One tag of a library item.
#[derive(Debug, Clone, PartialEq, Eq)]
#[non_exhaustive]
pub struct Tag {
    /// The family.
    pub kind: TagKind,
    /// The tag text (`tag` attribute).
    pub value: String,
    /// Server-side tag id.
    pub id: Option<u64>,
    /// For `Role` tags, the character played.
    pub role: Option<String>,
    /// Image path (people).
    pub thumb: Option<String>,
    /// Filter expression Plex offers for the tag.
    pub filter: Option<String>,
}

/// One tag element as decoded from the wire.
#[derive(Debug, Clone, Default)]
pub struct TagDto {
    /// `id`.
    pub id: Option<u64>,
    /// `tag`.
    pub tag: Option<String>,
    /// `role`.
    pub role: Option<String>,
    /// `thumb`.
    pub thumb: Option<String>,
    /// `filter`.
    pub filter: Option<String>,
}

/// `t` is the tag that `d` describes in family `kind`: an absent `tag`
/// text is the empty string.
pub open spec fn tag_of(t: Tag, d: TagDto, kind: TagKind) -> bool {
    &&& t.kind == kind
    &&& t.value@ == match d.tag {
        Some(s) => s@,
        None => Seq::<char>::empty(),
    }
    &&& t.id == d.id
    &&& opt_view(t.role) == opt_view(d.role)
    &&& opt_view(t.thumb) == opt_view(d.thumb)
    &&& opt_view(t.filter) == opt_view(d.filter)
}

impl TagDto {
    /// The tag this element describes in family `kind`.
    pub fn into_tag(self, kind: TagKind) -> (t: Tag)
        ensures
            tag_of(t, self, kind),
    {
        let value = match self.tag {
            Some(s) => s,
            None => String::new(),
        };
        Tag { kind, value, id: self.id, role: self.role, thumb: self.thumb, filter: self.filter }
    }
}

/// The per-family tag arrays of one metadata element.
#[derive(Debug, Default)]
pub struct TagFamilies {
    /// `<Genre>` elements.
    pub genres: Vec<TagDto>,
    /// `<Director>` elements.
    pub directors: Vec<TagDto>,
    /// `<Writer>` elements.
    pub writers: Vec<TagDto>,
    /// `<Country>` elements.
    pub countries: Vec<TagDto>,
    /// `<Producer>` elements.
    pub producers: Vec<TagDto>,
    /// `<Role>` elements.
    pub roles: Vec<TagDto>,
    /// `<Collection>` elements.
    pub collections: Vec<TagDto>,
    /// `<Label>` elements.
    pub labels: Vec<TagDto>,
    /// `<Mood>` elements.
    pub moods: Vec<TagDto>,
    /// `<Style>` elements.
    pub styles: Vec<TagDto>,
}

/// The elements of one family, each paired with the family's kind.
pub open spec fn family(dtos: Seq<TagDto>, kind: TagKind) -> Seq<(TagDto, TagKind)> {
    dtos.map_values(|d: TagDto| (d, kind))
}

/// Every element of every family, families in the order genres,
/// directors, writers, countries, producers, roles, collections,
/// labels, moods, styles, and each family in document order.
pub open spec fn all_families(f: TagFamilies) -> Seq<(TagDto, TagKind)> {
    family(f.genres@, TagKind::Genre) + family(f.directors@, TagKind::Director) + family(
        f.writers@,
        TagKind::Writer,
    ) + family(f.countries@, TagKind::Country) + family(f.producers@, TagKind::Producer)
        + family(f.roles@, TagKind::Role) + family(f.collections@, TagKind::Collection) + family(
        f.labels@,
        TagKind::Label,
    ) + family(f.moods@, TagKind::Mood) + family(f.styles@, TagKind::Style)
}

/// `out` holds, in order, the tags of the `(element, kind)` pairs `src`.
pub open spec fn tags_of(out: Seq<Tag>, src: Seq<(TagDto, TagKind)>) -> bool {
    &&& out.len() == src.len()
    &&& forall|i: int| 0 <= i < out.len() ==> tag_of(#[trigger] out[i], src[i].0, src[i].1)
}

/// A fresh copy of a named kind.
fn named_kind(k: &TagKind) -> (r: TagKind)
    requires
        !(*k is Other),
    ensures
        r == *k,
{
    match k {
        TagKind::Genre => TagKind::Genre,
        TagKind::Director => TagKind::Director,
        TagKind::Writer => TagKind::Writer,
        TagKind::Country => TagKind::Country,
        TagKind::Producer => TagKind::Producer,
        TagKind::Role => TagKind::Role,
        TagKind::Collection => TagKind::Collection,
        TagKind::Label => TagKind::Label,
        TagKind::Mood => TagKind::Mood,
        TagKind::Style => TagKind::Style,
        TagKind::Other(_) => TagKind::Genre,
    }
}

/// Append the tags of one family to `out`.
fn push_family(out: &mut Vec<Tag>, dtos: Vec<TagDto>, kind: TagKind)
    requires
        !(kind is Other),
    ensures
        final(out)@.len() == old(out)@.len() + dtos@.len(),
        forall|i: int| 0 <= i < old(out)@.len() ==> final(out)@[i] == old(out)@[i],
        forall|j: int|
            0 <= j < dtos@.len() ==> tag_of(
                #[trigger] final(out)@[old(out)@.len() + j],
                dtos@[j],
                kind,
            ),
{
    let ghost start = out@.len();
    let ghost before = out@;
    let ghost ds = dtos@;
    for d in it: dtos.into_iter()
        invariant
            it.seq() == ds,
            !(kind is Other),
            out@.len() == start + it.index(),
            forall|i: int| 0 <= i < start ==> out@[i] == before[i],
            forall|j: int| 0 <= j < it.index() ==> tag_of(#[trigger] out@[start + j], ds[j], kind),
    {
        let t = d.into_tag(named_kind(&kind));
        out.push(t);
    }
}

/// Appending the tags of one family to a list of tags extends the
/// element sequence it describes by that family.
proof fn lemma_extend(
    before: Seq<Tag>,
    after: Seq<Tag>,
    acc: Seq<(TagDto, TagKind)>,
    dtos: Seq<TagDto>,
    kind: TagKind,
)
    requires
        tags_of(before, acc),
        after.len() == before.len() + dtos.len(),
        forall|i: int| 0 <= i < before.len() ==> after[i] == before[i],
        forall|j: int| 0 <= j < dtos.len() ==> tag_of(#[trigger] after[before.len() + j], dtos[j], kind),
    ensures
        tags_of(after, acc + family(dtos, kind)),
{
    let src = acc + family(dtos, kind);
    assert forall|i: int| 0 <= i < after.len() implies tag_of(#[trigger] after[i], src[i].0, src[i].1) by {
        if i < before.len() {
            assert(after[i] == before[i]);
            assert(src[i] == acc[i]);
        } else {
            let j = i - before.len();
            assert(after[before.len() + j] == after[i]);
            assert(src[i] == family(dtos, kind)[j]);
        }
    }
}

/// Flatten the families into one list: families in declaration order
/// (genres, directors, writers, countries, producers, roles,
/// collections, labels, moods, styles), each in document order.
pub fn collect(families: TagFamilies) -> (out: Vec<Tag>)
    ensures
        tags_of(out@, all_families(families)),
{
    let ghost f = families;
    let TagFamilies {
        genres,
        directors,
        writers,
        countries,
        producers,
        roles,
        collections,
        labels,
        moods,
        styles,
    } = families;
    let mut out: Vec<Tag> = Vec::new();
    let ghost mut acc: Seq<(TagDto, TagKind)> = Seq::empty();
    let ghost mut prev = out@;
    push_family(&mut out, genres, TagKind::Genre);
    proof {
        lemma_extend(prev, out@, acc, f.genres@, TagKind::Genre);
        acc = acc + family(f.genres@, TagKind::Genre);
        prev = out@;
    }
    push_family(&mut out, directors, TagKind::Director);
    proof {
        lemma_extend(prev, out@, acc, f.directors@, TagKind::Director);
        acc = acc + family(f.directors@, TagKind::Director);
        prev = out@;
    }
    push_family(&mut out, writers, TagKind::Writer);
    proof {
        lemma_extend(prev, out@, acc, f.writers@, TagKind::Writer);
        acc = acc + family(f.writers@, TagKind::Writer);
        prev = out@;
    }
    push_family(&mut out, countries, TagKind::Country);
    proof {
        lemma_extend(prev, out@, acc, f.countries@, TagKind::Country);
        acc = acc + family(f.countries@, TagKind::Country);
        prev = out@;
    }
    push_family(&mut out, producers, TagKind::Producer);
    proof {
        lemma_extend(prev, out@, acc, f.producers@, TagKind::Producer);
        acc = acc + family(f.producers@, TagKind::Producer);
        prev = out@;
    }
    push_family(&mut out, roles, TagKind::Role);
    proof {
        lemma_extend(prev, out@, acc, f.roles@, TagKind::Role);
        acc = acc + family(f.roles@, TagKind::Role);
        prev = out@;
    }
    push_family(&mut out, collections, TagKind::Collection);
    proof {
        lemma_extend(prev, out@, acc, f.collections@, TagKind::Collection);
        acc = acc + family(f.collections@, TagKind::Collection);
        prev = out@;
    }
    push_family(&mut out, labels, TagKind::Label);
    proof {
        lemma_extend(prev, out@, acc, f.labels@, TagKind::Label);
        acc = acc + family(f.labels@, TagKind::Label);
        prev = out@;
    }
    push_family(&mut out, moods, TagKind::Mood);
    proof {
        lemma_extend(prev, out@, acc, f.moods@, TagKind::Mood);
        acc = acc + family(f.moods@, TagKind::Mood);
        prev = out@;
    }
    push_family(&mut out, styles, TagKind::Style);
    proof {
        lemma_extend(prev, out@, acc, f.styles@, TagKind::Style);
        acc = acc + family(f.styles@, TagKind::Style);
        assert(acc =~= all_families(f));
    }
    out
}

} // verus!
