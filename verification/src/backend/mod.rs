//! The catalog of playable sources and the rules that change it.
use vstd::prelude::*;

pub mod file_backend;

pub use file_backend::{CatalogRead, FileAction, FileBackend};

verus! {

/// What kind of stream a source is.
#[derive(Clone, Copy, Debug, PartialEq, Eq, Structural)]
pub enum MediaType {
    Radio,
    YouTube,
}

/// One playable source.  `name` is its key in the catalog.
#[derive(Clone, Debug, PartialEq, Eq)]
pub struct MediaSource {
    pub link: String,
    pub name: String,
    pub media_type: MediaType,
    /// Derived when the catalog is listed: whether the player was last told
    /// to play this source's link.  It is never stored, and what a source
    /// comes with is not looked at.
    pub currently_playing: Option<bool>,
    pub default_source: bool,
}

/// A [`MediaSource`] as contracts see it: its texts as sequences of
/// characters.
pub struct MediaSourceView {
    pub link: Seq<char>,
    pub name: Seq<char>,
    pub media_type: MediaType,
    pub currently_playing: Option<bool>,
    pub default_source: bool,
}

impl View for MediaSource {
    type V = MediaSourceView;

    open spec fn view(&self) -> MediaSourceView {
        MediaSourceView {
            link: self.link@,
            name: self.name@,
            media_type: self.media_type,
            currently_playing: self.currently_playing,
            default_source: self.default_source,
        }
    }
}

/// A catalog as contracts see it: the views of its entries, in order.
pub open spec fn views(sources: Seq<MediaSource>) -> Seq<MediaSourceView> {
    Seq::new(sources.len(), |i: int| sources[i]@)
}

/// The least index whose entry satisfies `p`, or the length of `c` if none
/// does.
pub open spec fn first_index(c: Seq<MediaSourceView>, p: spec_fn(MediaSourceView) -> bool) -> int
    decreases c.len(),
{
    if c.len() == 0 || p(c[0]) {
        0
    } else {
        1 + first_index(c.skip(1), p)
    }
}

/// Where the entry named `name` stands in `c`: the least such index, or the
/// length of `c` if no entry has that name.
pub open spec fn position(c: Seq<MediaSourceView>, name: Seq<char>) -> int {
    first_index(c, |v: MediaSourceView| v.name == name)
}

/// Where the first entry flagged as default stands in `c`, or the length of
/// `c` if none is flagged.
pub open spec fn first_default(c: Seq<MediaSourceView>) -> int {
    first_index(c, |v: MediaSourceView| v.default_source)
}

/// Whether some entry is named `name`.
pub open spec fn has_name(c: Seq<MediaSourceView>, name: Seq<char>) -> bool {
    exists|i: int| 0 <= i < c.len() && (#[trigger] c[i]).name == name
}

/// No two entries share a name.
pub open spec fn unique_names(c: Seq<MediaSourceView>) -> bool {
    forall|i: int, j: int|
        0 <= i < j < c.len() ==> (#[trigger] c[i]).name != (#[trigger] c[j]).name
}

/// The catalog as it is listed while `current` is the link last played:
/// an entry is marked as playing if its link is that link, and no other
/// entry is marked.  With no link on record no entry is marked.  Whatever
/// marks the entries came with are not looked at.
pub open spec fn marked(c: Seq<MediaSourceView>, current: Option<Seq<char>>) -> Seq<
    MediaSourceView,
> {
    Seq::new(
        c.len(),
        |i: int|
            MediaSourceView {
                currently_playing: if current == Some(c[i].link) {
                    Some(true)
                } else {
                    None
                },
                ..c[i]
            },
    )
}

/// The catalog as it is stored: no entry is marked as playing, for which
/// entry plays is no part of the catalog.
pub open spec fn stored(c: Seq<MediaSourceView>) -> Seq<MediaSourceView> {
    marked(c, None)
}

/// The catalog after `s` was added, as it is stored: `s` takes the place of
/// the first entry with its name, or the end of the catalog if there is
/// none.
pub open spec fn upserted(c: Seq<MediaSourceView>, s: MediaSourceView) -> Seq<MediaSourceView> {
    let i = position(c, s.name);
    stored(
        if i < c.len() {
            c.update(i, s)
        } else {
            c.push(s)
        },
    )
}

/// The catalog after each of `adds` was added in turn.
pub open spec fn upserted_all(c: Seq<MediaSourceView>, adds: Seq<MediaSourceView>) -> Seq<
    MediaSourceView,
>
    decreases adds.len(),
{
    if adds.len() == 0 {
        c
    } else {
        upserted(upserted_all(c, adds.drop_last()), adds.last())
    }
}

/// `first_index` is the one index below which nothing satisfies `p` and
/// which is either the length or an index of an entry that does.
pub proof fn lemma_first_index_is(
    c: Seq<MediaSourceView>,
    p: spec_fn(MediaSourceView) -> bool,
    i: int,
)
    requires
        0 <= i <= c.len(),
        forall|j: int| 0 <= j < i ==> !p(#[trigger] c[j]),
        i < c.len() ==> p(c[i]),
    ensures
        first_index(c, p) == i,
    decreases c.len(),
{
    if c.len() > 0 && !p(c[0]) {
        lemma_first_index_is(c.skip(1), p, i - 1);
    }
}

/// `first_index` lies within the catalog or at its end, nothing below it
/// satisfies `p`, and the entry at it does where there is one.
pub proof fn lemma_first_index_bounds(
    c: Seq<MediaSourceView>,
    p: spec_fn(MediaSourceView) -> bool,
)
    ensures
        0 <= first_index(c, p) <= c.len(),
        forall|j: int| 0 <= j < first_index(c, p) ==> !p(#[trigger] c[j]),
        first_index(c, p) < c.len() ==> p(c[first_index(c, p)]),
    decreases c.len(),
{
    if c.len() > 0 && !p(c[0]) {
        let rest = c.skip(1);
        lemma_first_index_bounds(rest, p);
        assert forall|j: int| 0 <= j < first_index(c, p) implies !p(#[trigger] c[j]) by {
            if j > 0 {
                assert(c[j] == rest[j - 1]);
            }
        }
    }
}

/// Where the entry named `name` stands in the catalog: its index, or the
/// length of the catalog if no entry has that name.
pub fn position_of(sources: &Vec<MediaSource>, name: &String) -> (i: usize)
    ensures
        i == position(views(sources@), name@),
{
    let ghost c = views(sources@);
    let ghost p = |v: MediaSourceView| v.name == name@;
    let mut i: usize = 0;
    while i < sources.len()
        invariant
            i <= sources.len(),
            c == views(sources@),
            p == (|v: MediaSourceView| v.name == name@),
            forall|j: int| 0 <= j < i ==> !p(#[trigger] c[j]),
        decreases sources.len() - i,
    {
        if sources[i].name == *name {
            proof {
                lemma_first_index_is(c, p, i as int);
            }
            return i;
        }
        i += 1;
    }
    proof {
        lemma_first_index_is(c, p, i as int);
    }
    i
}

/// The first entry flagged as default, if any.
pub fn find_default(sources: &Vec<MediaSource>) -> (r: Option<&MediaSource>)
    ensures
        match r {
            Some(source) => {
                let i = first_default(views(sources@));
                0 <= i < sources.len() && *source == sources[i]
            },
            None => first_default(views(sources@)) == sources.len(),
        },
{
    let ghost c = views(sources@);
    let ghost p = |v: MediaSourceView| v.default_source;
    let mut i: usize = 0;
    while i < sources.len()
        invariant
            i <= sources.len(),
            c == views(sources@),
            p == (|v: MediaSourceView| v.default_source),
            forall|j: int| 0 <= j < i ==> !p(#[trigger] c[j]),
        decreases sources.len() - i,
    {
        if sources[i].default_source {
            proof {
                lemma_first_index_is(c, p, i as int);
            }
            return Some(&sources[i]);
        }
        i += 1;
    }
    proof {
        lemma_first_index_is(c, p, i as int);
    }
    None
}

/// Marks the entries for listing: exactly the entries whose link is the
/// one on record are marked as playing; with none on record, none is.
pub fn mark_currently_playing(sources: &mut Vec<MediaSource>, current: &Option<String>)
    ensures
        views(final(sources)@) == marked(
            views(old(sources)@),
            match current {
                Some(link) => Some(link@),
                None => None,
            },
        ),
{
    let ghost before = views(sources@);
    let ghost link = match current {
        Some(link) => Some(link@),
        None => None,
    };
    let mut i: usize = 0;
    while i < sources.len()
        invariant
            i <= sources.len(),
            sources.len() == before.len(),
            link == match current {
                Some(link) => Some(link@),
                None => None::<Seq<char>>,
            },
            forall|j: int| 0 <= j < i ==> (#[trigger] sources@[j])@ == marked(before, link)[j],
            forall|j: int| i <= j < sources.len() ==> (#[trigger] sources@[j])@ == before[j],
        decreases sources.len() - i,
    {
        let playing = match current {
            Some(link) => sources[i].link == *link,
            None => false,
        };
        if playing {
            sources[i].currently_playing = Some(true);
        } else {
            sources[i].currently_playing = None;
        }
        i += 1;
    }
}

/// Adding keeps names unique.
pub proof fn lemma_upsert_keeps_names_unique(c: Seq<MediaSourceView>, s: MediaSourceView)
    requires
        unique_names(c),
    ensures
        unique_names(upserted(c, s)),
{
    lemma_first_index_bounds(c, |v: MediaSourceView| v.name == s.name);
}

/// While sources are added to a catalog in which no two entries share a
/// name, however many and in whatever order, no two entries share one.
pub proof fn lemma_names_stay_unique(c: Seq<MediaSourceView>, adds: Seq<MediaSourceView>)
    requires
        unique_names(c),
    ensures
        unique_names(upserted_all(c, adds)),
    decreases adds.len(),
{
    if adds.len() > 0 {
        lemma_names_stay_unique(c, adds.drop_last());
        lemma_upsert_keeps_names_unique(upserted_all(c, adds.drop_last()), adds.last());
    }
}

/// However many sources are added to an empty catalog, and in whatever
/// order, no two entries of the result share a name.
pub proof fn lemma_names_are_unique(adds: Seq<MediaSourceView>)
    ensures
        unique_names(upserted_all(Seq::empty(), adds)),
{
    lemma_names_stay_unique(Seq::empty(), adds);
}

/// Adding a source whose name the catalog already has replaces that entry
/// where it stands: the length stays, and so does every other entry but for
/// its mark.  Adding one whose name is new appends it.
pub proof fn lemma_upsert_in_place(c: Seq<MediaSourceView>, s: MediaSourceView)
    ensures
        has_name(c, s.name) ==> {
            let i = position(c, s.name);
            &&& 0 <= i < c.len()
            &&& c[i].name == s.name
            &&& upserted(c, s).len() == c.len()
            &&& upserted(c, s) == stored(c.update(i, s))
        },
        !has_name(c, s.name) ==> upserted(c, s) == stored(c.push(s)),
{
    lemma_first_index_bounds(c, |v: MediaSourceView| v.name == s.name);
}

/// No entry of a catalog to which a source was added is marked as playing,
/// whatever marks the source and the entries came with.
pub proof fn lemma_upsert_stores_no_mark(c: Seq<MediaSourceView>, s: MediaSourceView)
    ensures
        forall|i: int|
            0 <= i < upserted(c, s).len() ==> (#[trigger] upserted(c, s)[i]).currently_playing
                is None,
        stored(upserted(c, s)) == upserted(c, s),
{
}

/// A source that was added is listed, field for field but for the mark,
/// which is never stored, whatever the catalog held before.
pub proof fn lemma_added_source_is_listed(c: Seq<MediaSourceView>, s: MediaSourceView)
    ensures
        upserted(c, s).contains(MediaSourceView { currently_playing: None, ..s }),
        s.currently_playing is None ==> upserted(c, s).contains(s),
        has_name(upserted(c, s), s.name),
{
    lemma_first_index_bounds(c, |v: MediaSourceView| v.name == s.name);
    let i = position(c, s.name);
    assert(upserted(c, s)[i] == MediaSourceView { currently_playing: None, ..s });
}

/// A listed source that is not marked as playing stays listed, field for
/// field, while sources of other names are added, in whatever order.
pub proof fn lemma_added_source_stays(
    c: Seq<MediaSourceView>,
    s: MediaSourceView,
    later: Seq<MediaSourceView>,
)
    requires
        c.contains(s),
        s.currently_playing is None,
        forall|k: int| 0 <= k < later.len() ==> (#[trigger] later[k]).name != s.name,
    ensures
        upserted_all(c, later).contains(s),
    decreases later.len(),
{
    if later.len() > 0 {
        lemma_added_source_stays(c, s, later.drop_last());
        let before = upserted_all(c, later.drop_last());
        let t = later.last();
        let k = choose|k: int| 0 <= k < before.len() && before[k] == s;
        lemma_first_index_bounds(before, |v: MediaSourceView| v.name == t.name);
        assert(upserted(before, t)[k] == s);
    }
}

} // verus!
