//! Data of the fetch run: the entries of a list response and the flattened
//! records built from them.
use vstd::prelude::*;

verus! {

/// One entry of the list endpoint's `results` array.
#[derive(Clone, Debug)]
pub struct ListEntry {
    pub name: String,
    pub url: String,
}

/// Mathematical view of a [`ListEntry`].
pub struct EntryView {
    pub name: Seq<char>,
    pub url: Seq<char>,
}

impl View for ListEntry {
    type V = EntryView;

    open spec fn view(&self) -> EntryView {
        EntryView { name: self.name@, url: self.url@ }
    }
}

/// A list entry flattened together with the sprite URL of its detail record.
/// `id` is the 1-based position of the entry in the list.
#[derive(Clone, Debug)]
pub struct FlatRecord {
    pub id: usize,
    pub name: String,
    pub url: String,
    pub sprite: String,
}

/// Mathematical view of a [`FlatRecord`].
pub struct FlatView {
    pub id: nat,
    pub name: Seq<char>,
    pub url: Seq<char>,
    pub sprite: Seq<char>,
}

impl View for FlatRecord {
    type V = FlatView;

    open spec fn view(&self) -> FlatView {
        FlatView { id: self.id as nat, name: self.name@, url: self.url@, sprite: self.sprite@ }
    }
}

/// The sprite text kept for a detail response: the `sprites.front_default`
/// string when there was one, the empty string otherwise.
pub open spec fn sprite_text(front_default: Option<Seq<char>>) -> Seq<char> {
    match front_default {
        Some(s) => s,
        None => Seq::empty(),
    }
}

/// View of an optional string.
pub open spec fn opt_view(o: Option<String>) -> Option<Seq<char>> {
    match o {
        Some(s) => Some(s@),
        None => None,
    }
}

/// The records assembled from list entries and, position by position, the
/// sprite field found in each entry's detail response.
pub open spec fn flatten(entries: Seq<EntryView>, sprites: Seq<Option<Seq<char>>>) -> Seq<FlatView>
    recommends
        sprites.len() <= entries.len(),
{
    Seq::new(
        sprites.len(),
        |i: int|
            FlatView {
                id: (i + 1) as nat,
                name: entries[i].name,
                url: entries[i].url,
                sprite: sprite_text(sprites[i]),
            },
    )
}

/// Views of a sequence of records.
pub open spec fn flat_views(rs: Seq<FlatRecord>) -> Seq<FlatView> {
    rs.map_values(|r: FlatRecord| r@)
}

/// Views of a sequence of list entries.
pub open spec fn entry_views(es: Seq<ListEntry>) -> Seq<EntryView> {
    es.map_values(|e: ListEntry| e@)
}

/// Keeps the sprite string of a detail response, or the empty string where the
/// response had none.
pub fn sprite_or_empty(front_default: Option<String>) -> (r: String)
    ensures
        r@ == sprite_text(opt_view(front_default)),
{
    match front_default {
        Some(s) => s,
        None => String::new(),
    }
}

/// Builds the record for the entry at 0-based position `index`.
pub fn flat_record(index: usize, entry: &ListEntry, front_default: Option<String>) -> (r: FlatRecord)
    requires
        index < usize::MAX,
    ensures
        r@ == (FlatView {
            id: (index + 1) as nat,
            name: entry.name@,
            url: entry.url@,
            sprite: sprite_text(opt_view(front_default)),
        }),
{
    FlatRecord {
        id: index + 1,
        name: entry.name.clone(),
        url: entry.url.clone(),
        sprite: sprite_or_empty(front_default),
    }
}

/// Law: a run over `n` entries whose detail calls all answered yields exactly
/// `n` records, numbered 1 to `n` in list order, each carrying its entry's name
/// and URL; a detail response without a sprite gives the empty sprite.
pub proof fn lemma_flatten_numbering(entries: Seq<EntryView>, sprites: Seq<Option<Seq<char>>>)
    requires
        sprites.len() == entries.len(),
    ensures
        flatten(entries, sprites).len() == entries.len(),
        forall|i: int|
            0 <= i < entries.len() ==> {
                &&& #[trigger] flatten(entries, sprites)[i].id == i + 1
                &&& flatten(entries, sprites)[i].name == entries[i].name
                &&& flatten(entries, sprites)[i].url == entries[i].url
                &&& (sprites[i] is None ==> flatten(entries, sprites)[i].sprite == Seq::<char>::empty())
            },
{
}

} // verus!
