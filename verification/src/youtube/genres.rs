//! Genres: the cards of the overview, and the sections of playlists and albums on a page.

use serde_json::Value;
use vstd::prelude::*;

use crate::json::{member, members};
use crate::seqs::{filter_map, lemma_filter_map_step};
use crate::text::{or_empty, reads, text, text_or_empty};
use crate::youtube::genre_laws::{law_genres, law_items, law_section};
use crate::youtube::tracks::{Shelf, LISTEN_AGAIN, QUICK_PICKS};

verus! {

/// How wide a cover has to be, in pixels.
pub const THUMB: u32 = 120;

pub struct Thumbnail {
    pub url: String,
    pub width: u32,
}

/// The position of the cover: the first thumbnail that is wide enough, or else the last one.
pub open spec fn is_cover(thumbnails: Seq<Thumbnail>, i: int) -> bool {
    &&& 0 <= i < thumbnails.len()
    &&& forall|j: int| 0 <= j < i ==> (#[trigger] thumbnails[j]).width < THUMB
    &&& thumbnails[i].width >= THUMB || i == thumbnails.len() - 1
}

/// The address of the cover, where there is one.
pub open spec fn cover_of(thumbnails: Seq<Thumbnail>) -> Option<Seq<char>> {
    if thumbnails.len() == 0 {
        None
    } else {
        Some(thumbnails[choose|i: int| is_cover(thumbnails, i)].url@)
    }
}

/// The cover is where the search ends.
proof fn lemma_cover(thumbnails: Seq<Thumbnail>, i: int)
    requires
        is_cover(thumbnails, i),
    ensures
        cover_of(thumbnails) == Some(thumbnails[i].url@),
{
    let c = choose|c: int| is_cover(thumbnails, c);
    assert(c == i) by {
        if c < i {
            assert(thumbnails[c].width < THUMB);
        }
        if i < c {
            assert(thumbnails[i].width < THUMB);
        }
    }
}

/// Picks the cover of a playlist or an album.
pub fn thumb(thumbnails: &Vec<Thumbnail>) -> (cover: Option<String>)
    ensures
        text(cover) == cover_of(thumbnails@),
        forall|i: int| #[trigger]
            is_cover(thumbnails@, i) ==> text(cover) == Some(thumbnails@[i].url@),
        cover is None <==> thumbnails@.len() == 0,
        forall|i: int|
            0 <= i < thumbnails@.len() && (#[trigger] thumbnails@[i]).width >= 120 && (forall|
                j: int,
            |
                0 <= j < i ==> (#[trigger] thumbnails@[j]).width < 120) ==> cover is Some
                && cover->0@ == thumbnails@[i].url@,
        thumbnails@.len() > 0 && (forall|j: int|
            0 <= j < thumbnails@.len() ==> (#[trigger] thumbnails@[j]).width < 120) ==> cover is Some
            && cover->0@ == thumbnails@.last().url@,
{
    if thumbnails.len() == 0 {
        return None;
    }
    let mut i: usize = 0;
    while i < thumbnails.len() - 1 && thumbnails[i].width < THUMB
        invariant
            i < thumbnails@.len(),
            forall|j: int| 0 <= j < i ==> (#[trigger] thumbnails@[j]).width < THUMB,
        decreases thumbnails@.len() - i,
    {
        i = i + 1;
    }
    proof {
        assert(is_cover(thumbnails@, i as int));
        lemma_cover(thumbnails@, i as int);
        assert forall|j: int| is_cover(thumbnails@, j) implies cover_of(thumbnails@) == Some(
            (#[trigger] thumbnails@[j]).url@,
        ) by {
            lemma_cover(thumbnails@, j);
        }
    }
    Some(thumbnails[i].url.clone())
}

/// A playlist or an album that the parser read of a two-row item, with its thumbnails.
pub struct Source<S> {
    pub source: S,
    pub thumbnails: Vec<Thumbnail>,
}

/// What the parser made of one item: a playlist, an album, both or neither.
pub struct Node<P, A> {
    pub playlist: Option<Source<P>>,
    pub album: Option<Source<A>>,
}

/// An item of a section, with its cover.
pub enum GenreItem<P, A> {
    /// `flags` go on with a playlist to where it is shown, and are the same for every playlist
    /// found by browsing.
    Playlist { playlist: P, flags: (bool, bool), cover: Option<String> },
    Album { album: A, cover: Option<String> },
}

/// A `GenreItem` as a value.
pub enum ItemModel<P, A> {
    Playlist { playlist: P, flags: (bool, bool), cover: Option<Seq<char>> },
    Album { album: A, cover: Option<Seq<char>> },
}

impl<P, A> View for GenreItem<P, A> {
    type V = ItemModel<P, A>;

    open spec fn view(&self) -> ItemModel<P, A> {
        match *self {
            GenreItem::Playlist { playlist, flags, cover } => ItemModel::Playlist {
                playlist,
                flags,
                cover: text(cover),
            },
            GenreItem::Album { album, cover } => ItemModel::Album { album, cover: text(cover) },
        }
    }
}

/// The item that a node stands for: a playlist where it reads as one, else an album.
pub open spec fn item_of<P, A>() -> spec_fn(Node<P, A>) -> Option<ItemModel<P, A>> {
    |node: Node<P, A>|
        match node.playlist {
            Some(playlist) => Some(
                ItemModel::Playlist {
                    playlist: playlist.source,
                    flags: (false, true),
                    cover: cover_of(playlist.thumbnails@),
                },
            ),
            None => match node.album {
                Some(album) => Some(
                    ItemModel::Album {
                        album: album.source,
                        cover: cover_of(album.thumbnails@),
                    },
                ),
                None => None,
            },
        }
}

/// Makes an item of a node.
pub fn item<P, A>(node: Node<P, A>) -> (item: Option<GenreItem<P, A>>)
    ensures
        item_of::<P, A>()(node) == (match item {
            Some(item) => Some(item@),
            None => None,
        }),
        item is None <==> node.playlist is None && node.album is None,
        node.playlist is Some ==> (item->0 matches GenreItem::Playlist { playlist, flags, cover }
            && playlist == node.playlist->0.source && flags == (false, true) && text(cover)
            == cover_of(node.playlist->0.thumbnails@)),
        node.playlist is None && node.album is Some ==> (item->0 matches GenreItem::Album {
            album,
            cover,
        } && album == node.album->0.source && text(cover) == cover_of(
            node.album->0.thumbnails@,
        )),
{
    if let Some(playlist) = node.playlist {
        let cover: Option<String> = thumb(&playlist.thumbnails);
        return Some(
            GenreItem::Playlist { playlist: playlist.source, flags: (false, true), cover },
        );
    }
    match node.album {
        Some(album) => {
            let cover: Option<String> = thumb(&album.thumbnails);
            Some(GenreItem::Album { album: album.source, cover })
        },
        None => None,
    }
}

/// A titled row of items.
pub struct GenreSection<P, A> {
    pub title: String,
    pub items: Vec<GenreItem<P, A>>,
}

/// A `GenreSection` as a value.
#[verifier::ext_equal]
pub struct SectionModel<P, A> {
    pub title: Seq<char>,
    pub items: Seq<ItemModel<P, A>>,
}

impl<P, A> View for GenreSection<P, A> {
    type V = SectionModel<P, A>;

    open spec fn view(&self) -> SectionModel<P, A> {
        SectionModel {
            title: self.title@,
            items: self.items@.map_values(|item: GenreItem<P, A>| item@),
        }
    }
}

/// The section of a shelf: none where none of its items reads as a playlist or an album.
pub open spec fn section_of<P, A>() -> spec_fn(Shelf<Node<P, A>>) -> Option<SectionModel<P, A>> {
    |shelf: Shelf<Node<P, A>>|
        {
            let items = filter_map(shelf.items@, item_of::<P, A>());
            if items.len() == 0 {
                None
            } else {
                Some(SectionModel { title: text_or_empty(shelf.title), items })
            }
        }
}

fn items<P, A>(nodes: Vec<Node<P, A>>) -> (items: Vec<GenreItem<P, A>>)
    ensures
        items@.map_values(|item: GenreItem<P, A>| item@) == filter_map(
            nodes@,
            item_of::<P, A>(),
        ),
{
    let ghost all = nodes@;
    let ghost f = item_of::<P, A>();
    let mut items: Vec<GenreItem<P, A>> = Vec::new();
    for node in it: nodes
        invariant
            it.seq() == all,
            f == item_of::<P, A>(),
            items@.map_values(|item: GenreItem<P, A>| item@) == filter_map(
                all.take(it.index()),
                f,
            ),
    {
        let ghost before = items@.map_values(|item: GenreItem<P, A>| item@);
        proof {
            lemma_filter_map_step(all, f, it.index());
        }
        if let Some(item) = item(node) {
            items.push(item);
            assert(items@.map_values(|item: GenreItem<P, A>| item@) =~= before.push(item@));
        }
    }
    assert(all.take(all.len() as int) =~= all);
    items
}

/// Makes a section of a shelf.
pub fn section<P, A>(shelf: Shelf<Node<P, A>>) -> (section: Option<GenreSection<P, A>>)
    ensures
        section_of::<P, A>()(shelf) == (match section {
            Some(section) => Some(section@),
            None => None,
        }),
        section is None <==> (forall|i: int|
            0 <= i < shelf.items@.len() ==> (#[trigger] shelf.items@[i]).playlist is None
                && shelf.items@[i].album is None),
        section is Some && shelf.title is Some ==> section->0.title == shelf.title->0,
        section is Some && shelf.title is None ==> section->0.title@.len() == 0,
        section is Some ==> section->0.items@.len() == shelf.items@.filter(
            |node: Node<P, A>| node.playlist is Some || node.album is Some,
        ).len(),
{
    proof {
        law_items(shelf.items@);
        law_section(shelf);
    }
    let title: String = or_empty(shelf.title);
    let items: Vec<GenreItem<P, A>> = items(shelf.items);
    assert(items@.len() == items@.map_values(|item: GenreItem<P, A>| item@).len());
    if items.is_empty() {
        None
    } else {
        Some(GenreSection { title, items })
    }
}

/// The shelves of tracks, which are shown apart from the sections.
pub open spec fn is_track_shelf(title: Option<Seq<char>>) -> bool {
    title == Some(LISTEN_AGAIN@) || title == Some(QUICK_PICKS@)
}

/// The section of a shelf of a home page: none for the shelves of tracks.
pub open spec fn home_section_of<P, A>() -> spec_fn(Shelf<Node<P, A>>) -> Option<
    SectionModel<P, A>,
> {
    |shelf: Shelf<Node<P, A>>|
        if is_track_shelf(text(shelf.title)) {
            None
        } else {
            section_of::<P, A>()(shelf)
        }
}

/// The section of a shelf, where the shelves of tracks are shown `apart` or are not.
spec fn any_section_of<P, A>(apart: bool) -> spec_fn(Shelf<Node<P, A>>) -> Option<
    SectionModel<P, A>,
> {
    if apart {
        home_section_of::<P, A>()
    } else {
        section_of::<P, A>()
    }
}

/// Makes a section of every shelf that gives one.
fn made_sections<P, A>(shelves: Vec<Shelf<Node<P, A>>>, apart: bool) -> (sections: Vec<
    GenreSection<P, A>,
>)
    ensures
        sections@.map_values(|section: GenreSection<P, A>| section@) == filter_map(
            shelves@,
            any_section_of::<P, A>(apart),
        ),
{
    let ghost all = shelves@;
    let ghost f = any_section_of::<P, A>(apart);
    let mut sections: Vec<GenreSection<P, A>> = Vec::new();
    for shelf in it: shelves
        invariant
            it.seq() == all,
            f == any_section_of::<P, A>(apart),
            sections@.map_values(|section: GenreSection<P, A>| section@) == filter_map(
                all.take(it.index()),
                f,
            ),
    {
        let ghost before = sections@.map_values(|section: GenreSection<P, A>| section@);
        proof {
            lemma_filter_map_step(all, f, it.index());
        }
        let of_tracks: bool = match &shelf.title {
            Some(title) => reads(title, LISTEN_AGAIN) || reads(title, QUICK_PICKS),
            None => false,
        };
        if !apart || !of_tracks {
            if let Some(section) = section(shelf) {
                sections.push(section);
                assert(sections@.map_values(|section: GenreSection<P, A>| section@)
                    =~= before.push(section@));
            }
        }
    }
    assert(all.take(all.len() as int) =~= all);
    sections
}

/// The sections of a home page, without the shelves of tracks.
pub fn sections<P, A>(shelves: Vec<Shelf<Node<P, A>>>) -> (sections: Vec<GenreSection<P, A>>)
    ensures
        sections@.map_values(|section: GenreSection<P, A>| section@) == filter_map(
            shelves@,
            home_section_of::<P, A>(),
        ),
{
    made_sections(shelves, true)
}

/// A genre in full.
pub struct GenreDetail<P, A> {
    pub name: String,
    pub sections: Vec<GenreSection<P, A>>,
}

/// The page of a genre, from its header and its shelves.
pub fn genre<P, A>(name: Option<String>, shelves: Vec<Shelf<Node<P, A>>>) -> (detail: GenreDetail<
    P,
    A,
>)
    ensures
        detail.name@ == text_or_empty(name),
        detail.sections@.map_values(|section: GenreSection<P, A>| section@) == filter_map(
            shelves@,
            section_of::<P, A>(),
        ),
{
    GenreDetail { name: or_empty(name), sections: made_sections(shelves, false) }
}

/// The member of a card that holds its button.
pub const BUTTON: &'static str = "musicNavigationButtonRenderer";

/// The button of a card, where it has one.
pub fn button(item: &Value) -> (button: Option<&Value>)
    ensures
        button is Some <==> members(*item).contains_key(BUTTON@),
        button is Some ==> *button->0 == members(*item)[BUTTON@],
        button is Some <==> members(*item).contains_key("musicNavigationButtonRenderer"@),
        button is Some ==> *button->0 == members(*item)["musicNavigationButtonRenderer"@],
{
    member(item, BUTTON)
}

/// What is read of the button of a genre.
pub struct Button {
    pub params: Option<String>,
    pub text: Option<String>,
}

/// A genre in the overview.
pub struct Genre {
    pub id: String,
    pub name: String,
    pub cover: Option<String>,
}

/// A `Genre` as a value.
pub struct GenreModel {
    pub id: Seq<char>,
    pub name: Seq<char>,
    pub cover: Option<Seq<char>>,
}

impl View for Genre {
    type V = GenreModel;

    open spec fn view(&self) -> GenreModel {
        GenreModel { id: self.id@, name: self.name@, cover: text(self.cover) }
    }
}

/// The genre of a card: none where the card has no button, or the button no target or no text.
pub open spec fn card_of() -> spec_fn(Option<Button>) -> Option<GenreModel> {
    |button: Option<Button>|
        match button {
            Some(Button { params: Some(params), text: Some(text) }) => Some(
                GenreModel { id: params@, name: text@, cover: None },
            ),
            _ => None,
        }
}

/// Makes a genre of the button of a card.
pub fn card(button: Option<Button>) -> (genre: Option<Genre>)
    ensures
        card_of()(button) == (match genre {
            Some(genre) => Some(genre@),
            None => None,
        }),
        genre is Some <==> button is Some && button->0.params is Some && button->0.text is Some,
        genre is Some ==> genre->0.id == button->0.params->0 && genre->0.name == button->0.text->0
            && genre->0.cover is None,
{
    match button {
        Some(Button { params: Some(params), text: Some(text) }) => Some(
            Genre { id: params, name: text, cover: None },
        ),
        _ => None,
    }
}

/// The genres of the cards, grid by grid.
pub open spec fn genres_of(grids: Seq<Vec<Option<Button>>>) -> Seq<GenreModel>
    decreases grids.len(),
{
    if grids.len() == 0 {
        Seq::empty()
    } else {
        genres_of(grids.drop_last()) + filter_map(grids.last()@, card_of())
    }
}

/// The overview of genres, from the grids of the page.
pub fn genres(grids: Vec<Vec<Option<Button>>>) -> (genres: Vec<Genre>)
    ensures
        genres@.map_values(|genre: Genre| genre@) == genres_of(grids@),
        genres@.len() == grids@.map_values(|grid: Vec<Option<Button>>| grid@).flatten().filter(
            |card: Option<Button>|
                card is Some && card->0.params is Some && card->0.text is Some,
        ).len(),
        forall|k: int|
            0 <= k < genres@.len() ==> {
                let card = grids@.map_values(
                    |grid: Vec<Option<Button>>| grid@,
                ).flatten().filter(
                    |card: Option<Button>|
                        card is Some && card->0.params is Some && card->0.text is Some,
                )[k];
                &&& (#[trigger] genres@[k]).id@ == card->0.params->0@
                &&& genres@[k].name@ == card->0.text->0@
                &&& genres@[k].cover is None
            },
{
    let ghost all = grids@;
    let mut genres: Vec<Genre> = Vec::new();
    for grid in it: grids
        invariant
            it.seq() == all,
            genres@.map_values(|genre: Genre| genre@) == genres_of(all.take(it.index())),
    {
        let ghost cards = grid@;
        let ghost f = card_of();
        let ghost start = genres@.map_values(|genre: Genre| genre@);
        let ghost i = it.index();
        assert(cards == all[i]@);
        for button in inner: grid
            invariant
                inner.seq() == cards,
                f == card_of(),
                genres@.map_values(|genre: Genre| genre@) == start + filter_map(
                    cards.take(inner.index()),
                    f,
                ),
        {
            let ghost before = genres@.map_values(|genre: Genre| genre@);
            proof {
                lemma_filter_map_step(cards, f, inner.index());
            }
            if let Some(genre) = card(button) {
                genres.push(genre);
                assert(genres@.map_values(|genre: Genre| genre@) =~= before.push(genre@));
            }
        }
        assert(cards.take(cards.len() as int) =~= cards);
        assert(all.take(i + 1).drop_last() =~= all.take(i));
        assert(all.take(i + 1).last() == all[i]);
    }
    assert(all.take(all.len() as int) =~= all);
    proof {
        law_genres(all);
        assert forall|k: int| 0 <= k < genres@.len() implies genres_of(all)[k] == (
        #[trigger] genres@[k])@ by {
            assert(genres@.map_values(|genre: Genre| genre@)[k] == genres@[k]@);
        }
        assert(genres@.len() == genres_of(all).len());
    }
    genres
}

} // verus!
