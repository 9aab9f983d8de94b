//! What holds of the sections of a page and of the overview of genres, said of what the parser
//! read.

use vstd::prelude::*;

use crate::seqs::{
    filter_map, law_filter_map_keeps_the_order, law_filter_map_keeps_what_is_given,
    lemma_filter_map_add, lemma_filter_map_source,
};
use crate::text::text;
use crate::youtube::genres::{
    card_of, cover_of, genres_of, home_section_of, is_cover, item_of, section_of, Button, Genre,
    GenreItem, GenreSection, ItemModel, Node, Thumbnail,
};
use crate::youtube::laws::law_cover;
use crate::youtube::tracks::Shelf;

verus! {

/// The cover is the first thumbnail of at least 120 pixels; where none is that wide it is the
/// last, and without thumbnails there is none.
pub proof fn law_cover_is_the_first_wide_one(thumbnails: Seq<Thumbnail>)
    ensures
        cover_of(thumbnails) is None <==> thumbnails.len() == 0,
        forall|i: int|
            0 <= i < thumbnails.len() && (#[trigger] thumbnails[i]).width >= 120 && (forall|j: int|
                0 <= j < i ==> (#[trigger] thumbnails[j]).width < 120) ==> cover_of(thumbnails)
                == Some(thumbnails[i].url@),
        thumbnails.len() > 0 && (forall|j: int|
            0 <= j < thumbnails.len() ==> (#[trigger] thumbnails[j]).width < 120) ==> cover_of(
            thumbnails,
        ) == Some(thumbnails.last().url@),
{
    law_cover(thumbnails);
    if thumbnails.len() > 0 {
        let c = choose|c: int|
            is_cover(thumbnails, c) && cover_of(thumbnails) == Some(thumbnails[c].url@);
        assert forall|i: int|
            0 <= i < thumbnails.len() && (#[trigger] thumbnails[i]).width >= 120 && (forall|j: int|
                0 <= j < i ==> (#[trigger] thumbnails[j]).width < 120) implies cover_of(
            thumbnails,
        ) == Some(thumbnails[i].url@) by {
            if c < i {
                assert(thumbnails[c].width < 120);
            }
            if i < c {
                assert(thumbnails[i].width < 120);
            }
        }
        if forall|j: int| 0 <= j < thumbnails.len() ==> (#[trigger] thumbnails[j]).width < 120 {
            assert(thumbnails[c].width < 120);
        }
    }
}

/// A node gives an item exactly where it reads as a playlist or as an album. A playlist goes
/// before an album; either carries its own source and the cover of its own thumbnails.
pub proof fn law_item<P, A>(node: Node<P, A>)
    ensures
        item_of::<P, A>()(node) is Some <==> node.playlist is Some || node.album is Some,
        node.playlist is Some ==> item_of::<P, A>()(node) == Some(
            ItemModel::<P, A>::Playlist {
                playlist: node.playlist->0.source,
                flags: (false, true),
                cover: cover_of(node.playlist->0.thumbnails@),
            },
        ),
        node.playlist is None && node.album is Some ==> item_of::<P, A>()(node) == Some(
            ItemModel::<P, A>::Album {
                album: node.album->0.source,
                cover: cover_of(node.album->0.thumbnails@),
            },
        ),
{
}

/// The items of a shelf are those of its nodes that read as a playlist or as an album, all of
/// them and in order.
pub proof fn law_items<P, A>(nodes: Seq<Node<P, A>>)
    ensures
        filter_map(nodes, item_of::<P, A>()).len() == nodes.filter(
            |node: Node<P, A>| node.playlist is Some || node.album is Some,
        ).len(),
        forall|k: int|
            0 <= k < filter_map(nodes, item_of::<P, A>()).len() ==> {
                let node = nodes.filter(
                    |node: Node<P, A>| node.playlist is Some || node.album is Some,
                )[k];
                match #[trigger] filter_map(nodes, item_of::<P, A>())[k] {
                    ItemModel::Playlist { playlist, flags, cover } => {
                        &&& node.playlist is Some
                        &&& playlist == node.playlist->0.source
                        &&& flags == (false, true)
                        &&& cover == cover_of(node.playlist->0.thumbnails@)
                    },
                    ItemModel::Album { album, cover } => {
                        &&& node.playlist is None
                        &&& node.album is Some
                        &&& album == node.album->0.source
                        &&& cover == cover_of(node.album->0.thumbnails@)
                    },
                }
            },
{
    let f = item_of::<P, A>();
    law_filter_map_keeps_what_is_given(nodes, f);
    assert((|node: Node<P, A>| f(node) is Some) =~= (|node: Node<P, A>|
        node.playlist is Some || node.album is Some));
}

/// A shelf gives a section exactly where one of its nodes reads as a playlist or as an album,
/// under its own title, or the empty one where it has none, and with the items of its nodes.
pub proof fn law_section<P, A>(shelf: Shelf<Node<P, A>>)
    ensures
        section_of::<P, A>()(shelf) is Some <==> exists|i: int|
            0 <= i < shelf.items@.len() && ((#[trigger] shelf.items@[i]).playlist is Some
                || shelf.items@[i].album is Some),
        section_of::<P, A>()(shelf) is Some ==> {
            let section = section_of::<P, A>()(shelf)->0;
            &&& shelf.title is Some ==> section.title == shelf.title->0@
            &&& shelf.title is None ==> section.title.len() == 0
            &&& section.items == filter_map(shelf.items@, item_of::<P, A>())
        },
{
    let nodes = shelf.items@;
    let f = item_of::<P, A>();
    if exists|i: int|
        0 <= i < nodes.len() && ((#[trigger] nodes[i]).playlist is Some
            || nodes[i].album is Some) {
        let i = choose|i: int|
            0 <= i < nodes.len() && ((#[trigger] nodes[i]).playlist is Some
                || nodes[i].album is Some);
        law_filter_map_keeps_the_order(nodes, f, i);
    }
    if filter_map(nodes, f).len() > 0 {
        lemma_filter_map_source(nodes, f, 0);
        let i = choose|i: int|
            0 <= i < nodes.len() && #[trigger] f(nodes[i]) == Some(filter_map(nodes, f)[0]);
        assert(nodes[i].playlist is Some || nodes[i].album is Some);
    }
}

/// The page of a genre has a section for every shelf on which some node reads as a playlist or
/// as an album, in order, and no other.
pub proof fn law_genre_sections<P, A>(shelves: Seq<Shelf<Node<P, A>>>)
    ensures
        filter_map(shelves, section_of::<P, A>()).len() == shelves.filter(
            |shelf: Shelf<Node<P, A>>|
                exists|i: int|
                    0 <= i < shelf.items@.len() && ((#[trigger] shelf.items@[i]).playlist is Some
                        || shelf.items@[i].album is Some),
        ).len(),
        forall|k: int|
            0 <= k < filter_map(shelves, section_of::<P, A>()).len() ==> {
                let shelf = shelves.filter(
                    |shelf: Shelf<Node<P, A>>|
                        exists|i: int|
                            0 <= i < shelf.items@.len() && ((
                            #[trigger] shelf.items@[i]).playlist is Some
                                || shelf.items@[i].album is Some),
                )[k];
                let section = #[trigger] filter_map(shelves, section_of::<P, A>())[k];
                &&& shelf.title is Some ==> section.title == shelf.title->0@
                &&& shelf.title is None ==> section.title.len() == 0
                &&& section.items == filter_map(shelf.items@, item_of::<P, A>())
            },
{
    let f = section_of::<P, A>();
    law_filter_map_keeps_what_is_given(shelves, f);
    assert forall|shelf: Shelf<Node<P, A>>| #[trigger] f(shelf) is Some <==> exists|i: int|
        0 <= i < shelf.items@.len() && ((#[trigger] shelf.items@[i]).playlist is Some
            || shelf.items@[i].album is Some) by {
        law_section(shelf);
    }
    assert((|shelf: Shelf<Node<P, A>>| f(shelf) is Some) =~= (|shelf: Shelf<Node<P, A>>|
        exists|i: int|
            0 <= i < shelf.items@.len() && ((#[trigger] shelf.items@[i]).playlist is Some
                || shelf.items@[i].album is Some)));
    assert forall|k: int| 0 <= k < filter_map(shelves, f).len() implies {
        let shelf = shelves.filter(|shelf: Shelf<Node<P, A>>| f(shelf) is Some)[k];
        let section = #[trigger] filter_map(shelves, f)[k];
        &&& shelf.title is Some ==> section.title == shelf.title->0@
        &&& shelf.title is None ==> section.title.len() == 0
        &&& section.items == filter_map(shelf.items@, item_of::<P, A>())
    } by {
        law_section(shelves.filter(|shelf: Shelf<Node<P, A>>| f(shelf) is Some)[k]);
    }
}

/// A shelf of a home page gives the section that it gives elsewhere, but none where it is titled
/// "Listen again" or "Quick picks".
pub proof fn law_home_section<P, A>(shelf: Shelf<Node<P, A>>)
    ensures
        shelf.title is Some && (shelf.title->0@ == "Listen again"@ || shelf.title->0@
            == "Quick picks"@) ==> home_section_of::<P, A>()(shelf) is None,
        !(shelf.title is Some && (shelf.title->0@ == "Listen again"@ || shelf.title->0@
            == "Quick picks"@)) ==> home_section_of::<P, A>()(shelf) == section_of::<P, A>()(shelf),
{
}

/// A home page has a section for every shelf that is not one of the two shelves of tracks
/// and on which some node reads as a playlist or as an album, in order, and no other.
pub proof fn law_sections_of_home<P, A>(shelves: Seq<Shelf<Node<P, A>>>)
    ensures
        filter_map(shelves, home_section_of::<P, A>()) == filter_map(
            shelves.filter(
                |shelf: Shelf<Node<P, A>>|
                    shelf.title is None || (shelf.title->0@ != "Listen again"@
                        && shelf.title->0@ != "Quick picks"@),
            ),
            section_of::<P, A>(),
        ),
    decreases shelves.len(),
{
    reveal(Seq::filter);
    if shelves.len() > 0 {
        law_sections_of_home(shelves.drop_last());
        law_home_section(shelves.last());
        let kept = shelves.drop_last().filter(
            |shelf: Shelf<Node<P, A>>|
                shelf.title is None || (shelf.title->0@ != "Listen again"@
                    && shelf.title->0@ != "Quick picks"@),
        );
        assert(kept.push(shelves.last()).drop_last() =~= kept);
    }
}

/// A card gives a genre exactly where it has a button with parameters and a text; they are its
/// identity and its name, and it has no cover.
pub proof fn law_card(card: Option<Button>)
    ensures
        card_of()(card) is Some <==> card is Some && card->0.params is Some
            && card->0.text is Some,
        card_of()(card) is Some ==> {
            &&& card_of()(card)->0.id == card->0.params->0@
            &&& card_of()(card)->0.name == card->0.text->0@
            &&& card_of()(card)->0.cover is None
        },
{
}

/// Grids one after the other are their cards one after the other.
proof fn lemma_grids_in_parts(grids: Seq<Vec<Option<Button>>>)
    requires
        grids.len() > 0,
    ensures
        grids.map_values(|grid: Vec<Option<Button>>| grid@).flatten()
            == grids.drop_last().map_values(|grid: Vec<Option<Button>>| grid@).flatten()
            + grids.last()@,
{
    let cards = grids.map_values(|grid: Vec<Option<Button>>| grid@);
    let before = grids.drop_last().map_values(|grid: Vec<Option<Button>>| grid@);
    assert(cards.drop_last() =~= before);
    cards.lemma_flatten_and_flatten_alt_are_equivalent();
    before.lemma_flatten_and_flatten_alt_are_equivalent();
}

/// The overview is what the cards of all grids give.
proof fn lemma_genres_of_cards(grids: Seq<Vec<Option<Button>>>)
    ensures
        genres_of(grids) == filter_map(
            grids.map_values(|grid: Vec<Option<Button>>| grid@).flatten(),
            card_of(),
        ),
    decreases grids.len(),
{
    if grids.len() > 0 {
        lemma_genres_of_cards(grids.drop_last());
        lemma_grids_in_parts(grids);
        lemma_filter_map_add(
            grids.drop_last().map_values(|grid: Vec<Option<Button>>| grid@).flatten(),
            grids.last()@,
            card_of(),
        );
    }
}

/// The overview has as many genres as the grids together have cards with parameters and a text,
/// and they are the genres of those cards in order.
pub proof fn law_genres(grids: Seq<Vec<Option<Button>>>)
    ensures
        genres_of(grids).len() == grids.map_values(
            |grid: Vec<Option<Button>>| grid@,
        ).flatten().filter(
            |card: Option<Button>|
                card is Some && card->0.params is Some && card->0.text is Some,
        ).len(),
        forall|k: int|
            0 <= k < genres_of(grids).len() ==> {
                let card = grids.map_values(|grid: Vec<Option<Button>>| grid@).flatten().filter(
                    |card: Option<Button>|
                        card is Some && card->0.params is Some && card->0.text is Some,
                )[k];
                &&& (#[trigger] genres_of(grids)[k]).id == card->0.params->0@
                &&& genres_of(grids)[k].name == card->0.text->0@
                &&& genres_of(grids)[k].cover is None
            },
{
    let f = card_of();
    let cards = grids.map_values(|grid: Vec<Option<Button>>| grid@).flatten();
    lemma_genres_of_cards(grids);
    law_filter_map_keeps_what_is_given(cards, f);
    assert((|card: Option<Button>| f(card) is Some) =~= (|card: Option<Button>|
        card is Some && card->0.params is Some && card->0.text is Some));
}

/// A card with parameters and a text is in the overview, behind as many genres as there are such
/// cards before it, in the grids before its own and in its own.
pub proof fn law_genre_of_every_card(grids: Seq<Vec<Option<Button>>>, g: int, c: int)
    requires
        0 <= g < grids.len(),
        0 <= c < grids[g]@.len(),
        grids[g]@[c] is Some,
        grids[g]@[c]->0.params is Some,
        grids[g]@[c]->0.text is Some,
    ensures
        ({
            let given = |card: Option<Button>|
                card is Some && card->0.params is Some && card->0.text is Some;
            let before = grids.take(g).map_values(
                |grid: Vec<Option<Button>>| grid@,
            ).flatten().filter(given).len() + grids[g]@.take(c).filter(given).len();
            &&& before < genres_of(grids).len()
            &&& genres_of(grids)[before as int].id == grids[g]@[c]->0.params->0@
            &&& genres_of(grids)[before as int].name == grids[g]@[c]->0.text->0@
            &&& genres_of(grids)[before as int].cover is None
        }),
    decreases grids.len(),
{
    let given = |card: Option<Button>|
        card is Some && card->0.params is Some && card->0.text is Some;
    if g < grids.len() - 1 {
        law_genre_of_every_card(grids.drop_last(), g, c);
        assert(grids.drop_last().take(g) =~= grids.take(g));
    } else {
        let earlier = grids.drop_last();
        assert(grids.take(g) =~= earlier);
        law_genres(earlier);
        law_filter_map_keeps_the_order(grids[g]@, card_of(), c);
        assert((|card: Option<Button>| card_of()(card) is Some) =~= given);
    }
}

/// As values, items, sections and genres have the fields that they have.
pub proof fn law_genre_views<P, A>(item: GenreItem<P, A>, section: GenreSection<P, A>, genre: Genre)
    ensures
        item matches GenreItem::Playlist { playlist, flags, cover } ==> item@ == (
        ItemModel::<P, A>::Playlist { playlist, flags, cover: text(cover) }),
        item matches GenreItem::Album { album, cover } ==> item@ == (ItemModel::<P, A>::Album {
            album,
            cover: text(cover),
        }),
        section@.title == section.title@,
        section@.items.len() == section.items@.len(),
        forall|k: int|
            0 <= k < section.items@.len() ==> section@.items[k] == (#[trigger] section.items@[k])@,
        genre@.id == genre.id@,
        genre@.name == genre.name@,
        genre@.cover is Some <==> genre.cover is Some,
        genre.cover is Some ==> genre@.cover->0 == genre.cover->0@,
{
}

} // verus!
