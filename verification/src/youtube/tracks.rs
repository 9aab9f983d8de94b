//! The tracks of a home page: which of the items that the parser found become tracks, in which
//! order, and under which index.

use vstd::hash_set::StringHashSet;
use vstd::prelude::*;

use crate::seqs::{filter_map, lemma_filter_map_step};
use crate::text::{lowercase, reads, text, to_lowercase};
use crate::youtube::track_laws::law_readable;

verus! {

/// The title of the shelf of tracks played before.
pub const LISTEN_AGAIN: &'static str = "Listen again";

/// The title of the shelf of suggested tracks.
pub const QUICK_PICKS: &'static str = "Quick picks";

/// How many quick picks are shown.
pub const QUICK_PICKS_LIMIT: usize = 15;

/// How many recently played tracks are shown.
pub const LISTEN_AGAIN_LIMIT: usize = 20;

/// A track together with its place in a list.
pub struct Placed<T> {
    pub track: T,
    pub index: u32,
}

/// The index of the track at `k`, counted in 32 bits.
pub open spec fn index_at(k: int) -> int {
    k % 0x1_0000_0000
}

fn index_of(k: usize) -> (index: u32)
    ensures
        index == index_at(k as int),
        index == k as int % 0x1_0000_0000,
{
    let wide: u64 = k as u64;
    let index: u32 = #[verifier::truncate]
    (wide as u32);
    assert(index as u64 == wide % 0x1_0000_0000u64) by (bit_vector)
        requires
            index == wide as u32,
    ;
    index
}

/// The tracks of `placed`, numbered from zero.
pub open spec fn numbered<T>(placed: Seq<Placed<T>>) -> bool {
    forall|k: int| 0 <= k < placed.len() ==> (#[trigger] placed[k]).index == index_at(k)
}

// Mixes: tiles without repeats.

/// What a mix reads of one tile. `track` is what the parser made of it.
pub struct Tile<T> {
    pub video_id: Option<String>,
    pub title: String,
    /// The names of the artists, the main one first.
    pub artists: Vec<String>,
    pub track: T,
}

/// A tile with its signature: tiles that share one are the same song.
pub struct Marked<T> {
    pub playable: bool,
    pub signature: String,
    pub track: T,
}

/// Whether a tile can be played, and its signature.
pub struct Mark {
    pub playable: bool,
    pub signature: Seq<char>,
}

impl<T> Marked<T> {
    pub open spec fn mark(self) -> Mark {
        Mark { playable: self.playable, signature: self.signature@ }
    }
}

/// The signature of a title and an artist that are in lower case already.
pub open spec fn joined_text(title: Seq<char>, artist: Seq<char>) -> Seq<char> {
    title + "|"@ + artist
}

/// The signature of a track: title and main artist in lower case, with nothing for the artist
/// where there is none.
pub open spec fn signature_text(title: Seq<char>, artists: Seq<String>) -> Seq<char> {
    joined_text(
        lowercase(title),
        if artists.len() == 0 {
            Seq::empty()
        } else {
            lowercase(artists[0]@)
        },
    )
}

impl<T> Tile<T> {
    pub open spec fn mark(self) -> Mark {
        Mark {
            playable: self.video_id is Some,
            signature: signature_text(self.title@, self.artists@),
        }
    }
}

/// Joins a title and an artist that are in lower case already.
pub fn joined(title: &str, artist: &str) -> (signature: String)
    ensures
        signature@ == joined_text(title@, artist@),
        signature@ == title@ + seq!['|'] + artist@,
{
    proof {
        reveal_strlit("|");
        assert("|"@ =~= seq!['|']);
    }
    let mut signature: String = title.to_owned();
    signature.append("|");
    signature.append(artist);
    signature
}

/// The signature by which repeats of a song are told.
pub fn signature(title: &str, artists: &Vec<String>) -> (signature: String)
    ensures
        signature@ == signature_text(title@, artists@),
        artists@.len() == 0 ==> signature@ == lowercase(title@) + seq!['|'],
        artists@.len() > 0 ==> signature@ == lowercase(title@) + seq!['|'] + lowercase(
            artists@[0]@,
        ),
{
    let artist: String = if artists.len() == 0 {
        String::new()
    } else {
        to_lowercase(artists[0].as_str())
    };
    let title: String = to_lowercase(title);
    joined(title.as_str(), artist.as_str())
}

/// The tile at `i` can be played and no playable tile before it is the same song.
pub open spec fn first_of_its_kind(marks: Seq<Mark>, i: int) -> bool {
    &&& marks[i].playable
    &&& forall|j: int|
        0 <= j < i && (#[trigger] marks[j]).playable ==> marks[j].signature != marks[i].signature
}

/// The positions below `n` of the tiles that are first of their kind, in order.
pub open spec fn firsts(marks: Seq<Mark>, n: int) -> Seq<int>
    decreases n,
{
    if n <= 0 {
        Seq::empty()
    } else if first_of_its_kind(marks, n - 1) {
        firsts(marks, n - 1).push(n - 1)
    } else {
        firsts(marks, n - 1)
    }
}

/// The positions of the tiles that a mix keeps: the first `limit` that are first of their kind.
pub open spec fn kept(marks: Seq<Mark>, limit: int) -> Seq<int> {
    let all = firsts(marks, marks.len() as int);
    if all.len() <= limit {
        all
    } else {
        all.take(limit)
    }
}

/// `placed` holds the tracks at `positions`, numbered from zero.
pub open spec fn holds<T>(placed: Seq<Placed<T>>, tracks: Seq<T>, positions: Seq<int>) -> bool {
    &&& placed.len() == positions.len()
    &&& numbered(placed)
    &&& forall|k: int|
        0 <= k < placed.len() ==> (#[trigger] placed[k]).track == tracks[positions[k]]
}

/// Drops what cannot be played and what came before, and cuts the rest to `limit`.
pub fn distinct<T>(marked: Vec<Marked<T>>, limit: usize) -> (placed: Vec<Placed<T>>)
    ensures
        holds(
            placed@,
            marked@.map_values(|m: Marked<T>| m.track),
            kept(marked@.map_values(|m: Marked<T>| m.mark()), limit as int),
        ),
{
    let ghost all = marked@;
    let ghost tracks = marked@.map_values(|m: Marked<T>| m.track);
    let ghost marks = marked@.map_values(|m: Marked<T>| m.mark());
    let mut placed: Vec<Placed<T>> = Vec::new();
    let mut seen: StringHashSet = StringHashSet::new();
    for tile in it: marked
        invariant
            it.seq() == all,
            tracks == all.map_values(|m: Marked<T>| m.track),
            marks == all.map_values(|m: Marked<T>| m.mark()),
            holds(
                placed@,
                tracks,
                if firsts(marks, it.index()).len() <= limit {
                    firsts(marks, it.index())
                } else {
                    firsts(marks, it.index()).take(limit as int)
                },
            ),
            forall|s: Seq<char>|
                seen@.contains(s) <==> exists|j: int|
                    0 <= j < it.index() && (#[trigger] marks[j]).playable && marks[j].signature
                        == s,
    {
        let ghost i = it.index();
        assert(marks[i as int] == tile.mark());
        if tile.playable && seen.insert(tile.signature) && placed.len() < limit {
            let index: u32 = index_of(placed.len());
            placed.push(Placed { track: tile.track, index });
        }
    }
    placed
}

/// What was read of a tile, where it could be read.
pub open spec fn as_read<T>() -> spec_fn(Option<Tile<T>>) -> Option<Tile<T>> {
    |tile: Option<Tile<T>>| tile
}

/// The tiles of an answer, without those that the parser could not read.
pub fn readable<T>(found: Vec<Option<Tile<T>>>) -> (tiles: Vec<Tile<T>>)
    ensures
        tiles@ == filter_map(found@, as_read::<T>()),
        tiles@.len() == found@.filter(|tile: Option<Tile<T>>| tile is Some).len(),
        forall|k: int|
            0 <= k < tiles@.len() ==> Some(#[trigger] tiles@[k]) == found@.filter(
                |tile: Option<Tile<T>>| tile is Some,
            )[k],
{
    let ghost all = found@;
    let ghost f = as_read::<T>();
    let mut tiles: Vec<Tile<T>> = Vec::new();
    for tile in it: found
        invariant
            it.seq() == all,
            f == as_read::<T>(),
            tiles@ == filter_map(all.take(it.index()), f),
    {
        proof {
            lemma_filter_map_step(all, f, it.index());
        }
        if let Some(tile) = tile {
            tiles.push(tile);
        }
    }
    assert(all.take(all.len() as int) =~= all);
    proof {
        law_readable(all);
    }
    tiles
}

fn marked<T>(tiles: Vec<Tile<T>>) -> (marked: Vec<Marked<T>>)
    ensures
        marked@.map_values(|m: Marked<T>| m.track) == tiles@.map_values(|t: Tile<T>| t.track),
        marked@.map_values(|m: Marked<T>| m.mark()) == tiles@.map_values(|t: Tile<T>| t.mark()),
{
    let ghost all = tiles@;
    let mut marked: Vec<Marked<T>> = Vec::new();
    for tile in it: tiles
        invariant
            it.seq() == all,
            marked@.len() == it.index(),
            forall|k: int|
                0 <= k < it.index() ==> (#[trigger] marked@[k]).track == all[k].track
                    && marked@[k].mark() == all[k].mark(),
    {
        let signature: String = signature(tile.title.as_str(), &tile.artists);
        marked.push(
            Marked { playable: tile.video_id.is_some(), signature, track: tile.track },
        );
    }
    marked
}

/// The tiles that a mix of at most `limit` tracks keeps, or none where the answer did not come.
pub open spec fn mix_of<T>(
    placed: Seq<Placed<T>>,
    tiles: Option<Vec<Tile<T>>>,
    limit: int,
) -> bool {
    match tiles {
        Some(tiles) => holds(
            placed,
            tiles@.map_values(|t: Tile<T>| t.track),
            kept(tiles@.map_values(|t: Tile<T>| t.mark()), limit),
        ),
        None => placed.len() == 0,
    }
}

/// The tracks of "My Mix", from the tiles of the answer.
pub fn my_mix<T>(tiles: Option<Vec<Tile<T>>>) -> (placed: Vec<Placed<T>>)
    ensures
        mix_of(placed@, tiles, QUICK_PICKS_LIMIT as int),
        mix_of(placed@, tiles, 15),
{
    match tiles {
        Some(tiles) => distinct(marked(tiles), QUICK_PICKS_LIMIT),
        None => Vec::new(),
    }
}

/// The tracks played last, from the tiles of the answer.
pub fn last_played<T>(tiles: Option<Vec<Tile<T>>>) -> (placed: Vec<Placed<T>>)
    ensures
        mix_of(placed@, tiles, LISTEN_AGAIN_LIMIT as int),
        mix_of(placed@, tiles, 20),
{
    match tiles {
        Some(tiles) => distinct(marked(tiles), LISTEN_AGAIN_LIMIT),
        None => Vec::new(),
    }
}

// Shelves: the items of one carousel.

/// The two kinds of track that a two-row item can be.
#[derive(Clone, Copy, Debug, PartialEq, Eq, Structural)]
pub enum TrackKind {
    Song,
    Video,
}

/// What a two-row item says about playing it.
pub struct Endpoint {
    pub video_id: Option<String>,
    pub video_type: Option<String>,
}

/// What is read of a two-row item. `media` is what the parser made of its artists and
/// thumbnails.
pub struct Row<M> {
    pub page_type: Option<String>,
    pub endpoint: Option<Endpoint>,
    pub title: Option<String>,
    pub explicit: bool,
    pub media: M,
}

/// A track made of a two-row item, which says nothing of what is optional here.
pub struct RowTrack<M> {
    pub video_id: String,
    pub title: String,
    pub album: Option<String>,
    /// In seconds.
    pub duration: Option<u32>,
    pub explicit: bool,
    pub available: bool,
    pub kind: TrackKind,
    /// Its place in a playlist.
    pub set_video_id: Option<String>,
    pub liked: Option<bool>,
    pub views: Option<String>,
    pub media: M,
}

/// A `RowTrack` as a value.
pub struct RowModel<M> {
    pub video_id: Seq<char>,
    pub title: Seq<char>,
    pub album: Option<Seq<char>>,
    pub duration: Option<u32>,
    pub explicit: bool,
    pub available: bool,
    pub kind: TrackKind,
    pub set_video_id: Option<Seq<char>>,
    pub liked: Option<bool>,
    pub views: Option<Seq<char>>,
    pub media: M,
}

impl<M> View for RowTrack<M> {
    type V = RowModel<M>;

    open spec fn view(&self) -> RowModel<M> {
        RowModel {
            video_id: self.video_id@,
            title: self.title@,
            album: text(self.album),
            duration: self.duration,
            explicit: self.explicit,
            available: self.available,
            kind: self.kind,
            set_video_id: text(self.set_video_id),
            liked: self.liked,
            views: text(self.views),
            media: self.media,
        }
    }
}

/// The page types of items that are not tracks.
pub open spec fn is_collection(page_type: Option<Seq<char>>) -> bool {
    page_type == Some("MUSIC_PAGE_TYPE_ALBUM"@) || page_type == Some("MUSIC_PAGE_TYPE_PLAYLIST"@)
}

pub open spec fn kind_of(video_type: Option<Seq<char>>) -> TrackKind {
    if video_type == Some("MUSIC_VIDEO_TYPE_ATV"@) {
        TrackKind::Song
    } else {
        TrackKind::Video
    }
}

/// The track that an item stands for: none where it is not a two-row item, leads to an album or
/// a playlist, cannot be played, or has no title.
pub open spec fn row_track<M>(row: Option<Row<M>>) -> Option<RowModel<M>> {
    match row {
        Some(row) => if is_collection(text(row.page_type)) || row.title is None {
            None
        } else {
            match row.endpoint {
                Some(Endpoint { video_id: Some(video_id), video_type }) => Some(
                    RowModel {
                        video_id: video_id@,
                        title: row.title->0@,
                        album: None,
                        duration: None,
                        explicit: row.explicit,
                        available: true,
                        kind: kind_of(text(video_type)),
                        set_video_id: None,
                        liked: None,
                        views: None,
                        media: row.media,
                    },
                ),
                _ => None,
            }
        },
        None => None,
    }
}

/// Makes a track of a two-row item.
pub fn track<M>(row: Option<Row<M>>) -> (made: Option<RowTrack<M>>)
    ensures
        row_track(row) == (match made {
            Some(made) => Some(made@),
            None => None,
        }),
        made is Some <==> {
            &&& row is Some
            &&& row->0.page_type is Some ==> row->0.page_type->0@ != "MUSIC_PAGE_TYPE_ALBUM"@
                && row->0.page_type->0@ != "MUSIC_PAGE_TYPE_PLAYLIST"@
            &&& row->0.endpoint is Some && row->0.endpoint->0.video_id is Some
            &&& row->0.title is Some
        },
        made is Some ==> {
            &&& made->0.video_id == row->0.endpoint->0.video_id->0
            &&& made->0.title == row->0.title->0
            &&& made->0.explicit == row->0.explicit
            &&& made->0.media == row->0.media
            &&& made->0.available
            &&& made->0.kind == TrackKind::Song <==> row->0.endpoint->0.video_type is Some
                && row->0.endpoint->0.video_type->0@ == "MUSIC_VIDEO_TYPE_ATV"@
            &&& made->0.album is None && made->0.duration is None
            &&& made->0.set_video_id is None && made->0.liked is None && made->0.views is None
        },
{
    let row: Row<M> = match row {
        Some(row) => row,
        None => {
            return None;
        },
    };
    if let Some(page_type) = &row.page_type {
        if reads(page_type, "MUSIC_PAGE_TYPE_ALBUM") || reads(
            page_type,
            "MUSIC_PAGE_TYPE_PLAYLIST",
        ) {
            return None;
        }
    }
    let endpoint: Endpoint = match row.endpoint {
        Some(endpoint) => endpoint,
        None => {
            return None;
        },
    };
    let video_id: String = match endpoint.video_id {
        Some(video_id) => video_id,
        None => {
            return None;
        },
    };
    let kind: TrackKind = match &endpoint.video_type {
        Some(video_type) => if reads(video_type, "MUSIC_VIDEO_TYPE_ATV") {
            TrackKind::Song
        } else {
            TrackKind::Video
        },
        None => TrackKind::Video,
    };
    let title: String = match row.title {
        Some(title) => title,
        None => {
            return None;
        },
    };
    Some(
        RowTrack {
            video_id,
            title,
            album: None,
            duration: None,
            explicit: row.explicit,
            available: true,
            kind,
            set_video_id: None,
            liked: None,
            views: None,
            media: row.media,
        },
    )
}

/// What the parser made of one item of a shelf: the track that it read of a list item, and what
/// it read of a two-row item.
pub struct Entry<T, M> {
    pub listed: Option<T>,
    pub row: Option<Row<M>>,
}

/// A shelf: its title, where it has one, and its items.
pub struct Shelf<E> {
    pub title: Option<String>,
    pub items: Vec<E>,
}

/// A track found on a shelf.
pub enum Found<T, M> {
    Listed(T),
    Row(RowTrack<M>),
}

/// A `Found` as a value.
pub enum FoundModel<T, M> {
    Listed(T),
    Row(RowModel<M>),
}

impl<T, M> View for Found<T, M> {
    type V = FoundModel<T, M>;

    open spec fn view(&self) -> FoundModel<T, M> {
        match *self {
            Found::Listed(track) => FoundModel::Listed(track),
            Found::Row(track) => FoundModel::Row(track@),
        }
    }
}

/// The track of an item: the listed one, or else the one made of the two-row item.
pub open spec fn entry_track<T, M>() -> spec_fn(Entry<T, M>) -> Option<FoundModel<T, M>> {
    |entry: Entry<T, M>|
        match entry.listed {
            Some(track) => Some(FoundModel::Listed(track)),
            None => match row_track(entry.row) {
                Some(track) => Some(FoundModel::Row(track)),
                None => None,
            },
        }
}

/// The shelf at `i` is the first with that title.
pub open spec fn first_titled<E>(shelves: Seq<Shelf<E>>, wanted: Seq<char>, i: int) -> bool {
    &&& 0 <= i < shelves.len()
    &&& text(shelves[i].title) == Some(wanted)
    &&& forall|j: int| 0 <= j < i ==> text((#[trigger] shelves[j]).title) != Some(wanted)
}

/// `placed` holds the tracks of the first shelf that is titled `wanted`, in order and numbered
/// from zero; it is empty where there is no such shelf.
pub open spec fn shelf_tracks<T, M>(
    placed: Seq<Placed<Found<T, M>>>,
    shelves: Seq<Shelf<Entry<T, M>>>,
    wanted: Seq<char>,
) -> bool {
    &&& numbered(placed)
    &&& forall|i: int| #[trigger]
        first_titled(shelves, wanted, i) ==> placed.map_values(
            |p: Placed<Found<T, M>>| p.track@,
        ) == filter_map(shelves[i].items@, entry_track::<T, M>())
    &&& (forall|i: int| !first_titled(shelves, wanted, i)) ==> placed.len() == 0
}

/// The tracks of one entry list, in order and numbered from zero.
fn entry_tracks<T, M>(entries: Vec<Entry<T, M>>) -> (placed: Vec<Placed<Found<T, M>>>)
    ensures
        numbered(placed@),
        placed@.map_values(|p: Placed<Found<T, M>>| p.track@) == filter_map(
            entries@,
            entry_track::<T, M>(),
        ),
{
    let ghost all = entries@;
    let ghost f = entry_track::<T, M>();
    let mut placed: Vec<Placed<Found<T, M>>> = Vec::new();
    for entry in it: entries
        invariant
            it.seq() == all,
            f == entry_track::<T, M>(),
            numbered(placed@),
            placed@.map_values(|p: Placed<Found<T, M>>| p.track@) == filter_map(
                all.take(it.index()),
                f,
            ),
    {
        let ghost before = placed@.map_values(|p: Placed<Found<T, M>>| p.track@);
        proof {
            lemma_filter_map_step(all, f, it.index());
        }
        let found: Option<Found<T, M>> = match entry.listed {
            Some(track) => Some(Found::Listed(track)),
            None => match track(entry.row) {
                Some(track) => Some(Found::Row(track)),
                None => None,
            },
        };
        if let Some(track) = found {
            let index: u32 = index_of(placed.len());
            placed.push(Placed { track, index });
            assert(placed@.map_values(|p: Placed<Found<T, M>>| p.track@) =~= before.push(
                track@,
            ));
        }
    }
    assert(all.take(all.len() as int) =~= all);
    placed
}

/// The tracks of the first shelf that is titled `wanted`, or none where there is no such shelf.
pub fn tracks<T, M>(shelves: Vec<Shelf<Entry<T, M>>>, wanted: &str) -> (placed: Vec<
    Placed<Found<T, M>>,
>)
    ensures
        shelf_tracks(placed@, shelves@, wanted@),
{
    let ghost all = shelves@;
    for shelf in it: shelves
        invariant
            it.seq() == all,
            forall|j: int| 0 <= j < it.index() ==> text((#[trigger] all[j]).title) != Some(wanted@),
    {
        let ghost i = it.index();
        let hit: bool = match &shelf.title {
            Some(title) => reads(title, wanted),
            None => false,
        };
        if hit {
            assert(first_titled(all, wanted@, i));
            assert forall|j: int| first_titled(all, wanted@, j) implies j == i by {
                if j < i {
                    assert(text(all[j].title) != Some(wanted@));
                }
                if i < j {
                    assert(text(all[i].title) != Some(wanted@));
                }
            }
            return entry_tracks(shelf.items);
        }
    }
    assert forall|i: int| !first_titled(all, wanted@, i) by {
        if 0 <= i < all.len() {
            assert(text(all[i].title) != Some(wanted@));
        }
    }
    Vec::new()
}

/// The suggested tracks, of a home page or a page after it.
pub fn quick_picks<T, M>(shelves: Vec<Shelf<Entry<T, M>>>) -> (placed: Vec<Placed<Found<T, M>>>)
    ensures
        shelf_tracks(placed@, shelves@, QUICK_PICKS@),
        shelf_tracks(placed@, shelves@, "Quick picks"@),
{
    tracks(shelves, QUICK_PICKS)
}

/// No shelf among those has that title.
pub open spec fn none_titled<E>(shelves: Seq<Shelf<E>>, wanted: Seq<char>) -> bool {
    forall|j: int| 0 <= j < shelves.len() ==> text((#[trigger] shelves[j]).title) != Some(wanted)
}

/// One more shelf changes nothing where a shelf of that title came before.
proof fn lemma_shelf_tracks_kept<T, M>(
    placed: Seq<Placed<Found<T, M>>>,
    shelves: Seq<Shelf<Entry<T, M>>>,
    wanted: Seq<char>,
    n: int,
)
    requires
        0 <= n < shelves.len(),
        shelf_tracks(placed, shelves.take(n), wanted),
        !none_titled(shelves.take(n), wanted) || text(shelves[n].title) != Some(wanted),
    ensures
        shelf_tracks(placed, shelves.take(n + 1), wanted),
        none_titled(shelves.take(n + 1), wanted) <==> none_titled(shelves.take(n), wanted),
{
    let before = shelves.take(n);
    let after = shelves.take(n + 1);
    assert(forall|j: int| 0 <= j < n ==> #[trigger] after[j] == before[j]);
    assert(forall|j: int| 0 <= j < n ==> after[j] == #[trigger] before[j]);
    assert(after[n] == shelves[n]);
    assert forall|i: int| first_titled(after, wanted, i) <==> first_titled(before, wanted, i) by {
        if first_titled(after, wanted, i) && i == n {
            assert(none_titled(before, wanted)) by {
                assert forall|j: int| 0 <= j < before.len() implies text(
                    (#[trigger] before[j]).title,
                ) != Some(wanted) by {
                    assert(text(after[j].title) != Some(wanted));
                }
            }
        }
    }
    if none_titled(after, wanted) {
        assert forall|j: int| 0 <= j < before.len() implies text((#[trigger] before[j]).title)
            != Some(wanted) by {
            assert(text(after[j].title) != Some(wanted));
        }
    }
    if none_titled(before, wanted) {
        assert forall|j: int| 0 <= j < after.len() implies text((#[trigger] after[j]).title)
            != Some(wanted) by {
            if j < n {
                assert(text(before[j].title) != Some(wanted));
            }
        }
    }
}

/// The first shelf of that title gives the tracks.
proof fn lemma_shelf_tracks_found<T, M>(
    placed: Seq<Placed<Found<T, M>>>,
    shelves: Seq<Shelf<Entry<T, M>>>,
    wanted: Seq<char>,
    n: int,
)
    requires
        0 <= n < shelves.len(),
        none_titled(shelves.take(n), wanted),
        text(shelves[n].title) == Some(wanted),
        numbered(placed),
        placed.map_values(|p: Placed<Found<T, M>>| p.track@) == filter_map(
            shelves[n].items@,
            entry_track::<T, M>(),
        ),
    ensures
        shelf_tracks(placed, shelves.take(n + 1), wanted),
        !none_titled(shelves.take(n + 1), wanted),
{
    let before = shelves.take(n);
    let after = shelves.take(n + 1);
    assert(after[n] == shelves[n]);
    assert forall|j: int| 0 <= j < n implies text((#[trigger] after[j]).title) != Some(wanted) by {
        assert(text(before[j].title) != Some(wanted));
    }
    assert(first_titled(after, wanted, n));
}

/// The tracks of a home page: those played before, and the suggested ones.
pub fn home_tracks<T, M>(shelves: Vec<Shelf<Entry<T, M>>>) -> (found: (
    Vec<Placed<Found<T, M>>>,
    Vec<Placed<Found<T, M>>>,
))
    ensures
        shelf_tracks(found.0@, shelves@, LISTEN_AGAIN@),
        shelf_tracks(found.1@, shelves@, QUICK_PICKS@),
        shelf_tracks(found.0@, shelves@, "Listen again"@),
        shelf_tracks(found.1@, shelves@, "Quick picks"@),
{
    let ghost all = shelves@;
    let mut again: Option<Vec<Placed<Found<T, M>>>> = None;
    let mut picks: Option<Vec<Placed<Found<T, M>>>> = None;
    proof {
        reveal_strlit("Listen again");
        reveal_strlit("Quick picks");
        assert(LISTEN_AGAIN@.len() != QUICK_PICKS@.len());
        assert(all.take(0) =~= Seq::empty());
    }
    for shelf in it: shelves
        invariant
            it.seq() == all,
            LISTEN_AGAIN@ != QUICK_PICKS@,
            again is None <==> none_titled(all.take(it.index()), LISTEN_AGAIN@),
            picks is None <==> none_titled(all.take(it.index()), QUICK_PICKS@),
            again is Some ==> shelf_tracks(again->0@, all.take(it.index()), LISTEN_AGAIN@),
            picks is Some ==> shelf_tracks(picks->0@, all.take(it.index()), QUICK_PICKS@),
    {
        let ghost n = it.index();
        let ghost none = Seq::<Placed<Found<T, M>>>::empty();
        let of_again: bool = match &shelf.title {
            Some(title) => again.is_none() && reads(title, LISTEN_AGAIN),
            None => false,
        };
        let of_picks: bool = match &shelf.title {
            Some(title) => picks.is_none() && reads(title, QUICK_PICKS),
            None => false,
        };
        proof {
            if again is None {
                lemma_no_shelf(all.take(n), LISTEN_AGAIN@, none);
            }
            if picks is None {
                lemma_no_shelf(all.take(n), QUICK_PICKS@, none);
            }
            if !of_again {
                let placed = if again is Some {
                    again->0@
                } else {
                    none
                };
                lemma_shelf_tracks_kept(placed, all, LISTEN_AGAIN@, n);
            }
            if !of_picks {
                let placed = if picks is Some {
                    picks->0@
                } else {
                    none
                };
                lemma_shelf_tracks_kept(placed, all, QUICK_PICKS@, n);
            }
        }
        if of_again {
            let placed: Vec<Placed<Found<T, M>>> = entry_tracks(shelf.items);
            proof {
                lemma_shelf_tracks_found(placed@, all, LISTEN_AGAIN@, n);
            }
            again = Some(placed);
        } else if of_picks {
            let placed: Vec<Placed<Found<T, M>>> = entry_tracks(shelf.items);
            proof {
                lemma_shelf_tracks_found(placed@, all, QUICK_PICKS@, n);
            }
            picks = Some(placed);
        }
    }
    assert(all.take(all.len() as int) =~= all);
    proof {
        let none = Seq::<Placed<Found<T, M>>>::empty();
        if again is None {
            lemma_no_shelf(all, LISTEN_AGAIN@, none);
        }
        if picks is None {
            lemma_no_shelf(all, QUICK_PICKS@, none);
        }
    }
    let again: Vec<Placed<Found<T, M>>> = match again {
        Some(again) => again,
        None => Vec::new(),
    };
    let picks: Vec<Placed<Found<T, M>>> = match picks {
        Some(picks) => picks,
        None => Vec::new(),
    };
    (again, picks)
}

/// Without a shelf of that title there are no tracks of it.
proof fn lemma_no_shelf<T, M>(
    shelves: Seq<Shelf<Entry<T, M>>>,
    wanted: Seq<char>,
    placed: Seq<Placed<Found<T, M>>>,
)
    requires
        none_titled(shelves, wanted),
        placed.len() == 0,
    ensures
        shelf_tracks(placed, shelves, wanted),
{
    assert forall|i: int| !first_titled(shelves, wanted, i) by {
        if 0 <= i < shelves.len() {
            assert(text(shelves[i].title) != Some(wanted));
        }
    }
}

} // verus!
