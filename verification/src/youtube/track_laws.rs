//! What holds of the tracks of a page, said of what the parser read.

use vstd::prelude::*;

use crate::seqs::{filter_map, law_filter_map_keeps_what_is_given};
use crate::text::lowercase;
use crate::youtube::laws::{lemma_first_of_song, lemma_firsts};
use crate::youtube::tracks::{
    as_read, entry_track, first_of_its_kind, first_titled, firsts, holds, index_at, kept, mix_of,
    row_track, shelf_tracks, signature_text, Entry, Found, FoundModel, Mark, Marked, Placed, Row,
    RowTrack, Shelf, Tile, TrackKind,
};

verus! {

/// A place is its own index for as long as it fits, and starts over after.
pub proof fn law_index(k: int)
    ensures
        0 <= k < 0x1_0000_0000 ==> index_at(k) == k,
        index_at(k + 0x1_0000_0000) == index_at(k),
        0 <= index_at(k) < 0x1_0000_0000,
{
}

/// The tiles that could be read stay, all of them and in order.
pub proof fn law_readable<T>(found: Seq<Option<Tile<T>>>)
    ensures
        filter_map(found, as_read::<T>()).len() == found.filter(
            |tile: Option<Tile<T>>| tile is Some,
        ).len(),
        forall|k: int|
            0 <= k < filter_map(found, as_read::<T>()).len() ==> Some(
                #[trigger] filter_map(found, as_read::<T>())[k],
            ) == found.filter(|tile: Option<Tile<T>>| tile is Some)[k],
{
    let f = as_read::<T>();
    law_filter_map_keeps_what_is_given(found, f);
    assert((|tile: Option<Tile<T>>| f(tile) is Some) =~= (|tile: Option<Tile<T>>| tile is Some));
}

/// A two-row item gives a track exactly where it leads to no album and no playlist, has an
/// endpoint with a video, and has a title, whatever else it says. The track has the video, the
/// title, the mark for explicit content and the media of the item, is a song exactly where the
/// endpoint says so, and leaves open what an item does not say.
pub proof fn law_row<M>(row: Row<M>)
    ensures
        row_track(None::<Row<M>>) is None,
        row_track(Some(row)) is Some <==> {
            &&& !(row.page_type is Some && row.page_type->0@ == "MUSIC_PAGE_TYPE_ALBUM"@)
            &&& !(row.page_type is Some && row.page_type->0@ == "MUSIC_PAGE_TYPE_PLAYLIST"@)
            &&& row.endpoint is Some
            &&& row.endpoint->0.video_id is Some
            &&& row.title is Some
        },
        row_track(Some(row)) is Some ==> {
            let track = row_track(Some(row))->0;
            &&& track.video_id == row.endpoint->0.video_id->0@
            &&& track.title == row.title->0@
            &&& track.explicit == row.explicit
            &&& track.media == row.media
            &&& track.available
            &&& track.kind == TrackKind::Song <==> (row.endpoint->0.video_type is Some
                && row.endpoint->0.video_type->0@ == "MUSIC_VIDEO_TYPE_ATV"@)
            &&& track.album is None
            &&& track.duration is None
            &&& track.set_video_id is None
            &&& track.liked is None
            &&& track.views is None
        },
{
}

/// An item gives the listed track where it has one, and else the track of its two-row item.
pub proof fn law_entry<T, M>(entry: Entry<T, M>)
    ensures
        entry.listed is Some ==> entry_track::<T, M>()(entry) == Some(
            FoundModel::<T, M>::Listed(entry.listed->0),
        ),
        entry.listed is None ==> (entry_track::<T, M>()(entry) is Some <==> row_track(
            entry.row,
        ) is Some),
        entry.listed is None && row_track(entry.row) is Some ==> entry_track::<T, M>()(entry)
            == Some(FoundModel::<T, M>::Row(row_track(entry.row)->0)),
{
}

/// The tracks of a title are those of the first shelf under it, every one and in order, each
/// numbered by its place, in 32 bits; the shelves after it do not matter.
pub proof fn law_tracks_of_the_first_shelf<T, M>(
    placed: Seq<Placed<Found<T, M>>>,
    shelves: Seq<Shelf<Entry<T, M>>>,
    wanted: Seq<char>,
    i: int,
)
    requires
        shelf_tracks(placed, shelves, wanted),
        0 <= i < shelves.len(),
        shelves[i].title is Some,
        shelves[i].title->0@ == wanted,
        forall|j: int|
            0 <= j < i ==> ((#[trigger] shelves[j]).title is Some ==> shelves[j].title->0@
                != wanted),
    ensures
        placed.len() == shelves[i].items@.filter(
            |entry: Entry<T, M>| entry.listed is Some || row_track(entry.row) is Some,
        ).len(),
        forall|k: int|
            0 <= k < placed.len() ==> {
                let entry = shelves[i].items@.filter(
                    |entry: Entry<T, M>| entry.listed is Some || row_track(entry.row) is Some,
                )[k];
                match (#[trigger] placed[k]).track {
                    Found::Listed(track) => entry.listed == Some(track),
                    Found::Row(track) => entry.listed is None && row_track(entry.row) == Some(
                        track@,
                    ),
                }
            },
        forall|k: int|
            0 <= k < placed.len() ==> (#[trigger] placed[k]).index == k % 0x1_0000_0000,
{
    assert(first_titled(shelves, wanted, i));
    let f = entry_track::<T, M>();
    let entries = shelves[i].items@;
    let found = placed.map_values(|p: Placed<Found<T, M>>| p.track@);
    assert(found == filter_map(entries, f));
    law_filter_map_keeps_what_is_given(entries, f);
    assert((|entry: Entry<T, M>| f(entry) is Some) =~= (|entry: Entry<T, M>|
        entry.listed is Some || row_track(entry.row) is Some));
    assert forall|k: int| 0 <= k < placed.len() implies found[k] == (#[trigger] placed[k]).track@ by {
    }
}

/// There are no tracks of a title that no shelf has.
pub proof fn law_no_tracks_without_a_shelf<T, M>(
    placed: Seq<Placed<Found<T, M>>>,
    shelves: Seq<Shelf<Entry<T, M>>>,
    wanted: Seq<char>,
)
    requires
        shelf_tracks(placed, shelves, wanted),
        forall|j: int|
            0 <= j < shelves.len() ==> ((#[trigger] shelves[j]).title is Some
                ==> shelves[j].title->0@ != wanted),
    ensures
        placed.len() == 0,
{
    assert forall|i: int| !first_titled(shelves, wanted, i) by {
        if 0 <= i < shelves.len() {
            assert(shelves[i].title is Some ==> shelves[i].title->0@ != wanted);
        }
    }
}

/// What a mix keeps, at which positions: `at` rises, what stands there can be played and is the
/// first of its song, and a playable tile that is not kept comes after one of the same song that
/// is, or after everything that is kept where the mix is full.
proof fn lemma_kept_positions(marks: Seq<Mark>, limit: int) -> (at: Seq<int>)
    requires
        limit >= 0,
    ensures
        at == kept(marks, limit),
        at.len() <= limit,
        forall|a: int|
            0 <= a < at.len() ==> 0 <= #[trigger] at[a] < marks.len() && first_of_its_kind(
                marks,
                at[a],
            ),
        forall|a: int, b: int| 0 <= a < b < at.len() ==> #[trigger] at[a] < #[trigger] at[b],
        forall|i: int|
            0 <= i < marks.len() && (#[trigger] marks[i]).playable ==> (exists|a: int|
                0 <= a < at.len() && #[trigger] at[a] <= i && marks[at[a]].signature
                    == marks[i].signature) || (at.len() == limit && forall|a: int|
                0 <= a < at.len() ==> #[trigger] at[a] < i),
{
    let n = marks.len() as int;
    let all = firsts(marks, n);
    let at = kept(marks, limit);
    lemma_firsts(marks, n);
    assert forall|a: int| 0 <= a < at.len() implies #[trigger] at[a] == all[a] by {}
    assert forall|i: int| 0 <= i < marks.len() && (#[trigger] marks[i]).playable implies (exists|
        a: int,
    |
        0 <= a < at.len() && #[trigger] at[a] <= i && marks[at[a]].signature == marks[i].signature)
        || (at.len() == limit && forall|a: int| 0 <= a < at.len() ==> #[trigger] at[a] < i) by {
        let f = lemma_first_of_song(marks, i);
        assert(all.contains(f));
        let b = choose|b: int| 0 <= b < all.len() && all[b] == f;
        if b < at.len() {
            assert(at[b] == f);
        } else {
            assert forall|a: int| 0 <= a < at.len() implies #[trigger] at[a] < i by {
                assert(all[a] < all[b]);
            }
        }
    }
    at
}

/// A mix is made of tiles of the answer, in the order of the answer and each numbered by its
/// place: of tiles that can be played, of every song the first, as many as fit. A song is told
/// by the title and the main artist, both in lower case. A tile that can be played is missing
/// only where the same song came before it, or where the mix was full before it.
pub proof fn law_mix_of_tiles<T>(
    placed: Seq<Placed<T>>,
    tiles: Vec<Tile<T>>,
    limit: int,
) -> (at: Seq<int>)
    requires
        limit >= 0,
        mix_of(placed, Some(tiles), limit),
    ensures
        at.len() == placed.len(),
        placed.len() <= limit,
        forall|a: int|
            0 <= a < at.len() ==> {
                &&& 0 <= #[trigger] at[a] < tiles@.len()
                &&& tiles@[at[a]].video_id is Some
                &&& placed[a].track == tiles@[at[a]].track
                &&& placed[a].index == a % 0x1_0000_0000
            },
        forall|a: int, b: int| 0 <= a < b < at.len() ==> #[trigger] at[a] < #[trigger] at[b],
        ({
            let song = |tile: Tile<T>|
                lowercase(tile.title@) + seq!['|'] + if tile.artists@.len() == 0 {
                    Seq::empty()
                } else {
                    lowercase(tile.artists@[0]@)
                };
            &&& forall|a: int, j: int|
                0 <= a < at.len() && 0 <= j < at[a] && (#[trigger] tiles@[j]).video_id is Some
                    ==> song(tiles@[j]) != song(tiles@[#[trigger] at[a]])
            &&& forall|i: int|
                0 <= i < tiles@.len() && (#[trigger] tiles@[i]).video_id is Some ==> (exists|a: int|
                    0 <= a < at.len() && #[trigger] at[a] <= i && song(tiles@[at[a]]) == song(
                        tiles@[i],
                    )) || (at.len() == limit && forall|a: int|
                    0 <= a < at.len() ==> #[trigger] at[a] < i)
        }),
{
    let marks = tiles@.map_values(|t: Tile<T>| t.mark());
    let tracks = tiles@.map_values(|t: Tile<T>| t.track);
    let song = |tile: Tile<T>|
        lowercase(tile.title@) + seq!['|'] + if tile.artists@.len() == 0 {
            Seq::empty()
        } else {
            lowercase(tile.artists@[0]@)
        };
    let at = lemma_kept_positions(marks, limit);
    assert forall|i: int| 0 <= i < tiles@.len() implies (#[trigger] tiles@[i]).video_id is Some
        == marks[i].playable && song(tiles@[i]) == marks[i].signature && tracks[i]
        == tiles@[i].track by {
        law_signature(tiles@[i].title@, tiles@[i].artists@);
    }
    assert forall|a: int| 0 <= a < at.len() implies {
        &&& 0 <= #[trigger] at[a] < tiles@.len()
        &&& tiles@[at[a]].video_id is Some
        &&& placed[a].track == tiles@[at[a]].track
        &&& placed[a].index == a % 0x1_0000_0000
    } by {
        assert(first_of_its_kind(marks, at[a]));
        assert(placed[a].track == tracks[at[a]]);
        assert(tiles@[at[a]].video_id is Some);
    }
    assert forall|a: int, j: int|
        0 <= a < at.len() && 0 <= j < at[a] && (#[trigger] tiles@[j]).video_id is Some implies song(
        tiles@[j],
    ) != song(tiles@[#[trigger] at[a]]) by {
        assert(first_of_its_kind(marks, at[a]));
        assert(marks[j].playable);
        assert(tiles@[at[a]].video_id is Some);
    }
    assert forall|i: int| 0 <= i < tiles@.len() && (#[trigger] tiles@[i]).video_id is Some implies (
    exists|a: int|
        0 <= a < at.len() && #[trigger] at[a] <= i && song(tiles@[at[a]]) == song(tiles@[i])) || (
    at.len() == limit && forall|a: int| 0 <= a < at.len() ==> #[trigger] at[a] < i) by {
        assert(marks[i].playable);
        if !(at.len() == limit && forall|a: int| 0 <= a < at.len() ==> #[trigger] at[a] < i) {
            let a = choose|a: int|
                0 <= a < at.len() && #[trigger] at[a] <= i && marks[at[a]].signature
                    == marks[i].signature;
            assert(song(tiles@[at[a]]) == song(tiles@[i]));
        }
    }
    at
}

/// Marked tiles are cut to a mix in the same way: by whether they can be played, and by their
/// signatures.
pub proof fn law_distinct<T>(
    placed: Seq<Placed<T>>,
    marked: Seq<Marked<T>>,
    limit: int,
) -> (at: Seq<int>)
    requires
        limit >= 0,
        holds(
            placed,
            marked.map_values(|m: Marked<T>| m.track),
            kept(marked.map_values(|m: Marked<T>| m.mark()), limit),
        ),
    ensures
        at.len() == placed.len(),
        placed.len() <= limit,
        forall|a: int|
            0 <= a < at.len() ==> {
                &&& 0 <= #[trigger] at[a] < marked.len()
                &&& marked[at[a]].playable
                &&& placed[a].track == marked[at[a]].track
                &&& placed[a].index == a % 0x1_0000_0000
            },
        forall|a: int, b: int| 0 <= a < b < at.len() ==> #[trigger] at[a] < #[trigger] at[b],
        forall|a: int, j: int|
            0 <= a < at.len() && 0 <= j < at[a] && (#[trigger] marked[j]).playable
                ==> marked[j].signature@ != marked[#[trigger] at[a]].signature@,
        forall|i: int|
            0 <= i < marked.len() && (#[trigger] marked[i]).playable ==> (exists|a: int|
                0 <= a < at.len() && #[trigger] at[a] <= i && marked[at[a]].signature@
                    == marked[i].signature@) || (at.len() == limit && forall|a: int|
                0 <= a < at.len() ==> #[trigger] at[a] < i),
{
    let marks = marked.map_values(|m: Marked<T>| m.mark());
    let tracks = marked.map_values(|m: Marked<T>| m.track);
    let at = lemma_kept_positions(marks, limit);
    assert forall|i: int| 0 <= i < marked.len() implies (#[trigger] marked[i]).playable
        == marks[i].playable && marked[i].signature@ == marks[i].signature && tracks[i]
        == marked[i].track by {}
    assert forall|a: int| 0 <= a < at.len() implies {
        &&& 0 <= #[trigger] at[a] < marked.len()
        &&& marked[at[a]].playable
        &&& placed[a].track == marked[at[a]].track
        &&& placed[a].index == a % 0x1_0000_0000
    } by {
        assert(first_of_its_kind(marks, at[a]));
        assert(placed[a].track == tracks[at[a]]);
        assert(marked[at[a]].playable);
    }
    assert forall|a: int, j: int|
        0 <= a < at.len() && 0 <= j < at[a] && (
        #[trigger] marked[j]).playable implies marked[j].signature@ != marked[
    #[trigger] at[a]].signature@ by {
        assert(first_of_its_kind(marks, at[a]));
        assert(marks[j].playable);
        assert(marked[at[a]].playable);
    }
    assert forall|i: int| 0 <= i < marked.len() && (#[trigger] marked[i]).playable implies (exists|
        a: int,
    |
        0 <= a < at.len() && #[trigger] at[a] <= i && marked[at[a]].signature@
            == marked[i].signature@) || (at.len() == limit && forall|a: int|
        0 <= a < at.len() ==> #[trigger] at[a] < i) by {
        assert(marks[i].playable);
        if !(at.len() == limit && forall|a: int| 0 <= a < at.len() ==> #[trigger] at[a] < i) {
            let a = choose|a: int|
                0 <= a < at.len() && #[trigger] at[a] <= i && marks[at[a]].signature
                    == marks[i].signature;
            assert(marked[at[a]].signature@ == marked[i].signature@);
        }
    }
    at
}

/// An answer that did not come makes no mix.
pub proof fn law_no_mix_without_an_answer<T>(placed: Seq<Placed<T>>, limit: int)
    requires
        mix_of(placed, None::<Vec<Tile<T>>>, limit),
    ensures
        placed.len() == 0,
{
}

/// A signature is the title, a bar and the main artist, in lower case; without artists it ends
/// with the bar.
pub proof fn law_signature(title: Seq<char>, artists: Seq<String>)
    ensures
        artists.len() == 0 ==> signature_text(title, artists) == lowercase(title) + seq!['|'],
        artists.len() > 0 ==> signature_text(title, artists) == lowercase(title) + seq!['|']
            + lowercase(artists[0]@),
        signature_text(title, artists) == lowercase(title) + seq!['|'] + if artists.len() == 0 {
            Seq::empty()
        } else {
            lowercase(artists[0]@)
        },
{
    reveal_strlit("|");
    assert("|"@ =~= seq!['|']);
    assert(lowercase(title) + seq!['|'] + Seq::<char>::empty() =~= lowercase(title) + seq!['|']);
}

/// As values, tracks have the fields that they have.
pub proof fn law_track_views<T, M>(track: RowTrack<M>, found: Found<T, M>)
    ensures
        track@.video_id == track.video_id@,
        track@.title == track.title@,
        track@.album is Some <==> track.album is Some,
        track.album is Some ==> track@.album->0 == track.album->0@,
        track@.duration == track.duration,
        track@.explicit == track.explicit,
        track@.available == track.available,
        track@.kind == track.kind,
        track@.set_video_id is Some <==> track.set_video_id is Some,
        track.set_video_id is Some ==> track@.set_video_id->0 == track.set_video_id->0@,
        track@.liked == track.liked,
        track@.views is Some <==> track.views is Some,
        track.views is Some ==> track@.views->0 == track.views->0@,
        track@.media == track.media,
        found matches Found::Listed(listed) ==> found@ == FoundModel::<T, M>::Listed(listed),
        found matches Found::Row(row) ==> found@ == FoundModel::<T, M>::Row(row@),
{
}

} // verus!
