//! What holds of mixes, sections and the home page as a whole.

use vstd::prelude::*;

use crate::seqs::{filter_map, lemma_filter_map_source};
use crate::text::text;
use crate::youtube::genres::{
    cover_of, home_section_of, is_cover, is_track_shelf, section_of, Node, Thumbnail, THUMB,
};
use crate::youtube::home::{first_token, Page, PageModel, Search, HOME_PAGE_LIMIT};
use crate::youtube::request::{
    browse_model, continuation_model, home_model, my_mix_model, Call, CallModel, ClientKind,
};
use crate::youtube::tracks::{
    first_of_its_kind, firsts, holds, kept, Mark, Placed, Shelf, LISTEN_AGAIN, QUICK_PICKS,
    QUICK_PICKS_LIMIT,
};

verus! {

/// The positions that are first of their kind, and only those, in rising order.
pub(crate) proof fn lemma_firsts(marks: Seq<Mark>, n: int)
    requires
        0 <= n <= marks.len(),
    ensures
        forall|a: int|
            0 <= a < firsts(marks, n).len() ==> 0 <= #[trigger] firsts(marks, n)[a] < n
                && first_of_its_kind(marks, firsts(marks, n)[a]),
        forall|a: int, b: int|
            0 <= a < b < firsts(marks, n).len() ==> #[trigger] firsts(marks, n)[a]
                < #[trigger] firsts(marks, n)[b],
        forall|i: int|
            0 <= i < n && first_of_its_kind(marks, i) ==> #[trigger] firsts(marks, n).contains(i),
    decreases n,
{
    if n > 0 {
        lemma_firsts(marks, n - 1);
        let before = firsts(marks, n - 1);
        let now = firsts(marks, n);
        assert forall|i: int| 0 <= i < n && first_of_its_kind(marks, i) implies
            #[trigger] now.contains(i) by {
            if i < n - 1 {
                assert(before.contains(i));
                let a = choose|a: int| 0 <= a < before.len() && before[a] == i;
                assert(now[a] == i);
            } else {
                assert(now[now.len() - 1] == i);
            }
        }
    }
}

/// For a playable tile, the first tile of the same song.
pub(crate) proof fn lemma_first_of_song(marks: Seq<Mark>, i: int) -> (f: int)
    requires
        0 <= i < marks.len(),
        marks[i].playable,
    ensures
        0 <= f <= i,
        first_of_its_kind(marks, f),
        marks[f].signature == marks[i].signature,
    decreases i,
{
    if first_of_its_kind(marks, i) {
        i
    } else {
        let j = choose|j: int|
            0 <= j < i && (#[trigger] marks[j]).playable && marks[j].signature
                == marks[i].signature;
        lemma_first_of_song(marks, j)
    }
}

/// A mix holds no song twice and nothing that cannot be played, keeps the order of the answer,
/// and is never longer than its limit; a song of the answer is missing only where the mix is
/// full.
pub proof fn law_mix(marks: Seq<Mark>, limit: int)
    requires
        limit >= 0,
    ensures
        kept(marks, limit).len() <= limit,
        forall|a: int|
            0 <= a < kept(marks, limit).len() ==> 0 <= #[trigger] kept(marks, limit)[a]
                < marks.len() && marks[kept(marks, limit)[a]].playable,
        forall|a: int, b: int|
            0 <= a < b < kept(marks, limit).len() ==> #[trigger] kept(marks, limit)[a]
                < #[trigger] kept(marks, limit)[b] && marks[kept(marks, limit)[a]].signature
                != marks[kept(marks, limit)[b]].signature,
        kept(marks, limit).len() < limit ==> forall|i: int|
            0 <= i < marks.len() && (#[trigger] marks[i]).playable ==> exists|a: int|
                0 <= a < kept(marks, limit).len() && marks[#[trigger] kept(
                    marks,
                    limit,
                )[a]].signature == marks[i].signature,
{
    let n = marks.len() as int;
    let all = firsts(marks, n);
    let some = kept(marks, limit);
    lemma_firsts(marks, n);
    assert forall|a: int| 0 <= a < some.len() implies #[trigger] some[a] == all[a] by {}
    assert forall|a: int, b: int| 0 <= a < b < some.len() implies #[trigger] some[a]
        < #[trigger] some[b] && marks[some[a]].signature != marks[some[b]].signature by {
        assert(all[a] < all[b]);
        assert(first_of_its_kind(marks, all[a]));
        assert(first_of_its_kind(marks, all[b]));
        assert(marks[all[a]].playable);
    }
    if some.len() < limit {
        assert forall|i: int| 0 <= i < n && (#[trigger] marks[i]).playable implies exists|a: int|
            0 <= a < some.len() && marks[#[trigger] some[a]].signature == marks[i].signature by {
            let f = lemma_first_of_song(marks, i);
            assert(all.contains(f));
            let a = choose|a: int| 0 <= a < all.len() && all[a] == f;
            assert(some[a] == f);
        }
    }
}

/// The tracks of a mix are numbered by their place in it.
pub proof fn law_mix_is_numbered<T>(
    placed: Seq<Placed<T>>,
    tracks: Seq<T>,
    marks: Seq<Mark>,
    limit: int,
)
    requires
        0 <= limit <= u32::MAX,
        holds(placed, tracks, kept(marks, limit)),
    ensures
        placed.len() <= limit,
        forall|k: int| 0 <= k < placed.len() ==> (#[trigger] placed[k]).index == k,
{
    law_mix(marks, limit);
}

/// A cover is always found where there is a thumbnail; it is one of them, and wide enough where
/// any is.
pub proof fn law_cover(thumbnails: Seq<Thumbnail>)
    ensures
        cover_of(thumbnails) is None <==> thumbnails.len() == 0,
        thumbnails.len() > 0 ==> exists|i: int| #[trigger]
            is_cover(thumbnails, i) && cover_of(thumbnails) == Some(thumbnails[i].url@) && ((
            exists|j: int|
                0 <= j < thumbnails.len() && (#[trigger] thumbnails[j]).width
                    >= THUMB) ==> thumbnails[i].width
                >= THUMB),
{
    if thumbnails.len() > 0 {
        lemma_some_cover(thumbnails, 0);
        let i = choose|i: int| is_cover(thumbnails, i);
        assert(is_cover(thumbnails, i) && cover_of(thumbnails) == Some(thumbnails[i].url@));
    }
}

proof fn lemma_some_cover(thumbnails: Seq<Thumbnail>, i: int)
    requires
        0 <= i < thumbnails.len(),
        forall|j: int|
            0 <= j < i ==> (#[trigger] thumbnails[j]).width < THUMB,
    ensures
        exists|c: int| is_cover(thumbnails, c),
    decreases thumbnails.len() - i,
{
    if thumbnails[i].width >= THUMB || i == thumbnails.len() - 1 {
        assert(is_cover(thumbnails, i));
    } else {
        lemma_some_cover(thumbnails, i + 1);
    }
}

/// No section of a genre is empty.
pub proof fn law_no_empty_section<P, A>(shelves: Seq<Shelf<Node<P, A>>>, k: int)
    requires
        0 <= k < filter_map(shelves, section_of::<P, A>()).len(),
    ensures
        filter_map(shelves, section_of::<P, A>())[k].items.len() > 0,
{
    lemma_filter_map_source(shelves, section_of::<P, A>(), k);
}

/// No section of a home page is empty, and none is made of a shelf of tracks: those are shown
/// apart.
pub proof fn law_home_sections<P, A>(shelves: Seq<Shelf<Node<P, A>>>, k: int)
    requires
        0 <= k < filter_map(shelves, home_section_of::<P, A>()).len(),
    ensures
        filter_map(shelves, home_section_of::<P, A>())[k].items.len() > 0,
        !is_track_shelf(Some(filter_map(shelves, home_section_of::<P, A>())[k].title)),
        exists|i: int|
            0 <= i < shelves.len() && !is_track_shelf(text((#[trigger] shelves[i]).title))
                && section_of::<P, A>()(shelves[i]) == Some(
                filter_map(shelves, home_section_of::<P, A>())[k],
            ),
{
    reveal_strlit("Listen again");
    reveal_strlit("Quick picks");
    assert(LISTEN_AGAIN@.len() > 0 && QUICK_PICKS@.len() > 0);
    let f = home_section_of::<P, A>();
    lemma_filter_map_source(shelves, f, k);
    let i = choose|i: int|
        0 <= i < shelves.len() && #[trigger] f(shelves[i]) == Some(filter_map(shelves, f)[k]);
    assert(section_of::<P, A>()(shelves[i]) == Some(filter_map(shelves, f)[k]));
}

/// The search over pages that come one after the other, for as long as it wants one.
pub open spec fn turned_over<K, S>(
    search: Search<K, S>,
    pages: Seq<PageModel<K>>,
) -> Search<K, S>
    decreases pages.len(),
{
    if search.wants() is None || pages.len() == 0 {
        search
    } else {
        turned_over(search.turned(pages[0]), pages.drop_first())
    }
}

/// The page at `i` holds quick picks, and the pages before it lead to it without any.
pub open spec fn picks_at<K>(pages: Seq<PageModel<K>>, i: int) -> bool {
    &&& 0 <= i < pages.len()
    &&& pages[i] matches PageModel::Loaded { quick_picks, next: _ } && quick_picks.len() > 0
    &&& forall|j: int|
        0 <= j < i ==> ((#[trigger] pages[j]) matches PageModel::Loaded { quick_picks, next }
            && quick_picks.len() == 0 && next is Some)
}

/// The picks of a page; none where it did not come.
pub open spec fn picks_of<K>(page: PageModel<K>) -> Seq<K> {
    match page {
        PageModel::Loaded { quick_picks, next: _ } => quick_picks,
        PageModel::Failed => Seq::empty(),
    }
}

/// No more pages are asked for than the limit, and the first page that holds quick picks is the
/// one whose picks are found; a page that does not come costs the picks, never the feed.
pub proof fn law_quick_picks_are_the_first_found<K, S>(
    search: Search<K, S>,
    pages: Seq<PageModel<K>>,
)
    requires
        0 <= search.asked <= HOME_PAGE_LIMIT,
        search.quick_picks.len() == 0,
        search.next is Some,
    ensures
        search.asked <= turned_over(search, pages).asked <= HOME_PAGE_LIMIT,
        forall|i: int|
            #![trigger picks_at(pages, i)]
            picks_at(pages, i) && i < HOME_PAGE_LIMIT - search.asked ==> turned_over(
                search,
                pages,
            ).quick_picks == picks_of(pages[i]),
        (forall|i: int|
            #![trigger picks_at(pages, i)]
            i < HOME_PAGE_LIMIT - search.asked ==> !picks_at(pages, i)) ==> turned_over(
            search,
            pages,
        ).quick_picks.len() == 0,
    decreases pages.len(),
{
    let found = turned_over(search, pages);
    if search.wants() is Some && pages.len() > 0 {
        let next = search.turned(pages[0]);
        let rest = pages.drop_first();
        if next.quick_picks.len() == 0 && next.next is Some {
            law_quick_picks_are_the_first_found(next, rest);
            assert forall|i: int| #[trigger] picks_at(pages, i) implies picks_at(rest, i - 1)
                && pages[i] == rest[i - 1] by {
                assert forall|j: int| 0 <= j < i - 1 implies ((#[trigger] rest[j]) matches
                    PageModel::Loaded { quick_picks, next } && quick_picks.len() == 0
                    && next is Some) by {
                    assert(pages[j + 1] == rest[j]);
                }
            }
            assert forall|i: int| #[trigger] picks_at(rest, i) implies picks_at(pages, i + 1) by {
                assert forall|j: int| 0 <= j < i + 1 implies ((#[trigger] pages[j]) matches
                    PageModel::Loaded { quick_picks, next } && quick_picks.len() == 0
                    && next is Some) by {
                    if j > 0 {
                        assert(pages[j] == rest[j - 1]);
                    }
                }
            }
            assert forall|i: int| #[trigger] picks_at(pages, i) && i < HOME_PAGE_LIMIT
                - search.asked implies found.quick_picks == picks_of(pages[i]) by {
                assert(picks_at(rest, i - 1));
            }
            if forall|i: int|
                #![trigger picks_at(pages, i)]
                i < HOME_PAGE_LIMIT - search.asked ==> !picks_at(pages, i) {
                assert forall|i: int| i < HOME_PAGE_LIMIT - next.asked implies !(
                #[trigger] picks_at(rest, i)) by {
                    if picks_at(rest, i) {
                        assert(picks_at(pages, i + 1));
                    }
                }
            }
        } else {
            assert(next.wants() is None);
            assert(found == next);
            assert(next.quick_picks.len() > 0 ==> picks_at(pages, 0));
            assert forall|i: int| #[trigger] picks_at(pages, i) implies i == 0 by {
                if i > 0 {
                    assert(pages[0] matches PageModel::Loaded { quick_picks, next }
                        && quick_picks.len() == 0 && next is Some);
                }
            }
        }
    }
}

/// However many pages are turned, the tracks played before and the sections stay those of the
/// first page.
pub proof fn law_turning_keeps_the_first_page<K, S>(
    search: Search<K, S>,
    pages: Seq<PageModel<K>>,
)
    ensures
        turned_over(search, pages).listen_again == search.listen_again,
        turned_over(search, pages).sections == search.sections,
    decreases pages.len(),
{
    if search.wants() is Some && pages.len() > 0 {
        law_turning_keeps_the_first_page(search.turned(pages[0]), pages.drop_first());
    }
}

/// The calls for further pages, where `pages` are what they come to and `oauth` says whether the
/// user is signed in with an account at the time of each.
pub open spec fn further_calls<K, S>(
    search: Search<K, S>,
    pages: Seq<PageModel<K>>,
    oauth: spec_fn(int) -> bool,
) -> Seq<CallModel>
    decreases pages.len(),
{
    match search.call(oauth(search.asked)) {
        None => Seq::empty(),
        Some(call) => if pages.len() == 0 {
            seq![call]
        } else {
            seq![call] + further_calls(search.turned(pages[0]), pages.drop_first(), oauth)
        },
    }
}

/// The token that the call at `i` is made with: that of the page before.
pub open spec fn token_before<K, S>(
    search: Search<K, S>,
    pages: Seq<PageModel<K>>,
    i: int,
) -> Option<Seq<char>> {
    if i == 0 {
        search.next
    } else {
        match pages[i - 1] {
            PageModel::Loaded { quick_picks: _, next } => next,
            PageModel::Failed => None,
        }
    }
}

/// Every call for a further page browses as the music client for the token of the page before
/// it, signed out exactly where no account is signed in; it is made only where no page so far
/// held quick picks and every one came. There are no more of them than the limit, and none where
/// the first page holds quick picks.
pub proof fn law_further_calls<K, S>(
    search: Search<K, S>,
    pages: Seq<PageModel<K>>,
    oauth: spec_fn(int) -> bool,
)
    requires
        0 <= search.asked <= HOME_PAGE_LIMIT,
    ensures
        further_calls(search, pages, oauth).len() <= HOME_PAGE_LIMIT - search.asked,
        further_calls(search, pages, oauth).len() <= pages.len() + 1,
        search.quick_picks.len() > 0 ==> further_calls(search, pages, oauth).len() == 0,
        forall|i: int|
            0 <= i < further_calls(search, pages, oauth).len() ==> {
                &&& token_before(search, pages, i) is Some
                &&& #[trigger] further_calls(search, pages, oauth)[i] == continuation_model(
                    token_before(search, pages, i)->0,
                    oauth(search.asked + i),
                )
                &&& search.quick_picks.len() == 0
                &&& forall|j: int|
                    0 <= j < i ==> (#[trigger] pages[j] is Loaded && picks_of(pages[j]).len() == 0)
            },
    decreases pages.len(),
{
    let calls = further_calls(search, pages, oauth);
    let turns = search.wants() is Some && pages.len() > 0;
    let next = search.turned(pages[0]);
    let rest = pages.drop_first();
    let later = further_calls(next, rest, oauth);
    if turns {
        law_further_calls(next, rest, oauth);
    }
    assert forall|i: int|
        #![trigger calls[i]]
        #![trigger token_before(search, pages, i)]
        0 <= i < calls.len() implies {
        &&& token_before(search, pages, i) is Some
        &&& calls[i] == continuation_model(
            token_before(search, pages, i)->0,
            oauth(search.asked + i),
        )
        &&& search.quick_picks.len() == 0
        &&& forall|j: int|
            0 <= j < i ==> (#[trigger] pages[j] is Loaded && picks_of(pages[j]).len() == 0)
    } by {
        assert(search.wants() is Some);
        if i == 0 {
            assert(calls[0] == continuation_model(search.next->0, oauth(search.asked)));
        } else {
            assert(turns);
            assert(calls[i] == later[i - 1]);
            assert(next.asked + (i - 1) == search.asked + i);
            assert(token_before(search, pages, i) == token_before(next, rest, i - 1)) by {
                if i > 1 {
                    assert(pages[i - 1] == rest[i - 2]);
                }
            }
            assert forall|j: int| 0 <= j < i implies (#[trigger] pages[j] is Loaded && picks_of(
                pages[j],
            ).len() == 0) by {
                if j > 0 {
                    assert(pages[j] == rest[j - 1]);
                }
            }
        }
    }
}

/// A home page takes one call for its first page and at most the limit for further ones, all of
/// them as the music client.
pub proof fn law_home_calls<K, S>(
    search: Search<K, S>,
    pages: Seq<PageModel<K>>,
    first: bool,
    oauth: spec_fn(int) -> bool,
)
    requires
        search.asked == 0,
    ensures
        ({
            let calls = seq![home_model(first)] + further_calls(search, pages, oauth);
            &&& calls.len() <= 1 + HOME_PAGE_LIMIT
            &&& search.quick_picks.len() > 0 ==> calls.len() == 1
            &&& forall|i: int|
                0 <= i < calls.len() ==> ((#[trigger] calls[i]) matches CallModel::ExecuteWith {
                    endpoint,
                    client,
                    body: _,
                    signed_out: _,
                } && endpoint == "browse"@ && client == ClientKind::Music)
        }),
{
    law_further_calls(search, pages, oauth);
    let later = further_calls(search, pages, oauth);
    let calls = seq![home_model(first)] + later;
    assert forall|i: int| 0 <= i < calls.len() implies ((#[trigger] calls[i]) matches
        CallModel::ExecuteWith { endpoint, client, body: _, signed_out: _ } && endpoint
        == "browse"@ && client == ClientKind::Music) by {
        if i > 0 {
            assert(calls[i] == later[i - 1]);
        }
    }
}

/// A first page with quick picks, or one that leads nowhere, asks for nothing more.
pub proof fn law_no_page_without_need<K, S>(search: Search<K, S>, pages: Seq<PageModel<K>>)
    requires
        search.quick_picks.len() > 0 || search.next is None,
    ensures
        turned_over(search, pages) == search,
{
}

/// What is shown is the front of what was found, and never more than the limit.
pub proof fn law_quick_picks_are_cut<K, S>(search: Search<K, S>)
    ensures
        search.shown().len() <= QUICK_PICKS_LIMIT,
        search.shown().is_prefix_of(search.quick_picks),
        search.shown().len() < QUICK_PICKS_LIMIT ==> search.shown() == search.quick_picks,
{
}

/// The token of a page is the first that any continuation on it holds, and there is none exactly
/// where none of them holds one.
pub proof fn law_first_token(found: Seq<Option<String>>)
    ensures
        first_token(found) is None <==> (forall|j: int|
            0 <= j < found.len() ==> (#[trigger] found[j]) is None),
        forall|i: int|
            0 <= i < found.len() && (#[trigger] found[i]) is Some && (forall|j: int|
                0 <= j < i ==> (#[trigger] found[j]) is None) ==> first_token(found) == Some(
                found[i]->0@,
            ),
    decreases found.len(),
{
    if found.len() > 0 && found[0] is None {
        let rest = found.drop_first();
        law_first_token(rest);
        assert forall|j: int| 0 < j < found.len() implies #[trigger] found[j] == rest[j - 1] by {}
        assert forall|j: int| 0 <= j < rest.len() implies #[trigger] rest[j] == found[j + 1] by {}
        assert forall|i: int|
            0 <= i < found.len() && (#[trigger] found[i]) is Some && (forall|j: int|
                0 <= j < i ==> (#[trigger] found[j]) is None) implies first_token(found) == Some(
            found[i]->0@,
        ) by {
            assert(rest[i - 1] is Some);
            assert forall|j: int| 0 <= j < i - 1 implies (#[trigger] rest[j]) is None by {
                assert(found[j + 1] is None);
            }
        }
    }
}

/// A further page is asked for exactly where there are no quick picks yet, fewer than six pages
/// have been asked for and the last one named a token; it is asked for by that token.
pub proof fn law_wants<K, S>(search: Search<K, S>)
    ensures
        search.wants() is Some <==> search.quick_picks.len() == 0 && search.asked < 6
            && search.next is Some,
        search.wants() is Some ==> search.wants() == search.next,
{
}

/// Turning a page counts it and touches nothing of the first page. A page that came brings its
/// picks and its token; one that did not ends the search and leaves the picks.
pub proof fn law_turned<K, S>(search: Search<K, S>, page: PageModel<K>)
    ensures
        search.turned(page).listen_again == search.listen_again,
        search.turned(page).sections == search.sections,
        search.turned(page).asked == search.asked + 1,
        page matches PageModel::Loaded { quick_picks, next } ==> search.turned(page).quick_picks
            == quick_picks && search.turned(page).next == next,
        page is Failed ==> search.turned(page).quick_picks == search.quick_picks && search.turned(
            page,
        ).wants() is None,
{
}

/// What is shown are the first fifteen of the quick picks found, or all where there are no more.
pub proof fn law_shown<K, S>(search: Search<K, S>)
    ensures
        search.quick_picks.len() <= 15 ==> search.shown() == search.quick_picks,
        search.quick_picks.len() > 15 ==> search.shown() == search.quick_picks.take(15),
{
}

/// A further page is called for exactly where one is wanted: by browsing as the music client for
/// the wanted token alone, signed out where no account is signed in.
pub proof fn law_call_for_a_further_page<K, S>(search: Search<K, S>, oauth: bool)
    ensures
        search.call(oauth) is Some <==> search.quick_picks.len() == 0 && search.asked < 6
            && search.next is Some,
        search.call(oauth) is Some ==> search.call(oauth)->0 == (CallModel::ExecuteWith {
            endpoint: "browse"@,
            client: ClientKind::Music,
            body: seq![("continuation"@, search.next->0)],
            signed_out: !oauth,
        }),
{
}

/// The calls for the mix, for the home page and for a page after it, in full.
pub proof fn law_calls(token: Seq<char>, body: Seq<(Seq<char>, Seq<char>)>, oauth: bool)
    ensures
        my_mix_model() == (CallModel::Execute {
            endpoint: "next"@,
            client: ClientKind::Music,
            body: seq![("playlistId"@, "RDMM"@)],
        }),
        home_model(oauth) == (CallModel::ExecuteWith {
            endpoint: "browse"@,
            client: ClientKind::Music,
            body: seq![("browseId"@, "FEmusic_home"@)],
            signed_out: !oauth,
        }),
        continuation_model(token, oauth) == (CallModel::ExecuteWith {
            endpoint: "browse"@,
            client: ClientKind::Music,
            body: seq![("continuation"@, token)],
            signed_out: !oauth,
        }),
        browse_model(body, oauth) == (CallModel::ExecuteWith {
            endpoint: "browse"@,
            client: ClientKind::Music,
            body,
            signed_out: !oauth,
        }),
{
}

/// As values, calls and pages have the fields that they have.
pub proof fn law_call_views<K>(call: Call, page: Page<K>)
    ensures
        call matches Call::Execute { endpoint, client, body } ==> call@ == (CallModel::Execute {
            endpoint: endpoint@,
            client,
            body: body@.map_values(|member: (String, String)| (member.0@, member.1@)),
        }),
        call matches Call::ExecuteWith { endpoint, client, body, signed_out } ==> call@ == (
        CallModel::ExecuteWith {
            endpoint: endpoint@,
            client,
            body: body@.map_values(|member: (String, String)| (member.0@, member.1@)),
            signed_out,
        }),
        call matches Call::Library { page } ==> call@ == (CallModel::Library { page: page@ }),
        page matches Page::Loaded { quick_picks, next } ==> page@ == (PageModel::<K>::Loaded {
            quick_picks: quick_picks@,
            next: text(next),
        }),
        page is Failed ==> page@ == PageModel::<K>::Failed,
{
}

} // verus!
