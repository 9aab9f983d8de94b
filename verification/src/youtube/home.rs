//! The home page: pages are turned until one holds quick picks, and the tracks of a signed-in
//! user take the place of the general ones.

use vstd::prelude::*;

use crate::seqs::filter_map;
use crate::text::text;
use crate::youtube::genres::{home_section_of, sections, GenreSection, Node};
use crate::youtube::request::{continuation_call, continuation_model, Call, CallModel};
use crate::youtube::tracks::{
    home_tracks, quick_picks, shelf_tracks, Entry, Found, Placed, Shelf, LISTEN_AGAIN, QUICK_PICKS,
    QUICK_PICKS_LIMIT,
};

verus! {

/// How many further pages are asked for.
pub const HOME_PAGE_LIMIT: usize = 6;

/// What is shown at home.
pub struct HomeFeed<K, S> {
    pub listen_again: Vec<K>,
    pub quick_picks: Option<Vec<K>>,
    pub sections: Vec<S>,
}

/// The first token of those found on a page.
pub open spec fn first_token(found: Seq<Option<String>>) -> Option<Seq<char>>
    decreases found.len(),
{
    if found.len() == 0 {
        None
    } else if found[0] is Some {
        text(found[0])
    } else {
        first_token(found.drop_first())
    }
}

/// The token of the next page: the first that any continuation on this page holds.
pub fn continuation(found: Vec<Option<String>>) -> (token: Option<String>)
    ensures
        text(token) == first_token(found@),
        token is None <==> (forall|j: int| 0 <= j < found@.len() ==> (#[trigger] found@[j]) is None),
        forall|i: int|
            0 <= i < found@.len() && (#[trigger] found@[i]) is Some && (forall|j: int|
                0 <= j < i ==> (#[trigger] found@[j]) is None) ==> token == found@[i],
{
    let ghost all = found@;
    assert(all.skip(0) =~= all);
    for token in it: found
        invariant
            it.seq() == all,
            first_token(all) == first_token(all.skip(it.index())),
            forall|j: int| 0 <= j < it.index() ==> (#[trigger] all[j]) is None,
    {
        let ghost rest = all.skip(it.index());
        assert(rest[0] == token);
        assert(rest.drop_first() =~= all.skip(it.index() + 1));
        if token.is_some() {
            assert(all[it.index() as int] == token);
            return token;
        }
    }
    assert(all.skip(all.len() as int).len() == 0);
    None
}

/// What came of asking for a further page.
pub enum Page<K> {
    Loaded { quick_picks: Vec<K>, next: Option<String> },
    Failed,
}

/// A `Page` as a value.
#[verifier::ext_equal]
pub enum PageModel<K> {
    Loaded { quick_picks: Seq<K>, next: Option<Seq<char>> },
    Failed,
}

impl<K> View for Page<K> {
    type V = PageModel<K>;

    open spec fn view(&self) -> PageModel<K> {
        match *self {
            Page::Loaded { quick_picks, next } => PageModel::Loaded {
                quick_picks: quick_picks@,
                next: text(next),
            },
            Page::Failed => PageModel::Failed,
        }
    }
}

/// A home page that is being put together: the tracks played before and the sections, both of
/// the first page; the quick picks of the page turned last and the token of the page after it;
/// and how many further pages have been asked for.
#[verifier::ext_equal]
pub struct Search<K, S> {
    pub listen_again: Seq<K>,
    pub sections: Seq<S>,
    pub quick_picks: Seq<K>,
    pub next: Option<Seq<char>>,
    pub asked: int,
}

impl<K, S> Search<K, S> {
    /// The token of the page to ask for; none when the search is over.
    pub open spec fn wants(self) -> Option<Seq<char>> {
        if self.quick_picks.len() == 0 && self.asked < HOME_PAGE_LIMIT {
            self.next
        } else {
            None
        }
    }

    /// The call for that page, by whether the user is signed in with an account.
    pub open spec fn call(self, oauth: bool) -> Option<CallModel> {
        match self.wants() {
            Some(token) => Some(continuation_model(token, oauth)),
            None => None,
        }
    }

    /// The search after that page came, or did not.
    pub open spec fn turned(self, page: PageModel<K>) -> Search<K, S> {
        match page {
            PageModel::Loaded { quick_picks, next } => Search {
                listen_again: self.listen_again,
                sections: self.sections,
                quick_picks,
                next,
                asked: self.asked + 1,
            },
            PageModel::Failed => Search {
                listen_again: self.listen_again,
                sections: self.sections,
                quick_picks: self.quick_picks,
                next: None,
                asked: self.asked + 1,
            },
        }
    }

    /// The quick picks that are shown.
    pub open spec fn shown(self) -> Seq<K> {
        if self.quick_picks.len() <= QUICK_PICKS_LIMIT {
            self.quick_picks
        } else {
            self.quick_picks.take(QUICK_PICKS_LIMIT as int)
        }
    }
}

/// A home page that is being put together: the search for quick picks goes on over further
/// pages, everything else comes from the first.
pub struct HomePages<K, S> {
    listen_again: Vec<K>,
    sections: Vec<S>,
    quick_picks: Vec<K>,
    next: Option<String>,
    asked: usize,
}

impl<K, S> View for HomePages<K, S> {
    type V = Search<K, S>;

    closed spec fn view(&self) -> Search<K, S> {
        Search {
            listen_again: self.listen_again@,
            sections: self.sections@,
            quick_picks: self.quick_picks@,
            next: text(self.next),
            asked: self.asked as int,
        }
    }
}

/// A track of a home page, as it was found.
pub type HomeTrack<T, M> = Placed<Found<T, M>>;

/// Starts from the first page: its shelves, read for tracks and read for playlists and albums,
/// and the tokens found on it.
pub fn first_page<T, M, P, A>(
    shelves: Vec<Shelf<Entry<T, M>>>,
    nodes: Vec<Shelf<Node<P, A>>>,
    tokens: Vec<Option<String>>,
) -> (pages: HomePages<HomeTrack<T, M>, GenreSection<P, A>>)
    ensures
        shelf_tracks(pages@.listen_again, shelves@, LISTEN_AGAIN@),
        shelf_tracks(pages@.quick_picks, shelves@, QUICK_PICKS@),
        shelf_tracks(pages@.listen_again, shelves@, "Listen again"@),
        shelf_tracks(pages@.quick_picks, shelves@, "Quick picks"@),
        pages@.sections.map_values(|section: GenreSection<P, A>| section@) == filter_map(
            nodes@,
            home_section_of::<P, A>(),
        ),
        pages@.next == first_token(tokens@),
        pages@.asked == 0,
{
    let (listen_again, quick_picks) = home_tracks(shelves);
    HomePages::new(listen_again, sections(nodes), quick_picks, continuation(tokens))
}

/// Reads a further page: its shelves, read for tracks, and the tokens found on it.
pub fn further_page<T, M>(
    shelves: Vec<Shelf<Entry<T, M>>>,
    tokens: Vec<Option<String>>,
) -> (page: Page<HomeTrack<T, M>>)
    ensures
        page@ matches PageModel::Loaded { quick_picks, next } && shelf_tracks(
            quick_picks,
            shelves@,
            QUICK_PICKS@,
        ) && next == first_token(tokens@),
        page matches Page::Loaded { quick_picks, next: _ } && shelf_tracks(
            quick_picks@,
            shelves@,
            "Quick picks"@,
        ),
{
    Page::Loaded { quick_picks: quick_picks(shelves), next: continuation(tokens) }
}

impl<K, S> HomePages<K, S> {
    /// Starts from what the first page holds.
    pub fn new(
        listen_again: Vec<K>,
        sections: Vec<S>,
        quick_picks: Vec<K>,
        next: Option<String>,
    ) -> (pages: HomePages<K, S>)
        ensures
            pages@ == (Search {
                listen_again: listen_again@,
                sections: sections@,
                quick_picks: quick_picks@,
                next: text(next),
                asked: 0,
            }),
    {
        HomePages { listen_again, sections, quick_picks, next, asked: 0 }
    }

    /// The token of the page to ask for; none when the search is over.
    pub fn wants(&self) -> (token: Option<String>)
        ensures
            text(token) == self@.wants(),
            token is Some <==> self@.quick_picks.len() == 0 && self@.asked < 6 && self@.next is Some,
            token is Some ==> token->0@ == self@.next->0,
    {
        if self.quick_picks.is_empty() && self.asked < HOME_PAGE_LIMIT {
            self.next.clone()
        } else {
            None
        }
    }

    /// The call for the page to ask for, by whether the user is signed in with an account; none
    /// when the search is over.
    pub fn call(&self, oauth: bool) -> (call: Option<Call>)
        ensures
            self@.call(oauth) == (match call {
                Some(call) => Some(call@),
                None => None,
            }),
    {
        match self.wants() {
            Some(token) => Some(continuation_call(token.as_str(), oauth)),
            None => None,
        }
    }

    /// Takes in the page that was asked for. One that did not come ends the search.
    pub fn turn(&mut self, page: Page<K>)
        requires
            old(self)@.wants() is Some,
        ensures
            final(self)@ == old(self)@.turned(page@),
            final(self)@.listen_again == old(self)@.listen_again,
            final(self)@.sections == old(self)@.sections,
            final(self)@.asked == old(self)@.asked + 1,
            page matches Page::Loaded { quick_picks, next } ==> final(self)@.quick_picks
                == quick_picks@ && final(self)@.next == text(next),
            page is Failed ==> final(self)@.quick_picks == old(self)@.quick_picks,
            page is Failed ==> final(self)@.next is None,
    {
        self.asked = self.asked + 1;
        match page {
            Page::Loaded { quick_picks, next } => {
                self.quick_picks = quick_picks;
                self.next = next;
            },
            Page::Failed => {
                self.next = None;
            },
        }
    }

    /// The home feed that needs no account: what the first page held, and the quick picks found,
    /// cut to what is shown.
    pub fn anonymous_home(self) -> (feed: HomeFeed<K, S>)
        ensures
            feed.listen_again@ == self@.listen_again,
            feed.quick_picks is Some,
            feed.quick_picks->0@ == self@.shown(),
            self@.quick_picks.len() <= 15 ==> feed.quick_picks->0@ == self@.quick_picks,
            self@.quick_picks.len() > 15 ==> feed.quick_picks->0@ == self@.quick_picks.take(15),
            feed.sections@ == self@.sections,
    {
        let mut quick_picks: Vec<K> = self.quick_picks;
        quick_picks.truncate(QUICK_PICKS_LIMIT);
        HomeFeed {
            listen_again: self.listen_again,
            quick_picks: Some(quick_picks),
            sections: self.sections,
        }
    }
}

/// Puts the tracks of a signed-in user in the place of the general ones, where there are any.
pub fn home<K, S>(mine: Vec<K>, recent: Vec<K>, feed: HomeFeed<K, S>) -> (home: HomeFeed<K, S>)
    ensures
        home.quick_picks == (if mine@.len() == 0 {
            feed.quick_picks
        } else {
            Some(mine)
        }),
        home.listen_again == (if recent@.len() == 0 {
            feed.listen_again
        } else {
            recent
        }),
        home.sections == feed.sections,
{
    let mut feed: HomeFeed<K, S> = feed;
    if !mine.is_empty() {
        feed.quick_picks = Some(mine);
    }
    if !recent.is_empty() {
        feed.listen_again = recent;
    }
    feed
}

} // verus!
