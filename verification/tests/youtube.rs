use music::youtube::genres::{
    button, card, genre, genres, item, section, sections, thumb, Button, GenreItem, Node, Source,
    Thumbnail,
};
use music::youtube::home::{
    continuation, first_page, further_page, home, HomeFeed, HomePages, Page, HOME_PAGE_LIMIT,
};
use music::youtube::paths;
use music::youtube::request::{
    continuation_call, genre_call, genres_call, home_call, last_played_call, my_mix_call,
    personal_calls, Call, ClientKind,
};
use music::youtube::tracks::{
    distinct, home_tracks, joined, last_played, my_mix, quick_picks, readable, signature, track,
    tracks, Endpoint, Entry, Found, Marked, Placed, Row, Shelf, Tile, TrackKind,
};

fn owned(text: &str) -> String {
    text.to_string()
}

fn tile(id: Option<&str>, title: &str, artists: &[&str], track: u32) -> Tile<u32> {
    Tile {
        video_id: id.map(owned),
        title: owned(title),
        artists: artists.iter().map(|name| owned(name)).collect(),
        track,
    }
}

fn listed(placed: &[Placed<u32>]) -> Vec<(u32, u32)> {
    placed.iter().map(|placed| (placed.track, placed.index)).collect()
}

#[test]
fn a_signature_is_title_and_main_artist_in_lower_case() {
    assert_eq!(signature("One More Time", &vec![owned("Daft Punk"), owned("X")]), "one more time|daft punk");
    assert_eq!(signature("ÄB", &vec![]), "äb|");
    assert_eq!(signature("", &vec![owned("")]), "|");
    assert_eq!(joined("a", "b"), "a|b");
}

#[test]
fn a_mix_drops_repeats_and_what_cannot_be_played() {
    let tiles = vec![
        tile(None, "A", &["x"], 0),
        tile(Some("1"), "a", &["X"], 1),
        tile(Some("2"), "A", &["x", "y"], 2),
        tile(Some("3"), "A", &["y", "x"], 3),
        tile(Some("4"), "B", &[], 4),
        tile(Some("5"), "b", &[], 5),
    ];
    assert_eq!(listed(&my_mix(Some(tiles))), [(1, 0), (3, 1), (4, 2)]);
}

#[test]
fn a_mix_is_cut_to_its_limit() {
    let many = |count: u32| -> Vec<Tile<u32>> {
        (0..count).map(|n| tile(Some("id"), &n.to_string(), &[], n)).collect()
    };
    let mine = listed(&my_mix(Some(many(40))));
    assert_eq!(mine.len(), 15);
    assert_eq!(mine[14], (14, 14));
    let recent = listed(&last_played(Some(many(40))));
    assert_eq!(recent.len(), 20);
    assert_eq!(recent[19], (19, 19));
    assert_eq!(my_mix(Some(many(3))).len(), 3);
}

#[test]
fn a_mix_without_an_answer_is_empty() {
    assert!(my_mix::<u32>(None).is_empty());
    assert!(last_played::<u32>(None).is_empty());
}

#[test]
fn distinct_goes_by_the_marks() {
    let marked = |playable: bool, signature: &str, track: u32| Marked {
        playable,
        signature: owned(signature),
        track,
    };
    let kept = distinct(
        vec![
            marked(false, "a", 0),
            marked(true, "a", 1),
            marked(true, "b", 2),
            marked(true, "a", 3),
            marked(true, "c", 4),
        ],
        2,
    );
    assert_eq!(listed(&kept), [(1, 0), (2, 1)]);
    assert!(distinct(vec![marked(true, "a", 0)], 0).is_empty());
}

fn row(page: Option<&str>, video: Option<&str>, kind: Option<&str>, title: Option<&str>) -> Row<u32> {
    Row {
        page_type: page.map(owned),
        endpoint: Some(Endpoint { video_id: video.map(owned), video_type: kind.map(owned) }),
        title: title.map(owned),
        explicit: true,
        media: 7,
    }
}

#[test]
fn a_two_row_item_becomes_a_track() {
    let made = track(Some(row(None, Some("v"), Some("MUSIC_VIDEO_TYPE_ATV"), Some("T")))).unwrap();
    assert_eq!(made.video_id, "v");
    assert_eq!(made.title, "T");
    assert_eq!(made.kind, TrackKind::Song);
    assert!(made.explicit);
    assert!(made.available);
    assert_eq!(made.album, None);
    assert_eq!(made.duration, None);
    assert_eq!(made.set_video_id, None);
    assert_eq!(made.liked, None);
    assert_eq!(made.views, None);
    assert_eq!(made.media, 7);
    let video = track(Some(row(Some("OTHER"), Some("v"), Some("MUSIC_VIDEO_TYPE_OMV"), Some("T"))));
    assert_eq!(video.unwrap().kind, TrackKind::Video);
    assert_eq!(track(Some(row(None, Some("v"), None, Some("T")))).unwrap().kind, TrackKind::Video);
}

#[test]
fn some_items_are_not_tracks() {
    assert!(track::<u32>(None).is_none());
    assert!(track(Some(row(Some("MUSIC_PAGE_TYPE_ALBUM"), Some("v"), None, Some("T")))).is_none());
    assert!(track(Some(row(Some("MUSIC_PAGE_TYPE_PLAYLIST"), Some("v"), None, Some("T")))).is_none());
    assert!(track(Some(row(None, None, None, Some("T")))).is_none());
    assert!(track(Some(row(None, Some("v"), None, None))).is_none());
    let mut unplayable = row(None, Some("v"), None, Some("T"));
    unplayable.endpoint = None;
    assert!(track(Some(unplayable)).is_none());
}

fn entries(title: Option<&str>, items: Vec<Entry<u32, u32>>) -> Shelf<Entry<u32, u32>> {
    Shelf { title: title.map(owned), items }
}

#[test]
fn the_tracks_of_a_shelf_are_found_by_its_title() {
    let shelves = vec![
        entries(None, vec![Entry { listed: Some(0), row: None }]),
        entries(Some("Other"), vec![Entry { listed: Some(1), row: None }]),
        entries(
            Some("Quick picks"),
            vec![
                Entry { listed: Some(2), row: Some(row(None, Some("v"), None, Some("T"))) },
                Entry { listed: None, row: None },
                Entry { listed: None, row: Some(row(None, Some("w"), None, Some("U"))) },
            ],
        ),
        entries(Some("Quick picks"), vec![Entry { listed: Some(3), row: None }]),
    ];
    let found = tracks(shelves, "Quick picks");
    assert_eq!(found.len(), 2);
    assert!(matches!(found[0].track, Found::Listed(2)));
    assert_eq!(found[0].index, 0);
    match &found[1].track {
        Found::Row(made) => assert_eq!(made.video_id, "w"),
        Found::Listed(_) => panic!("the second track is made of a row"),
    }
    assert_eq!(found[1].index, 1);
}

#[test]
fn a_missing_shelf_has_no_tracks() {
    let shelves = vec![entries(Some("quick picks"), vec![Entry { listed: Some(1), row: None }])];
    assert!(tracks(shelves, "Quick picks").is_empty());
    assert!(tracks::<u32, u32>(vec![], "Quick picks").is_empty());
}

fn thumbs(widths: &[u32]) -> Vec<Thumbnail> {
    widths.iter().map(|width| Thumbnail { url: width.to_string(), width: *width }).collect()
}

#[test]
fn a_cover_is_the_first_wide_thumbnail_or_the_last() {
    assert_eq!(thumb(&thumbs(&[60, 120, 544])).as_deref(), Some("120"));
    assert_eq!(thumb(&thumbs(&[544, 120])).as_deref(), Some("544"));
    assert_eq!(thumb(&thumbs(&[60, 119])).as_deref(), Some("119"));
    assert_eq!(thumb(&thumbs(&[90, 60])).as_deref(), Some("60"));
    assert_eq!(thumb(&vec![]), None);
}

fn node(playlist: Option<u32>, album: Option<u32>) -> Node<u32, u32> {
    Node {
        playlist: playlist.map(|source| Source { source, thumbnails: thumbs(&[60, 200]) }),
        album: album.map(|source| Source { source, thumbnails: vec![] }),
    }
}

#[test]
fn an_item_is_a_playlist_before_it_is_an_album() {
    match item(node(Some(1), Some(2))) {
        Some(GenreItem::Playlist { playlist, flags, cover }) => {
            assert_eq!(playlist, 1);
            assert_eq!(flags, (false, true));
            assert_eq!(cover.as_deref(), Some("200"));
        }
        _ => panic!("a playlist"),
    }
    match item(node(None, Some(2))) {
        Some(GenreItem::Album { album, cover }) => {
            assert_eq!(album, 2);
            assert_eq!(cover, None);
        }
        _ => panic!("an album"),
    }
    assert!(item(node(None, None)).is_none());
}

#[test]
fn a_section_needs_an_item() {
    let full = section(Shelf { title: Some(owned("S")), items: vec![node(None, None), node(Some(1), None)] });
    let full = full.unwrap();
    assert_eq!(full.title, "S");
    assert_eq!(full.items.len(), 1);
    let untitled = section(Shelf { title: None, items: vec![node(None, Some(1))] }).unwrap();
    assert_eq!(untitled.title, "");
    assert!(section(Shelf { title: Some(owned("S")), items: vec![node(None, None)] }).is_none());
    assert!(section::<u32, u32>(Shelf { title: None, items: vec![] }).is_none());
}

#[test]
fn home_sections_leave_out_the_shelves_of_tracks() {
    let shelf = |title: Option<&str>| Shelf {
        title: title.map(owned),
        items: vec![node(Some(1), None)],
    };
    let made = sections(vec![
        shelf(Some("Listen again")),
        shelf(Some("New")),
        shelf(Some("Quick picks")),
        shelf(None),
        Shelf { title: Some(owned("Empty")), items: vec![] },
    ]);
    let titles: Vec<&str> = made.iter().map(|section| section.title.as_str()).collect();
    assert_eq!(titles, ["New", ""]);
}

#[test]
fn a_genre_keeps_every_section_that_has_items() {
    let shelf = |title: &str, items: Vec<Node<u32, u32>>| Shelf { title: Some(owned(title)), items };
    let detail = genre(
        Some(owned("Jazz")),
        vec![
            shelf("Quick picks", vec![node(Some(1), None)]),
            shelf("Empty", vec![]),
            shelf("B", vec![node(None, Some(1))]),
        ],
    );
    assert_eq!(detail.name, "Jazz");
    let titles: Vec<&str> = detail.sections.iter().map(|section| section.title.as_str()).collect();
    assert_eq!(titles, ["Quick picks", "B"]);
    assert_eq!(genre::<u32, u32>(None, vec![]).name, "");
}

fn read(params: Option<&str>, text: Option<&str>) -> Option<Button> {
    Some(Button { params: params.map(owned), text: text.map(owned) })
}

#[test]
fn a_card_needs_a_target_and_a_text() {
    let made = card(read(Some("p"), Some("Jazz"))).unwrap();
    assert_eq!(made.id, "p");
    assert_eq!(made.name, "Jazz");
    assert_eq!(made.cover, None);
    assert!(card(read(None, Some("Jazz"))).is_none());
    assert!(card(read(Some("p"), None)).is_none());
    assert!(card(None).is_none());
}

#[test]
fn genres_come_grid_by_grid() {
    let made = genres(vec![
        vec![read(Some("1"), Some("A")), None],
        vec![],
        vec![read(None, Some("B")), read(Some("2"), Some("C"))],
    ]);
    let names: Vec<&str> = made.iter().map(|genre| genre.name.as_str()).collect();
    assert_eq!(names, ["A", "C"]);
}

#[test]
fn the_button_of_a_card_is_a_member() {
    let mut card = serde_json::Map::new();
    card.insert(owned("other"), serde_json::Value::Bool(true));
    let without = serde_json::Value::Object(card.clone());
    assert_eq!(button(&without), None);
    card.insert(owned("musicNavigationButtonRenderer"), serde_json::Value::from(5));
    let with = serde_json::Value::Object(card);
    assert_eq!(button(&with), Some(&serde_json::Value::from(5)));
    assert_eq!(button(&serde_json::Value::Array(vec![with])), None);
    assert_eq!(button(&serde_json::Value::Null), None);
}

#[test]
fn the_first_token_leads_on() {
    assert_eq!(continuation(vec![None, Some(owned("a")), Some(owned("b"))]), Some(owned("a")));
    assert_eq!(continuation(vec![None, None]), None);
    assert_eq!(continuation(vec![]), None);
}

fn loaded(picks: Vec<u32>, next: Option<&str>) -> Page<u32> {
    Page::Loaded { quick_picks: picks, next: next.map(owned) }
}

fn started(picks: Vec<u32>, next: Option<&str>) -> HomePages<u32, u32> {
    HomePages::new(vec![8], vec![9], picks, next.map(owned))
}

fn feed_of(pages: HomePages<u32, u32>) -> Vec<u32> {
    let feed: HomeFeed<u32, u32> = pages.anonymous_home();
    assert_eq!(feed.listen_again, [8]);
    assert_eq!(feed.sections, [9]);
    feed.quick_picks.unwrap()
}

#[test]
fn a_first_page_with_picks_is_enough() {
    let pages = started(vec![1], Some("t"));
    assert_eq!(pages.wants(), None);
    assert_eq!(feed_of(pages), [1]);
    let last = started(vec![], None);
    assert_eq!(last.wants(), None);
    assert!(feed_of(last).is_empty());
}

#[test]
fn pages_are_turned_until_one_has_picks() {
    let mut pages = started(vec![], Some("a"));
    assert_eq!(pages.wants().as_deref(), Some("a"));
    pages.turn(loaded(vec![], Some("b")));
    assert_eq!(pages.wants().as_deref(), Some("b"));
    pages.turn(loaded(vec![1, 2], Some("c")));
    assert_eq!(pages.wants(), None);
    assert_eq!(feed_of(pages), [1, 2]);
}

#[test]
fn no_more_pages_are_turned_than_the_limit() {
    assert_eq!(HOME_PAGE_LIMIT, 6);
    let mut pages = started(vec![], Some("a"));
    let mut asked = 0;
    while pages.wants().is_some() {
        pages.turn(loaded(vec![], Some("on")));
        asked += 1;
    }
    assert_eq!(asked, 6);
    assert!(feed_of(pages).is_empty());
}

#[test]
fn a_page_that_does_not_come_ends_the_search() {
    let mut pages = started(vec![], Some("a"));
    pages.turn(Page::Failed);
    assert_eq!(pages.wants(), None);
    assert!(feed_of(pages).is_empty());
}

#[test]
fn quick_picks_are_cut() {
    let pages = started((0..40).collect(), None);
    assert_eq!(feed_of(pages), (0..15).collect::<Vec<u32>>());
}

fn general() -> HomeFeed<u32, u32> {
    HomeFeed { listen_again: vec![1], quick_picks: Some(vec![2]), sections: vec![3] }
}

#[test]
fn tracks_of_the_user_come_first() {
    let personal = home(vec![4], vec![5], general());
    assert_eq!(personal.quick_picks, Some(vec![4]));
    assert_eq!(personal.listen_again, [5]);
    assert_eq!(personal.sections, [3]);
    let plain = home(vec![], vec![], general());
    assert_eq!(plain.quick_picks, Some(vec![2]));
    assert_eq!(plain.listen_again, [1]);
    let mixed = home(vec![], vec![5], general());
    assert_eq!(mixed.quick_picks, Some(vec![2]));
    assert_eq!(mixed.listen_again, [5]);
}

fn browse_of(call: Call) -> (Vec<(String, String)>, bool) {
    match call {
        Call::ExecuteWith { endpoint, client, body, signed_out } => {
            assert_eq!(endpoint, "browse");
            assert_eq!(client, ClientKind::Music);
            (body, signed_out)
        }
        _ => panic!("a call that browses"),
    }
}

#[test]
fn pages_are_browsed_by_name() {
    let member = |name: &str, value: &str| (owned(name), owned(value));
    assert_eq!(browse_of(home_call(false)), (vec![member("browseId", "FEmusic_home")], true));
    assert_eq!(browse_of(home_call(true)), (vec![member("browseId", "FEmusic_home")], false));
    assert_eq!(browse_of(continuation_call("t", true)), (vec![member("continuation", "t")], false));
    assert_eq!(
        browse_of(genres_call(false)),
        (vec![member("browseId", "FEmusic_moods_and_genres")], true)
    );
    assert_eq!(
        browse_of(genre_call("p", false)),
        (
            vec![member("browseId", "FEmusic_moods_and_genres_category"), member("params", "p")],
            true
        )
    );
}

#[test]
fn personal_pages_are_asked_for_with_an_account_only() {
    assert!(personal_calls(false).is_empty());
    assert_eq!(personal_calls(true).len(), 2);
    match my_mix_call() {
        Call::Execute { endpoint, client, body } => {
            assert_eq!(endpoint, "next");
            assert_eq!(client, ClientKind::Music);
            assert_eq!(body, [(owned("playlistId"), owned("RDMM"))]);
        }
        _ => panic!("a call to an endpoint"),
    }
    assert!(matches!(last_played_call(), Call::Library { page: "FEmusic_last_played" }));
}

#[test]
fn paths_lead_to_what_is_read() {
    assert_eq!(paths::TILE, "tileRenderer");
    assert_eq!(paths::GRID, "gridRenderer");
    assert_eq!(paths::SHELF, "musicCarouselShelfRenderer");
    assert_eq!(paths::CONTINUATION, "nextContinuationData");
    assert_eq!(paths::CONTINUATION_TOKEN, ["continuation"]);
    assert_eq!(paths::GRID_ITEMS, ["items"]);
    assert_eq!(paths::BUTTON_PARAMS, ["clickCommand", "browseEndpoint", "params"]);
    assert_eq!(paths::BUTTON_TEXT, ["buttonText"]);
    assert_eq!(paths::GENRE_NAME, ["header", "musicHeaderRenderer", "title"]);
    assert_eq!(
        paths::SHELF_TITLE,
        ["header", "musicCarouselShelfBasicHeaderRenderer", "title"]
    );
    assert_eq!(paths::SHELF_ITEMS, ["contents"]);
    assert_eq!(paths::ROW, ["musicTwoRowItemRenderer"]);
    assert_eq!(
        paths::ROW_PAGE_TYPE,
        [
            "navigationEndpoint",
            "browseEndpoint",
            "browseEndpointContextSupportedConfigs",
            "browseEndpointContextMusicConfig",
            "pageType",
        ]
    );
    assert_eq!(
        paths::ROW_ENDPOINT,
        [
            "thumbnailOverlay",
            "musicItemThumbnailOverlayRenderer",
            "content",
            "musicPlayButtonRenderer",
            "playNavigationEndpoint",
            "watchEndpoint",
        ]
    );
    assert_eq!(paths::ENDPOINT_VIDEO, ["videoId"]);
    assert_eq!(
        paths::ENDPOINT_VIDEO_TYPE,
        [
            "watchEndpointMusicSupportedConfigs",
            "watchEndpointMusicConfig",
            "musicVideoType",
        ]
    );
    assert_eq!(paths::ROW_ARTISTS, ["subtitle"]);
    assert_eq!(paths::ROW_TITLE, ["title"]);
}

#[test]
fn tiles_that_cannot_be_read_are_left_out() {
    let tiles = readable(vec![
        None,
        Some(tile(Some("1"), "A", &[], 1)),
        None,
        Some(tile(None, "B", &[], 2)),
    ]);
    let found: Vec<u32> = tiles.iter().map(|tile| tile.track).collect();
    assert_eq!(found, [1, 2]);
    assert!(readable::<u32>(vec![None]).is_empty());
}

#[test]
fn the_shelves_of_tracks_have_their_titles() {
    let shelves = || {
        vec![
            entries(Some("Quick picks"), vec![Entry { listed: Some(1), row: None }]),
            entries(Some("Listen again"), vec![Entry { listed: Some(2), row: None }]),
        ]
    };
    assert!(matches!(quick_picks(shelves())[0].track, Found::Listed(1)));
    let (again, picks) = home_tracks(shelves());
    assert!(matches!(again[0].track, Found::Listed(2)));
    assert!(matches!(picks[0].track, Found::Listed(1)));
    assert_eq!((again.len(), picks.len()), (1, 1));
    let mut repeated = shelves();
    repeated.push(entries(Some("Listen again"), vec![Entry { listed: Some(3), row: None }]));
    let (again, _) = home_tracks(repeated);
    assert_eq!(again.len(), 1);
    assert!(matches!(again[0].track, Found::Listed(2)));
    let (again, picks) = home_tracks::<u32, u32>(vec![]);
    assert!(again.is_empty() && picks.is_empty());
}

#[test]
fn further_pages_are_called_for_by_the_token_before() {
    let mut pages = started(vec![], Some("a"));
    let member = |value: &str| vec![(owned("continuation"), owned(value))];
    assert_eq!(browse_of(pages.call(true).unwrap()), (member("a"), false));
    pages.turn(loaded(vec![], Some("b")));
    assert_eq!(browse_of(pages.call(false).unwrap()), (member("b"), true));
    pages.turn(loaded(vec![4], Some("c")));
    assert!(pages.call(true).is_none());
    assert!(started(vec![1], Some("a")).call(true).is_none());
}

#[test]
fn the_first_page_gives_all_but_the_quick_picks() {
    let shelves = vec![
        entries(Some("Listen again"), vec![Entry { listed: Some(1), row: None }]),
        entries(Some("Quick picks"), vec![Entry { listed: None, row: None }]),
    ];
    let nodes = vec![
        Shelf { title: Some(owned("Listen again")), items: vec![node(Some(1), None)] },
        Shelf { title: Some(owned("New")), items: vec![node(Some(2), None)] },
    ];
    let mut pages = first_page(shelves, nodes, vec![None, Some(owned("t"))]);
    assert_eq!(pages.wants().as_deref(), Some("t"));
    pages.turn(further_page(
        vec![
            entries(Some("Listen again"), vec![Entry { listed: Some(8), row: None }]),
            entries(Some("Quick picks"), vec![Entry { listed: Some(9), row: None }]),
        ],
        vec![],
    ));
    assert!(pages.call(true).is_none());
    let feed = pages.anonymous_home();
    assert_eq!(feed.listen_again.len(), 1);
    assert!(matches!(feed.listen_again[0].track, Found::Listed(1)));
    assert!(matches!(feed.quick_picks.unwrap()[0].track, Found::Listed(9)));
    let titles: Vec<&str> = feed.sections.iter().map(|section| section.title.as_str()).collect();
    assert_eq!(titles, ["New"]);
}
