//! Where the pages keep what is read of them: the renderers to look for, and the members that
//! lead to a value.

use vstd::prelude::*;

verus! {

/// A tile of a mix.
pub const TILE: &'static str = "tileRenderer";

/// A grid of genre cards.
pub const GRID: &'static str = "gridRenderer";

/// A shelf.
pub const SHELF: &'static str = "musicCarouselShelfRenderer";

/// What names the page after this one.
pub const CONTINUATION: &'static str = "nextContinuationData";

/// The token in it.
pub const CONTINUATION_TOKEN: [&'static str; 1] = ["continuation"];

/// The cards of a grid.
pub const GRID_ITEMS: [&'static str; 1] = ["items"];

/// The parameters on the button of a card.
pub const BUTTON_PARAMS: [&'static str; 3] = ["clickCommand", "browseEndpoint", "params"];

/// The text of the button of a card.
pub const BUTTON_TEXT: [&'static str; 1] = ["buttonText"];

/// The name of a genre on its page.
pub const GENRE_NAME: [&'static str; 3] = ["header", "musicHeaderRenderer", "title"];

/// The title of a shelf.
pub const SHELF_TITLE: [&'static str; 3] = [
    "header",
    "musicCarouselShelfBasicHeaderRenderer",
    "title",
];

/// The items of a shelf.
pub const SHELF_ITEMS: [&'static str; 1] = ["contents"];

/// A two-row item.
pub const ROW: [&'static str; 1] = ["musicTwoRowItemRenderer"];

/// The type of the page that a two-row item leads to.
pub const ROW_PAGE_TYPE: [&'static str; 5] = [
    "navigationEndpoint",
    "browseEndpoint",
    "browseEndpointContextSupportedConfigs",
    "browseEndpointContextMusicConfig",
    "pageType",
];

/// How a two-row item is played.
pub const ROW_ENDPOINT: [&'static str; 6] = [
    "thumbnailOverlay",
    "musicItemThumbnailOverlayRenderer",
    "content",
    "musicPlayButtonRenderer",
    "playNavigationEndpoint",
    "watchEndpoint",
];

/// The video that an endpoint plays.
pub const ENDPOINT_VIDEO: [&'static str; 1] = ["videoId"];

/// The type of that video.
pub const ENDPOINT_VIDEO_TYPE: [&'static str; 3] = [
    "watchEndpointMusicSupportedConfigs",
    "watchEndpointMusicConfig",
    "musicVideoType",
];

/// The line of a two-row item that names the artists.
pub const ROW_ARTISTS: [&'static str; 1] = ["subtitle"];

/// The title of a two-row item.
pub const ROW_TITLE: [&'static str; 1] = ["title"];

} // verus!
