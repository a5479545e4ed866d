//! One page of a show's playlist.

use crate::web::Url;
use vstd::prelude::*;

verus! {

/// The document of one page of a playlist.
#[derive(Debug)]
pub struct Playlist {
    pub href: Url,
    pub playlist_type: String,
    pub title: String,
    pub image_url: Url,
    pub feed_url: Url,
    pub episodes: Episodes,
}

/// The episodes of a page, and where the page stands among the pages.
#[derive(Debug)]
pub struct Episodes {
    pub pages: Pages,
    pub collection: Vec<Episode>,
}

/// Where a page stands among the pages: the links to its neighbours are
/// absent at either end.
#[derive(Debug)]
pub struct Pages {
    pub total: usize,
    pub previous: Option<Link>,
    pub next: Option<Link>,
    pub limit: usize,
    pub current: usize,
}

/// A link to a page.
#[derive(Debug)]
pub struct Link {
    pub href: Url,
}

/// An episode as a playlist lists it.
#[derive(Debug)]
pub struct Episode {
    pub episode_type: String,
    pub title: String,
    pub season_number: Option<usize>,
    pub number: Option<usize>,
    pub image_url: Option<Url>,
    pub id: String,
    pub enclosure_url: Url,
    pub duration: usize,
}

} // verus!
