//! The records of a track search: tracks, their album, and its artists.
use vstd::prelude::*;

verus! {

/// A link to the resource's page in the web player.
#[derive(Debug)]
pub struct ExternalUrls {
    pub spotify: String,
}

/// An artist credited on an album.
#[derive(Debug)]
pub struct Artist {
    pub name: String,
    pub external_urls: ExternalUrls,
}

/// An album; its artists stand in the order the catalogue lists them.
#[derive(Debug)]
pub struct Album {
    pub name: String,
    pub artists: Vec<Artist>,
    pub external_urls: ExternalUrls,
}

/// A track with the album it belongs to.
///
/// `popularity` is carried through as the catalogue gave it; nothing here
/// bounds it.
#[derive(Debug)]
pub struct Track {
    pub name: String,
    pub album: Album,
    pub href: String,
    pub popularity: u32,
    pub external_urls: ExternalUrls,
}

/// The track facet of a search: the matching tracks in catalogue order.
#[derive(Debug)]
pub struct Items {
    pub items: Vec<Track>,
}

} // verus!
