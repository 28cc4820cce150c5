use vstd::prelude::*;

use crate::loadable::Loadable;

verus! {

/// What an installed provider declares about itself.
#[derive(Debug, Clone)]
pub struct Manifest {
    pub id: String,
    pub name: String,
    pub logo: Option<String>,
}

/// An installed provider, keyed by its transport URL (in its serialized form).
#[derive(Debug, Clone)]
pub struct Descriptor {
    pub transport_url: String,
    pub manifest: Manifest,
    pub official: bool,
}

/// Which provider a fetch was sent to, and which resource it asked for.
#[derive(Debug, Clone)]
pub struct ResourceRequest {
    pub base: String,
    pub path: String,
}

/// Why a fetch failed.
#[derive(Debug, Clone)]
pub struct ResourceError {
    pub message: String,
}

/// One fetch: its request and its outcome so far.
#[derive(Debug, Clone)]
pub struct ResourceSlot<T> {
    pub request: ResourceRequest,
    pub content: Loadable<T, ResourceError>,
}

#[derive(Debug, Clone)]
pub struct Link {
    pub name: String,
    pub category: String,
    pub url: String,
}

#[derive(Debug, Clone, Copy)]
pub struct SeriesInfo {
    pub season: u32,
    pub episode: u32,
}

#[derive(Debug, Clone)]
pub struct VideoInfo {
    pub id: String,
    pub title: String,
    pub released: Option<i64>,
    pub series_info: Option<SeriesInfo>,
}

#[derive(Debug, Clone)]
pub struct StreamInfo {
    pub url: String,
    pub title: Option<String>,
}

#[derive(Debug, Clone)]
pub struct BehaviorHints {
    pub has_scheduled_videos: bool,
    pub default_video_id: Option<String>,
}

/// A catalog item as a provider describes it; `released` is a timestamp in milliseconds.
#[derive(Debug, Clone)]
pub struct MetaItemInfo {
    pub id: String,
    pub name: String,
    pub released: Option<i64>,
    pub videos: Vec<VideoInfo>,
    pub links: Vec<Link>,
    pub trailer_streams: Vec<StreamInfo>,
    pub behavior_hints: BehaviorHints,
}

#[derive(Debug, Clone)]
pub struct StreamPath {
    pub id: String,
}

/// What the details screen currently shows.
#[derive(Debug, Clone)]
pub struct Selected {
    pub meta_path: ResourceRequest,
    pub stream_path: Option<StreamPath>,
}

/// The fetches that feed the details screen, in the order they were issued.
#[derive(Debug, Clone)]
pub struct MetaDetailsState {
    pub selected: Option<Selected>,
    pub meta_items: Vec<ResourceSlot<MetaItemInfo>>,
    pub streams: Vec<ResourceSlot<Vec<StreamInfo>>>,
}

} // verus!
