use vstd::prelude::*;

use crate::extensions::{extensions_view, project_extensions};
use crate::library::{lookup, LibraryBucket};
use crate::loadable::Loadable;
use crate::runtime::Profile;
use crate::selection::{
    addon_index, as_index, attributed_primary, find_addon, primary_index, select_attributed_primary,
    select_primary,
};
use crate::title::{derive_title, title_view};
use crate::types::{
    Descriptor, MetaDetailsState, MetaItemInfo, ResourceError, ResourceRequest, ResourceSlot,
    Selected, StreamInfo, VideoInfo,
};

verus! {

/// What the projection reads besides the screen's slots; `now` is a timestamp in milliseconds.
#[derive(Debug, Clone)]
pub struct Ctx {
    pub profile: Profile,
    pub library: LibraryBucket,
    pub now: i64,
}

#[derive(Debug)]
pub struct ManifestPreview<'a> {
    pub id: &'a String,
    pub name: &'a String,
    pub logo: &'a Option<String>,
}

#[derive(Debug)]
pub struct DescriptorPreview<'a> {
    pub manifest: ManifestPreview<'a>,
    pub transport_url: &'a String,
}

/// Where a stream was found, and the catalog item it was asked for: what its
/// deep link is built from.
#[derive(Debug)]
pub struct StreamContext<'a> {
    pub stream_request: &'a ResourceRequest,
    pub meta_request: &'a ResourceRequest,
}

#[derive(Debug)]
pub struct Stream<'a> {
    pub stream: &'a StreamInfo,
    pub context: Option<StreamContext<'a>>,
}

/// A video with what the screen derives for it; `request` is the fetch that
/// brought its item, from which its deep link is built.
#[derive(Debug)]
pub struct Video<'a> {
    pub video: &'a VideoInfo,
    pub upcoming: bool,
    pub watched: bool,
    pub progress: Option<u32>,
    pub scheduled: bool,
    pub request: &'a ResourceRequest,
}

#[derive(Debug)]
pub struct MetaItem<'a> {
    pub meta_item: &'a MetaItemInfo,
    pub videos: Vec<Video<'a>>,
    pub trailer_streams: Vec<Stream<'a>>,
    pub in_library: bool,
}

#[derive(Debug)]
pub struct ResourceLoadable<'a, T> {
    pub content: Loadable<T, &'a ResourceError>,
    pub addon: DescriptorPreview<'a>,
}

#[derive(Debug)]
pub struct MetaExtension<'a> {
    pub url: &'a String,
    pub name: &'a String,
    pub addon: DescriptorPreview<'a>,
}

/// The details screen as the presentation layer receives it.
#[derive(Debug)]
pub struct MetaDetails<'a> {
    pub selected: &'a Option<Selected>,
    pub meta_item: Option<ResourceLoadable<'a, MetaItem<'a>>>,
    pub streams: Vec<ResourceLoadable<'a, Vec<Stream<'a>>>>,
    pub meta_extensions: Vec<MetaExtension<'a>>,
    pub title: Option<String>,
}

pub open spec fn preview_of(p: DescriptorPreview<'_>, d: Descriptor) -> bool {
    &&& *p.transport_url == d.transport_url
    &&& *p.manifest.id == d.manifest.id
    &&& *p.manifest.name == d.manifest.name
    &&& *p.manifest.logo == d.manifest.logo
}

/// A video is upcoming when its provider says that scheduled videos exist and
/// the item has no release date yet, or one after `now`.
pub open spec fn is_upcoming(item: MetaItemInfo, now: i64) -> bool {
    item.behavior_hints.has_scheduled_videos && match item.released {
        Some(t) => t > now,
        None => true,
    }
}

pub open spec fn in_library(library: LibraryBucket, id: Seq<char>) -> bool {
    lookup(library.items@, id) matches Some(e) && !e.removed
}

pub open spec fn video_of(
    v: Video<'_>,
    video: VideoInfo,
    item: MetaItemInfo,
    request: ResourceRequest,
    now: i64,
) -> bool {
    &&& *v.video == video
    &&& v.upcoming == is_upcoming(item, now)
    &&& !v.watched
    &&& v.progress is None
    &&& v.scheduled == item.behavior_hints.has_scheduled_videos
    &&& *v.request == request
}

pub open spec fn meta_item_of(
    m: MetaItem<'_>,
    item: MetaItemInfo,
    request: ResourceRequest,
    ctx: Ctx,
) -> bool {
    &&& *m.meta_item == item
    &&& m.videos@.len() == item.videos@.len()
    &&& forall|i: int|
        0 <= i < item.videos@.len() ==> video_of(
            #[trigger] m.videos@[i],
            item.videos@[i],
            item,
            request,
            ctx.now,
        )
    &&& m.trailer_streams@.len() == item.trailer_streams@.len()
    &&& forall|i: int|
        0 <= i < item.trailer_streams@.len() ==> *(#[trigger] m.trailer_streams@[i]).stream
            == item.trailer_streams@[i] && m.trailer_streams@[i].context is None
    &&& m.in_library == in_library(ctx.library, item.id@)
}

pub open spec fn meta_content_of(
    c: Loadable<MetaItem<'_>, &ResourceError>,
    slot: ResourceSlot<MetaItemInfo>,
    ctx: Ctx,
) -> bool {
    match slot.content {
        Loadable::Loading => c is Loading,
        Loadable::Error(e) => c matches Loadable::Error(x) && *x == e,
        Loadable::Ready(item) => c matches Loadable::Ready(m) && meta_item_of(
            m,
            item,
            slot.request,
            ctx,
        ),
    }
}

/// The primary meta slot, shown with its provider; absent when there is no
/// primary slot or its provider is not installed.
pub open spec fn meta_item_view(
    r: Option<ResourceLoadable<'_, MetaItem<'_>>>,
    s: MetaDetailsState,
    ctx: Ctx,
) -> bool {
    match primary_index(s.meta_items@) {
        None => r is None,
        Some(k) => match addon_index(ctx.profile.addons@, s.meta_items@[k].request.base@) {
            None => r is None,
            Some(a) => r matches Some(v) && preview_of(v.addon, ctx.profile.addons@[a])
                && meta_content_of(v.content, s.meta_items@[k], ctx),
        },
    }
}

/// The request of the primary meta slot, if there is one and its provider is installed.
pub open spec fn primary_request(s: MetaDetailsState, addons: Seq<Descriptor>) -> Option<ResourceRequest> {
    match attributed_primary(s.meta_items@, addons) {
        Some(k) => Some(s.meta_items@[k].request),
        None => None,
    }
}

pub open spec fn stream_of(
    v: Stream<'_>,
    stream: StreamInfo,
    request: ResourceRequest,
    meta_request: Option<ResourceRequest>,
) -> bool {
    &&& *v.stream == stream
    &&& match meta_request {
        Some(mr) => v.context matches Some(c) && *c.stream_request == request && *c.meta_request
            == mr,
        None => v.context is None,
    }
}

pub open spec fn stream_content_of(
    c: Loadable<Vec<Stream<'_>>, &ResourceError>,
    slot: ResourceSlot<Vec<StreamInfo>>,
    meta_request: Option<ResourceRequest>,
) -> bool {
    match slot.content {
        Loadable::Loading => c is Loading,
        Loadable::Error(e) => c matches Loadable::Error(x) && *x == e,
        Loadable::Ready(streams) => c matches Loadable::Ready(v) && v@.len() == streams@.len() && (
        forall|i: int|
            0 <= i < streams@.len() ==> stream_of(
                #[trigger] v@[i],
                streams@[i],
                slot.request,
                meta_request,
            )),
    }
}

/// The positions among the first `n` slots of those whose provider is installed.
pub open spec fn attributed<T>(slots: Seq<ResourceSlot<T>>, addons: Seq<Descriptor>, n: int) -> Seq<
    int,
>
    decreases n,
{
    if n <= 0 {
        Seq::empty()
    } else if addon_index(addons, slots[n - 1].request.base@) is Some {
        attributed(slots, addons, n - 1).push(n - 1)
    } else {
        attributed(slots, addons, n - 1)
    }
}

/// Every stream slot whose provider is installed, in order, each with its provider.
pub open spec fn streams_view(
    r: Seq<ResourceLoadable<'_, Vec<Stream<'_>>>>,
    s: MetaDetailsState,
    ctx: Ctx,
) -> bool {
    let idx = attributed(s.streams@, ctx.profile.addons@, s.streams@.len() as int);
    &&& r.len() == idx.len()
    &&& forall|t: int|
        0 <= t < idx.len() ==> {
            let slot = s.streams@[idx[t]];
            &&& addon_index(ctx.profile.addons@, slot.request.base@) matches Some(a)
                && preview_of((#[trigger] r[t]).addon, ctx.profile.addons@[a])
            &&& stream_content_of(r[t].content, slot, primary_request(s, ctx.profile.addons@))
        }
}

pub fn preview<'a>(d: &'a Descriptor) -> (r: DescriptorPreview<'a>)
    ensures
        preview_of(r, *d),
{
    DescriptorPreview {
        manifest: ManifestPreview { id: &d.manifest.id, name: &d.manifest.name, logo: &d.manifest.logo },
        transport_url: &d.transport_url,
    }
}

pub fn upcoming(item: &MetaItemInfo, now: i64) -> (r: bool)
    ensures
        r == is_upcoming(*item, now),
{
    item.behavior_hints.has_scheduled_videos && match item.released {
        Some(t) => t > now,
        None => true,
    }
}

/// Enriches a loaded catalog item for display.
pub fn project_meta_item<'a>(item: &'a MetaItemInfo, request: &'a ResourceRequest, ctx: &Ctx) -> (r:
    MetaItem<'a>)
    requires
        ctx.library.wf(),
    ensures
        meta_item_of(r, *item, *request, *ctx),
{
    let video_upcoming = upcoming(item, ctx.now);
    let scheduled = item.behavior_hints.has_scheduled_videos;
    let mut videos: Vec<Video<'a>> = Vec::new();
    let n = item.videos.len();
    let mut i: usize = 0;
    while i < n
        invariant
            n == item.videos@.len(),
            i <= n,
            video_upcoming == is_upcoming(*item, ctx.now),
            scheduled == item.behavior_hints.has_scheduled_videos,
            videos@.len() == i,
            forall|j: int|
                0 <= j < i ==> video_of(#[trigger] videos@[j], item.videos@[j], *item, *request, ctx.now),
        decreases n - i,
    {
        videos.push(
            Video {
                video: &item.videos[i],
                upcoming: video_upcoming,
                watched: false,
                progress: None,
                scheduled,
                request,
            },
        );
        i = i + 1;
    }
    let mut trailer_streams: Vec<Stream<'a>> = Vec::new();
    let m = item.trailer_streams.len();
    let mut i: usize = 0;
    while i < m
        invariant
            m == item.trailer_streams@.len(),
            i <= m,
            trailer_streams@.len() == i,
            forall|j: int|
                0 <= j < i ==> *(#[trigger] trailer_streams@[j]).stream == item.trailer_streams@[j]
                    && trailer_streams@[j].context is None,
        decreases m - i,
    {
        trailer_streams.push(Stream { stream: &item.trailer_streams[i], context: None });
        i = i + 1;
    }
    let in_library = ctx.library.contains_active(&item.id);
    MetaItem { meta_item: item, videos, trailer_streams, in_library }
}

fn project_meta_content<'a>(slot: &'a ResourceSlot<MetaItemInfo>, ctx: &Ctx) -> (r: Loadable<
    MetaItem<'a>,
    &'a ResourceError,
>)
    requires
        ctx.library.wf(),
    ensures
        meta_content_of(r, *slot, *ctx),
{
    match &slot.content {
        Loadable::Loading => Loadable::Loading,
        Loadable::Error(e) => Loadable::Error(e),
        Loadable::Ready(item) => Loadable::Ready(project_meta_item(item, &slot.request, ctx)),
    }
}

/// The primary meta slot with its provider, for display.
pub fn project_primary<'a>(state: &'a MetaDetailsState, ctx: &'a Ctx) -> (r: Option<
    ResourceLoadable<'a, MetaItem<'a>>,
>)
    requires
        ctx.library.wf(),
    ensures
        meta_item_view(r, *state, *ctx),
{
    match select_primary(&state.meta_items) {
        None => None,
        Some(k) => {
            let slot = &state.meta_items[k];
            match find_addon(&ctx.profile.addons, &slot.request.base) {
                None => None,
                Some(a) => Some(
                    ResourceLoadable {
                        content: project_meta_content(slot, ctx),
                        addon: preview(&ctx.profile.addons[a]),
                    },
                ),
            }
        },
    }
}

fn project_stream_content<'a>(
    slot: &'a ResourceSlot<Vec<StreamInfo>>,
    meta_request: Option<&'a ResourceRequest>,
) -> (r: Loadable<Vec<Stream<'a>>, &'a ResourceError>)
    ensures
        stream_content_of(
            r,
            *slot,
            match meta_request {
                Some(mr) => Some(*mr),
                None => None,
            },
        ),
{
    match &slot.content {
        Loadable::Loading => Loadable::Loading,
        Loadable::Error(e) => Loadable::Error(e),
        Loadable::Ready(streams) => {
            let ghost mr = match meta_request {
                Some(mr) => Some(*mr),
                None => None,
            };
            let mut out: Vec<Stream<'a>> = Vec::new();
            let n = streams.len();
            let mut i: usize = 0;
            while i < n
                invariant
                    n == streams@.len(),
                    i <= n,
                    out@.len() == i,
                    mr == match meta_request {
                        Some(m) => Some(*m),
                        None => None::<ResourceRequest>,
                    },
                    forall|j: int|
                        0 <= j < i ==> stream_of(#[trigger] out@[j], streams@[j], slot.request, mr),
                decreases n - i,
            {
                let context = match meta_request {
                    Some(m) => Some(StreamContext { stream_request: &slot.request, meta_request: m }),
                    None => None,
                };
                out.push(Stream { stream: &streams[i], context });
                i = i + 1;
            }
            Loadable::Ready(out)
        },
    }
}

/// Every stream slot whose provider is installed, for display; links point
/// back to the primary meta slot's request when there is one and its provider
/// is installed.
pub fn project_streams<'a>(state: &'a MetaDetailsState, ctx: &'a Ctx) -> (r: Vec<
    ResourceLoadable<'a, Vec<Stream<'a>>>,
>)
    ensures
        streams_view(r@, *state, *ctx),
{
    let meta_request = match select_attributed_primary(&state.meta_items, &ctx.profile.addons) {
        Some(k) => Some(&state.meta_items[k].request),
        None => None,
    };
    let ghost mr = primary_request(*state, ctx.profile.addons@);
    assert(mr == match meta_request {
        Some(m) => Some(*m),
        None => None::<ResourceRequest>,
    });
    let addons = &ctx.profile.addons;
    let mut out: Vec<ResourceLoadable<'a, Vec<Stream<'a>>>> = Vec::new();
    let n = state.streams.len();
    let mut i: usize = 0;
    while i < n
        invariant
            n == state.streams@.len(),
            i <= n,
            addons == &ctx.profile.addons,
            mr == primary_request(*state, ctx.profile.addons@),
            mr == match meta_request {
                Some(m) => Some(*m),
                None => None::<ResourceRequest>,
            },
            out@.len() == attributed(state.streams@, addons@, i as int).len(),
            forall|t: int|
                0 <= t < out@.len() ==> {
                    let slot = state.streams@[attributed(state.streams@, addons@, i as int)[t]];
                    &&& addon_index(addons@, slot.request.base@) matches Some(a) && preview_of(
                        (#[trigger] out@[t]).addon,
                        addons@[a],
                    )
                    &&& stream_content_of(out@[t].content, slot, mr)
                },
        decreases n - i,
    {
        let slot = &state.streams[i];
        match find_addon(addons, &slot.request.base) {
            Some(a) => {
                out.push(
                    ResourceLoadable {
                        content: project_stream_content(slot, meta_request),
                        addon: preview(&addons[a]),
                    },
                );
            },
            None => {},
        }
        i = i + 1;
    }
    out
}

} // verus!

verus! {

/// The details screen for the presentation layer: the primary meta slot with
/// its provider, every attributed stream slot, the linked catalog items and the
/// title; built from borrowed parts, valid for this one call.
pub fn serialize_meta_details<'a>(meta_details: &'a MetaDetailsState, ctx: &'a Ctx) -> (r: MetaDetails<'a>)
    requires
        ctx.library.wf(),
    ensures
        *r.selected == meta_details.selected,
        meta_item_view(r.meta_item, *meta_details, *ctx),
        streams_view(r.streams@, *meta_details, *ctx),
        extensions_view(r.meta_extensions@, *meta_details, *ctx),
        title_view(r.title, *meta_details, ctx.profile.addons@),
{
    MetaDetails {
        selected: &meta_details.selected,
        meta_item: project_primary(meta_details, ctx),
        streams: project_streams(meta_details, ctx),
        meta_extensions: project_extensions(meta_details, ctx),
        title: derive_title(meta_details, &ctx.profile.addons),
    }
}

} // verus!
