use stremio_core_web::loadable::Loadable;
use stremio_core_web::library::{LibraryBucket, LibraryItem};
use stremio_core_web::meta_details::{serialize_meta_details, Ctx};
use stremio_core_web::runtime::Profile;
use stremio_core_web::selection::select_primary;
use stremio_core_web::title::{decimal_string, format_video_title};
use stremio_core_web::types::{
    BehaviorHints, Descriptor, Link, Manifest, MetaDetailsState, MetaItemInfo, ResourceError,
    ResourceRequest, ResourceSlot, Selected, SeriesInfo, StreamInfo, StreamPath, VideoInfo,
};

fn request(base: &str, path: &str) -> ResourceRequest {
    ResourceRequest { base: base.to_string(), path: path.to_string() }
}

fn addon(url: &str, id: &str) -> Descriptor {
    Descriptor {
        transport_url: url.to_string(),
        manifest: Manifest { id: id.to_string(), name: format!("{} addon", id), logo: None },
        official: false,
    }
}

fn video(id: &str, title: &str, series: Option<(u32, u32)>) -> VideoInfo {
    VideoInfo {
        id: id.to_string(),
        title: title.to_string(),
        released: None,
        series_info: series.map(|(season, episode)| SeriesInfo { season, episode }),
    }
}

fn link(category: &str, url: &str, name: &str) -> Link {
    Link { name: name.to_string(), category: category.to_string(), url: url.to_string() }
}

fn item(id: &str, name: &str) -> MetaItemInfo {
    MetaItemInfo {
        id: id.to_string(),
        name: name.to_string(),
        released: None,
        videos: vec![],
        links: vec![],
        trailer_streams: vec![],
        behavior_hints: BehaviorHints { has_scheduled_videos: false, default_video_id: None },
    }
}

fn slot<T>(base: &str, content: Loadable<T, ResourceError>) -> ResourceSlot<T> {
    ResourceSlot { request: request(base, "meta/movie/x"), content }
}

fn failed<T>() -> Loadable<T, ResourceError> {
    Loadable::Error(ResourceError { message: "boom".to_string() })
}

fn ctx(addons: Vec<Descriptor>, items: Vec<LibraryItem>, now: i64) -> Ctx {
    Ctx {
        profile: Profile { uid: None, addons },
        library: LibraryBucket { uid: None, items },
        now,
    }
}

fn state(meta_items: Vec<ResourceSlot<MetaItemInfo>>) -> MetaDetailsState {
    MetaDetailsState { selected: None, meta_items, streams: vec![] }
}

#[test]
fn primary_is_first_ready_slot() {
    let slots = vec![
        slot("a", failed()),
        slot("b", Loadable::Loading),
        slot("c", Loadable::Ready(item("x", "X"))),
        slot("d", Loadable::Ready(item("y", "Y"))),
    ];
    assert_eq!(select_primary(&slots), Some(2));
}

#[test]
fn primary_is_first_slot_when_all_failed() {
    let slots: Vec<ResourceSlot<MetaItemInfo>> = vec![slot("a", failed()), slot("b", failed())];
    assert_eq!(select_primary(&slots), Some(0));
}

#[test]
fn primary_is_first_loading_slot_without_ready() {
    let slots: Vec<ResourceSlot<MetaItemInfo>> =
        vec![slot("a", failed()), slot("b", Loadable::Loading), slot("c", Loadable::Loading)];
    assert_eq!(select_primary(&slots), Some(1));
}

#[test]
fn primary_is_absent_without_slots() {
    let slots: Vec<ResourceSlot<MetaItemInfo>> = vec![];
    assert_eq!(select_primary(&slots), None);
}

#[test]
fn failed_primary_surfaces_its_error() {
    let mut first = slot::<MetaItemInfo>("a", failed());
    first.content = Loadable::Error(ResourceError { message: "first".to_string() });
    let s = state(vec![first, slot("a", failed())]);
    let c = ctx(vec![addon("a", "one")], vec![], 0);
    let r = serialize_meta_details(&s, &c);
    match r.meta_item.unwrap().content {
        Loadable::Error(e) => assert_eq!(e.message, "first"),
        _ => panic!("expected the first error"),
    }
    assert_eq!(r.title, None);
}

#[test]
fn unattributed_primary_is_dropped() {
    let s = state(vec![slot("gone", Loadable::Ready(item("x", "X")))]);
    let c = ctx(vec![addon("a", "one")], vec![], 0);
    let r = serialize_meta_details(&s, &c);
    assert!(r.meta_item.is_none());
    assert_eq!(r.title, None);
}

#[test]
fn streams_ignore_unattributed_primary() {
    let mut s = state(vec![slot("gone", Loadable::Ready(item("x", "X")))]);
    s.streams = vec![slot("two", Loadable::Ready(vec![StreamInfo { url: "u".to_string(), title: None }]))];
    let c = ctx(vec![addon("two", "second")], vec![], 0);
    let r = serialize_meta_details(&s, &c);
    match &r.streams[0].content {
        Loadable::Ready(v) => assert!(v[0].context.is_none()),
        _ => panic!("expected loaded streams"),
    }
}

#[test]
fn meta_extensions_keep_first_of_each_url() {
    let mut first = item("x", "X");
    first.links = vec![link("meta", "stremio:///a", "A"), link("genre", "stremio:///g", "G")];
    let mut second = item("x", "X");
    second.links = vec![link("meta", "stremio:///a", "A again"), link("meta", "stremio:///b", "B")];
    let s = state(vec![slot("one", Loadable::Ready(first)), slot("two", Loadable::Ready(second))]);
    let c = ctx(vec![addon("one", "first"), addon("two", "second")], vec![], 0);
    let r = serialize_meta_details(&s, &c);
    assert_eq!(r.meta_extensions.len(), 2);
    assert_eq!(r.meta_extensions[0].url, "stremio:///a");
    assert_eq!(r.meta_extensions[0].name, "A");
    assert_eq!(r.meta_extensions[0].addon.manifest.id, "first");
    assert_eq!(r.meta_extensions[1].url, "stremio:///b");
    assert_eq!(r.meta_extensions[1].addon.transport_url, "two");
}

#[test]
fn meta_extensions_skip_unloaded_and_unattributed_slots() {
    let mut orphan = item("x", "X");
    orphan.links = vec![link("meta", "stremio:///o", "O")];
    let s = state(vec![slot("gone", Loadable::Ready(orphan)), slot("one", Loadable::Loading)]);
    let c = ctx(vec![addon("one", "first")], vec![], 0);
    let r = serialize_meta_details(&s, &c);
    assert!(r.meta_extensions.is_empty());
}

fn titled(default_video: Option<&str>, selected_video: &str) -> Option<String> {
    let mut foo = item("tt1", "Foo");
    foo.videos = vec![video("v0", "Intro", None), video("v1", "Pilot", Some((2, 5)))];
    foo.behavior_hints.default_video_id = default_video.map(|v| v.to_string());
    let mut s = state(vec![slot("one", Loadable::Ready(foo))]);
    s.selected = Some(Selected {
        meta_path: request("one", "meta/series/tt1"),
        stream_path: Some(StreamPath { id: selected_video.to_string() }),
    });
    let c = ctx(vec![addon("one", "first")], vec![], 0);
    serialize_meta_details(&s, &c).title
}

#[test]
fn title_names_selected_episode() {
    assert_eq!(titled(None, "v1"), Some("Foo - Pilot (2x5)".to_string()));
}

#[test]
fn title_is_item_name_with_default_video() {
    assert_eq!(titled(Some("v1"), "v1"), Some("Foo".to_string()));
}

#[test]
fn title_is_item_name_for_unknown_video() {
    assert_eq!(titled(None, "v9"), Some("Foo".to_string()));
}

#[test]
fn title_without_series_info() {
    assert_eq!(titled(None, "v0"), Some("Foo - Intro".to_string()));
}

#[test]
fn video_title_writes_numbers_in_decimal() {
    let foo = item("tt1", "Foo");
    let v = video("v", "Ep", Some((12, 307)));
    assert_eq!(format_video_title(&foo, &v), "Foo - Ep (12x307)");
}

fn upcoming_with(released: Option<i64>) -> (bool, bool) {
    let mut foo = item("tt1", "Foo");
    foo.released = released;
    foo.behavior_hints.has_scheduled_videos = true;
    foo.videos = vec![video("v1", "Pilot", None)];
    let s = state(vec![slot("one", Loadable::Ready(foo))]);
    let c = ctx(vec![addon("one", "first")], vec![], 1000);
    let r = serialize_meta_details(&s, &c);
    match r.meta_item.unwrap().content {
        Loadable::Ready(m) => (m.videos[0].upcoming, m.videos[0].scheduled),
        _ => panic!("expected a loaded item"),
    }
}

#[test]
fn upcoming_without_release_date() {
    assert_eq!(upcoming_with(None), (true, true));
}

#[test]
fn not_upcoming_after_release() {
    assert_eq!(upcoming_with(Some(999)), (false, true));
}

#[test]
fn upcoming_before_release() {
    assert_eq!(upcoming_with(Some(1001)), (true, true));
}

fn in_library_with(items: Vec<LibraryItem>) -> bool {
    let s = state(vec![slot("one", Loadable::Ready(item("tt1", "Foo")))]);
    let c = ctx(vec![addon("one", "first")], items, 0);
    let r = serialize_meta_details(&s, &c);
    match r.meta_item.unwrap().content {
        Loadable::Ready(m) => m.in_library,
        _ => panic!("expected a loaded item"),
    }
}

fn entry(id: &str, removed: bool) -> LibraryItem {
    LibraryItem { id: id.to_string(), name: "Foo".to_string(), removed }
}

#[test]
fn removed_entry_is_not_in_library() {
    assert!(!in_library_with(vec![entry("tt1", true)]));
}

#[test]
fn absent_entry_is_not_in_library() {
    assert!(!in_library_with(vec![entry("tt2", false)]));
}

#[test]
fn present_entry_is_in_library() {
    assert!(in_library_with(vec![entry("tt2", false), entry("tt1", false)]));
}

#[test]
fn streams_link_back_to_primary_request() {
    let mut s = state(vec![slot("one", Loadable::Ready(item("tt1", "Foo")))]);
    let stream = StreamInfo { url: "http://s".to_string(), title: None };
    s.streams = vec![
        slot("gone", Loadable::Ready(vec![stream.clone()])),
        slot("two", Loadable::Ready(vec![stream.clone(), stream])),
        slot("two", Loadable::Loading),
    ];
    let c = ctx(vec![addon("one", "first"), addon("two", "second")], vec![], 0);
    let r = serialize_meta_details(&s, &c);
    assert_eq!(r.streams.len(), 2);
    assert_eq!(r.streams[0].addon.manifest.id, "second");
    match &r.streams[0].content {
        Loadable::Ready(v) => {
            assert_eq!(v.len(), 2);
            let context = v[0].context.as_ref().unwrap();
            assert_eq!(context.meta_request.base, "one");
            assert_eq!(context.stream_request.base, "two");
        }
        _ => panic!("expected loaded streams"),
    }
    assert!(matches!(r.streams[1].content, Loadable::Loading));
}

#[test]
fn streams_without_primary_have_no_context() {
    let mut s = state(vec![]);
    s.streams = vec![slot("two", Loadable::Ready(vec![StreamInfo { url: "u".to_string(), title: None }]))];
    let c = ctx(vec![addon("two", "second")], vec![], 0);
    let r = serialize_meta_details(&s, &c);
    assert!(r.meta_item.is_none());
    match &r.streams[0].content {
        Loadable::Ready(v) => assert!(v[0].context.is_none()),
        _ => panic!("expected loaded streams"),
    }
}

#[test]
fn decimal_strings() {
    assert_eq!(decimal_string(0), "0");
    assert_eq!(decimal_string(10), "10");
    assert_eq!(decimal_string(4294967295), "4294967295");
}
