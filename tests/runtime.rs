use stremio_core_web::dispatch::{dispatch_route, install_addon_analytics, route, Route};
use stremio_core_web::library::{LibraryBucket, LibraryItem};
use stremio_core_web::runtime::{
    startup_state, LifecycleFault, Profile, RuntimeHandle, RuntimeState, StoredState,
};
use stremio_core_web::types::{Descriptor, Manifest};

fn entry(id: &str, name: &str) -> LibraryItem {
    LibraryItem { id: id.to_string(), name: name.to_string(), removed: false }
}

fn bucket(uid: Option<&str>, items: Vec<LibraryItem>) -> LibraryBucket {
    LibraryBucket { uid: uid.map(|u| u.to_string()), items }
}

fn name_of(library: &LibraryBucket, id: &str) -> Option<String> {
    library.items.iter().find(|e| e.id == id).map(|e| e.name.clone())
}

#[test]
fn second_initialization_faults_while_loading() {
    let mut h: RuntimeHandle<u32, String> = RuntimeHandle::new();
    assert_eq!(h.begin_initialize(), Ok(()));
    assert_eq!(h.begin_initialize(), Err(LifecycleFault::AlreadyInitialized));
    assert!(matches!(h.state(), RuntimeState::Loading));
}

#[test]
fn second_initialization_faults_when_ready() {
    let mut h: RuntimeHandle<u32, String> = RuntimeHandle::new();
    assert_eq!(h.begin_initialize(), Ok(()));
    h.finish_initialize(Ok(7));
    assert_eq!(h.begin_initialize(), Err(LifecycleFault::AlreadyInitialized));
    assert_eq!(h.runtime(), Ok(&7));
}

#[test]
fn failed_initialization_is_terminal() {
    let mut h: RuntimeHandle<u32, String> = RuntimeHandle::new();
    assert_eq!(h.begin_initialize(), Ok(()));
    assert_eq!(h.after_step::<()>(Err("migration".to_string())), None);
    assert!(matches!(h.state(), RuntimeState::Failed(e) if e == "migration"));
    assert_eq!(h.begin_initialize(), Err(LifecycleFault::AlreadyInitialized));
    assert_eq!(h.runtime(), Err(LifecycleFault::NotReady));
}

#[test]
fn successful_step_keeps_loading() {
    let mut h: RuntimeHandle<u32, String> = RuntimeHandle::new();
    assert_eq!(h.begin_initialize(), Ok(()));
    assert_eq!(h.after_step(Ok::<u8, String>(3)), Some(3));
    assert!(matches!(h.state(), RuntimeState::Loading));
}

#[test]
fn full_bucket_wins_over_recent() {
    let stored = StoredState {
        profile: Some(Profile { uid: Some("u1".to_string()), addons: vec![] }),
        recent: Some(bucket(Some("u1"), vec![entry("a", "recent a"), entry("r", "recent r")])),
        full: Some(bucket(Some("u1"), vec![entry("a", "full a"), entry("f", "full f")])),
    };
    let (profile, library) = startup_state(stored);
    assert_eq!(profile.uid, Some("u1".to_string()));
    assert_eq!(library.uid, Some("u1".to_string()));
    assert_eq!(library.items.len(), 3);
    assert_eq!(name_of(&library, "a"), Some("full a".to_string()));
    assert_eq!(name_of(&library, "r"), Some("recent r".to_string()));
    assert_eq!(name_of(&library, "f"), Some("full f".to_string()));
}

#[test]
fn missing_profile_and_full_bucket() {
    let stored = StoredState {
        profile: None,
        recent: Some(bucket(None, vec![entry("a", "recent a")])),
        full: None,
    };
    let (profile, library) = startup_state(stored);
    assert_eq!(profile.uid, None);
    assert!(profile.addons.is_empty());
    assert_eq!(library.uid, None);
    assert_eq!(library.items.len(), 1);
    assert_eq!(name_of(&library, "a"), Some("recent a".to_string()));
}

#[test]
fn insert_replaces_same_id() {
    let mut b = LibraryBucket::new(None);
    b.insert(entry("a", "one"));
    b.insert(entry("b", "two"));
    b.insert(entry("a", "three"));
    assert_eq!(b.items.len(), 2);
    assert_eq!(name_of(&b, "a"), Some("three".to_string()));
}

#[test]
fn routing_follows_decoded_parts() {
    assert_eq!(route(Some(1), Some("field")), Some(Route::ToField(1, "field")));
    assert_eq!(route::<i32, &str>(Some(1), None), Some(Route::Global(1)));
    assert_eq!(route::<i32, &str>(None, Some("field")), None);
}

#[test]
fn dispatch_before_ready_faults() {
    let mut h: RuntimeHandle<u32, String> = RuntimeHandle::new();
    assert_eq!(dispatch_route::<u32, String, i32, i32>(&h, Some(1), None), Err(LifecycleFault::NotReady));
    assert_eq!(h.begin_initialize(), Ok(()));
    h.finish_initialize(Ok(0));
    assert_eq!(dispatch_route::<u32, String, i32, i32>(&h, Some(1), Some(2)), Ok(Some(Route::ToField(1, 2))));
    assert_eq!(dispatch_route::<u32, String, i32, i32>(&h, None, Some(2)), Ok(None));
}

fn descriptor(official: bool) -> Descriptor {
    Descriptor {
        transport_url: "https://catalog.tv/stremio/v1".to_string(),
        manifest: Manifest { id: "com.catalog".to_string(), name: "Catalog".to_string(), logo: None },
        official,
    }
}

#[test]
fn analytics_for_official_addon() {
    let m = install_addon_analytics(&descriptor(true));
    assert_eq!(m.name, "installAddon");
    assert_eq!(m.data.addon_transport_url, "https://catalog.tv/stremio/v1");
    assert_eq!(m.data.addon_id, "com.catalog");
    assert_eq!(m.app_context.url, "/addons/official/all");
    assert_eq!(m.app_context.state.name, "addons.cat.type");
    assert_eq!(m.app_context.state.params.cat, "official");
    assert_eq!(m.app_context.state.params.col_url, None);
    assert_eq!(m.app_context.state.params.kind, "all");
}

#[test]
fn analytics_for_community_addon() {
    let m = install_addon_analytics(&descriptor(false));
    assert_eq!(m.app_context.url, "/addons/community/all");
    assert_eq!(m.app_context.state.params.cat, "community");
}

#[test]
fn merge_replaces_and_adds_entries() {
    let mut base = bucket(Some("u"), vec![entry("a", "old"), entry("b", "kept")]);
    base.merge_bucket(&bucket(Some("u"), vec![entry("a", "new"), entry("c", "added")]));
    assert_eq!(name_of(&base, "a"), Some("new".to_string()));
    assert_eq!(name_of(&base, "b"), Some("kept".to_string()));
    assert_eq!(name_of(&base, "c"), Some("added".to_string()));
    assert_eq!(base.items.len(), 3);
}
