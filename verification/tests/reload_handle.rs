use hot_reload_lib::handle::HotReloadLib;
use hot_reload_lib::handle::HotReloadLibs;
use hot_reload_lib::watch::WatchEvent;
use hot_reload_lib::watch::WatchOp;

fn fresh_handle() -> HotReloadLib {
    HotReloadLib::new(
        String::from("target/debug/libupdate.so"),
        String::from("/abs/target/debug/libupdate.so"),
        100,
    )
}

fn create_on(path: &str) -> WatchEvent {
    WatchEvent { path: Some(String::from(path)), op: WatchOp::Create }
}

#[test]
fn construction_stamps_the_initial_alias() {
    let h = fresh_handle();
    assert_eq!(h.loaded_path, "target/debug/libupdate-100.so");
    assert_eq!(h.original_lib_path_string, "target/debug/libupdate.so");
}

#[test]
fn create_event_on_artifact_triggers_one_reload() {
    let mut h = fresh_handle();
    let events = vec![
        WatchEvent { path: Some(String::from("/abs/target/debug/libupdate.so")), op: WatchOp::Other },
        create_on("/abs/target/debug/libupdate.so"),
    ];
    let plan = h.update(&events, 200).expect("a create event on the artifact must reload");
    assert_eq!(plan.stale_alias, "target/debug/libupdate-100.so");
    assert_eq!(plan.source, "target/debug/libupdate.so");
    assert_eq!(plan.fresh_alias, "target/debug/libupdate-200.so");
    assert_eq!(h.loaded_path, "target/debug/libupdate-200.so");
}

#[test]
fn several_creates_in_one_batch_reload_once() {
    let mut h = fresh_handle();
    let events = vec![
        create_on("/abs/target/debug/libupdate.so"),
        create_on("/abs/target/debug/libupdate.so"),
        create_on("/abs/target/debug/libupdate.so"),
    ];
    let plan = h.update(&events, 777).expect("the batch qualifies");
    assert_eq!(plan.fresh_alias, "target/debug/libupdate-777.so");
    assert_eq!(h.loaded_path, "target/debug/libupdate-777.so");
    // a following batch with nothing new reloads nothing
    let no_events: Vec<WatchEvent> = vec![];
    assert!(h.update(&no_events, 778).is_none());
    assert_eq!(h.loaded_path, "target/debug/libupdate-777.so");
}

#[test]
fn non_matching_events_leave_the_handle_unchanged() {
    let mut h = fresh_handle();
    let events = vec![
        create_on("/abs/target/debug/libview.so"),
        WatchEvent { path: Some(String::from("/abs/target/debug/libupdate.so")), op: WatchOp::Other },
        WatchEvent { path: None, op: WatchOp::Create },
    ];
    assert!(h.update(&events, 200).is_none());
    assert_eq!(h.loaded_path, "target/debug/libupdate-100.so");

    let no_events: Vec<WatchEvent> = vec![];
    assert!(h.update(&no_events, 300).is_none());
    assert_eq!(h.loaded_path, "target/debug/libupdate-100.so");
}

#[test]
fn disposal_surrenders_the_alias_not_the_artifact() {
    let mut h = fresh_handle();
    let events = vec![create_on("/abs/target/debug/libupdate.so")];
    h.update(&events, 444).unwrap();
    let surrendered = h.dispose();
    assert_eq!(surrendered, "target/debug/libupdate-444.so");
    assert_ne!(surrendered, "target/debug/libupdate.so");
}

#[test]
fn set_members_reload_independently() {
    let update = fresh_handle();
    let view = HotReloadLib::new(
        String::from("target/debug/libview.so"),
        String::from("/abs/target/debug/libview.so"),
        100,
    );
    let mut libs = HotReloadLibs::new(update, view);
    let update_events = vec![create_on("/abs/target/debug/libupdate.so")];
    let view_events: Vec<WatchEvent> = vec![];
    let (u, v) = libs.update_libs(&update_events, &view_events, 500);
    assert!(u.is_some());
    assert!(v.is_none());
    assert_eq!(libs.update.loaded_path, "target/debug/libupdate-500.so");
    assert_eq!(libs.view.loaded_path, "target/debug/libview-100.so");
}
