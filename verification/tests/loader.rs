use hothost::loader::{EntryPoints, ModuleLoader};

fn entries(base: u64) -> EntryPoints {
    EntryPoints { init: base, update_and_render: base + 1, decide_input: base + 2 }
}

#[test]
fn unchanged_modification_time_never_triggers_a_swap() {
    let loader = ModuleLoader::new(entries(10), 100);
    assert!(!loader.needs_reload(100));
    assert!(!loader.needs_reload(100));
    assert!(!loader.needs_reload(99));
}

#[test]
fn one_modification_time_increase_triggers_exactly_one_swap() {
    let mut loader = ModuleLoader::new(entries(10), 100);
    assert!(loader.needs_reload(101));
    loader.install(entries(20), 101);
    assert_eq!(loader.generation, 1);
    // The same observation again no longer calls for a reload.
    assert!(!loader.needs_reload(101));
}

#[test]
fn install_replaces_the_whole_module_record() {
    let mut loader = ModuleLoader::new(entries(10), 100);
    loader.install(entries(20), 107);
    assert_eq!(loader.active, entries(20));
    assert_eq!(loader.source_modified_time, 107);
}

#[test]
fn init_runs_once_and_survives_reloads() {
    let mut loader = ModuleLoader::new(entries(10), 100);
    assert!(!loader.init_called);
    loader.mark_init_called();
    assert!(loader.init_called);
    loader.install(entries(20), 101);
    assert!(loader.init_called);
    loader.install(entries(30), 102);
    assert!(loader.init_called);
    assert_eq!(loader.generation, 2);
}

#[test]
fn every_entry_point_stays_resolved_across_swaps() {
    let mut loader = ModuleLoader::new(entries(10), 100);
    for g in 0..5u64 {
        loader.install(entries(20 + g), 101 + g);
        assert_ne!(loader.active.init, 0);
        assert_ne!(loader.active.update_and_render, 0);
        assert_ne!(loader.active.decide_input, 0);
    }
}
