use stocker_core::paths::{
    best_existing_data_file, data_file_candidates, find_in_ancestors, pin_database_paths, pin_one,
    pinned_databases, resolve_data_file_path, DatabaseFound, FileCopy, PinPlan,
};

#[test]
fn first_existing_level_within_reach() {
    assert_eq!(find_in_ancestors(&[false, false, true, true], 6), Some(2));
    assert_eq!(find_in_ancestors(&[false, false, true], 1), None);
    assert_eq!(find_in_ancestors(&[true], 0), Some(0));
    assert_eq!(find_in_ancestors(&[], 6), None);
}

#[test]
fn candidates_list_canonical_then_found() {
    let c = data_file_candidates("/cfg/p.db".to_string(), true, Some("/repo/p.db".to_string()), false);
    assert_eq!(c, vec!["/cfg/p.db".to_string(), "/repo/p.db".to_string()]);
    let c = data_file_candidates("/cfg/p.db".to_string(), true, Some("/cfg/p.db".to_string()), true);
    assert_eq!(c, vec!["/cfg/p.db".to_string()]);
    let c = data_file_candidates("/cfg/p.db".to_string(), false, Some("/repo/p.db".to_string()), false);
    assert_eq!(c, vec!["/repo/p.db".to_string()]);
    let c = data_file_candidates("/cfg/p.db".to_string(), false, None, false);
    assert!(c.is_empty());
}

fn copy(path: &str, modified_nanos: i128, size: u64) -> FileCopy {
    FileCopy { path: path.to_string(), modified_nanos, size }
}

#[test]
fn best_existing_prefers_newer_then_larger_copy() {
    let best = best_existing_data_file(vec![copy("legacy", 10, 3), copy("canonical", 20, 21)]);
    assert_eq!(best.as_deref(), Some("canonical"));
    let best = best_existing_data_file(vec![copy("a", 20, 5), copy("b", 20, 9), copy("c", 1, 100)]);
    assert_eq!(best.as_deref(), Some("b"));
    let best = best_existing_data_file(vec![copy("a", 5, 5), copy("b", 5, 5)]);
    assert_eq!(best.as_deref(), Some("b"));
    assert_eq!(best_existing_data_file(vec![]), None);
    let best = best_existing_data_file(vec![copy("old", -7, 1)]);
    assert_eq!(best.as_deref(), Some("old"));
}

#[test]
fn pin_leaves_existing_setting_alone() {
    assert!(matches!(pin_one(Some("/x/p.db"), false, Some("/legacy".to_string())), PinPlan::Leave));
}

#[test]
fn pin_never_migrates_over_existing_canonical() {
    match pin_one(None, true, Some("/legacy/p.db".to_string())) {
        PinPlan::Pin { migrate_from } => assert_eq!(migrate_from, None),
        PinPlan::Leave => panic!("expected a pin"),
    }
    match pin_one(Some(""), false, Some("/legacy/p.db".to_string())) {
        PinPlan::Pin { migrate_from } => assert_eq!(migrate_from.as_deref(), Some("/legacy/p.db")),
        PinPlan::Leave => panic!("expected a pin"),
    }
    match pin_one(None, false, None) {
        PinPlan::Pin { migrate_from } => assert_eq!(migrate_from, None),
        PinPlan::Leave => panic!("expected a pin"),
    }
}

#[test]
fn environment_setting_wins_when_not_empty() {
    let best = Some("/data/old/portfolio.db".to_string());
    let canonical = "/home/u/.config/stocker/portfolio.db".to_string();
    assert_eq!(resolve_data_file_path(Some("/x.db"), best.clone(), canonical.clone()), "/x.db");
    assert_eq!(resolve_data_file_path(Some(""), best.clone(), canonical.clone()), "/data/old/portfolio.db");
    assert_eq!(resolve_data_file_path(None, None, canonical.clone()), canonical);
}

#[test]
fn three_databases_are_pinned_in_order() {
    let names = pinned_databases();
    let expected = [
        ("STOCKER_PORTFOLIO_DB_PATH", "portfolio.db"),
        ("STOCKER_DB_PATH", "stocker.db"),
        ("STOCKER_MF_DB_PATH", "mf.db"),
    ];
    assert_eq!(names.len(), 3);
    for (got, want) in names.iter().zip(expected.iter()) {
        assert_eq!((got.0.as_str(), got.1.as_str()), *want);
    }
    let steps = pin_database_paths(
        DatabaseFound { env_value: Some("/x/p.db".to_string()), canonical_is_file: false, legacy: None },
        DatabaseFound { env_value: None, canonical_is_file: false, legacy: Some("/repo/stocker.db".to_string()) },
        DatabaseFound { env_value: Some(String::new()), canonical_is_file: true, legacy: None },
    );
    assert_eq!(steps.len(), 3);
    for (step, want) in steps.iter().zip(expected.iter()) {
        assert_eq!((step.env_key.as_str(), step.file_name.as_str()), *want);
    }
    assert!(matches!(steps[0].plan, PinPlan::Leave));
    match &steps[1].plan {
        PinPlan::Pin { migrate_from } => assert_eq!(migrate_from.as_deref(), Some("/repo/stocker.db")),
        PinPlan::Leave => panic!("expected a pin"),
    }
    match &steps[2].plan {
        PinPlan::Pin { migrate_from } => assert_eq!(*migrate_from, None),
        PinPlan::Leave => panic!("expected a pin"),
    }
}
