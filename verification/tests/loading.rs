use systemstats::{next_load_action, LoadAction, LoadEvent, LoadNote};

fn run(outcomes: &[LoadEvent]) -> Vec<LoadAction> {
    let mut actions = vec![next_load_action(LoadEvent::Begin)];
    for e in outcomes {
        actions.push(next_load_action(*e));
    }
    actions
}

#[test]
fn existing_valid_file_is_used() {
    let a = run(&[
        LoadEvent::PathFound { exists: true },
        LoadEvent::ReadSucceeded,
        LoadEvent::ParseSucceeded,
    ]);
    assert_eq!(
        a,
        vec![
            LoadAction::FindPath,
            LoadAction::ReadFile,
            LoadAction::ParseContents,
            LoadAction::Finish { use_file: true, note: LoadNote::Loaded },
        ]
    );
}

#[test]
fn missing_file_is_created_with_defaults() {
    assert_eq!(next_load_action(LoadEvent::PathFound { exists: false }), LoadAction::WriteDefaults);
    assert_eq!(
        next_load_action(LoadEvent::WriteSucceeded),
        LoadAction::Finish { use_file: false, note: LoadNote::CreatedDefault }
    );
    assert_eq!(
        next_load_action(LoadEvent::WriteFailed),
        LoadAction::Finish { use_file: false, note: LoadNote::CreateFailed }
    );
}

#[test]
fn failures_fall_back_to_defaults_without_writing() {
    for (e, note) in [
        (LoadEvent::PathUnknown, LoadNote::NoConfigDir),
        (LoadEvent::ReadFailed, LoadNote::ReadFailed),
        (LoadEvent::ParseFailed, LoadNote::ParseFailed),
    ] {
        assert_eq!(next_load_action(e), LoadAction::Finish { use_file: false, note });
    }
}
