use lwext4_rs::lifecycle::{rollback_plan, teardown_plan, Stage, Step};

#[test]
fn active_volume_tears_down_in_order() {
    assert_eq!(
        teardown_plan(Stage::Active),
        vec![Step::DisableWriteBack, Step::StopJournal, Step::Unmount, Step::Unregister]
    );
}

#[test]
fn partial_stages_tear_down_their_suffix() {
    assert_eq!(teardown_plan(Stage::Journaled), vec![Step::StopJournal, Step::Unmount, Step::Unregister]);
    assert_eq!(teardown_plan(Stage::Mounted), vec![Step::Unmount, Step::Unregister]);
    assert_eq!(teardown_plan(Stage::Registered), vec![Step::Unregister]);
}

#[test]
fn rollback_stops_at_kept_stage() {
    assert_eq!(rollback_plan(Stage::Journaled, Stage::Mounted), vec![Step::StopJournal]);
    assert_eq!(rollback_plan(Stage::Active, Stage::Mounted), vec![Step::DisableWriteBack, Step::StopJournal]);
    assert_eq!(rollback_plan(Stage::Mounted, Stage::Mounted), Vec::<Step>::new());
    assert_eq!(rollback_plan(Stage::Mounted, Stage::Active), Vec::<Step>::new());
}
