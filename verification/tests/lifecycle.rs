use burchill_postgres::postgres::entity::{
    HookKind, InsertReturn, PostgresEntityManager, SaveAction, SaveEvent, SaveLifecycle,
    SaveOperation, UpdateReturn,
};
use burchill_postgres::postgres::{BurchillPostgresError, PostgresBaseEntityData, Timestamp};
use uuid::Uuid;

fn uuid_of(n: u128) -> Uuid {
    Uuid::from_u128(n)
}

#[test]
fn fresh_manager_has_empty_envelope() {
    let manager = PostgresEntityManager::new();
    assert_eq!(manager.get_id(), None);
    assert_eq!(manager.get_created_time(), None);
    assert_eq!(manager.get_created_by(), None);
    assert_eq!(manager.get_last_updated_time(), None);
    assert_eq!(manager.get_last_updated_by(), None);
    assert_eq!(manager.get_active(), None);
}

#[test]
fn from_db_keeps_the_row_as_given() {
    let data = PostgresBaseEntityData {
        id: Some(uuid_of(7)),
        created_time: Some(Timestamp { micros: 11 }),
        created_by: Some(uuid_of(8)),
        last_updated_time: Some(Timestamp { micros: 12 }),
        last_updated_by: Some(uuid_of(9)),
        active: Some(true),
    };
    let manager = PostgresEntityManager::from_db(data);
    assert_eq!(manager.get_id(), Some(uuid_of(7)));
    assert_eq!(manager.get_created_time(), Some(Timestamp { micros: 11 }));
    assert_eq!(manager.get_created_by(), Some(uuid_of(8)));
    assert_eq!(manager.get_last_updated_time(), Some(Timestamp { micros: 12 }));
    assert_eq!(manager.get_last_updated_by(), Some(uuid_of(9)));
    assert_eq!(manager.get_active(), Some(true));
}

#[test]
fn set_once_fields_keep_their_first_value() {
    let mut manager = PostgresEntityManager::new();
    manager.set_id(uuid_of(1));
    manager.set_id(uuid_of(2));
    assert_eq!(manager.get_id(), Some(uuid_of(1)));

    manager.set_created_by(uuid_of(3));
    manager.set_created_by(uuid_of(4));
    assert_eq!(manager.get_created_by(), Some(uuid_of(3)));

    manager.set_created_time(Timestamp { micros: 100 });
    manager.set_created_time(Timestamp { micros: 200 });
    assert_eq!(manager.get_created_time(), Some(Timestamp { micros: 100 }));
}

#[test]
fn last_updated_fields_always_overwrite() {
    let mut manager = PostgresEntityManager::new();
    manager.set_last_updated_by(uuid_of(1));
    manager.set_last_updated_by(uuid_of(2));
    assert_eq!(manager.get_last_updated_by(), Some(uuid_of(2)));

    manager.set_last_updated_time(Timestamp { micros: 100 });
    manager.set_last_updated_time(Timestamp { micros: 200 });
    assert_eq!(manager.get_last_updated_time(), Some(Timestamp { micros: 200 }));

    manager.set_active(true);
    manager.set_active(false);
    assert_eq!(manager.get_active(), Some(false));
}

#[test]
fn save_dispatches_insert_without_id_and_update_with_id() {
    let fresh = PostgresEntityManager::new();
    let (lifecycle, _) = SaveLifecycle::begin(&fresh.entity_data);
    assert_eq!(lifecycle.op, SaveOperation::Insert);

    let mut with_id = PostgresEntityManager::new();
    with_id.set_id(uuid_of(42));
    let (lifecycle, _) = SaveLifecycle::begin(&with_id.entity_data);
    assert_eq!(lifecycle.op, SaveOperation::Update);
}

#[test]
fn full_save_scenario_insert_then_update() {
    let user_one = uuid_of(1);
    let user_two = uuid_of(2);
    let id = uuid_of(99);
    let t1 = Timestamp { micros: 1000 };
    let t2 = Timestamp { micros: 2000 };

    // First save: the envelope is empty, so an insert runs, and the entity
    // takes exactly what the server returned.
    let mut manager = PostgresEntityManager::new();
    let (mut lifecycle, action) = SaveLifecycle::begin(&manager.entity_data);
    assert!(matches!(action, SaveAction::RunHook(HookKind::PreSave)));
    let action = lifecycle.step(&mut manager, SaveEvent::HookDone(Ok(())));
    assert!(matches!(action, SaveAction::RunHook(HookKind::PreInsert)));
    let action = lifecycle.step(&mut manager, SaveEvent::HookDone(Ok(())));
    assert!(matches!(action, SaveAction::FetchInsert));
    let row = InsertReturn { id, created_by: user_one, created_time: t1, active: true };
    let action = lifecycle.step(&mut manager, SaveEvent::InsertFetched(Ok(row)));
    assert!(matches!(action, SaveAction::RunHook(HookKind::PostInsert)));
    let action = lifecycle.step(&mut manager, SaveEvent::HookDone(Ok(())));
    assert!(matches!(action, SaveAction::RunHook(HookKind::PostSave)));
    let action = lifecycle.step(&mut manager, SaveEvent::HookDone(Ok(())));
    assert!(matches!(action, SaveAction::Succeed));

    assert_eq!(manager.get_id(), Some(id));
    assert_eq!(manager.get_created_by(), Some(user_one));
    assert_eq!(manager.get_created_time(), Some(t1));
    assert_eq!(manager.get_active(), Some(true));
    assert_eq!(manager.get_last_updated_by(), None);
    assert_eq!(manager.get_last_updated_time(), None);

    // Second save: the identifier is present, so an update runs, and only the
    // last-updated fields change.
    let (mut lifecycle, action) = SaveLifecycle::begin(&manager.entity_data);
    assert_eq!(lifecycle.op, SaveOperation::Update);
    assert!(matches!(action, SaveAction::RunHook(HookKind::PreSave)));
    let action = lifecycle.step(&mut manager, SaveEvent::HookDone(Ok(())));
    assert!(matches!(action, SaveAction::RunHook(HookKind::PreUpdate)));
    let action = lifecycle.step(&mut manager, SaveEvent::HookDone(Ok(())));
    assert!(matches!(action, SaveAction::FetchUpdate));
    let row = UpdateReturn { last_updated_by: user_two, last_updated_time: t2 };
    let action = lifecycle.step(&mut manager, SaveEvent::UpdateFetched(Ok(row)));
    assert!(matches!(action, SaveAction::RunHook(HookKind::PostUpdate)));
    let action = lifecycle.step(&mut manager, SaveEvent::HookDone(Ok(())));
    assert!(matches!(action, SaveAction::RunHook(HookKind::PostSave)));
    let action = lifecycle.step(&mut manager, SaveEvent::HookDone(Ok(())));
    assert!(matches!(action, SaveAction::Succeed));

    assert_eq!(manager.get_id(), Some(id));
    assert_eq!(manager.get_created_by(), Some(user_one));
    assert_eq!(manager.get_created_time(), Some(t1));
    assert_eq!(manager.get_active(), Some(true));
    assert_eq!(manager.get_last_updated_by(), Some(user_two));
    assert_eq!(manager.get_last_updated_time(), Some(t2));
}

#[test]
fn insert_keeps_values_already_written_once() {
    let mut manager = PostgresEntityManager::new();
    manager.set_created_by(uuid_of(5));
    let (mut lifecycle, _) = SaveLifecycle::begin_insert();
    let _ = lifecycle.step(&mut manager, SaveEvent::HookDone(Ok(())));
    let row = InsertReturn {
        id: uuid_of(6),
        created_by: uuid_of(7),
        created_time: Timestamp { micros: 1 },
        active: false,
    };
    let _ = lifecycle.step(&mut manager, SaveEvent::InsertFetched(Ok(row)));
    // The creator was already set, so the first write wins; the rest was
    // empty and takes the returned values.
    assert_eq!(manager.get_created_by(), Some(uuid_of(5)));
    assert_eq!(manager.get_id(), Some(uuid_of(6)));
    assert_eq!(manager.get_active(), Some(false));
}

#[test]
fn bare_insert_skips_the_save_hooks() {
    let mut manager = PostgresEntityManager::new();
    let (mut lifecycle, action) = SaveLifecycle::begin_insert();
    assert!(matches!(action, SaveAction::RunHook(HookKind::PreInsert)));
    let action = lifecycle.step(&mut manager, SaveEvent::HookDone(Ok(())));
    assert!(matches!(action, SaveAction::FetchInsert));
    let row = InsertReturn {
        id: uuid_of(1),
        created_by: uuid_of(2),
        created_time: Timestamp { micros: 3 },
        active: true,
    };
    let action = lifecycle.step(&mut manager, SaveEvent::InsertFetched(Ok(row)));
    assert!(matches!(action, SaveAction::RunHook(HookKind::PostInsert)));
    let action = lifecycle.step(&mut manager, SaveEvent::HookDone(Ok(())));
    assert!(matches!(action, SaveAction::Succeed));
}

#[test]
fn failing_pre_hook_aborts_and_leaves_the_envelope_untouched() {
    let mut manager = PostgresEntityManager::new();
    let (mut lifecycle, _) = SaveLifecycle::begin(&manager.entity_data);
    let boom = anyhow::Error::msg("pre-save hook refused");
    let action = lifecycle.step(&mut manager, SaveEvent::HookDone(Err(boom)));
    assert!(matches!(
        action,
        SaveAction::Fail(BurchillPostgresError::AnyhowError(_))
    ));
    assert_eq!(manager.get_id(), None);
    assert_eq!(manager.get_created_by(), None);
    assert_eq!(manager.get_created_time(), None);
    assert_eq!(manager.get_active(), None);
}

#[test]
fn failing_post_hook_keeps_what_the_store_returned() {
    let mut manager = PostgresEntityManager::new();
    let (mut lifecycle, _) = SaveLifecycle::begin_insert();
    let _ = lifecycle.step(&mut manager, SaveEvent::HookDone(Ok(())));
    let row = InsertReturn {
        id: uuid_of(1),
        created_by: uuid_of(2),
        created_time: Timestamp { micros: 3 },
        active: true,
    };
    let _ = lifecycle.step(&mut manager, SaveEvent::InsertFetched(Ok(row)));
    let boom = anyhow::Error::msg("post-insert hook refused");
    let action = lifecycle.step(&mut manager, SaveEvent::HookDone(Err(boom)));
    assert!(matches!(
        action,
        SaveAction::Fail(BurchillPostgresError::AnyhowError(_))
    ));
    // The failing stage came after the round trip: the returned values stay.
    assert_eq!(manager.get_id(), Some(uuid_of(1)));
    assert_eq!(manager.get_created_by(), Some(uuid_of(2)));
}

#[test]
fn failing_round_trip_propagates_verbatim_and_changes_nothing() {
    let mut manager = PostgresEntityManager::new();
    let (mut lifecycle, _) = SaveLifecycle::begin_insert();
    let _ = lifecycle.step(&mut manager, SaveEvent::HookDone(Ok(())));
    let action = lifecycle.step(
        &mut manager,
        SaveEvent::InsertFetched(Err(BurchillPostgresError::UnknownSqlType)),
    );
    assert!(matches!(
        action,
        SaveAction::Fail(BurchillPostgresError::UnknownSqlType)
    ));
    assert_eq!(manager.get_id(), None);
    assert_eq!(manager.get_created_by(), None);
}

#[test]
fn update_without_identifier_fails_fast() {
    let manager = PostgresEntityManager::new();
    let (lifecycle, action) = SaveLifecycle::begin_update(&manager.entity_data);
    assert_eq!(lifecycle.op, SaveOperation::Update);
    assert!(matches!(
        action,
        SaveAction::Fail(BurchillPostgresError::MissingIdentifier)
    ));
}

#[test]
fn update_with_identifier_starts_with_its_pre_hook() {
    let mut manager = PostgresEntityManager::new();
    manager.set_id(uuid_of(1));
    let (mut lifecycle, action) = SaveLifecycle::begin_update(&manager.entity_data);
    assert!(matches!(action, SaveAction::RunHook(HookKind::PreUpdate)));
    let action = lifecycle.step(&mut manager, SaveEvent::HookDone(Ok(())));
    assert!(matches!(action, SaveAction::FetchUpdate));
    let row = UpdateReturn {
        last_updated_by: uuid_of(2),
        last_updated_time: Timestamp { micros: 4 },
    };
    let action = lifecycle.step(&mut manager, SaveEvent::UpdateFetched(Ok(row)));
    assert!(matches!(action, SaveAction::RunHook(HookKind::PostUpdate)));
    let action = lifecycle.step(&mut manager, SaveEvent::HookDone(Ok(())));
    assert!(matches!(action, SaveAction::Succeed));
    assert_eq!(manager.get_id(), Some(uuid_of(1)));
    assert_eq!(manager.get_last_updated_by(), Some(uuid_of(2)));
}
