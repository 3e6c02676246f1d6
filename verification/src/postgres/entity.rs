//! The audited save lifecycle: the entity manager that owns the audit
//! envelope, the state machine that sequences hooks and the database round
//! trip, and the builders that add the audit columns to an entity's own
//! statements.

use vstd::prelude::*;
use vstd::pervasive::unreached;

use crate::postgres::{
    ext, spec_set_once, BurchillPostgresError, InsertValue, PostgresBaseEntityData, Timestamp,
};
use uuid::Uuid;

verus! {

impl PostgresBaseEntityData {
    /// The envelope with the identifier written once: a later write never
    /// overwrites an earlier one.
    pub open spec fn with_id_once(self, id: Uuid) -> PostgresBaseEntityData {
        PostgresBaseEntityData { id: spec_set_once(self.id, id), ..self }
    }

    /// The envelope with the creation time written once.
    pub open spec fn with_created_time_once(self, time: Timestamp) -> PostgresBaseEntityData {
        PostgresBaseEntityData { created_time: spec_set_once(self.created_time, time), ..self }
    }

    /// The envelope with the creator written once.
    pub open spec fn with_created_by_once(self, user_id: Uuid) -> PostgresBaseEntityData {
        PostgresBaseEntityData { created_by: spec_set_once(self.created_by, user_id), ..self }
    }

    /// The envelope with the last-updated time overwritten, whatever it held.
    pub open spec fn with_last_updated_time(self, time: Timestamp) -> PostgresBaseEntityData {
        PostgresBaseEntityData { last_updated_time: Some(time), ..self }
    }

    /// The envelope with the last updater overwritten, whatever it held.
    pub open spec fn with_last_updated_by(self, user_id: Uuid) -> PostgresBaseEntityData {
        PostgresBaseEntityData { last_updated_by: Some(user_id), ..self }
    }

    /// The envelope with the active flag set, whatever it held.
    pub open spec fn with_active(self, active: bool) -> PostgresBaseEntityData {
        PostgresBaseEntityData { active: Some(active), ..self }
    }

    /// What a successful insert writes back: identifier, creator and creation
    /// time as returned by the store (first write wins), and the returned
    /// active flag. The last-updated fields are untouched.
    pub open spec fn apply_insert_return(self, row: InsertReturn) -> PostgresBaseEntityData {
        self.with_id_once(row.id).with_created_by_once(row.created_by).with_created_time_once(
            row.created_time,
        ).with_active(row.active)
    }

    /// What a successful update writes back: only the last-updated fields,
    /// both overwritten with what the store returned.
    pub open spec fn apply_update_return(self, row: UpdateReturn) -> PostgresBaseEntityData {
        self.with_last_updated_by(row.last_updated_by).with_last_updated_time(
            row.last_updated_time,
        )
    }
}

/// Owns an entity's audit envelope and enforces its write rules: identifier,
/// creation time and creator are written once; the last-updated fields and
/// the active flag are overwritten.
#[derive(Clone, Copy)]
pub struct PostgresEntityManager {
    pub entity_data: PostgresBaseEntityData,
}

impl PostgresEntityManager {
    /// A manager for a fresh entity: every audit field is still unset.
    pub fn new() -> (r: PostgresEntityManager)
        ensures
            r.entity_data.id is None,
            r.entity_data.created_time is None,
            r.entity_data.created_by is None,
            r.entity_data.last_updated_time is None,
            r.entity_data.last_updated_by is None,
            r.entity_data.active is None,
    {
        PostgresEntityManager { entity_data: PostgresBaseEntityData::empty() }
    }

    /// A manager for an entity already read from the store, carrying the
    /// envelope exactly as the row had it.
    pub fn from_db(data: PostgresBaseEntityData) -> (r: PostgresEntityManager)
        ensures
            r.entity_data == data,
    {
        PostgresEntityManager { entity_data: data }
    }

    pub fn get_id(&self) -> (r: Option<Uuid>)
        ensures
            r == self.entity_data.id,
    {
        self.entity_data.id
    }

    /// Writes the identifier only if none is set: first write wins.
    pub fn set_id(&mut self, id: Uuid)
        ensures
            final(self).entity_data == old(self).entity_data.with_id_once(id),
    {
        if self.entity_data.id.is_none() {
            self.entity_data.id = Some(id);
        }
    }

    pub fn get_created_time(&self) -> (r: Option<Timestamp>)
        ensures
            r == self.entity_data.created_time,
    {
        self.entity_data.created_time
    }

    /// Writes the creation time only if none is set: first write wins.
    pub fn set_created_time(&mut self, time: Timestamp)
        ensures
            final(self).entity_data == old(self).entity_data.with_created_time_once(time),
    {
        if self.entity_data.created_time.is_none() {
            self.entity_data.created_time = Some(time);
        }
    }

    pub fn get_last_updated_time(&self) -> (r: Option<Timestamp>)
        ensures
            r == self.entity_data.last_updated_time,
    {
        self.entity_data.last_updated_time
    }

    /// Overwrites the last-updated time, whatever it held.
    pub fn set_last_updated_time(&mut self, time: Timestamp)
        ensures
            final(self).entity_data == old(self).entity_data.with_last_updated_time(time),
    {
        self.entity_data.last_updated_time = Some(time);
    }

    pub fn get_created_by(&self) -> (r: Option<Uuid>)
        ensures
            r == self.entity_data.created_by,
    {
        self.entity_data.created_by
    }

    /// Writes the creator only if none is set: first write wins.
    pub fn set_created_by(&mut self, user_id: Uuid)
        ensures
            final(self).entity_data == old(self).entity_data.with_created_by_once(user_id),
    {
        if self.entity_data.created_by.is_none() {
            self.entity_data.created_by = Some(user_id);
        }
    }

    pub fn get_last_updated_by(&self) -> (r: Option<Uuid>)
        ensures
            r == self.entity_data.last_updated_by,
    {
        self.entity_data.last_updated_by
    }

    /// Overwrites the last updater, whatever it held.
    pub fn set_last_updated_by(&mut self, user_id: Uuid)
        ensures
            final(self).entity_data == old(self).entity_data.with_last_updated_by(user_id),
    {
        self.entity_data.last_updated_by = Some(user_id);
    }

    pub fn get_active(&self) -> (r: Option<bool>)
        ensures
            r == self.entity_data.active,
    {
        self.entity_data.active
    }

    /// Overwrites the active flag, whatever it held.
    pub fn set_active(&mut self, active: bool)
        ensures
            final(self).entity_data == old(self).entity_data.with_active(active),
    {
        self.entity_data.active = Some(active);
    }
}

/// The columns an insert asks the store to return, as decoded values.
#[derive(Clone, Copy, Debug)]
pub struct InsertReturn {
    pub id: Uuid,
    pub created_by: Uuid,
    pub created_time: Timestamp,
    pub active: bool,
}

/// The columns an update asks the store to return, as decoded values.
#[derive(Clone, Copy, Debug)]
pub struct UpdateReturn {
    pub last_updated_by: Uuid,
    pub last_updated_time: Timestamp,
}

/// Which statement a save performs.
#[derive(Clone, Copy, Debug, PartialEq, Eq, Structural)]
pub enum SaveOperation {
    Insert,
    Update,
}

/// Which operation a save of this envelope performs: an update if an
/// identifier is present, an insert otherwise — never the reverse.
pub open spec fn spec_save_operation(data: PostgresBaseEntityData) -> SaveOperation {
    if data.id is Some {
        SaveOperation::Update
    } else {
        SaveOperation::Insert
    }
}

/// The hooks an entity may override, in the order the lifecycle runs them.
#[derive(Clone, Copy, Debug, PartialEq, Eq, Structural)]
pub enum HookKind {
    PreSave,
    PreInsert,
    PreUpdate,
    PostInsert,
    PostUpdate,
    PostSave,
}

/// What the caller must do next to advance a save.
#[derive(Debug)]
pub enum SaveAction {
    /// Run the given hook and report its result.
    RunHook(HookKind),
    /// Build the audited insert, run it, and report the returned columns.
    FetchInsert,
    /// Build the audited update, run it, and report the returned columns.
    FetchUpdate,
    /// The save is complete.
    Succeed,
    /// The save failed; the error is surfaced verbatim.
    Fail(BurchillPostgresError),
}

/// What the caller reports back after performing an action.
#[derive(Debug)]
pub enum SaveEvent {
    HookDone(Result<(), anyhow::Error>),
    InsertFetched(Result<InsertReturn, BurchillPostgresError>),
    UpdateFetched(Result<UpdateReturn, BurchillPostgresError>),
}

/// Where a save stands between two events.
#[derive(Clone, Copy, Debug, PartialEq, Eq, Structural)]
pub enum SavePhase {
    BeforeSaveHook,
    BeforeOperationHook,
    AwaitingRow,
    AfterOperationHook,
    AfterSaveHook,
    Done,
}

/// One save, insert or update of one entity, as a state machine: the caller
/// performs each returned action (a hook, or the database round trip) and
/// feeds the outcome back in. The machine decides the dispatch, the hook
/// order, and what is written onto the envelope; a failure at any stage stops
/// the save and leaves the envelope exactly as the stages before it left it.
pub struct SaveLifecycle {
    pub op: SaveOperation,
    pub with_save_hooks: bool,
    pub phase: SavePhase,
}

impl SaveLifecycle {
    /// The save-hook phases occur only in a full save.
    pub open spec fn wf(self) -> bool {
        !self.with_save_hooks ==> !(self.phase is BeforeSaveHook || self.phase is AfterSaveHook)
    }

    /// Which event the machine expects next.
    pub open spec fn accepts(self, event: SaveEvent) -> bool {
        match self.phase {
            SavePhase::BeforeSaveHook => event is HookDone,
            SavePhase::BeforeOperationHook => event is HookDone,
            SavePhase::AfterOperationHook => event is HookDone,
            SavePhase::AfterSaveHook => event is HookDone,
            SavePhase::AwaitingRow => (self.op is Insert && event is InsertFetched) || (
            self.op is Update && event is UpdateFetched),
            SavePhase::Done => false,
        }
    }

    /// The hook that runs just before the operation's round trip.
    pub open spec fn pre_operation_hook(self) -> HookKind {
        if self.op is Insert {
            HookKind::PreInsert
        } else {
            HookKind::PreUpdate
        }
    }

    /// The hook that runs just after the operation's round trip.
    pub open spec fn post_operation_hook(self) -> HookKind {
        if self.op is Insert {
            HookKind::PostInsert
        } else {
            HookKind::PostUpdate
        }
    }

    /// The round trip the operation asks for.
    pub open spec fn fetch_action(self) -> SaveAction {
        if self.op is Insert {
            SaveAction::FetchInsert
        } else {
            SaveAction::FetchUpdate
        }
    }

    /// Starts a full save: an update when an identifier is present, an insert
    /// otherwise, bracketed by the save hooks. The operation is fixed from
    /// the envelope as the save begins, before any hook runs: a hook that
    /// writes the identifier does not change which statement runs.
    pub fn begin(data: &PostgresBaseEntityData) -> (r: (SaveLifecycle, SaveAction))
        ensures
            r.0.wf(),
            r.0.op == spec_save_operation(*data),
            r.0.with_save_hooks,
            r.0.phase is BeforeSaveHook,
            r.1 == SaveAction::RunHook(HookKind::PreSave),
    {
        let op = if data.id.is_some() {
            SaveOperation::Update
        } else {
            SaveOperation::Insert
        };
        (
            SaveLifecycle { op, with_save_hooks: true, phase: SavePhase::BeforeSaveHook },
            SaveAction::RunHook(HookKind::PreSave),
        )
    }

    /// Starts a bare insert, without the save hooks.
    pub fn begin_insert() -> (r: (SaveLifecycle, SaveAction))
        ensures
            r.0.wf(),
            r.0.op is Insert,
            !r.0.with_save_hooks,
            r.0.phase is BeforeOperationHook,
            r.1 == SaveAction::RunHook(HookKind::PreInsert),
    {
        (
            SaveLifecycle {
                op: SaveOperation::Insert,
                with_save_hooks: false,
                phase: SavePhase::BeforeOperationHook,
            },
            SaveAction::RunHook(HookKind::PreInsert),
        )
    }

    /// Starts a bare update, without the save hooks. An update scopes its
    /// statement by the identifier, so an envelope without one fails fast
    /// with the missing-identifier error instead of building an unscoped
    /// statement.
    pub fn begin_update(data: &PostgresBaseEntityData) -> (r: (SaveLifecycle, SaveAction))
        ensures
            r.0.wf(),
            r.0.op is Update,
            !r.0.with_save_hooks,
            data.id is Some ==> r.0.phase is BeforeOperationHook && r.1 == SaveAction::RunHook(
                HookKind::PreUpdate,
            ),
            data.id is None ==> r.0.phase is Done && r.1 == SaveAction::Fail(
                BurchillPostgresError::MissingIdentifier,
            ),
    {
        if data.id.is_some() {
            (
                SaveLifecycle {
                    op: SaveOperation::Update,
                    with_save_hooks: false,
                    phase: SavePhase::BeforeOperationHook,
                },
                SaveAction::RunHook(HookKind::PreUpdate),
            )
        } else {
            (
                SaveLifecycle {
                    op: SaveOperation::Update,
                    with_save_hooks: false,
                    phase: SavePhase::Done,
                },
                SaveAction::Fail(BurchillPostgresError::MissingIdentifier),
            )
        }
    }

    /// Advances the save by one event. A hook failure or a round-trip failure
    /// stops the save with that error and leaves the envelope untouched; a
    /// successful round trip writes exactly the returned columns onto the
    /// envelope, under each field's own write rule.
    pub fn step(&mut self, manager: &mut PostgresEntityManager, event: SaveEvent) -> (r:
        SaveAction)
        requires
            old(self).wf(),
            old(self).accepts(event),
        ensures
            final(self).wf(),
            final(self).op == old(self).op,
            final(self).with_save_hooks == old(self).with_save_hooks,
            event is HookDone ==> final(manager).entity_data == old(manager).entity_data,
            event matches SaveEvent::HookDone(hr) ==> (hr matches Err(e)
                ==> final(self).phase is Done
                && r == SaveAction::Fail(BurchillPostgresError::AnyhowError(e))),
            event matches SaveEvent::HookDone(hr) ==> ((hr is Ok && old(self).phase
                is BeforeSaveHook) ==> final(self).phase is BeforeOperationHook
                && r == SaveAction::RunHook(old(self).pre_operation_hook())),
            event matches SaveEvent::HookDone(hr) ==> ((hr is Ok && old(self).phase
                is BeforeOperationHook) ==> final(self).phase is AwaitingRow
                && r == old(self).fetch_action()),
            event matches SaveEvent::HookDone(hr) ==> ((hr is Ok && old(self).phase
                is AfterOperationHook && old(self).with_save_hooks) ==> final(self).phase
                is AfterSaveHook && r == SaveAction::RunHook(HookKind::PostSave)),
            event matches SaveEvent::HookDone(hr) ==> ((hr is Ok && old(self).phase
                is AfterOperationHook && !old(self).with_save_hooks) ==> final(self).phase
                is Done && r == SaveAction::Succeed),
            event matches SaveEvent::HookDone(hr) ==> ((hr is Ok && old(self).phase
                is AfterSaveHook) ==> final(self).phase is Done && r == SaveAction::Succeed),
            event matches SaveEvent::InsertFetched(rr) ==> (rr matches Ok(row)
                ==> final(manager).entity_data == old(manager).entity_data.apply_insert_return(row)
                && final(self).phase is AfterOperationHook
                && r == SaveAction::RunHook(HookKind::PostInsert)),
            event matches SaveEvent::InsertFetched(rr) ==> (rr matches Err(e)
                ==> final(manager).entity_data == old(manager).entity_data
                && final(self).phase is Done && r == SaveAction::Fail(e)),
            event matches SaveEvent::UpdateFetched(rr) ==> (rr matches Ok(row)
                ==> final(manager).entity_data == old(manager).entity_data.apply_update_return(row)
                && final(self).phase is AfterOperationHook
                && r == SaveAction::RunHook(HookKind::PostUpdate)),
            event matches SaveEvent::UpdateFetched(rr) ==> (rr matches Err(e)
                ==> final(manager).entity_data == old(manager).entity_data
                && final(self).phase is Done && r == SaveAction::Fail(e)),
    {
        match event {
            SaveEvent::HookDone(hook_result) => match hook_result {
                Err(e) => {
                    self.phase = SavePhase::Done;
                    SaveAction::Fail(BurchillPostgresError::AnyhowError(e))
                },
                Ok(()) => match self.phase {
                    SavePhase::BeforeSaveHook => {
                        self.phase = SavePhase::BeforeOperationHook;
                        match self.op {
                            SaveOperation::Insert => SaveAction::RunHook(HookKind::PreInsert),
                            SaveOperation::Update => SaveAction::RunHook(HookKind::PreUpdate),
                        }
                    },
                    SavePhase::BeforeOperationHook => {
                        self.phase = SavePhase::AwaitingRow;
                        match self.op {
                            SaveOperation::Insert => SaveAction::FetchInsert,
                            SaveOperation::Update => SaveAction::FetchUpdate,
                        }
                    },
                    SavePhase::AfterOperationHook => {
                        if self.with_save_hooks {
                            self.phase = SavePhase::AfterSaveHook;
                            SaveAction::RunHook(HookKind::PostSave)
                        } else {
                            self.phase = SavePhase::Done;
                            SaveAction::Succeed
                        }
                    },
                    SavePhase::AfterSaveHook => {
                        self.phase = SavePhase::Done;
                        SaveAction::Succeed
                    },
                    SavePhase::AwaitingRow => unreached(),
                    SavePhase::Done => unreached(),
                },
            },
            SaveEvent::InsertFetched(row_result) => match row_result {
                Ok(row) => {
                    manager.set_id(row.id);
                    manager.set_created_by(row.created_by);
                    manager.set_created_time(row.created_time);
                    manager.set_active(row.active);
                    self.phase = SavePhase::AfterOperationHook;
                    SaveAction::RunHook(HookKind::PostInsert)
                },
                Err(e) => {
                    self.phase = SavePhase::Done;
                    SaveAction::Fail(e)
                },
            },
            SaveEvent::UpdateFetched(row_result) => match row_result {
                Ok(row) => {
                    manager.set_last_updated_by(row.last_updated_by);
                    manager.set_last_updated_time(row.last_updated_time);
                    self.phase = SavePhase::AfterOperationHook;
                    SaveAction::RunHook(HookKind::PostUpdate)
                },
                Err(e) => {
                    self.phase = SavePhase::Done;
                    SaveAction::Fail(e)
                },
            },
        }
    }
}

/// Adds the audit columns to an entity's own insert statement, and nothing
/// else: the creation time as the raw server-side `DEFAULT` keyword, so the
/// store's clock decides it and no client value is ever bound for it, and the
/// acting user's identifier as the creator.
pub fn create_audited_insert_query<'a>(
    query: quaint::ast::SingleRowInsert<'a>,
    user_id: &Uuid,
) -> (r: quaint::ast::SingleRowInsert<'a>)
    ensures
        ext::insert_entries(r) =~= ext::insert_entries(query).push(
            ("created_time"@, InsertValue::Raw("DEFAULT"@)),
        ).push(("created_by"@, InsertValue::Bind(ext::uuid_value_of(*user_id)))),
{
    let query = ext::push_insert_raw_keyword(query, "created_time", "DEFAULT");
    let query = ext::push_insert_value(query, "created_by", ext::uuid_value(user_id));
    query
}

/// Adds the audit columns to an entity's own update statement, and nothing
/// else: the last-updated time as a timestamp value read from the clock
/// during the call, and the acting user's identifier as the last updater.
pub fn create_audited_update_query<'a>(query: quaint::ast::Update<'a>, user_id: &Uuid) -> (r:
    quaint::ast::Update<'a>)
    ensures
        exists|now: Timestamp|
            ext::update_entries(r) =~= ext::update_entries(query).push(
                ("last_updated_time"@, ext::datetime_value_of(now)),
            ).push(("last_updated_by"@, ext::uuid_value_of(*user_id))),
{
    let now = ext::now_timestamp();
    let with_time = ext::push_update_set(query, "last_updated_time", ext::timestamp_value(now));
    let with_user = ext::push_update_set(with_time, "last_updated_by", ext::uuid_value(user_id));
    proof {
        assert(ext::update_entries(with_user) =~= ext::update_entries(query).push(
            ("last_updated_time"@, ext::datetime_value_of(now)),
        ).push(("last_updated_by"@, ext::uuid_value_of(*user_id))));
    }
    with_user
}

/// The columns an insert asks the store to return: exactly those the
/// lifecycle writes back onto the envelope.
pub fn insert_returning_columns() -> (r: Vec<String>)
    ensures
        r@.map_values(|s: String| s@) =~= seq!["id"@, "created_by"@, "created_time"@, "active"@],
{
    let columns: Vec<String> = vec![
        "id".to_owned(),
        "created_by".to_owned(),
        "created_time".to_owned(),
        "active".to_owned(),
    ];
    proof {
        assert(columns@.map_values(|s: String| s@) =~= seq![
            "id"@,
            "created_by"@,
            "created_time"@,
            "active"@,
        ]);
    }
    columns
}

/// The columns an update asks the store to return: exactly those the
/// lifecycle writes back onto the envelope.
pub fn update_returning_columns() -> (r: Vec<String>)
    ensures
        r@.map_values(|s: String| s@) =~= seq!["last_updated_by"@, "last_updated_time"@],
{
    let columns: Vec<String> = vec!["last_updated_by".to_owned(), "last_updated_time".to_owned()];
    proof {
        assert(columns@.map_values(|s: String| s@) =~= seq![
            "last_updated_by"@,
            "last_updated_time"@,
        ]);
    }
    columns
}

// ---------------------------------------------------------------------------
// The laws of the audit envelope and of the dispatch.
// ---------------------------------------------------------------------------

/// A save of an envelope with no identifier performs an insert, and one with
/// an identifier performs an update — never the reverse.
pub proof fn lemma_save_dispatch(data: PostgresBaseEntityData)
    ensures
        spec_save_operation(data) is Insert <==> data.id is None,
        spec_save_operation(data) is Update <==> data.id is Some,
{
}

/// After a successful insert into a fresh envelope, identifier, creator,
/// creation time and active flag equal exactly what the store returned, and
/// the last-updated fields stay empty.
pub proof fn lemma_insert_populates_from_store(data: PostgresBaseEntityData, row: InsertReturn)
    requires
        data.id is None,
        data.created_by is None,
        data.created_time is None,
    ensures
        data.apply_insert_return(row).id == Some(row.id),
        data.apply_insert_return(row).created_by == Some(row.created_by),
        data.apply_insert_return(row).created_time == Some(row.created_time),
        data.apply_insert_return(row).active == Some(row.active),
        data.apply_insert_return(row).last_updated_by == data.last_updated_by,
        data.apply_insert_return(row).last_updated_time == data.last_updated_time,
{
}

/// A successful update changes only the last-updated fields, to exactly what
/// the store returned; identifier, creator, creation time and active flag are
/// unchanged.
pub proof fn lemma_update_touches_only_audit_tail(data: PostgresBaseEntityData, row: UpdateReturn)
    ensures
        data.apply_update_return(row).last_updated_by == Some(row.last_updated_by),
        data.apply_update_return(row).last_updated_time == Some(row.last_updated_time),
        data.apply_update_return(row).id == data.id,
        data.apply_update_return(row).created_by == data.created_by,
        data.apply_update_return(row).created_time == data.created_time,
        data.apply_update_return(row).active == data.active,
{
}

/// The write-once fields keep their first value: writing into an empty field
/// stores the value, and a second write with any other value is a no-op.
pub proof fn lemma_first_write_wins<T>(first: T, second: T)
    ensures
        spec_set_once(spec_set_once(Option::<T>::None, first), second) == Some(first),
        forall|cur: Option<T>| cur is Some ==> spec_set_once(cur, second) == cur,
{
}

/// The last-updated fields always take the new value, whatever they held.
pub proof fn lemma_last_updated_always_overwrites(
    data: PostgresBaseEntityData,
    user_id: Uuid,
    time: Timestamp,
)
    ensures
        data.with_last_updated_by(user_id).last_updated_by == Some(user_id),
        data.with_last_updated_time(time).last_updated_time == Some(time),
{
}

} // verus!
