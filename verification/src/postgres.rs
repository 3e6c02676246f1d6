//! An audited-entity layer over a PostgreSQL store: every persisted record
//! carries a fixed audit envelope (identifier, creation and update
//! bookkeeping, active flag), and the save operations fill that envelope from
//! what the database returns, never from client-computed values.

use vstd::prelude::*;
use vstd::string::StringExecFns;

pub mod entity;
pub mod ext;
pub mod repository;

use uuid::Uuid;

verus! {

/// A point in time, as microseconds since the Unix epoch: the precision the
/// store keeps for its timestamp columns.
#[derive(Clone, Copy, Debug, PartialEq, Eq, Structural)]
pub struct Timestamp {
    pub micros: i64,
}

/// The audit envelope shared by every persisted entity. A fresh entity starts
/// with every field empty; identifier, creation time and creator are written
/// once and never overwritten, while the last-updated fields are overwritten
/// on every update.
#[derive(Clone, Copy, Debug)]
pub struct PostgresBaseEntityData {
    pub id: Option<Uuid>,
    pub created_time: Option<Timestamp>,
    pub created_by: Option<Uuid>,
    pub last_updated_time: Option<Timestamp>,
    pub last_updated_by: Option<Uuid>,
    pub active: Option<bool>,
}

/// Writes a value only where none has been written yet: the "first write
/// wins" rule of the identifier, creation time and creator fields.
pub open spec fn spec_set_once<T>(cur: Option<T>, v: T) -> Option<T> {
    if cur is None {
        Some(v)
    } else {
        cur
    }
}

impl PostgresBaseEntityData {
    /// An envelope with every audit field still unset.
    pub fn empty() -> (r: PostgresBaseEntityData)
        ensures
            r.id is None,
            r.created_time is None,
            r.created_by is None,
            r.last_updated_time is None,
            r.last_updated_by is None,
            r.active is None,
    {
        PostgresBaseEntityData {
            id: None,
            created_time: None,
            created_by: None,
            last_updated_time: None,
            last_updated_by: None,
            active: None,
        }
    }
}

/// The errors a save-family operation can surface. Failures of the query
/// builder and of the driver are passed through verbatim; the two leading
/// variants are this library's own.
#[derive(Debug)]
pub enum BurchillPostgresError {
    /// A value's storage type cannot be mapped to a bind parameter.
    UnknownSqlType,
    /// An update was asked of an entity that has no identifier yet.
    MissingIdentifier,
    /// A statement-build failure of the query builder, passed through.
    QuaintError(quaint::error::Error),
    /// An execution failure of the database driver, passed through.
    SqlxError(sqlx_core::error::Error),
    /// A failure raised by an entity's own hook, passed through.
    AnyhowError(anyhow::Error),
}

/// The storage kinds a bind value can have, one per variant of the query
/// builder's value type.
#[derive(Clone, Copy, Debug, PartialEq, Eq, Structural)]
pub enum SqlValueKind {
    Integer,
    Real,
    Text,
    Enum,
    Bytes,
    Boolean,
    Char,
    Uuid,
    DateTime,
    Date,
    Time,
}

/// Which storage kinds can be mapped to a bind parameter. Every other kind is
/// rejected with `UnknownSqlType` before anything is sent to the store.
pub open spec fn binding_supported(kind: SqlValueKind) -> bool {
    ||| kind is Integer
    ||| kind is Text
    ||| kind is Enum
    ||| kind is Boolean
    ||| kind is Uuid
    ||| kind is DateTime
}

/// The model of one bind parameter in an argument buffer: the plain payload
/// the driver was handed, by storage kind. Text stands for text and
/// database-enum values alike, which bind the same way; a point in time is
/// modeled to microsecond precision.
pub enum BindValue {
    Integer(Option<i64>),
    Text(Option<Seq<char>>),
    Boolean(Option<bool>),
    Uuid(Option<uuid::Uuid>),
    DateTime(Option<Timestamp>),
}

/// The model of one value an insert assigns to a column: a bind parameter, or
/// a raw keyword standing in the statement text itself.
pub enum InsertValue {
    Bind(quaint::ast::Value<'static>),
    Raw(Seq<char>),
}

/// What binding a value adds to the argument buffer. Only values of supported
/// kinds are ever bound, so the closing arm is never reached by a verified
/// caller.
pub open spec fn bind_model_of(value: quaint::ast::Value) -> BindValue {
    let kind = ext::kind_of(value);
    if kind is Integer {
        BindValue::Integer(ext::i64_of(value))
    } else if kind is Text || kind is Enum {
        BindValue::Text(ext::string_of(value))
    } else if kind is Boolean {
        BindValue::Boolean(ext::bool_of(value))
    } else if kind is Uuid {
        BindValue::Uuid(ext::uuid_of(value))
    } else {
        BindValue::DateTime(ext::datetime_of(value))
    }
}

/// Adds one bind parameter of a known storage kind, or reports the designated
/// error: exactly the unsupported kinds fail, and a supported one never drops
/// the parameter.
pub fn bind_value_by_kind<'a>(
    args: sqlx_core::postgres::PgArguments,
    value: &quaint::ast::Value<'a>,
    kind: SqlValueKind,
) -> (r: Result<sqlx_core::postgres::PgArguments, BurchillPostgresError>)
    ensures
        r is Ok <==> binding_supported(kind),
        r matches Ok(out) ==> ext::pg_args(out).len() == ext::pg_args(args).len() + 1,
        r matches Ok(out) ==> (kind == ext::kind_of(*value) ==> ext::pg_args(out)
            == ext::pg_args(args).push(bind_model_of(*value))),
        r is Err ==> r->Err_0 is UnknownSqlType,
{
    match kind {
        SqlValueKind::Integer => Ok(ext::bind_integer(args, value)),
        SqlValueKind::Text => Ok(ext::bind_string(args, value)),
        SqlValueKind::Enum => Ok(ext::bind_string(args, value)),
        SqlValueKind::Boolean => Ok(ext::bind_boolean(args, value)),
        SqlValueKind::Uuid => Ok(ext::bind_uuid(args, value)),
        SqlValueKind::DateTime => Ok(ext::bind_datetime(args, value)),
        SqlValueKind::Real => Err(BurchillPostgresError::UnknownSqlType),
        SqlValueKind::Bytes => Err(BurchillPostgresError::UnknownSqlType),
        SqlValueKind::Char => Err(BurchillPostgresError::UnknownSqlType),
        SqlValueKind::Date => Err(BurchillPostgresError::UnknownSqlType),
        SqlValueKind::Time => Err(BurchillPostgresError::UnknownSqlType),
    }
}

/// Adds one bind parameter to the argument buffer: it succeeds exactly for a
/// value of a supported storage kind, appending that value's payload, and
/// otherwise reports the designated error kind.
pub fn add_binding_to_query<'a>(
    args: sqlx_core::postgres::PgArguments,
    value: &quaint::ast::Value<'a>,
) -> (r: Result<sqlx_core::postgres::PgArguments, BurchillPostgresError>)
    ensures
        r is Ok <==> binding_supported(ext::kind_of(*value)),
        r matches Ok(out) ==> ext::pg_args(out) == ext::pg_args(args).push(bind_model_of(*value)),
        r is Err ==> r->Err_0 is UnknownSqlType,
{
    let kind = ext::value_kind(value);
    bind_value_by_kind(args, value, kind)
}

/// Adds every given bind parameter in order: it succeeds exactly when every
/// value's storage kind is supported, appending one payload per value — none
/// is silently dropped — and the first unmappable value aborts with the
/// designated error kind.
pub fn add_bindings_to_query<'a>(
    args: sqlx_core::postgres::PgArguments,
    params: &Vec<quaint::ast::Value<'a>>,
) -> (r: Result<sqlx_core::postgres::PgArguments, BurchillPostgresError>)
    ensures
        r is Ok <==> (forall|j: int|
            0 <= j < params@.len() ==> binding_supported(#[trigger] ext::kind_of(params@[j]))),
        r matches Ok(out) ==> ext::pg_args(out) =~= ext::pg_args(args) + params@.map_values(
            |v: quaint::ast::Value<'a>| bind_model_of(v),
        ),
        r is Err ==> r->Err_0 is UnknownSqlType,
{
    let ghost args0 = ext::pg_args(args);
    let mut current = args;
    let mut i: usize = 0;
    while i < params.len()
        invariant
            i <= params@.len(),
            ext::pg_args(current) =~= args0 + params@.take(i as int).map_values(
                |v: quaint::ast::Value<'a>| bind_model_of(v),
            ),
            forall|j: int| 0 <= j < i ==> binding_supported(#[trigger] ext::kind_of(params@[j])),
        decreases params@.len() - i,
    {
        match add_binding_to_query(current, &params[i]) {
            Ok(next) => {
                proof {
                    let models = |v: quaint::ast::Value<'a>| bind_model_of(v);
                    assert(params@.take(i as int + 1).map_values(models) =~= params@.take(
                        i as int,
                    ).map_values(models).push(bind_model_of(params@[i as int])));
                    assert((args0 + params@.take(i as int).map_values(models)).push(
                        bind_model_of(params@[i as int]),
                    ) =~= args0 + params@.take(i as int + 1).map_values(models));
                }
                current = next;
            },
            Err(e) => {
                proof {
                    assert(!binding_supported(ext::kind_of(params@[i as int])));
                }
                return Err(e);
            },
        }
        i = i + 1;
    }
    proof {
        assert(params@.take(params@.len() as int) =~= params@);
    }
    Ok(current)
}

/// Builds the full argument buffer for a statement's bind parameters: it
/// succeeds exactly when every value's storage kind is supported, and then
/// holds one payload per value, in order; otherwise it reports the designated
/// error.
pub fn create_pg_arguments<'a>(params: &Vec<quaint::ast::Value<'a>>) -> (r: Result<
    sqlx_core::postgres::PgArguments,
    BurchillPostgresError,
>)
    ensures
        r is Ok <==> (forall|j: int|
            0 <= j < params@.len() ==> binding_supported(#[trigger] ext::kind_of(params@[j]))),
        r matches Ok(out) ==> ext::pg_args(out) =~= params@.map_values(
            |v: quaint::ast::Value<'a>| bind_model_of(v),
        ),
        r is Err ==> r->Err_0 is UnknownSqlType,
{
    let args = ext::new_pg_arguments();
    add_bindings_to_query(args, params)
}

/// Asks a select statement for the fixed audit columns, in the envelope's
/// canonical order, after whatever columns it already asks for.
pub fn add_base_fields_to_select(query: quaint::ast::Select) -> (r: quaint::ast::Select)
    ensures
        ext::select_columns(r) =~= ext::select_columns(query) + seq![
            "id"@,
            "created_time"@,
            "created_by"@,
            "last_updated_time"@,
            "last_updated_by"@,
            "active"@,
        ],
{
    let query = ext::push_select_column(query, "id");
    let query = ext::push_select_column(query, "created_time");
    let query = ext::push_select_column(query, "created_by");
    let query = ext::push_select_column(query, "last_updated_time");
    let query = ext::push_select_column(query, "last_updated_by");
    let query = ext::push_select_column(query, "active");
    query
}

/// The column list of a returning clause: the columns in order, separated by
/// a comma and a space.
pub open spec fn comma_joined(cols: Seq<Seq<char>>) -> Seq<char>
    decreases cols.len(),
{
    if cols.len() == 0 {
        Seq::empty()
    } else if cols.len() == 1 {
        cols[0]
    } else {
        comma_joined(cols.drop_last()) + ", "@ + cols.last()
    }
}

/// What appending a returning clause adds to the statement text: nothing for
/// no columns, else the keyword and the comma-separated column list.
pub open spec fn returning_clause(cols: Seq<Seq<char>>) -> Seq<char> {
    if cols.len() == 0 {
        Seq::empty()
    } else {
        " RETURNING "@ + comma_joined(cols)
    }
}

/// Appends a `RETURNING` clause to rendered statement text, for statements
/// whose builder cannot express one itself.
pub fn append_returning(query: String, returning_values: &Vec<String>) -> (r: String)
    ensures
        r@ == query@ + returning_clause(returning_values@.map_values(|s: String| s@)),
{
    let ghost cols = returning_values@.map_values(|s: String| s@);
    let ghost q0 = query@;
    let mut out = query;
    let mut i: usize = 0;
    while i < returning_values.len()
        invariant
            i <= returning_values@.len(),
            cols == returning_values@.map_values(|s: String| s@),
            out@ == q0 + returning_clause(cols.take(i as int)),
        decreases returning_values@.len() - i,
    {
        if i == 0 {
            out.append(" RETURNING ");
        } else {
            out.append(", ");
        }
        out.append(returning_values[i].as_str());
        proof {
            let upto = cols.take(i as int + 1);
            assert(upto.drop_last() =~= cols.take(i as int));
            assert(upto.last() == cols[i as int]);
            if i > 0 {
                assert(returning_clause(upto) =~= returning_clause(cols.take(i as int)) + ", "@
                    + cols[i as int]);
            } else {
                assert(returning_clause(upto) =~= " RETURNING "@ + cols[0]);
            }
        }
        i = i + 1;
    }
    proof {
        assert(cols.take(returning_values@.len() as int) =~= cols);
    }
    out
}

/// Renders a statement to exactly its SQL text and bind parameters. The
/// builder has no error path, so success is owed for every statement it
/// returns on; were it ever to err, that failure would be passed through
/// verbatim. The one malformed in-selection shape the builder does not
/// return on is excluded, and nothing outside the builder can test for it:
/// a caller that feeds one stops inside the builder, exactly as it would
/// without this library.
pub fn build_query<'a>(query: quaint::ast::Query<'a>) -> (r: Result<
    (String, Vec<quaint::ast::Value<'a>>),
    BurchillPostgresError,
>)
    requires
        ext::builds_cleanly(query),
    ensures
        r is Ok,
        r matches Ok(p) ==> p.0@ == ext::postgres_sql_of(query) && p.1@ == ext::postgres_params_of(
            query,
        ),
{
    match ext::build_postgres_query(query) {
        Ok(rendered) => Ok(rendered),
        Err(e) => Err(BurchillPostgresError::QuaintError(e)),
    }
}

/// Renders a statement to exactly its SQL text and bind parameters, with a
/// `RETURNING` clause for the given columns appended to the text, since the
/// builder cannot express one itself. Success is owed and a builder failure
/// would be passed through verbatim, on the same terms as a plain render:
/// the one statement shape the builder does not return on is excluded.
pub fn build_query_with_returning<'a>(
    query: quaint::ast::Query<'a>,
    returning_values: &Vec<String>,
) -> (r: Result<(String, Vec<quaint::ast::Value<'a>>), BurchillPostgresError>)
    requires
        ext::builds_cleanly(query),
    ensures
        r is Ok,
        r matches Ok(p) ==> p.0@ == ext::postgres_sql_of(query) + returning_clause(
            returning_values@.map_values(|s: String| s@),
        ) && p.1@ == ext::postgres_params_of(query),
{
    match ext::build_postgres_query(query) {
        Ok(rendered) => {
            let (sql, bindings) = rendered;
            Ok((append_returning(sql, returning_values), bindings))
        },
        Err(e) => Err(BurchillPostgresError::QuaintError(e)),
    }
}

} // verus!
