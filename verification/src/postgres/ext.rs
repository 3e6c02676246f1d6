//! The border to the outside crates: type declarations, names for what the
//! outside values hold and for what the outside calls return, and the
//! wrappers whose contracts the rest of the library is proved against.
//! Everything trusted lives in this module.

use vstd::prelude::*;

use crate::postgres::{BindValue, InsertValue, SqlValueKind, Timestamp};
use quaint::ast::IntoRaw;
use quaint::visitor::Visitor;
use sqlx_core::arguments::Arguments;

verus! {

// ---------------------------------------------------------------------------
// Outside types carried through the library. Each is opaque: the verified
// code stores and moves such values, and reads them only through the
// wrappers below.
// ---------------------------------------------------------------------------

#[verifier::external_type_specification]
#[verifier::external_body]
pub struct ExUuid(uuid::Uuid);

#[verifier::external_type_specification]
#[verifier::external_body]
pub struct ExValue<'a>(quaint::ast::Value<'a>);

#[verifier::external_type_specification]
#[verifier::external_body]
pub struct ExSingleRowInsert<'a>(quaint::ast::SingleRowInsert<'a>);

#[verifier::external_type_specification]
#[verifier::external_body]
pub struct ExUpdate<'a>(quaint::ast::Update<'a>);

#[verifier::external_type_specification]
#[verifier::external_body]
pub struct ExSelect<'a>(quaint::ast::Select<'a>);

#[verifier::external_type_specification]
#[verifier::external_body]
pub struct ExQuery<'a>(quaint::ast::Query<'a>);

#[verifier::external_type_specification]
#[verifier::external_body]
pub struct ExQuaintError(quaint::error::Error);

#[verifier::external_type_specification]
#[verifier::external_body]
pub struct ExSqlxError(sqlx_core::error::Error);

#[verifier::external_type_specification]
#[verifier::external_body]
pub struct ExAnyhowError(anyhow::Error);

#[verifier::external_type_specification]
#[verifier::external_body]
pub struct ExPgArguments(sqlx_core::postgres::PgArguments);

// ---------------------------------------------------------------------------
// Names for what the outside values hold and what the outside calls return.
// Each is a function of its argument alone; the contracts of the wrappers
// below are the only source of facts about these names.
// ---------------------------------------------------------------------------

/// The storage kind of a value: which variant of quaint's `Value` it is.
pub uninterp spec fn kind_of(value: quaint::ast::Value) -> SqlValueKind;

/// The integer a value holds, as quaint's `Value::as_i64` reads it.
pub uninterp spec fn i64_of(value: quaint::ast::Value) -> Option<i64>;

/// The text a value holds, as quaint's `Value::into_string` reads it.
pub uninterp spec fn string_of(value: quaint::ast::Value) -> Option<Seq<char>>;

/// The truth value a value holds, as quaint's `Value::as_bool` reads it.
pub uninterp spec fn bool_of(value: quaint::ast::Value) -> Option<bool>;

/// The identifier a value holds, as quaint's `Value::as_uuid` reads it.
pub uninterp spec fn uuid_of(value: quaint::ast::Value) -> Option<uuid::Uuid>;

/// The point in time a value holds, to microsecond precision, as quaint's
/// `Value::as_datetime` reads it.
pub uninterp spec fn datetime_of(value: quaint::ast::Value) -> Option<Timestamp>;

/// The value quaint's `Value::Uuid` variant is built from for an identifier.
pub uninterp spec fn uuid_value_of(id: uuid::Uuid) -> quaint::ast::Value<'static>;

/// The value quaint's `Value::DateTime` variant is built from for a point in
/// time given in microseconds.
pub uninterp spec fn datetime_value_of(time: Timestamp) -> quaint::ast::Value<'static>;

/// Whether the Postgres visitor returns normally on a statement. In this
/// builder version it fails to return on exactly one malformed shape its
/// public API admits: an in-selection whose values list has a later row that
/// is empty, where its length guard reads the first row alone and its unwrap
/// then does not hold. The builder keeps its tree private, so no code outside
/// it can test a statement for that shape.
pub uninterp spec fn builds_cleanly(query: quaint::ast::Query) -> bool;

/// The SQL text the Postgres visitor renders for a statement.
pub uninterp spec fn postgres_sql_of(query: quaint::ast::Query) -> Seq<char>;

/// The bind parameters the Postgres visitor gathers for a statement, in the
/// order the rendered text expects them.
pub uninterp spec fn postgres_params_of(query: quaint::ast::Query) -> Seq<quaint::ast::Value>;

/// The column names a select statement asks for, in order.
pub uninterp spec fn select_columns(q: quaint::ast::Select) -> Seq<Seq<char>>;

/// The column-and-value pairs a single-row insert assigns, in order.
pub uninterp spec fn insert_entries(q: quaint::ast::SingleRowInsert) -> Seq<
    (Seq<char>, InsertValue),
>;

/// The column-and-value pairs an update statement assigns, in order.
pub uninterp spec fn update_entries(q: quaint::ast::Update) -> Seq<
    (Seq<char>, quaint::ast::Value<'static>),
>;

/// The bind parameters added to an argument buffer, in order, each modeled by
/// its plain payload.
pub uninterp spec fn pg_args(args: sqlx_core::postgres::PgArguments) -> Seq<BindValue>;

// ---------------------------------------------------------------------------
// quaint: statement building
// ---------------------------------------------------------------------------

/// Relies on quaint's `Select::column`: it appends one column to the
/// statement's column list.
#[verifier::external_body]
pub(crate) fn push_select_column<'a>(query: quaint::ast::Select<'a>, column: &'a str) -> (r:
    quaint::ast::Select<'a>)
    ensures
        select_columns(r) == select_columns(query).push(column@),
{
    query.column(column)
}

/// Relies on quaint's `SingleRowInsert::value`: it appends one
/// column-and-value pair, here with the given value as a bind parameter.
#[verifier::external_body]
pub(crate) fn push_insert_value<'a>(
    query: quaint::ast::SingleRowInsert<'a>,
    column: &'a str,
    value: quaint::ast::Value<'static>,
) -> (r: quaint::ast::SingleRowInsert<'a>)
    ensures
        insert_entries(r) == insert_entries(query).push((column@, InsertValue::Bind(value))),
{
    query.value(column, value)
}

/// Relies on quaint's `SingleRowInsert::value` and on its raw enum values,
/// which the visitor renders unquoted: the keyword stands in the statement
/// text itself, never as a bind parameter, so `DEFAULT` lets the server fill
/// the column.
#[verifier::external_body]
pub(crate) fn push_insert_raw_keyword<'a>(
    query: quaint::ast::SingleRowInsert<'a>,
    column: &'a str,
    keyword: &'a str,
) -> (r: quaint::ast::SingleRowInsert<'a>)
    ensures
        insert_entries(r) == insert_entries(query).push((column@, InsertValue::Raw(keyword@))),
{
    query.value(column, quaint::ast::Value::Enum(Some(keyword.into())).raw())
}

/// Relies on quaint's `Update::set`: it appends one column-and-value pair,
/// with the given value as a bind parameter.
#[verifier::external_body]
pub(crate) fn push_update_set<'a>(
    query: quaint::ast::Update<'a>,
    column: &'a str,
    value: quaint::ast::Value<'static>,
) -> (r: quaint::ast::Update<'a>)
    ensures
        update_entries(r) == update_entries(query).push((column@, value)),
{
    query.set(column, value)
}

/// Relies on quaint's `visitor::Postgres::build`: it renders a statement to
/// SQL text and the bind parameters in the order the text expects them, and
/// it has no error path, since it writes into a `String`. On the one
/// malformed in-selection shape it does not return on, the statement is left
/// out here by `builds_cleanly`, so this library's verified code never feeds
/// it one; an unverified caller that does stops inside the builder, exactly
/// as it would without this library.
#[verifier::external_body]
pub(crate) fn build_postgres_query<'a>(query: quaint::ast::Query<'a>) -> (r: Result<
    (String, Vec<quaint::ast::Value<'a>>),
    quaint::error::Error,
>)
    requires
        builds_cleanly(query),
    ensures
        builds_cleanly(query) ==> r is Ok,
        r matches Ok(p) ==> p.0@ == postgres_sql_of(query) && p.1@ == postgres_params_of(query),
{
    quaint::visitor::Postgres::build(query)
}

// ---------------------------------------------------------------------------
// quaint: values
// ---------------------------------------------------------------------------

/// Tells the variants of quaint's `Value` apart, one arm each: the variant is
/// a function of the value alone.
#[verifier::external_body]
pub(crate) fn value_kind(value: &quaint::ast::Value) -> (r: SqlValueKind)
    ensures
        r == kind_of(*value),
{
    match value {
        quaint::ast::Value::Integer(_) => SqlValueKind::Integer,
        quaint::ast::Value::Real(_) => SqlValueKind::Real,
        quaint::ast::Value::Text(_) => SqlValueKind::Text,
        quaint::ast::Value::Enum(_) => SqlValueKind::Enum,
        quaint::ast::Value::Bytes(_) => SqlValueKind::Bytes,
        quaint::ast::Value::Boolean(_) => SqlValueKind::Boolean,
        quaint::ast::Value::Char(_) => SqlValueKind::Char,
        quaint::ast::Value::Uuid(_) => SqlValueKind::Uuid,
        quaint::ast::Value::DateTime(_) => SqlValueKind::DateTime,
        quaint::ast::Value::Date(_) => SqlValueKind::Date,
        quaint::ast::Value::Time(_) => SqlValueKind::Time,
    }
}

/// Relies on quaint's `Value::Uuid` variant: the built value is a function of
/// the identifier alone.
#[verifier::external_body]
pub(crate) fn uuid_value(id: &uuid::Uuid) -> (r: quaint::ast::Value<'static>)
    ensures
        r == uuid_value_of(*id),
{
    quaint::ast::Value::Uuid(Some(id.to_owned()))
}

/// Relies on chrono's `DateTime::from_timestamp_micros` and quaint's
/// `Value::DateTime` variant: the built value is a function of the timestamp
/// alone; one outside chrono's range becomes a null value.
#[verifier::external_body]
pub(crate) fn timestamp_value(time: Timestamp) -> (r: quaint::ast::Value<'static>)
    ensures
        r == datetime_value_of(time),
{
    quaint::ast::Value::DateTime(chrono::DateTime::from_timestamp_micros(time.micros))
}

/// Relies on chrono's `Utc::now` and `DateTime::timestamp_micros`. The result
/// depends on the clock, so nothing is stated of it.
#[verifier::external_body]
pub(crate) fn now_timestamp() -> (r: Timestamp) {
    Timestamp { micros: chrono::Utc::now().timestamp_micros() }
}

// ---------------------------------------------------------------------------
// sqlx: bind parameters
// ---------------------------------------------------------------------------

/// Relies on `PgArguments::default`, which holds no parameters.
#[verifier::external_body]
pub(crate) fn new_pg_arguments() -> (r: sqlx_core::postgres::PgArguments)
    ensures
        pg_args(r) == Seq::<BindValue>::empty(),
{
    sqlx_core::postgres::PgArguments::default()
}

/// Relies on quaint's `Value::as_i64` and sqlx's `Arguments::add`: exactly
/// one parameter is added, carrying the value's integer, a null one when the
/// value holds nothing.
#[verifier::external_body]
pub(crate) fn bind_integer(args: sqlx_core::postgres::PgArguments, value: &quaint::ast::Value) -> (r:
    sqlx_core::postgres::PgArguments)
    ensures
        pg_args(r) == pg_args(args).push(BindValue::Integer(i64_of(*value))),
{
    let mut args = args;
    args.add(value.as_i64());
    args
}

/// Relies on quaint's `Value::into_string` and sqlx's `Arguments::add`:
/// exactly one parameter is added, carrying the value's text, a null one when
/// the value holds nothing.
#[verifier::external_body]
pub(crate) fn bind_string(args: sqlx_core::postgres::PgArguments, value: &quaint::ast::Value) -> (r:
    sqlx_core::postgres::PgArguments)
    ensures
        pg_args(r) == pg_args(args).push(BindValue::Text(string_of(*value))),
{
    let mut args = args;
    args.add(value.clone().into_string());
    args
}

/// Relies on quaint's `Value::as_bool` and sqlx's `Arguments::add`: exactly
/// one parameter is added, carrying the value's truth value, a null one when
/// the value holds nothing.
#[verifier::external_body]
pub(crate) fn bind_boolean(args: sqlx_core::postgres::PgArguments, value: &quaint::ast::Value) -> (r:
    sqlx_core::postgres::PgArguments)
    ensures
        pg_args(r) == pg_args(args).push(BindValue::Boolean(bool_of(*value))),
{
    let mut args = args;
    args.add(value.as_bool());
    args
}

/// Relies on quaint's `Value::as_uuid` and sqlx's `Arguments::add`: exactly
/// one parameter is added, carrying the value's identifier, a null one when
/// the value holds nothing.
#[verifier::external_body]
pub(crate) fn bind_uuid(args: sqlx_core::postgres::PgArguments, value: &quaint::ast::Value) -> (r:
    sqlx_core::postgres::PgArguments)
    ensures
        pg_args(r) == pg_args(args).push(BindValue::Uuid(uuid_of(*value))),
{
    let mut args = args;
    args.add(value.as_uuid());
    args
}

/// Relies on quaint's `Value::as_datetime` and sqlx's `Arguments::add`:
/// exactly one parameter is added, carrying the value's point in time, a null
/// one when the value holds nothing.
#[verifier::external_body]
pub(crate) fn bind_datetime(args: sqlx_core::postgres::PgArguments, value: &quaint::ast::Value) -> (r:
    sqlx_core::postgres::PgArguments)
    ensures
        pg_args(r) == pg_args(args).push(BindValue::DateTime(datetime_of(*value))),
{
    let mut args = args;
    args.add(value.as_datetime());
    args
}

} // verus!
