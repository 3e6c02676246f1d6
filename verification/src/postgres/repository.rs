//! The select-side counterpart of the audit envelope: a repository reads
//! entities back, and every such select must ask for the fixed audit columns.

use vstd::prelude::*;

use crate::postgres::ext;

verus! {

/// Asks a repository's select statement for the fixed audit columns, in the
/// envelope's canonical order, after whatever columns it already asks for.
pub fn add_base_fields_to_select(query: quaint::ast::Select) -> (r: quaint::ast::Select)
    ensures
        ext::select_columns(r) =~= ext::select_columns(query) + seq![
            "id"@,
            "created_time"@,
            "created_by"@,
            "last_updated_time"@,
            "last_updated_by"@,
            "active"@,
        ],
{
    crate::postgres::add_base_fields_to_select(query)
}

} // verus!
