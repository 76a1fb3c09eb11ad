use vstd::prelude::*;
use vstd::string::StringExecFns;

use crate::errors::CallError;

verus! {

/// The structured request: select the rows whose `field` equals `value`.
///
/// Immutable once constructed and duplicable, so several concurrent calls
/// can be issued from the same filter.
#[derive(Clone)]
pub struct SelectQuery {
    pub field: String,
    pub value: String,
}

/// What the external query builder returns for a `SELECT` over `table`
/// restricted to the columns `first` and `second` under the condition
/// `cond`.  The statement depends on those four arguments alone; its exact
/// text is the builder's contract, not this crate's, so it is left opaque.
pub uninterp spec fn compiled_select(
    table: Seq<char>,
    first: Seq<char>,
    second: Seq<char>,
    cond: Seq<char>,
) -> Seq<char>;

/// The equality condition handed to the query builder for one request.
pub open spec fn equality_condition(field: Seq<char>, value: Seq<char>) -> Seq<char> {
    field + " = '"@ + value + "'"@
}

/// The opaque query that a request compiles to: a `SELECT` of the columns
/// `foo` and `bar` from `table` where `field` equals `value`.
pub open spec fn compiled_query_of(field: Seq<char>, value: Seq<char>) -> Seq<char> {
    compiled_select("table"@, "foo"@, "bar"@, equality_condition(field, value))
}

/// Relies on sql's `select_from`, `Select::columns`, `Select::so_that` and
/// `Statement::compile` for `Select` (a plain string is a condition that
/// compiles to itself): the compiled statement is a pure function of the
/// table, the columns and the condition, and compiling succeeds whenever
/// the table is set, which `select_from` guarantees.
#[verifier::external_body]
fn sql_compile_select(table: &str, first: &str, second: &str, cond: &str) -> (r: Result<String, ()>)
    ensures
        r is Ok,
        r matches Ok(q) ==> q@ == compiled_select(table@, first@, second@, cond@),
{
    let statement = sql::language::select_from(table).columns(&[first, second]).so_that(
        cond.to_string(),
    );
    match sql::grammar::Statement::compile(&statement) {
        Ok(q) => Ok(q),
        Err(_) => Err(()),
    }
}

/// Build the equality condition text for one request.
pub fn build_equality_condition(field: &str, value: &str) -> (r: String)
    ensures
        r@ == equality_condition(field@, value@),
{
    let mut condition = String::from_str(field);
    condition.append(" = '");
    condition.append(value);
    condition.append("'");
    condition
}

/// Compile a structured request into the opaque query.
///
/// Compilation is pure, so equal requests always compile to equal queries;
/// and for a request of this shape the builder always succeeds, so the
/// `QueryCompileError` branch is provably never taken here.
pub fn compile_request(request: &SelectQuery) -> (r: Result<String, CallError>)
    ensures
        r matches Ok(q) && q@ == compiled_query_of(request.field@, request.value@),
{
    let condition = build_equality_condition(request.field.as_str(), request.value.as_str());
    match sql_compile_select("table", "foo", "bar", condition.as_str()) {
        Ok(q) => Ok(q),
        Err(_) => Err(CallError::QueryCompileError),
    }
}

/// Law: query compilation is pure.  Two requests that carry the same field
/// and the same value compile to the same opaque query, however often and
/// wherever they are compiled.
pub proof fn lemma_compilation_is_pure(
    field1: Seq<char>,
    value1: Seq<char>,
    field2: Seq<char>,
    value2: Seq<char>,
)
    requires
        field1 == field2,
        value1 == value2,
    ensures
        compiled_query_of(field1, value1) == compiled_query_of(field2, value2),
{
}

} // verus!
