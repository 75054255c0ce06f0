//! Query construction: a builder accumulates a collection selector, filters,
//! orderings, a projection, offset and limit, and produces a structured
//! query. Several filters merge under a logical AND; unrecognized operator
//! tokens are rejected before anything reaches the network.

use vstd::prelude::*;
use crate::error::{FirestoreError, ValidationError};
use crate::strutil::str_eq;
use crate::value::FValue;
use crate::wire::{WireValue, wire_of_val, MAX_VALUE_DEPTH};
use crate::value::val_depth;

verus! {

/// A binary comparison operator of a field filter.
#[derive(Clone, Copy, PartialEq, Eq, Structural, Debug)]
pub enum FieldOperator {
    LessThan,
    LessThanOrEqual,
    Equal,
    GreaterThan,
    GreaterThanOrEqual,
    NotEqual,
    ArrayContains,
    ArrayContainsAny,
    In,
    NotIn,
}

/// A unary test of a field filter.
#[derive(Clone, Copy, PartialEq, Eq, Structural, Debug)]
pub enum UnaryOperator {
    IsNan,
    IsNull,
    IsNotNan,
    IsNotNull,
}

/// An ordering direction.
#[derive(Clone, Copy, PartialEq, Eq, Structural, Debug)]
pub enum Direction {
    Ascending,
    Descending,
}

/// The binary operator a token names, if any.
pub open spec fn field_op_of(s: Seq<char>) -> Option<FieldOperator> {
    if s == "<"@ {
        Some(FieldOperator::LessThan)
    } else if s == "<="@ {
        Some(FieldOperator::LessThanOrEqual)
    } else if s == "=="@ {
        Some(FieldOperator::Equal)
    } else if s == ">"@ {
        Some(FieldOperator::GreaterThan)
    } else if s == ">="@ {
        Some(FieldOperator::GreaterThanOrEqual)
    } else if s == "!="@ {
        Some(FieldOperator::NotEqual)
    } else if s == "array-contains"@ {
        Some(FieldOperator::ArrayContains)
    } else if s == "array-contains-any"@ {
        Some(FieldOperator::ArrayContainsAny)
    } else if s == "in"@ {
        Some(FieldOperator::In)
    } else if s == "not-in"@ {
        Some(FieldOperator::NotIn)
    } else {
        None
    }
}

/// The unary operator a token names, if any.
pub open spec fn unary_op_of(s: Seq<char>) -> Option<UnaryOperator> {
    if s == "is-nan"@ {
        Some(UnaryOperator::IsNan)
    } else if s == "is-null"@ {
        Some(UnaryOperator::IsNull)
    } else if s == "is-not-nan"@ {
        Some(UnaryOperator::IsNotNan)
    } else if s == "is-not-null"@ {
        Some(UnaryOperator::IsNotNull)
    } else {
        None
    }
}

/// The ordering direction a token names, if any.
pub open spec fn direction_of(s: Seq<char>) -> Option<Direction> {
    if s == "asc"@ {
        Some(Direction::Ascending)
    } else if s == "desc"@ {
        Some(Direction::Descending)
    } else {
        None
    }
}

/// Reads a binary operator token; an unrecognized token is rejected.
pub fn str_to_field_op(s: &str) -> (r: Result<FieldOperator, FirestoreError>)
    ensures
        r matches Ok(op) ==> field_op_of(s@) == Some(op),
        r is Err <==> field_op_of(s@) is None,
        r matches Err(e) ==> e matches FirestoreError::Validation(
            ValidationError::UnknownOperatorToken(t),
        ) && t@ == s@,
{
    if str_eq(s, "<") {
        Ok(FieldOperator::LessThan)
    } else if str_eq(s, "<=") {
        Ok(FieldOperator::LessThanOrEqual)
    } else if str_eq(s, "==") {
        Ok(FieldOperator::Equal)
    } else if str_eq(s, ">") {
        Ok(FieldOperator::GreaterThan)
    } else if str_eq(s, ">=") {
        Ok(FieldOperator::GreaterThanOrEqual)
    } else if str_eq(s, "!=") {
        Ok(FieldOperator::NotEqual)
    } else if str_eq(s, "array-contains") {
        Ok(FieldOperator::ArrayContains)
    } else if str_eq(s, "array-contains-any") {
        Ok(FieldOperator::ArrayContainsAny)
    } else if str_eq(s, "in") {
        Ok(FieldOperator::In)
    } else if str_eq(s, "not-in") {
        Ok(FieldOperator::NotIn)
    } else {
        Err(
            FirestoreError::Validation(
                ValidationError::UnknownOperatorToken(String::from_str(s)),
            ),
        )
    }
}

/// Reads a unary operator token; an unrecognized token is rejected.
pub fn str_to_unary_op(s: &str) -> (r: Result<UnaryOperator, FirestoreError>)
    ensures
        r matches Ok(op) ==> unary_op_of(s@) == Some(op),
        r is Err <==> unary_op_of(s@) is None,
        r matches Err(e) ==> e matches FirestoreError::Validation(
            ValidationError::UnknownOperatorToken(t),
        ) && t@ == s@,
{
    if str_eq(s, "is-nan") {
        Ok(UnaryOperator::IsNan)
    } else if str_eq(s, "is-null") {
        Ok(UnaryOperator::IsNull)
    } else if str_eq(s, "is-not-nan") {
        Ok(UnaryOperator::IsNotNan)
    } else if str_eq(s, "is-not-null") {
        Ok(UnaryOperator::IsNotNull)
    } else {
        Err(
            FirestoreError::Validation(
                ValidationError::UnknownOperatorToken(String::from_str(s)),
            ),
        )
    }
}

/// Reads an ordering direction token; an unrecognized token is rejected.
pub fn str_to_direction(s: &str) -> (r: Result<Direction, FirestoreError>)
    ensures
        r matches Ok(d) ==> direction_of(s@) == Some(d),
        r is Err <==> direction_of(s@) is None,
        r matches Err(e) ==> e matches FirestoreError::Validation(
            ValidationError::UnknownOperatorToken(t),
        ) && t@ == s@,
{
    if str_eq(s, "asc") {
        Ok(Direction::Ascending)
    } else if str_eq(s, "desc") {
        Ok(Direction::Descending)
    } else {
        Err(
            FirestoreError::Validation(
                ValidationError::UnknownOperatorToken(String::from_str(s)),
            ),
        )
    }
}

/// A reference to a document field by its path.
#[derive(PartialEq, Debug)]
pub struct FieldReference {
    pub field_path: String,
}

/// The projection of a query: the fields to return.
#[derive(PartialEq, Debug)]
pub struct Projection {
    pub fields: Vec<FieldReference>,
}

/// One collection a query selects from.
#[derive(PartialEq, Debug)]
pub struct CollectionSelector {
    pub collection_id: String,
    pub all_descendants: bool,
}

/// A binary comparison of a field against a wire value.
#[derive(PartialEq, Debug)]
pub struct FieldFilter {
    pub field: FieldReference,
    pub op: FieldOperator,
    pub value: WireValue,
}

/// A unary test of a field.
#[derive(PartialEq, Debug)]
pub struct UnaryFilter {
    pub op: UnaryOperator,
    pub field: FieldReference,
}

/// A query filter: one comparison, one unary test, or several filters
/// combined under a logical AND.
#[derive(PartialEq, Debug)]
pub enum Filter {
    Field(FieldFilter),
    Unary(UnaryFilter),
    CompositeAnd(Vec<Filter>),
}

/// One ordering of a query's results.
#[derive(PartialEq, Debug)]
pub struct Order {
    pub field: FieldReference,
    pub direction: Direction,
}

/// A position in a result set used to start or end a query.
#[derive(PartialEq, Debug)]
pub struct Cursor {
    pub values: Vec<WireValue>,
    pub before: bool,
}

/// A complete structured query.
#[derive(PartialEq, Debug)]
pub struct StructuredQuery {
    pub select: Option<Projection>,
    pub from: Vec<CollectionSelector>,
    pub filter: Option<Filter>,
    pub order_by: Vec<Order>,
    pub start_at: Option<Cursor>,
    pub end_at: Option<Cursor>,
    pub offset: i32,
    pub limit: Option<i32>,
}

/// A projection over the given field paths, in order.
pub fn select_projection(fields: Vec<String>) -> (r: Projection)
    ensures
        r.fields@.len() == fields@.len(),
        forall|i: int|
            0 <= i < fields@.len() ==> #[trigger] r.fields@[i].field_path@ == fields@[i]@,
{
    let mut out: Vec<FieldReference> = Vec::new();
    let mut rest = fields;
    let ghost orig: Seq<String> = rest@;
    let n = rest.len();
    let mut i: usize = 0;
    while rest.len() > 0
        invariant
            i + rest@.len() == n,
            n == orig.len(),
            forall|j: int| 0 <= j < rest@.len() ==> rest@[j] == orig[i + j],
            out@.len() == i,
            forall|j: int| 0 <= j < i ==> #[trigger] out@[j].field_path@ == orig[j]@,
        decreases rest.len(),
    {
        let f = rest.remove(0);
        out.push(FieldReference { field_path: f });
        i = i + 1;
    }
    Projection { fields: out }
}

/// The selector of one collection, with or without its descendants.
pub fn from(collection_id: String, all_descendants: bool) -> (r: CollectionSelector)
    ensures
        r.collection_id == collection_id,
        r.all_descendants == all_descendants,
{
    CollectionSelector { collection_id, all_descendants }
}

/// A reference to a field by its path.
pub fn field_reference(field_path: String) -> (r: FieldReference)
    ensures
        r.field_path == field_path,
{
    FieldReference { field_path }
}

/// A unary filter testing one field.
pub fn unary_filter(field: String, op: UnaryOperator) -> (r: Filter)
    ensures
        r matches Filter::Unary(u) && u.op == op && u.field.field_path == field,
{
    Filter::Unary(UnaryFilter { op, field: FieldReference { field_path: field } })
}

/// A binary filter comparing one field against a value; the value must nest
/// within the wire depth limit.
pub fn field_filter(field: String, op: FieldOperator, value: FValue) -> (r: Filter)
    requires
        val_depth(value@) <= MAX_VALUE_DEPTH,
    ensures
        r matches Filter::Field(f) && f.field.field_path == field && f.op == op && f.value@
            == wire_of_val(value@),
{
    let wire = value.to_grpc_value();
    Filter::Field(
        FieldFilter { field: FieldReference { field_path: field }, op, value: wire },
    )
}

/// Merges filters: none yields no clause, one passes through unwrapped, more
/// combine under a logical AND in order.
pub fn merge_filters(mut filters: Vec<Filter>) -> (r: Option<Filter>)
    ensures
        filters@.len() == 0 ==> r is None,
        filters@.len() == 1 ==> r == Some(filters@[0]),
        filters@.len() > 1 ==> (r matches Some(f) && f matches Filter::CompositeAnd(fs) && fs
            == filters),
{
    if filters.len() == 0 {
        None
    } else if filters.len() == 1 {
        let f = filters.pop();
        match f {
            Some(one) => Some(one),
            None => None,
        }
    } else {
        Some(Filter::CompositeAnd(filters))
    }
}

/// One ordering over a field.
pub fn order(field: String, direction: Direction) -> (r: Order)
    ensures
        r.field.field_path == field,
        r.direction == direction,
{
    Order { field: FieldReference { field_path: field }, direction }
}

/// Accumulates the parts of a structured query.
#[derive(PartialEq, Debug)]
pub struct QueryBuilder {
    pub select: Option<Projection>,
    pub from: Vec<CollectionSelector>,
    pub filters: Vec<Filter>,
    pub orders: Vec<Order>,
    pub offset: i32,
    pub limit: Option<i32>,
}

impl QueryBuilder {
    /// A query over one collection, with or without its descendants: no
    /// filters, no orderings, no projection, offset zero and no limit yet.
    pub fn collection(collection_id: String, all_descendants: bool) -> (r: Self)
        ensures
            r.select is None,
            r.from@.len() == 1,
            r.from@[0].collection_id == collection_id,
            r.from@[0].all_descendants == all_descendants,
            r.filters@.len() == 0,
            r.orders@.len() == 0,
            r.offset == 0,
            r.limit is None,
    {
        let mut colls: Vec<CollectionSelector> = Vec::new();
        colls.push(from(collection_id, all_descendants));
        QueryBuilder {
            select: None,
            from: colls,
            filters: Vec::new(),
            orders: Vec::new(),
            offset: 0,
            limit: None,
        }
    }

    /// Limits the returned fields to the given paths.
    pub fn select(self, fields: Vec<String>) -> (r: Self)
        ensures
            r.select matches Some(p) && p.fields@.len() == fields@.len() && forall|i: int|
                0 <= i < fields@.len() ==> #[trigger] p.fields@[i].field_path@ == fields@[i]@,
            r.from == self.from,
            r.filters == self.filters,
            r.orders == self.orders,
            r.offset == self.offset,
            r.limit == self.limit,
    {
        QueryBuilder { select: Some(select_projection(fields)), ..self }
    }

    /// Adds one filter clause.
    pub fn filter(self, filter: Filter) -> (r: Self)
        ensures
            r.filters@ == self.filters@.push(filter),
            r.select == self.select,
            r.from == self.from,
            r.orders == self.orders,
            r.offset == self.offset,
            r.limit == self.limit,
    {
        let mut filters = self.filters;
        filters.push(filter);
        QueryBuilder { filters, ..self }
    }

    /// Adds one binary comparison filter; the operator token must be
    /// recognized and the value within the wire depth limit.
    pub fn filter_bin(self, field: String, op: &str, value: FValue) -> (r: Self)
        requires
            field_op_of(op@) is Some,
            val_depth(value@) <= MAX_VALUE_DEPTH,
        ensures
            r.filters@.len() == self.filters@.len() + 1,
            r.filters@.last() matches Filter::Field(f) && f.field.field_path == field && Some(
                f.op,
            ) == field_op_of(op@) && f.value@ == wire_of_val(value@),
            r.filters@.take(self.filters@.len() as int) == self.filters@,
            r.select == self.select,
            r.from == self.from,
            r.orders == self.orders,
            r.offset == self.offset,
            r.limit == self.limit,
    {
        let parsed = match str_to_field_op(op) {
            Ok(p) => p,
            Err(_) => {
                proof {
                    assert(false);
                }
                FieldOperator::Equal
            },
        };
        let r = self.filter(field_filter(field, parsed, value));
        proof {
            assert(r.filters@.take(r.filters@.len() - 1) =~= r.filters@.drop_last());
        }
        r
    }

    /// Adds one unary filter; the operator token must be recognized.
    pub fn filter_una(self, field: String, op: &str) -> (r: Self)
        requires
            unary_op_of(op@) is Some,
        ensures
            r.filters@.len() == self.filters@.len() + 1,
            r.filters@.last() matches Filter::Unary(u) && u.field.field_path == field && Some(
                u.op,
            ) == unary_op_of(op@),
            r.filters@.take(self.filters@.len() as int) == self.filters@,
            r.select == self.select,
            r.from == self.from,
            r.orders == self.orders,
            r.offset == self.offset,
            r.limit == self.limit,
    {
        let parsed = match str_to_unary_op(op) {
            Ok(p) => p,
            Err(_) => {
                proof {
                    assert(false);
                }
                UnaryOperator::IsNull
            },
        };
        let r = self.filter(unary_filter(field, parsed));
        proof {
            assert(r.filters@.take(r.filters@.len() - 1) =~= r.filters@.drop_last());
        }
        r
    }

    /// Adds one ordering; the direction token must be recognized.
    pub fn order(self, field: String, direction: &str) -> (r: Self)
        requires
            direction_of(direction@) is Some,
        ensures
            r.orders@.len() == self.orders@.len() + 1,
            r.orders@.last().field.field_path == field,
            Some(r.orders@.last().direction) == direction_of(direction@),
            r.orders@.take(self.orders@.len() as int) == self.orders@,
            r.select == self.select,
            r.from == self.from,
            r.filters == self.filters,
            r.offset == self.offset,
            r.limit == self.limit,
    {
        let parsed = match str_to_direction(direction) {
            Ok(p) => p,
            Err(_) => {
                proof {
                    assert(false);
                }
                Direction::Ascending
            },
        };
        let mut orders = self.orders;
        orders.push(order(field, parsed));
        let r = QueryBuilder { orders, ..self };
        proof {
            assert(r.orders@.take(r.orders@.len() - 1) =~= r.orders@.drop_last());
        }
        r
    }

    /// Skips the first `offset` results.
    pub fn offset(self, offset: i32) -> (r: Self)
        ensures
            r.offset == offset,
            r.select == self.select,
            r.from == self.from,
            r.filters == self.filters,
            r.orders == self.orders,
            r.limit == self.limit,
    {
        QueryBuilder { offset, ..self }
    }

    /// Returns at most `limit` results.
    pub fn limit(self, limit: i32) -> (r: Self)
        ensures
            r.limit == Some(limit),
            r.select == self.select,
            r.from == self.from,
            r.filters == self.filters,
            r.orders == self.orders,
            r.offset == self.offset,
    {
        QueryBuilder { limit: Some(limit), ..self }
    }

    /// Finishes the query with optional start and end cursors, merging the
    /// accumulated filters under a logical AND.
    pub fn build_with_cursor(self, start_at: Option<Cursor>, end_at: Option<Cursor>) -> (r:
        StructuredQuery)
        ensures
            r.select == self.select,
            r.from == self.from,
            self.filters@.len() == 0 ==> r.filter is None,
            self.filters@.len() == 1 ==> r.filter == Some(self.filters@[0]),
            self.filters@.len() > 1 ==> (r.filter matches Some(f) && f matches
                Filter::CompositeAnd(fs) && fs == self.filters),
            r.order_by == self.orders,
            r.start_at == start_at,
            r.end_at == end_at,
            r.offset == self.offset,
            r.limit == self.limit,
    {
        let merged_filter = merge_filters(self.filters);
        StructuredQuery {
            select: self.select,
            from: self.from,
            filter: merged_filter,
            order_by: self.orders,
            start_at,
            end_at,
            offset: self.offset,
            limit: self.limit,
        }
    }

    /// Finishes the query without cursors.
    pub fn build(self) -> (r: StructuredQuery)
        ensures
            r.select == self.select,
            r.from == self.from,
            self.filters@.len() == 0 ==> r.filter is None,
            self.filters@.len() == 1 ==> r.filter == Some(self.filters@[0]),
            self.filters@.len() > 1 ==> (r.filter matches Some(f) && f matches
                Filter::CompositeAnd(fs) && fs == self.filters),
            r.order_by == self.orders,
            r.start_at is None,
            r.end_at is None,
            r.offset == self.offset,
            r.limit == self.limit,
    {
        self.build_with_cursor(None, None)
    }
}

} // verus!
