//! Arrow's schema and fields.
//!
//! Verus does not look inside either type: what a field or a schema says has
//! a name, and each function says over those names what the Arrow
//! constructor that it calls makes.
//!
//! The names speak of the schemas that this library can express. A field is
//! expressible where its data type is one of the four that `field_new` lists
//! and it carries nothing but name, data type and nullability; a schema is
//! expressible where all its fields are and it has no metadata. Of any other
//! field or schema the names say `None`, and no contract says more.

use arrow::datatypes::DataType;
use arrow::datatypes::Field;
use arrow::datatypes::Schema;
use arrow::datatypes::TimeUnit;
use vstd::prelude::*;

use crate::table::ColumnKind;
use crate::table::ColumnSpec;

verus! {

/// Arrow's `Field`, carried through as it is.
#[verifier::external_type_specification]
#[verifier::external_body]
pub struct ExField(Field);

/// Arrow's `Schema`, carried through as it is.
#[verifier::external_type_specification]
#[verifier::external_body]
pub struct ExSchema(Schema);

/// What a field says of its column: the name, the kind and the nullability.
/// `None` for a field that is not expressible.
pub uninterp spec fn field_column(field: Field) -> Option<ColumnSpec>;

/// What a schema says of its columns, in their order. `None` for a schema
/// that is not expressible.
pub uninterp spec fn schema_columns(schema: Schema) -> Option<Seq<ColumnSpec>>;

/// `Field::new`: a field of the given name, data type and nullability, with
/// nothing else set. The data types are `Utf8`, `Dictionary(Int32, Utf8)`,
/// `UInt64` and `Timestamp(Second, None)`.
#[verifier::external_body]
pub(crate) fn field_new(name: &str, kind: ColumnKind, nullable: bool) -> (field: Field)
    ensures
        field_column(field) == Some(ColumnSpec { name: name@, kind, nullable }),
{
    let data_type = match kind {
        ColumnKind::Utf8 => DataType::Utf8,
        ColumnKind::Dictionary => DataType::Dictionary(
            Box::new(DataType::Int32),
            Box::new(DataType::Utf8),
        ),
        ColumnKind::UInt64 => DataType::UInt64,
        ColumnKind::TimestampSecond => DataType::Timestamp(TimeUnit::Second, None),
    };
    Field::new(name, data_type, nullable)
}

/// `Schema::new`: a schema of the given fields in the given order, without
/// metadata. It is expressible exactly where all the fields are.
#[verifier::external_body]
pub(crate) fn schema_new(fields: Vec<Field>) -> (schema: Schema)
    ensures
        schema_columns(schema) is Some <==> forall|at: int|
            0 <= at < fields@.len() ==> field_column(#[trigger] fields@[at]) is Some,
        schema_columns(schema) matches Some(columns) ==> columns == Seq::new(
            fields@.len(),
            |at: int| field_column(fields@[at])->0,
        ),
{
    Schema::new(fields)
}

} // verus!
