use vstd::prelude::*;
use crate::shape::TypeExpr;
use crate::select::{FieldAccessor, FieldDescriptor, SelectedField, SelectionError, select_field, selection};

verus! {

/// What the generated `lock` method is made of: the record it is attached to,
/// the field it locks, and the payload type that its guard dereferences to.
#[derive(Debug, Clone, PartialEq, Eq)]
pub struct AccessorSpec {
    pub record_name: String,
    pub accessor: FieldAccessor,
    pub payload: String,
}

/// The accessor spec for `record_name` from the accessor and payload type of a selection.
pub open spec fn accessor_spec_of(record_name: Seq<char>, selected: (FieldAccessor, TypeExpr)) -> (
    Seq<char>,
    FieldAccessor,
    Seq<char>,
) {
    (record_name, selected.0, selected.1.text@)
}

impl AccessorSpec {
    pub open spec fn view(&self) -> (Seq<char>, FieldAccessor, Seq<char>) {
        (self.record_name@, self.accessor, self.payload@)
    }
}

/// Builds the accessor for record `record_name` from its selected field.
pub fn generate_accessor(selected: SelectedField, record_name: &String) -> (r: AccessorSpec)
    ensures
        r.view() == accessor_spec_of(record_name@, (selected.accessor, *selected.inner_type)),
{
    AccessorSpec {
        record_name: record_name.clone(),
        accessor: selected.accessor,
        payload: selected.inner_type.text.clone(),
    }
}

/// Selects the guarded field of record `record_name` and builds its accessor,
/// or reports the one error that stops generation.
pub fn derive_accessor(record_name: &String, fields: &Vec<FieldDescriptor>) -> (r: Result<
    AccessorSpec,
    SelectionError,
>)
    ensures
        match selection(fields@) {
            Ok(s) => r is Ok && r->Ok_0.view() == accessor_spec_of(record_name@, s),
            Err(e) => r == Err::<AccessorSpec, SelectionError>(e),
        },
{
    match select_field(fields) {
        Ok(selected) => Ok(generate_accessor(selected, record_name)),
        Err(e) => Err(e),
    }
}

} // verus!
