use vstd::prelude::*;
use crate::shape::{TypeExpr, wrapper_payload};
use crate::select::{
    FieldAccessor, FieldDescriptor, SelectedField, SelectionError, accessor_of, is_marked,
    lemma_marked_upto, marked_positions, selected_view, selection, selects,
};

verus! {

/// An unmarked record with a single field of shape `Arc<Mutex<T>>` is selected,
/// through that field, with payload `T`.
pub proof fn lemma_single_field_selected(fields: Seq<FieldDescriptor>, payload: TypeExpr)
    requires
        fields.len() == 1,
        !is_marked(fields[0]),
        wrapper_payload(fields[0].ty) == Some(payload),
    ensures
        selection(fields) == Ok::<(FieldAccessor, TypeExpr), SelectionError>(
            (accessor_of(fields[0], 0), payload),
        ),
{
    lemma_marked_upto(fields, fields.len() as int);
    if marked_positions(fields).len() > 0 {
        assert(is_marked(fields[marked_positions(fields)[0]]));
    }
}

/// A record with two or more fields and no marker is ambiguous.
pub proof fn lemma_unmarked_fields_ambiguous(fields: Seq<FieldDescriptor>)
    requires
        fields.len() >= 2,
        forall|i: int| 0 <= i < fields.len() ==> !#[trigger] is_marked(fields[i]),
    ensures
        selection(fields) == Err::<(FieldAccessor, TypeExpr), SelectionError>(
            SelectionError::AmbiguousSelection,
        ),
{
    lemma_marked_upto(fields, fields.len() as int);
    if marked_positions(fields).len() > 0 {
        assert(is_marked(fields[marked_positions(fields)[0]]));
    }
}

/// A record whose only marked field has shape `Arc<Mutex<T>>` is selected through
/// that field with payload `T`, whatever the types of the other fields.
pub proof fn lemma_marked_field_selected(fields: Seq<FieldDescriptor>, k: int, payload: TypeExpr)
    requires
        0 <= k < fields.len(),
        is_marked(fields[k]),
        forall|i: int| 0 <= i < fields.len() && i != k ==> !#[trigger] is_marked(fields[i]),
        wrapper_payload(fields[k].ty) == Some(payload),
    ensures
        selection(fields) == Ok::<(FieldAccessor, TypeExpr), SelectionError>(
            (accessor_of(fields[k], k), payload),
        ),
{
    let m = marked_positions(fields);
    lemma_marked_upto(fields, fields.len() as int);
    assert(m.contains(k));
    assert forall|j: int| 0 <= j < m.len() implies #[trigger] m[j] == k by {
        assert(is_marked(fields[m[j]]));
    }
    if m.len() > 1 {
        assert(m[0] < m[1]);
    }
}

/// A record with two or more marked fields is refused for its markers,
/// whatever the types of its fields.
pub proof fn lemma_several_markers_refused(fields: Seq<FieldDescriptor>, i: int, j: int)
    requires
        0 <= i < j < fields.len(),
        is_marked(fields[i]),
        is_marked(fields[j]),
    ensures
        selection(fields) == Err::<(FieldAccessor, TypeExpr), SelectionError>(
            SelectionError::MultipleMarkers,
        ),
{
    let m = marked_positions(fields);
    lemma_marked_upto(fields, fields.len() as int);
    assert(m.contains(i));
    assert(m.contains(j));
    if m.len() < 2 {
        let a = choose|a: int| 0 <= a < m.len() && m[a] == i;
        let b = choose|b: int| 0 <= b < m.len() && m[b] == j;
        assert(a == b);
    }
}

/// A record without fields has nothing to guard.
pub proof fn lemma_empty_record_refused(fields: Seq<FieldDescriptor>)
    requires
        fields.len() == 0,
    ensures
        selection(fields) == Err::<(FieldAccessor, TypeExpr), SelectionError>(
            SelectionError::NoGuardableField,
        ),
{
}

/// Selection is a function of the fields alone: two runs on the same fields
/// give the same outcome.
pub proof fn lemma_selection_deterministic<'a, 'b>(
    fields: Seq<FieldDescriptor>,
    r1: Result<SelectedField<'a>, SelectionError>,
    r2: Result<SelectedField<'b>, SelectionError>,
)
    requires
        selects(fields, r1),
        selects(fields, r2),
    ensures
        r1 is Ok <==> r2 is Ok,
        r1 is Ok ==> selected_view(r1->Ok_0) == selected_view(r2->Ok_0),
        r1 is Err ==> r1->Err_0 == r2->Err_0,
{
}

} // verus!
