use vstd::prelude::*;
use crate::shape::{TypeExpr, wrapper_payload, match_wrapper, spells};

verus! {

/// One field of a record, in declaration order.
///
/// `ident` is the field's name, `None` in a tuple record. `attrs` holds the
/// path of each attribute attached to the field, as written (`guard`).
#[derive(Debug)]
pub struct FieldDescriptor {
    pub ident: Option<String>,
    pub ty: TypeExpr,
    pub attrs: Vec<String>,
}

/// How the generated accessor reaches the guarded field: `self.name` or `self.0`.
#[derive(Debug, Clone, PartialEq, Eq)]
pub enum FieldAccessor {
    Named(String),
    Unnamed(usize),
}

/// The field chosen to be guarded, and the payload type inside its lock,
/// borrowed from the field's declared type.
#[derive(Debug)]
pub struct SelectedField<'a> {
    pub accessor: FieldAccessor,
    pub inner_type: &'a TypeExpr,
}

/// Why no accessor can be generated for a record.
#[derive(Debug, Clone, Copy, PartialEq, Eq)]
pub enum SelectionError {
    /// The record has no field at all.
    NoGuardableField,
    /// No field is marked and the record has more than one field.
    AmbiguousSelection,
    /// More than one field is marked.
    MultipleMarkers,
    /// The candidate field (at position `field`) is not of shape `Arc<Mutex<T>>`;
    /// `marked` tells whether it was chosen by its marker or as the only field.
    ShapeMismatch { field: usize, marked: bool },
}

/// The diagnostic reported for each error.
pub open spec fn error_message(e: SelectionError) -> Seq<char> {
    match e {
        SelectionError::NoGuardableField =>
            "InnerGuard cannot be derived for a struct without fields"@,
        SelectionError::AmbiguousSelection =>
            "Multiple fields found. Use #[guard] to mark which field to use."@,
        SelectionError::MultipleMarkers => "Only one field can be marked with #[guard]"@,
        SelectionError::ShapeMismatch { marked: false, .. } => "Field type must be Arc<Mutex<T>>"@,
        SelectionError::ShapeMismatch { marked: true, .. } =>
            "Field marked with #[guard] must be Arc<parking_lot::Mutex<T>>"@,
    }
}

impl SelectionError {
    /// The diagnostic for this error, naming the required shape or the marker.
    pub fn message(&self) -> (r: String)
        ensures
            r@ == error_message(*self),
    {
        match self {
            SelectionError::NoGuardableField => {
                String::from_str("InnerGuard cannot be derived for a struct without fields")
            },
            SelectionError::AmbiguousSelection => {
                String::from_str("Multiple fields found. Use #[guard] to mark which field to use.")
            },
            SelectionError::MultipleMarkers => {
                String::from_str("Only one field can be marked with #[guard]")
            },
            SelectionError::ShapeMismatch { marked, .. } => {
                if *marked {
                    String::from_str("Field marked with #[guard] must be Arc<parking_lot::Mutex<T>>")
                } else {
                    String::from_str("Field type must be Arc<Mutex<T>>")
                }
            },
        }
    }
}

/// The name of the attribute that marks the guarded field.
pub open spec fn marker_name() -> Seq<char> {
    seq!['g', 'u', 'a', 'r', 'd']
}

/// Whether one of `attrs` is the marker.
pub open spec fn attrs_have_marker(attrs: Seq<String>) -> bool {
    exists|i: int| 0 <= i < attrs.len() && #[trigger] attrs[i]@ == marker_name()
}

pub open spec fn is_marked(f: FieldDescriptor) -> bool {
    attrs_have_marker(f.attrs@)
}

/// The positions of the marked fields among the first `n` fields, in order.
pub open spec fn marked_upto(fields: Seq<FieldDescriptor>, n: int) -> Seq<int>
    decreases n,
{
    if n <= 0 {
        Seq::empty()
    } else if is_marked(fields[n - 1]) {
        marked_upto(fields, n - 1).push(n - 1)
    } else {
        marked_upto(fields, n - 1)
    }
}

/// Every entry of `marked_upto(fields, n)` is the position of a marked field
/// below `n`, the entries increase, and each marked field below `n` is among them.
pub proof fn lemma_marked_upto(fields: Seq<FieldDescriptor>, n: int)
    requires
        0 <= n <= fields.len(),
    ensures
        forall|k: int| 0 <= k < marked_upto(fields, n).len() ==> {
            let p = #[trigger] marked_upto(fields, n)[k];
            0 <= p < n && is_marked(fields[p])
        },
        forall|a: int, b: int|
            0 <= a < b < marked_upto(fields, n).len() ==> #[trigger] marked_upto(fields, n)[a]
                < #[trigger] marked_upto(fields, n)[b],
        forall|p: int| 0 <= p < n && #[trigger] is_marked(fields[p]) ==> marked_upto(fields, n).contains(p),
    decreases n,
{
    if n > 0 {
        lemma_marked_upto(fields, n - 1);
        let prev = marked_upto(fields, n - 1);
        if is_marked(fields[n - 1]) {
            assert(marked_upto(fields, n) == prev.push(n - 1));
            assert forall|p: int| 0 <= p < n && #[trigger] is_marked(fields[p]) implies marked_upto(
                fields,
                n,
            ).contains(p) by {
                if p < n - 1 {
                    let k = choose|k: int| 0 <= k < prev.len() && prev[k] == p;
                    assert(marked_upto(fields, n)[k] == p);
                } else {
                    assert(marked_upto(fields, n)[prev.len() as int] == p);
                }
            }
        }
    }
}

/// The positions of the marked fields, in order.
pub open spec fn marked_positions(fields: Seq<FieldDescriptor>) -> Seq<int> {
    marked_upto(fields, fields.len() as int)
}

/// The position of the field to be guarded, or the error that comes before
/// any look at its type.
pub open spec fn candidate(fields: Seq<FieldDescriptor>) -> Result<int, SelectionError> {
    let m = marked_positions(fields);
    if fields.len() == 0 {
        Err(SelectionError::NoGuardableField)
    } else if m.len() == 0 {
        if fields.len() == 1 {
            Ok(0)
        } else {
            Err(SelectionError::AmbiguousSelection)
        }
    } else if m.len() == 1 {
        Ok(m[0])
    } else {
        Err(SelectionError::MultipleMarkers)
    }
}

/// `self.name` for a named field, `self.i` for the field at position `i` of a tuple record.
pub open spec fn accessor_of(f: FieldDescriptor, position: int) -> FieldAccessor {
    match f.ident {
        Some(name) => FieldAccessor::Named(name),
        None => FieldAccessor::Unnamed(position as usize),
    }
}

/// The outcome of selection: the accessor and payload type of the guarded field,
/// or the one error reported for the record.
pub open spec fn selection(fields: Seq<FieldDescriptor>) -> Result<
    (FieldAccessor, TypeExpr),
    SelectionError,
> {
    match candidate(fields) {
        Err(e) => Err(e),
        Ok(c) => match wrapper_payload(fields[c].ty) {
            Some(p) => Ok((accessor_of(fields[c], c), p)),
            None => Err(
                SelectionError::ShapeMismatch { field: c as usize, marked: is_marked(fields[c]) },
            ),
        },
    }
}

/// The accessor and payload type that a selected field stands for.
pub open spec fn selected_view(s: SelectedField) -> (FieldAccessor, TypeExpr) {
    (s.accessor, *s.inner_type)
}

/// `r` is what selection gives for `fields`.
pub open spec fn selects(
    fields: Seq<FieldDescriptor>,
    r: Result<SelectedField, SelectionError>,
) -> bool {
    match r {
        Ok(s) => selection(fields) == Ok::<(FieldAccessor, TypeExpr), SelectionError>(selected_view(s)),
        Err(e) => selection(fields) == Err::<(FieldAccessor, TypeExpr), SelectionError>(e),
    }
}

/// Whether one of `attrs` is the marker `guard`.
pub fn has_guard_attr(attrs: &Vec<String>) -> (r: bool)
    ensures
        r == attrs_have_marker(attrs@),
{
    proof {
        reveal_strlit("guard");
        assert("guard"@ =~= marker_name());
    }
    let mut i: usize = 0;
    while i < attrs.len()
        invariant
            i <= attrs@.len(),
            "guard"@ == marker_name(),
            forall|j: int| 0 <= j < i ==> #[trigger] attrs@[j]@ != marker_name(),
        decreases attrs@.len() - i,
    {
        if spells(&attrs[i], "guard") {
            assert(attrs@[i as int]@ == marker_name());
            return true;
        }
        i = i + 1;
    }
    false
}

fn accessor_for(f: &FieldDescriptor, position: usize) -> (r: FieldAccessor)
    ensures
        r == accessor_of(*f, position as int),
{
    match &f.ident {
        Some(name) => FieldAccessor::Named(name.clone()),
        None => FieldAccessor::Unnamed(position),
    }
}

/// Picks the one field of a record to guard and extracts the payload type of
/// its `Arc<Mutex<T>>`.
///
/// With no marked field, the only field of a one-field record is taken; with
/// exactly one marked field, that one is. Two markers are refused before any
/// look at a type.
pub fn select_field<'a>(fields: &'a Vec<FieldDescriptor>) -> (r: Result<
    SelectedField<'a>,
    SelectionError,
>)
    ensures
        selects(fields@, r),
{
    if fields.len() == 0 {
        return Err(SelectionError::NoGuardableField);
    }
    let mut marked: Vec<usize> = Vec::new();
    let mut i: usize = 0;
    while i < fields.len()
        invariant
            i <= fields@.len(),
            marked@.len() == marked_upto(fields@, i as int).len(),
            forall|k: int|
                0 <= k < marked@.len() ==> marked@[k] as int == #[trigger] marked_upto(
                    fields@,
                    i as int,
                )[k],
        decreases fields@.len() - i,
    {
        if has_guard_attr(&fields[i].attrs) {
            marked.push(i);
        }
        i = i + 1;
    }
    proof {
        lemma_marked_upto(fields@, fields@.len() as int);
    }
    let c: usize;
    if marked.len() == 0 {
        if fields.len() == 1 {
            c = 0;
        } else {
            return Err(SelectionError::AmbiguousSelection);
        }
    } else if marked.len() == 1 {
        c = marked[0];
    } else {
        return Err(SelectionError::MultipleMarkers);
    }
    let field = &fields[c];
    match match_wrapper(&field.ty) {
        Some(inner_type) => Ok(
            SelectedField { accessor: accessor_for(field, c), inner_type },
        ),
        None => Err(SelectionError::ShapeMismatch { field: c, marked: marked.len() == 1 }),
    }
}

} // verus!
