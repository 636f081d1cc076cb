use guard_inner_mutex::accessor::{derive_accessor, generate_accessor, AccessorSpec};
use guard_inner_mutex::select::{
    has_guard_attr, select_field, FieldAccessor, FieldDescriptor, SelectionError,
};
use guard_inner_mutex::shape::{match_wrapper, spells, TypeExpr};

fn ty(name: &str, args: Vec<TypeExpr>) -> TypeExpr {
    let text = if args.is_empty() {
        name.to_string()
    } else {
        let inner: Vec<String> = args.iter().map(|a| a.text.clone()).collect();
        format!("{}<{}>", name, inner.join(", "))
    };
    TypeExpr { name: name.to_string(), args, text }
}

fn arc_mutex(payload: TypeExpr) -> TypeExpr {
    ty("Arc", vec![ty("Mutex", vec![payload])])
}

fn field(name: Option<&str>, t: TypeExpr, attrs: &[&str]) -> FieldDescriptor {
    FieldDescriptor {
        ident: name.map(|n| n.to_string()),
        ty: t,
        attrs: attrs.iter().map(|a| a.to_string()).collect(),
    }
}

#[test]
fn single_tuple_field_is_selected() {
    let fields = vec![field(None, arc_mutex(ty("String", vec![])), &[])];
    let s = select_field(&fields).unwrap();
    assert_eq!(s.accessor, FieldAccessor::Unnamed(0));
    assert_eq!(s.inner_type.text, "String");
    assert_eq!(s.inner_type.name, "String");
}

#[test]
fn single_named_field_is_selected() {
    let fields = vec![field(Some("data"), arc_mutex(ty("u32", vec![])), &[])];
    let s = select_field(&fields).unwrap();
    assert_eq!(s.accessor, FieldAccessor::Named("data".to_string()));
    assert_eq!(s.inner_type.text, "u32");
}

#[test]
fn marked_field_among_others_is_selected() {
    let fields = vec![
        field(Some("name"), ty("String", vec![]), &[]),
        field(Some("inner"), arc_mutex(ty("Vec", vec![ty("u8", vec![])])), &["guard"]),
        field(Some("count"), ty("usize", vec![]), &[]),
    ];
    let s = select_field(&fields).unwrap();
    assert_eq!(s.accessor, FieldAccessor::Named("inner".to_string()));
    assert_eq!(s.inner_type.text, "Vec<u8>");
    assert_eq!(s.inner_type.args.len(), 1);
    assert_eq!(fields[0].ty.text, "String");
    assert_eq!(fields[2].ty.text, "usize");
}

#[test]
fn marked_tuple_field_uses_its_position() {
    let fields = vec![
        field(None, ty("String", vec![]), &[]),
        field(None, arc_mutex(ty("i64", vec![])), &["allow", "guard"]),
    ];
    let s = select_field(&fields).unwrap();
    assert_eq!(s.accessor, FieldAccessor::Unnamed(1));
    assert_eq!(s.inner_type.text, "i64");
}

#[test]
fn marked_field_selected_even_if_others_match() {
    let fields = vec![
        field(Some("a"), arc_mutex(ty("u32", vec![])), &[]),
        field(Some("b"), arc_mutex(ty("bool", vec![])), &["guard"]),
    ];
    let s = select_field(&fields).unwrap();
    assert_eq!(s.accessor, FieldAccessor::Named("b".to_string()));
    assert_eq!(s.inner_type.text, "bool");
}

#[test]
fn two_unmarked_handles_are_ambiguous() {
    let fields = vec![
        field(None, arc_mutex(ty("u32", vec![])), &[]),
        field(None, arc_mutex(ty("u32", vec![])), &[]),
    ];
    assert_eq!(select_field(&fields).unwrap_err(), SelectionError::AmbiguousSelection);
}

#[test]
fn lock_without_handle_is_a_shape_mismatch() {
    let fields = vec![field(None, ty("Mutex", vec![ty("u32", vec![])]), &[])];
    assert_eq!(
        select_field(&fields).unwrap_err(),
        SelectionError::ShapeMismatch { field: 0, marked: false }
    );
}

#[test]
fn marked_field_of_wrong_shape_is_a_shape_mismatch() {
    let fields = vec![
        field(Some("name"), ty("String", vec![]), &[]),
        field(Some("inner"), ty("Arc", vec![ty("String", vec![])]), &["guard"]),
    ];
    assert_eq!(
        select_field(&fields).unwrap_err(),
        SelectionError::ShapeMismatch { field: 1, marked: true }
    );
}

#[test]
fn two_markers_are_refused_before_shapes() {
    let fields = vec![
        field(Some("a"), ty("String", vec![]), &["guard"]),
        field(Some("b"), arc_mutex(ty("u8", vec![])), &[]),
        field(Some("c"), ty("u8", vec![]), &["guard"]),
    ];
    assert_eq!(select_field(&fields).unwrap_err(), SelectionError::MultipleMarkers);
    let matching = vec![
        field(Some("a"), arc_mutex(ty("u8", vec![])), &["guard"]),
        field(Some("b"), arc_mutex(ty("u8", vec![])), &["guard"]),
    ];
    assert_eq!(select_field(&matching).unwrap_err(), SelectionError::MultipleMarkers);
}

#[test]
fn record_without_fields_is_refused() {
    let fields: Vec<FieldDescriptor> = vec![];
    assert_eq!(select_field(&fields).unwrap_err(), SelectionError::NoGuardableField);
}

#[test]
fn selection_twice_gives_the_same_field() {
    let fields = vec![
        field(Some("x"), ty("u8", vec![]), &[]),
        field(Some("y"), arc_mutex(ty("String", vec![])), &["guard"]),
    ];
    let first = select_field(&fields).unwrap();
    let second = select_field(&fields).unwrap();
    assert_eq!(first.accessor, second.accessor);
    assert_eq!(first.inner_type, second.inner_type);
    assert!(std::ptr::eq(first.inner_type, second.inner_type));
}

#[test]
fn matcher_extracts_payload() {
    let t = arc_mutex(ty("HashMap", vec![ty("u8", vec![]), ty("String", vec![])]));
    let p = match_wrapper(&t).unwrap();
    assert_eq!(p.text, "HashMap<u8, String>");
    assert!(std::ptr::eq(p, &t.args[0].args[0]));
}

#[test]
fn matcher_refuses_other_shapes() {
    assert!(match_wrapper(&ty("Arc", vec![ty("String", vec![])])).is_none());
    assert!(match_wrapper(&ty("Arc", vec![])).is_none());
    assert!(match_wrapper(&ty("Mutex", vec![ty("u32", vec![])])).is_none());
    assert!(match_wrapper(&ty("Rc", vec![ty("Mutex", vec![ty("u32", vec![])])])).is_none());
    assert!(match_wrapper(&ty("Arc", vec![ty("RwLock", vec![ty("u32", vec![])])])).is_none());
    let two_outer = ty("Arc", vec![ty("Mutex", vec![ty("u32", vec![])]), ty("A", vec![])]);
    assert!(match_wrapper(&two_outer).is_none());
    let two_inner = ty("Arc", vec![ty("Mutex", vec![ty("u32", vec![]), ty("u8", vec![])])]);
    assert!(match_wrapper(&two_inner).is_none());
    assert!(match_wrapper(&ty("Arc", vec![ty("Mutex", vec![])])).is_none());
    assert!(match_wrapper(&ty("", vec![])).is_none());
}

#[test]
fn guard_attribute_detection() {
    assert!(has_guard_attr(&vec!["guard".to_string()]));
    assert!(has_guard_attr(&vec!["allow".to_string(), "guard".to_string()]));
    assert!(!has_guard_attr(&vec![]));
    assert!(!has_guard_attr(&vec!["guards".to_string(), "my::guard".to_string()]));
    assert!(!has_guard_attr(&vec!["Guard".to_string(), "gua".to_string()]));
}

#[test]
fn spelling_comparison() {
    assert!(spells(&"Arc".to_string(), "Arc"));
    assert!(!spells(&"Arc".to_string(), "Ar"));
    assert!(!spells(&"Arx".to_string(), "Arc"));
    assert!(spells(&String::new(), ""));
}

#[test]
fn error_messages() {
    assert_eq!(
        SelectionError::NoGuardableField.message(),
        "InnerGuard cannot be derived for a struct without fields"
    );
    assert_eq!(
        SelectionError::AmbiguousSelection.message(),
        "Multiple fields found. Use #[guard] to mark which field to use."
    );
    assert_eq!(
        SelectionError::MultipleMarkers.message(),
        "Only one field can be marked with #[guard]"
    );
    assert_eq!(
        SelectionError::ShapeMismatch { field: 0, marked: false }.message(),
        "Field type must be Arc<Mutex<T>>"
    );
    assert_eq!(
        SelectionError::ShapeMismatch { field: 2, marked: true }.message(),
        "Field marked with #[guard] must be Arc<parking_lot::Mutex<T>>"
    );
}

#[test]
fn accessor_from_selected_field() {
    let fields = vec![field(Some("inner"), arc_mutex(ty("u32", vec![])), &[])];
    let s = select_field(&fields).unwrap();
    let spec = generate_accessor(s, &"Counter".to_string());
    assert_eq!(
        spec,
        AccessorSpec {
            record_name: "Counter".to_string(),
            accessor: FieldAccessor::Named("inner".to_string()),
            payload: "u32".to_string(),
        }
    );
}

#[test]
fn derive_accessor_for_records() {
    let fields = vec![
        field(Some("name"), ty("String", vec![]), &[]),
        field(Some("inner"), arc_mutex(ty("Vec", vec![ty("u8", vec![])])), &["guard"]),
        field(Some("count"), ty("usize", vec![]), &[]),
    ];
    let spec = derive_accessor(&"MultipleFields".to_string(), &fields).unwrap();
    assert_eq!(spec.record_name, "MultipleFields");
    assert_eq!(spec.accessor, FieldAccessor::Named("inner".to_string()));
    assert_eq!(spec.payload, "Vec<u8>");

    let ambiguous = vec![
        field(None, arc_mutex(ty("u32", vec![])), &[]),
        field(None, arc_mutex(ty("u32", vec![])), &[]),
    ];
    assert_eq!(
        derive_accessor(&"Pair".to_string(), &ambiguous).unwrap_err(),
        SelectionError::AmbiguousSelection
    );
}
