use tamanegi_error::chain::{Cause, ErrorNode};
use tamanegi_error::definition::{
    derive_builder, enum_derive_builder, has_ident, struct_derive_builder, DebugPlan,
    DefinitionError, TypeShape, VariantShape,
};
use tamanegi_error::location::{push_decimal, StaticLocationRef};

fn names(v: &[&str]) -> Vec<String> {
    v.iter().map(|s| s.to_string()).collect()
}

fn variant(name: &str, fields: Option<&[&str]>) -> VariantShape {
    VariantShape { name: name.to_string(), named_fields: fields.map(names) }
}

#[test]
fn test_error_enum() {
    let shape = TypeShape::Enum(vec![variant("SubA", Some(&["source", "location"]))]);
    match derive_builder(&shape) {
        Ok(DebugPlan::Enum(plan)) => {
            assert_eq!(plan.len(), 1);
            assert_eq!(plan[0].ident, "SubA");
            assert!(plan[0].has_location);
        }
        _ => panic!("enum with a location field is accepted"),
    }
}

#[test]
fn test_error_struct() {
    let shape = TypeShape::NamedStruct(names(&["a", "location"]));
    assert!(matches!(derive_builder(&shape), Ok(DebugPlan::Struct)));
}

#[test]
fn test_non_tamanegi_leaf() {
    let shape = TypeShape::Enum(vec![variant("SubA", Some(&["source", "location"]))]);
    assert!(matches!(derive_builder(&shape), Ok(DebugPlan::Enum(_))));
    let foreign = "ErrorSubA { _location: tests/leaf.rs:44:9 }";
    let node = ErrorNode::wrap_foreign(foreign, "SubA", StaticLocationRef::new("t.rs", 60, 5));
    assert_eq!(
        node.render_chain(),
        "1: SubA, at t.rs:60:5\nErrorSubA { _location: tests/leaf.rs:44:9 }\n"
    );
}

#[test]
fn single_leaf_renders_one_line() {
    let leaf = ErrorNode::leaf("ErrorSubA", StaticLocationRef::new("app.src", 13, 23));
    assert_eq!(leaf.render_lines(), vec!["0: ErrorSubA, at app.src:13:23".to_string()]);
    assert_eq!(leaf.render_chain(), "0: ErrorSubA, at app.src:13:23\n");
}

#[test]
fn wrapper_over_leaf_renders_two_lines() {
    let leaf = ErrorNode::leaf("ErrorSubA", StaticLocationRef::new("app.src", 13, 23));
    let top = ErrorNode::wrap(leaf, "MyError", StaticLocationRef::new("app.src", 29, 13));
    assert_eq!(
        top.render_chain(),
        "1: MyError, at app.src:29:13\n0: ErrorSubA, at app.src:13:23\n"
    );
}

#[test]
fn long_chain_counts_down_to_zero() {
    let mut node = ErrorNode::leaf("e0", StaticLocationRef::new("f.rs", 1, 1));
    for k in 1..12u32 {
        node = ErrorNode::wrap(node, &format!("e{}", k), StaticLocationRef::new("f.rs", k + 1, k));
    }
    let lines = node.render_lines();
    assert_eq!(lines.len(), 12);
    for (i, line) in lines.iter().enumerate() {
        let depth = 11 - i;
        let loc_col = if depth == 0 { 1 } else { depth };
        assert_eq!(
            line,
            &format!("{}: e{}, at f.rs:{}:{}", depth, depth, depth + 1, loc_col)
        );
    }
}

#[test]
fn wrapping_keeps_inner_locations() {
    let leaf = ErrorNode::leaf("inner", StaticLocationRef::new("a.rs", 3, 4));
    let before = leaf.render_lines();
    let mid = ErrorNode::wrap(leaf, "mid", StaticLocationRef::new("b.rs", 5, 6));
    let top = ErrorNode::wrap(mid, "top", StaticLocationRef::new("c.rs", 7, 8));
    let lines = top.render_lines();
    assert_eq!(lines[0], "2: top, at c.rs:7:8");
    assert_eq!(lines[1], "1: mid, at b.rs:5:6");
    assert_eq!(lines[2], before[0]);
}

#[test]
fn foreign_cause_ends_with_its_text() {
    let inner = ErrorNode::wrap_foreign("disk full", "write", StaticLocationRef::new("w.rs", 2, 9));
    let top = ErrorNode::wrap(inner, "save", StaticLocationRef::new("s.rs", 40, 1));
    assert_eq!(
        top.render_lines(),
        vec![
            "2: save, at s.rs:40:1".to_string(),
            "1: write, at w.rs:2:9".to_string(),
            "disk full".to_string()
        ]
    );
}

#[test]
fn rendering_twice_gives_the_same_text() {
    let leaf = ErrorNode::leaf("x", StaticLocationRef::new("m.rs", 1, 2));
    let top = ErrorNode::wrap(leaf, "y", StaticLocationRef::new("m.rs", 3, 4));
    let first = top.render_chain();
    let second = top.render_chain();
    assert_eq!(first, second);
}

#[test]
fn node_accessors() {
    let leaf = ErrorNode::leaf("boom", StaticLocationRef::new("src/x.rs", 10, 20));
    assert_eq!(leaf.message(), "boom");
    assert_eq!(leaf.location().file(), "src/x.rs");
    assert_eq!(leaf.location().line(), 10);
    assert_eq!(leaf.location().column(), 20);
}

#[test]
fn location_renders_file_line_column() {
    let loc = StaticLocationRef::new("src/main.rs", 29, 13);
    assert_eq!(loc.render(), "src/main.rs:29:13");
    let edge = StaticLocationRef::new("", 0, u32::MAX);
    assert_eq!(edge.render(), ":0:4294967295");
    assert_eq!(edge.clone().render(), ":0:4294967295");
}

#[test]
fn decimal_digits() {
    let mut s = String::from("n=");
    push_decimal(&mut s, 0);
    assert_eq!(s, "n=0");
    let mut t = String::new();
    push_decimal(&mut t, 1090);
    assert_eq!(t, "1090");
}

#[test]
fn has_ident_finds_a_field_by_name() {
    let fields = names(&["source", "location"]);
    assert!(has_ident(&fields, "location"));
    assert!(!has_ident(&fields, "locatio"));
    assert!(!has_ident(&Vec::new(), "location"));
}

#[test]
fn struct_without_location_is_refused() {
    let r = struct_derive_builder(&names(&["source", "loc"]));
    match r {
        Err(e) => {
            assert!(matches!(e, DefinitionError::MissingLocation));
            assert_eq!(e.message(), "location field must be exist");
        }
        Ok(_) => panic!("a struct without location is refused"),
    }
    let shape = TypeShape::NamedStruct(Vec::new());
    assert!(matches!(derive_builder(&shape), Err(DefinitionError::MissingLocation)));
}

#[test]
fn other_shapes_are_not_supported() {
    match derive_builder(&TypeShape::Other) {
        Err(e) => {
            assert!(matches!(e, DefinitionError::NotSupported));
            assert_eq!(e.message(), "not supported");
        }
        Ok(_) => panic!("a tuple struct is refused"),
    }
}

#[test]
fn enum_reports_first_variant_without_location() {
    let variants = vec![
        variant("A", Some(&["location"])),
        variant("B", Some(&["source"])),
        variant("C", None),
    ];
    match enum_derive_builder(&variants) {
        Err(DefinitionError::VariantMissingLocation(name)) => assert_eq!(name, "B"),
        _ => panic!("variant B lacks a location"),
    }
    let tuple = vec![variant("A", Some(&["location"])), variant("T", None)];
    match derive_builder(&TypeShape::Enum(tuple)) {
        Err(DefinitionError::VariantMissingLocation(name)) => assert_eq!(name, "T"),
        _ => panic!("a tuple variant has no location field"),
    }
}

#[test]
fn empty_enum_is_accepted() {
    match enum_derive_builder(&Vec::new()) {
        Ok(DebugPlan::Enum(plan)) => assert!(plan.is_empty()),
        _ => panic!("an enum without variants has nothing to refuse"),
    }
}

#[test]
fn cause_walks_one_link() {
    let leaf = ErrorNode::leaf("inner", StaticLocationRef::new("a.rs", 1, 2));
    assert!(matches!(leaf.cause(), Cause::Absent));
    let top = ErrorNode::wrap(leaf, "outer", StaticLocationRef::new("b.rs", 3, 4));
    match top.cause() {
        Cause::Located(inner) => assert_eq!(inner.message(), "inner"),
        _ => panic!("the wrapped node is the cause"),
    }
    let foreign = ErrorNode::wrap_foreign("io", "read", StaticLocationRef::new("c.rs", 5, 6));
    match foreign.cause() {
        Cause::Foreign(text) => assert_eq!(text, "io"),
        _ => panic!("the foreign error is the cause"),
    }
}
