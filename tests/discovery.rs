use bevy_brp_extras::discovery::DiscoverySummary;
use bevy_brp_extras::error::DebugContext;
use bevy_brp_extras::examples::{
    generate_default_example_for_type, generate_primitive_example, is_primitive_type,
};
use bevy_brp_extras::mutation::generate_mutation_info;
use bevy_brp_extras::spawn::{generate_spawn_example, generate_spawn_format};
use bevy_brp_extras::{
    discover_component_format, discover_multiple_formats, get_common_component_types, Decimal,
    DiscoveryError, FieldInfo, JsonValue, NamedField, RegistryError, TypeDescriptor,
    TypeRegistry, Variant, VariantKind,
};

fn s(x: &str) -> String {
    x.to_string()
}

fn field(name: &str, ty: &str) -> NamedField {
    NamedField { name: s(name), type_path: s(ty) }
}

fn float(m: i64, scale: u32) -> JsonValue {
    JsonValue::Float(Decimal { mantissa: m, scale })
}

fn whole(values: &[i64]) -> JsonValue {
    JsonValue::Array(values.iter().map(|v| float(*v, 0)).collect())
}

fn object_keys(v: &JsonValue) -> Vec<String> {
    match v {
        JsonValue::Object(m) => m.iter().map(|(k, _)| k.clone()).collect(),
        other => panic!("not an object: {other:?}"),
    }
}

fn error_message(e: &DiscoveryError) -> String {
    match e {
        DiscoveryError::UnsupportedType { message } => message.clone(),
        DiscoveryError::FormatGeneration { message } => message.clone(),
        other => panic!("unexpected error: {other:?}"),
    }
}

fn transform_registry() -> TypeRegistry {
    let mut reg = TypeRegistry::new();
    reg.register(
        s("Transform"),
        TypeDescriptor::Struct {
            fields: vec![
                field("translation", "glam::Vec3"),
                field("rotation", "glam::Quat"),
                field("scale", "glam::Vec3"),
            ],
        },
    );
    reg
}

fn paths(fields: &[FieldInfo]) -> Vec<String> {
    fields.iter().map(|f| f.path.clone()).collect()
}

#[test]
fn test_common_component_types() {
    let types = get_common_component_types();
    assert!(!types.is_empty());
    assert!(types.contains(&"bevy_transform::components::transform::Transform".to_string()));
}

#[test]
fn test_debug_context() {
    let mut ctx = DebugContext::new();
    ctx.push("test message");
    assert_eq!(ctx.messages.len(), 1);
    assert_eq!(ctx.messages[0], "test message");
}

#[test]
fn test_discovery_error() {
    let error = DiscoveryError::unsupported_type("test type");
    let json_error = error.to_json_error();
    assert!(json_error.get("reason").is_some());
    assert!(json_error.get("details").is_some());
}

#[test]
fn primitive_integers_take_extremal_values() {
    assert_eq!(generate_primitive_example("i8").unwrap(), JsonValue::Int(-128));
    assert_eq!(generate_primitive_example("i16").unwrap(), JsonValue::Int(-32768));
    assert_eq!(generate_primitive_example("i32").unwrap(), JsonValue::Int(-2_147_483_648));
    assert_eq!(
        generate_primitive_example("i64").unwrap(),
        JsonValue::Int(-9_223_372_036_854_775_808)
    );
    assert_eq!(generate_primitive_example("u8").unwrap(), JsonValue::Int(255));
    assert_eq!(generate_primitive_example("u16").unwrap(), JsonValue::Int(65535));
    assert_eq!(generate_primitive_example("u32").unwrap(), JsonValue::Int(4_294_967_295));
    assert_eq!(
        generate_primitive_example("u64").unwrap(),
        JsonValue::Int(18_446_744_073_709_551_615)
    );
    assert_eq!(
        generate_primitive_example("u128").unwrap(),
        JsonValue::Str(s("340282366920938463463374607431768211455"))
    );
    assert_eq!(
        generate_primitive_example("i128").unwrap(),
        JsonValue::Str(s("-170141183460469231731687303715884105728"))
    );
}

#[test]
fn primitive_floats_text_and_bool() {
    assert_eq!(generate_primitive_example("f64").unwrap(), float(3_141_592_653_589_793, 15));
    assert_eq!(generate_primitive_example("f32").unwrap(), float(31_415_927_410_125_732, 16));
    assert_eq!(generate_primitive_example("bool").unwrap(), JsonValue::Bool(true));
    assert_eq!(
        generate_primitive_example("alloc::string::String").unwrap(),
        JsonValue::Str(s("example_string"))
    );
    assert_eq!(generate_primitive_example("&str").unwrap(), JsonValue::Str(s("example_str")));
    assert_eq!(generate_primitive_example("char").unwrap(), JsonValue::Str(s("A")));
}

#[test]
fn primitive_examples_are_deterministic() {
    for name in ["i8", "u64", "f32", "bool", "String", "glam::Vec3", "bevy_color::Color"] {
        assert_eq!(
            generate_primitive_example(name).unwrap(),
            generate_primitive_example(name).unwrap()
        );
    }
}

#[test]
fn primitive_math_and_color_types() {
    assert_eq!(generate_primitive_example("glam::Vec2").unwrap(), whole(&[1, 2]));
    assert_eq!(generate_primitive_example("bevy_math::vec3::Vec3").unwrap(), whole(&[1, 2, 3]));
    assert_eq!(generate_primitive_example("glam::Vec4").unwrap(), whole(&[1, 2, 3, 4]));
    assert_eq!(generate_primitive_example("glam::Quat").unwrap(), whole(&[0, 0, 0, 1]));
    assert_eq!(
        generate_primitive_example("bevy_math::mat2::Mat2").unwrap(),
        JsonValue::Array(vec![whole(&[1, 0]), whole(&[0, 1])])
    );
    let rgba = JsonValue::Object(vec![
        (s("red"), float(1, 0)),
        (s("green"), float(0, 0)),
        (s("blue"), float(0, 0)),
        (s("alpha"), float(1, 0)),
    ]);
    assert_eq!(generate_primitive_example("bevy_color::srgba::Srgba").unwrap(), rgba);
    let color = generate_primitive_example("bevy_color::Color").unwrap();
    assert_eq!(object_keys(&color), vec![s("Srgba")]);
    assert_eq!(generate_primitive_example("core::option::Option").unwrap(), JsonValue::Null);
}

#[test]
fn primitive_unknown_types_are_unsupported() {
    let handle = generate_primitive_example("bevy_asset::handle::Handle<Image>").unwrap_err();
    assert_eq!(
        error_message(&handle),
        "Type 'bevy_asset::handle::Handle<Image>' cannot be represented in JSON as it contains runtime-managed resources"
    );
    let unknown = generate_primitive_example("my::Thing").unwrap_err();
    assert_eq!(
        error_message(&unknown),
        "Type 'my::Thing' is not a known primitive type and cannot be represented in JSON"
    );
    assert!(is_primitive_type("u32"));
    assert!(!is_primitive_type("glam::Vec3"));
}

#[test]
fn default_examples_never_fail() {
    assert_eq!(generate_default_example_for_type("u8"), JsonValue::Int(255));
    assert_eq!(generate_default_example_for_type("core::option::Option<u8>"), JsonValue::Null);
    assert_eq!(
        generate_default_example_for_type("alloc::vec::Vec<u8>"),
        JsonValue::Array(vec![])
    );
    assert_eq!(
        generate_default_example_for_type("std::collections::HashMap<u8, u8>"),
        JsonValue::Object(vec![])
    );
    assert_eq!(
        generate_default_example_for_type("my_crate::module::Widget"),
        JsonValue::Str(s("example_Widget"))
    );
}

#[test]
fn struct_example_keys_equal_field_names() {
    let mut reg = TypeRegistry::new();
    reg.register(
        s("game::Player"),
        TypeDescriptor::Struct {
            fields: vec![field("name", "alloc::string::String"), field("health", "u32")],
        },
    );
    let mut debug = DebugContext::new();
    let example = generate_spawn_example(&reg, "game::Player", &mut debug).unwrap();
    assert_eq!(
        example,
        JsonValue::Object(vec![
            (s("name"), JsonValue::Str(s("example_string"))),
            (s("health"), JsonValue::Int(4_294_967_295)),
        ])
    );
    assert!(!debug.messages.is_empty());
}

#[test]
fn struct_failure_lists_every_bad_field() {
    let mut reg = TypeRegistry::new();
    reg.register(
        s("game::Sprite"),
        TypeDescriptor::Struct {
            fields: vec![
                field("image", "bevy_asset::handle::Handle<Image>"),
                field("visible", "bool"),
                field("custom", "my::Opaque"),
            ],
        },
    );
    let mut debug = DebugContext::new();
    let err = generate_spawn_example(&reg, "game::Sprite", &mut debug).unwrap_err();
    assert_eq!(
        error_message(&err),
        "Field 'image' has type bevy_asset::handle::Handle<Image> which cannot be represented in JSON; Field 'custom' has type my::Opaque which cannot be represented in JSON"
    );
}

#[test]
fn tuple_failure_names_fields_by_index() {
    let mut reg = TypeRegistry::new();
    reg.register(
        s("game::Pair"),
        TypeDescriptor::TupleStruct { fields: vec![s("u8"), s("my::Opaque")] },
    );
    let mut debug = DebugContext::new();
    let err = generate_spawn_example(&reg, "game::Pair", &mut debug).unwrap_err();
    assert_eq!(
        error_message(&err),
        "Field 1 has type my::Opaque which cannot be represented in JSON"
    );
}

#[test]
fn newtype_is_transparent() {
    let mut reg = TypeRegistry::new();
    reg.register(s("game::Score"), TypeDescriptor::TupleStruct { fields: vec![s("u16")] });
    reg.register(
        s("game::Pair"),
        TypeDescriptor::TupleStruct { fields: vec![s("u8"), s("bool")] },
    );
    let mut debug = DebugContext::new();
    assert_eq!(
        generate_spawn_example(&reg, "game::Score", &mut debug).unwrap(),
        JsonValue::Int(65535)
    );
    assert_eq!(
        generate_spawn_example(&reg, "game::Pair", &mut debug).unwrap(),
        JsonValue::Array(vec![JsonValue::Int(255), JsonValue::Bool(true)])
    );
}

#[test]
fn enum_uses_first_declared_variant() {
    let mut reg = TypeRegistry::new();
    reg.register(
        s("game::Mode"),
        TypeDescriptor::Enum {
            variants: vec![
                Variant { name: s("V1"), kind: VariantKind::Unit },
                Variant { name: s("V2"), kind: VariantKind::Unit },
            ],
        },
    );
    reg.register(
        s("game::Shape"),
        TypeDescriptor::Enum {
            variants: vec![
                Variant { name: s("Circle"), kind: VariantKind::Tuple(vec![s("f32")]) },
                Variant { name: s("Unit"), kind: VariantKind::Unit },
            ],
        },
    );
    reg.register(
        s("game::Rect"),
        TypeDescriptor::Enum {
            variants: vec![Variant {
                name: s("Sized"),
                kind: VariantKind::Struct(vec![field("w", "u8"), field("h", "u8")]),
            }],
        },
    );
    reg.register(
        s("game::Line"),
        TypeDescriptor::Enum {
            variants: vec![Variant {
                name: s("Points"),
                kind: VariantKind::Tuple(vec![s("u8"), s("bool")]),
            }],
        },
    );
    reg.register(s("game::Never"), TypeDescriptor::Enum { variants: vec![] });
    let mut debug = DebugContext::new();
    assert_eq!(
        generate_spawn_example(&reg, "game::Mode", &mut debug).unwrap(),
        JsonValue::Str(s("V1"))
    );
    assert_eq!(
        generate_spawn_example(&reg, "game::Shape", &mut debug).unwrap(),
        JsonValue::Object(vec![(s("Circle"), float(31_415_927_410_125_732, 16))])
    );
    assert_eq!(
        generate_spawn_example(&reg, "game::Rect", &mut debug).unwrap(),
        JsonValue::Object(vec![(
            s("Sized"),
            JsonValue::Object(vec![(s("w"), JsonValue::Int(255)), (s("h"), JsonValue::Int(255))])
        )])
    );
    assert_eq!(
        generate_spawn_example(&reg, "game::Line", &mut debug).unwrap(),
        JsonValue::Object(vec![(
            s("Points"),
            JsonValue::Array(vec![JsonValue::Int(255), JsonValue::Bool(true)])
        )])
    );
    let err = generate_spawn_example(&reg, "game::Never", &mut debug).unwrap_err();
    assert_eq!(
        error_message(&err),
        "Enum 'game::Never' has no variants to use as an example"
    );
}

#[test]
fn collections_do_not_recurse() {
    let mut reg = TypeRegistry::new();
    reg.register(s("alloc::vec::Vec<my::Opaque>"), TypeDescriptor::List { element: s("my::Opaque") });
    reg.register(
        s("[my::Opaque; 3]"),
        TypeDescriptor::Array { element: s("my::Opaque"), length: 3 },
    );
    reg.register(
        s("std::collections::HashMap<u8, my::Opaque>"),
        TypeDescriptor::MapLike { key: s("u8"), value: s("my::Opaque") },
    );
    reg.register(s("(u8, bool)"), TypeDescriptor::Tuple { elements: vec![s("u8"), s("bool")] });
    let mut debug = DebugContext::new();
    assert_eq!(
        generate_spawn_example(&reg, "alloc::vec::Vec<my::Opaque>", &mut debug).unwrap(),
        JsonValue::Array(vec![])
    );
    assert_eq!(
        generate_spawn_example(&reg, "[my::Opaque; 3]", &mut debug).unwrap(),
        JsonValue::Array(vec![])
    );
    assert_eq!(
        generate_spawn_example(&reg, "std::collections::HashMap<u8, my::Opaque>", &mut debug)
            .unwrap(),
        JsonValue::Object(vec![])
    );
    assert_eq!(
        generate_spawn_example(&reg, "(u8, bool)", &mut debug).unwrap(),
        JsonValue::Array(vec![JsonValue::Int(255), JsonValue::Bool(true)])
    );
}

#[test]
fn nested_structs_recurse_through_registry() {
    let mut reg = TypeRegistry::new();
    reg.register(s("game::Inner"), TypeDescriptor::Struct { fields: vec![field("flag", "bool")] });
    reg.register(
        s("game::Outer"),
        TypeDescriptor::Struct { fields: vec![field("inner", "game::Inner")] },
    );
    reg.register(s("u8"), TypeDescriptor::Opaque { type_path: s("u8") });
    reg.register(s("game::Leaf"), TypeDescriptor::Opaque { type_path: s("game::Leaf") });
    let mut debug = DebugContext::new();
    assert_eq!(
        generate_spawn_example(&reg, "game::Outer", &mut debug).unwrap(),
        JsonValue::Object(vec![(
            s("inner"),
            JsonValue::Object(vec![(s("flag"), JsonValue::Bool(true))])
        )])
    );
    assert_eq!(generate_spawn_example(&reg, "u8", &mut debug).unwrap(), JsonValue::Int(255));
    assert!(generate_spawn_example(&reg, "game::Leaf", &mut debug).is_err());
}

#[test]
fn self_referential_types_fail_instead_of_looping() {
    let mut reg = TypeRegistry::new();
    reg.register(s("game::Node"), TypeDescriptor::TupleStruct { fields: vec![s("game::Node")] });
    let mut debug = DebugContext::new();
    let err = generate_spawn_example(&reg, "game::Node", &mut debug).unwrap_err();
    assert!(matches!(err, DiscoveryError::RecursiveType { .. }));
    let info = err.to_json_error();
    assert_eq!(info.get("reason"), Some(&JsonValue::Str(s("Recursive type"))));
}

#[test]
fn spawn_format_of_registered_descriptor() {
    let reg = transform_registry();
    let d = reg.resolve("Transform").unwrap();
    let mut debug = DebugContext::new();
    let info = generate_spawn_format(&reg, d, "Transform", &mut debug).unwrap();
    assert_eq!(object_keys(&info.example), vec![s("translation"), s("rotation"), s("scale")]);
    assert_eq!(info.description, "Struct with 3 fields");
}

#[test]
fn mutation_info_is_empty_for_collections_and_enums() {
    let mut reg = TypeRegistry::new();
    reg.register(s("L"), TypeDescriptor::List { element: s("u8") });
    reg.register(s("A"), TypeDescriptor::Array { element: s("u8"), length: 2 });
    reg.register(s("M"), TypeDescriptor::MapLike { key: s("u8"), value: s("u8") });
    reg.register(
        s("E"),
        TypeDescriptor::Enum { variants: vec![Variant { name: s("On"), kind: VariantKind::Unit }] },
    );
    for name in ["L", "A", "M", "E"] {
        let mut debug = DebugContext::new();
        let f = discover_component_format(&reg, name, &mut debug).unwrap();
        assert!(f.mutation_info.fields.is_empty());
        assert_eq!(f.mutation_info.description, format!("Type {name} does not support mutation"));
        let d = reg.resolve(name).unwrap();
        let err = generate_mutation_info(d, name, &mut debug).unwrap_err();
        assert_eq!(
            error_message(&err),
            format!("Mutation info generation not supported for type: {name}")
        );
    }
}

#[test]
fn batch_with_unknown_type() {
    let reg = transform_registry();
    let requested = vec![s("Transform"), s("UnknownType123")];
    let result = discover_multiple_formats(&reg, &requested);
    assert_eq!(result.formats.len(), 1);
    assert_eq!(result.formats[0].0, "Transform");
    assert_eq!(result.formats[0].1.type_path, "Transform");
    assert_eq!(result.errors.len(), 1);
    assert_eq!(result.errors[0].0, "UnknownType123");
    assert!(matches!(
        &result.errors[0].1,
        DiscoveryError::Registry(RegistryError::TypeNotFound { .. })
    ));
    let summary = DiscoverySummary::of(&result, &requested);
    let (num, den) = summary.success_rate();
    assert_eq!(num as f64 / den as f64, 0.5);
    let info = result.errors[0].1.to_json_error();
    assert_eq!(
        info.get("details"),
        Some(&JsonValue::Str(s(
            "Type 'UnknownType123' is not registered with Bevy's type registry"
        )))
    );
}

#[test]
fn batch_of_nothing_has_zero_rate() {
    let reg = transform_registry();
    let requested: Vec<String> = vec![];
    let result = discover_multiple_formats(&reg, &requested);
    let summary = DiscoverySummary::of(&result, &requested);
    assert_eq!(summary.total_requested, 0);
    let (num, den) = summary.success_rate();
    assert_eq!(num as f64 / den as f64, 0.0);
}

#[test]
fn batch_answers_each_name_once() {
    let reg = transform_registry();
    let requested = vec![s("Transform"), s("Transform"), s("Nope"), s("Nope")];
    let result = discover_multiple_formats(&reg, &requested);
    assert_eq!(result.formats.len(), 1);
    assert_eq!(result.errors.len(), 1);
}

#[test]
fn transform_field_paths_are_curated() {
    let mut reg = transform_registry();
    reg.register(
        s("bevy_transform::components::transform::Transform"),
        TypeDescriptor::Struct {
            fields: vec![
                field("translation", "glam::Vec3"),
                field("rotation", "glam::Quat"),
                field("scale", "glam::Vec3"),
            ],
        },
    );
    reg.register(
        s("game::Holder"),
        TypeDescriptor::Struct {
            fields: vec![field("transform", "bevy_transform::components::transform::Transform")],
        },
    );
    let mut debug = DebugContext::new();
    let f = discover_component_format(&reg, "game::Holder", &mut debug).unwrap();
    let ps = paths(&f.mutation_info.fields);
    for p in [
        ".transform",
        ".transform.translation",
        ".transform.translation.x",
        ".transform.translation.y",
        ".transform.translation.z",
        ".transform.rotation",
        ".transform.scale",
        ".transform.scale.x",
    ] {
        assert!(ps.contains(&s(p)), "missing {p}");
    }
    assert!(!ps.contains(&s(".transform.scale.y")));
    assert!(!ps.contains(&s(".transform.scale.z")));
    let scale_x = f.mutation_info.fields.iter().find(|i| i.path == ".transform.scale.x").unwrap();
    assert_eq!(scale_x.example, float(2, 0));
}

#[test]
fn field_paths_follow_type_shape() {
    let reg = transform_registry();
    let mut debug = DebugContext::new();
    let f = discover_component_format(&reg, "Transform", &mut debug).unwrap();
    assert_eq!(
        paths(&f.mutation_info.fields),
        vec![
            s(".translation"),
            s(".translation.x"),
            s(".translation.y"),
            s(".translation.z"),
            s(".rotation"),
            s(".rotation.x"),
            s(".rotation.y"),
            s(".rotation.z"),
            s(".rotation.w"),
            s(".scale"),
            s(".scale.x"),
            s(".scale.y"),
            s(".scale.z"),
        ]
    );
    assert_eq!(f.mutation_info.fields[0].example, whole(&[1, 2, 3]));
    assert_eq!(f.mutation_info.fields[1].example, float(1, 0));

    let mut reg = TypeRegistry::new();
    reg.register(
        s("game::Bag"),
        TypeDescriptor::Struct {
            fields: vec![
                field("items", "alloc::vec::Vec<u8>"),
                field("lookup", "std::collections::HashMap<u8, u8>"),
                field("handle", "bevy_asset::handle::Handle<Image>"),
            ],
        },
    );
    let f = discover_component_format(&reg, "game::Bag", &mut debug);
    assert!(f.is_err());
    reg.register(s("alloc::vec::Vec<u8>"), TypeDescriptor::List { element: s("u8") });
    reg.register(
        s("std::collections::HashMap<u8, u8>"),
        TypeDescriptor::MapLike { key: s("u8"), value: s("u8") },
    );
    reg.register(
        s("game::Bag"),
        TypeDescriptor::Struct {
            fields: vec![
                field("items", "alloc::vec::Vec<u8>"),
                field("lookup", "std::collections::HashMap<u8, u8>"),
            ],
        },
    );
    let f = discover_component_format(&reg, "game::Bag", &mut debug).unwrap();
    assert_eq!(
        paths(&f.mutation_info.fields),
        vec![s(".items"), s(".items[0]"), s(".items[1]"), s(".lookup"), s(".lookup[\"key\"]")]
    );
    assert_eq!(f.mutation_info.fields[0].example, JsonValue::Array(vec![]));
    assert_eq!(f.mutation_info.fields[1].value_type, "array_element");
}

#[test]
fn tuple_struct_paths_use_indices() {
    let mut reg = TypeRegistry::new();
    reg.register(
        s("game::Pair"),
        TypeDescriptor::TupleStruct { fields: vec![s("u8"), s("my::Opaque")] },
    );
    reg.register(s("game::Big"), TypeDescriptor::Tuple { elements: vec![s("bool"); 12] });
    let mut debug = DebugContext::new();
    let d = reg.resolve("game::Pair").unwrap();
    let info = generate_mutation_info(d, "game::Pair", &mut debug).unwrap();
    assert_eq!(paths(&info.fields), vec![s(".0"), s(".1")]);
    assert_eq!(info.fields[1].example, JsonValue::Str(s("example_Opaque")));
    let d = reg.resolve("game::Big").unwrap();
    let info = generate_mutation_info(d, "game::Big", &mut debug).unwrap();
    assert_eq!(info.fields[11].path, ".11");
}

#[test]
fn unknown_type_is_not_found() {
    let reg = TypeRegistry::new();
    let mut debug = DebugContext::new();
    let err = discover_component_format(&reg, "Missing", &mut debug).unwrap_err();
    assert!(matches!(err, DiscoveryError::Registry(RegistryError::TypeNotFound { .. })));
    assert_eq!(err.to_json_error().get("reason"), Some(&JsonValue::Str(s("Type not found in registry"))));
}

#[test]
fn error_constructors_format_messages() {
    let e = DiscoveryError::type_not_supported_for("T", "Spawn");
    assert_eq!(error_message(&e), "Spawn not supported for type: T");
    let e = DiscoveryError::type_cast_failed("TypeInfo", "StructInfo");
    assert_eq!(error_message(&e), "Failed to cast TypeInfo to StructInfo");
    let e = DiscoveryError::no_example_for_type("T");
    assert_eq!(error_message(&e), "No example available for type: T");
    let e = DiscoveryError::format_generation("bad");
    assert_eq!(
        e.to_json_error().get("reason"),
        Some(&JsonValue::Str(s("Format generation error")))
    );
}

#[test]
fn later_registration_shadows_earlier() {
    let mut reg = TypeRegistry::new();
    reg.register(s("T"), TypeDescriptor::Opaque { type_path: s("u8") });
    reg.register(s("T"), TypeDescriptor::Opaque { type_path: s("bool") });
    assert!(matches!(
        reg.resolve("T"),
        Some(TypeDescriptor::Opaque { type_path }) if type_path == "bool"
    ));
    assert!(reg.resolve("t").is_none());
}

#[test]
fn opaque_example_follows_requested_name() {
    let mut reg = TypeRegistry::new();
    reg.register(s("i8"), TypeDescriptor::Opaque { type_path: s("u8") });
    let mut debug = DebugContext::new();
    assert_eq!(generate_spawn_example(&reg, "i8", &mut debug).unwrap(), JsonValue::Int(-128));
}

#[test]
fn spawn_descriptions_by_kind() {
    let mut reg = TypeRegistry::new();
    reg.register(s("game::Score"), TypeDescriptor::TupleStruct { fields: vec![s("u16")] });
    reg.register(s("game::Pair"), TypeDescriptor::TupleStruct { fields: vec![s("u8"), s("bool")] });
    reg.register(
        s("game::Mode"),
        TypeDescriptor::Enum {
            variants: vec![
                Variant { name: s("On"), kind: VariantKind::Unit },
                Variant { name: s("Off"), kind: VariantKind::Unit },
            ],
        },
    );
    reg.register(s("game::List"), TypeDescriptor::List { element: s("u8") });
    let mut debug = DebugContext::new();
    let cases = [
        ("game::Score", "Newtype wrapper around u16"),
        ("game::Pair", "Tuple struct with 2 fields"),
        ("game::Mode", "Enum with 2 variants"),
        ("game::List", "Basic format for game::List"),
    ];
    for (name, description) in cases {
        let d = reg.resolve(name).unwrap();
        let info = generate_spawn_format(&reg, d, name, &mut debug).unwrap();
        assert_eq!(info.description, description);
        let f = discover_component_format(&reg, name, &mut debug).unwrap();
        assert_eq!(f.spawn_format.description, description);
    }
}

#[test]
fn base_path_example_is_the_default_for_its_type() {
    let mut reg = TypeRegistry::new();
    reg.register(s("Foo"), TypeDescriptor::MapLike { key: s("u8"), value: s("u8") });
    reg.register(
        s("game::Holder"),
        TypeDescriptor::Struct { fields: vec![field("lookup", "Foo"), field("pos", "glam::Vec2")] },
    );
    let mut debug = DebugContext::new();
    let f = discover_component_format(&reg, "game::Holder", &mut debug).unwrap();
    assert_eq!(f.mutation_info.fields[0].path, ".lookup");
    assert_eq!(f.mutation_info.fields[0].example, JsonValue::Str(s("example_Foo")));
    assert_eq!(f.mutation_info.description, "Mutation info for struct with 2 fields");
    assert_eq!(f.mutation_info.fields[2].path, ".pos.x");
    assert_eq!(f.mutation_info.fields[2].description, "Mutate the x component");
}

#[test]
fn transform_sub_tree_labels() {
    let mut debug = DebugContext::new();
    let paths = bevy_brp_extras::mutation::generate_field_mutation_paths(
        "t",
        "bevy_transform::components::transform::Transform",
        &mut debug,
    );
    assert_eq!(paths[1].path, ".t.translation");
    assert_eq!(paths[1].value_type, "bevy_math::vec3::Vec3");
    assert_eq!(paths[5].path, ".t.rotation");
    assert_eq!(paths[5].value_type, "bevy_math::quat::Quat");
    let list = bevy_brp_extras::mutation::generate_field_mutation_paths("v", "alloc::vec::Vec<u8>", &mut debug);
    assert_eq!(list[1].description, "Mutate the first element of the Vec");
}

#[test]
fn response_lists_formats_errors_and_counts() {
    let reg = transform_registry();
    let requested = vec![s("Transform"), s("UnknownType123")];
    let result = discover_multiple_formats(&reg, &requested);
    let mut trace = DebugContext::new();
    trace.push("line");
    let response = bevy_brp_extras::response::create_discovery_response(result, &requested, Some(&trace));
    assert_eq!(
        object_keys(&response),
        vec![
            s("success"),
            s("formats"),
            s("requested_types"),
            s("discovered_count"),
            s("errors"),
            s("error_count"),
            s("debug_info"),
            s("summary"),
        ]
    );
    let formats = response.get("formats").unwrap();
    assert_eq!(object_keys(formats), vec![s("Transform")]);
    let transform = formats.get("Transform").unwrap();
    assert_eq!(transform.get("type_name"), Some(&JsonValue::Str(s("Transform"))));
    let summary = response.get("summary").unwrap();
    assert_eq!(summary.get("total_requested"), Some(&JsonValue::Int(2)));
    assert_eq!(summary.get("failed_discoveries"), Some(&JsonValue::Int(1)));

    let requested = vec![s("Transform")];
    let result = discover_multiple_formats(&reg, &requested);
    let response = bevy_brp_extras::response::create_discovery_response(result, &requested, None);
    assert!(response.get("errors").is_none());
    assert!(response.get("debug_info").is_none());
}
