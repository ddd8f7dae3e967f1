//! Mutation paths: addressable sub-paths of an existing instance, each with
//! an example value.
use vstd::prelude::*;
use crate::descriptor::{category_of, is_mutable_category, NamedField, TypeDescriptor};
use crate::error::{extends, DebugContext, DiscoveryError, Failure};
use crate::examples::{default_example, generate_default_example_for_type, is_math_path, whole_numbers_value};
use crate::format::{FieldInfo, MutationInfo};
use crate::json::{whole_numbers, Json, JsonValue};
use crate::text::{
    contains_text, decimal_string, decimal_text, has_sub, join2, join3, lemma_decimal_text_digits,
    lemma_decimal_text_injective, starts_with_text,
};

verus! {

/// The model of one mutation path.
pub struct PathEntry {
    pub path: Seq<char>,
    pub value_type: Seq<char>,
    pub example: Json,
    pub description: Seq<char>,
}

impl View for FieldInfo {
    type V = PathEntry;

    open spec fn view(&self) -> PathEntry {
        PathEntry {
            path: self.path@,
            value_type: self.value_type@,
            example: self.example@,
            description: self.description@,
        }
    }
}

/// The models of a list of mutation paths.
pub open spec fn entries_of(s: Seq<FieldInfo>) -> Seq<PathEntry> {
    s.map_values(|f: FieldInfo| f@)
}

pub open spec fn entry(path: Seq<char>, value_type: Seq<char>, example: Json, description: Seq<char>) -> PathEntry {
    PathEntry { path, value_type, example, description }
}

/// Type paths of list-like fields.
pub open spec fn is_list_path(ty: Seq<char>) -> bool {
    has_sub(ty, "Vec<"@)
}

/// Type paths of map-like fields.
pub open spec fn is_map_path(ty: Seq<char>) -> bool {
    has_sub(ty, "HashMap"@) || has_sub(ty, "BTreeMap"@)
}

/// Type paths of `Transform`-like fields.
pub open spec fn is_transform_path(ty: Seq<char>) -> bool {
    has_sub(ty, "Transform"@)
}

/// Two fixed index paths with placeholder values.
pub open spec fn list_paths(base: Seq<char>) -> Seq<PathEntry> {
    seq![
        entry(base + "[0]"@, "array_element"@, Json::Str("first_element_value"@), "Mutate the first element of the Vec"@),
        entry(base + "[1]"@, "array_element"@, Json::Str("second_element_value"@), "Mutate the second element of the Vec"@),
    ]
}

/// One fixed key path with a placeholder value.
pub open spec fn map_paths(base: Seq<char>) -> Seq<PathEntry> {
    seq![entry(base + "[\"key\"]"@, "map_value"@, Json::Str("value_for_key"@), "Mutate a value in the map by key"@)]
}

/// How many scalar components a math type has: 2, 3 or 4, or none.
pub open spec fn math_width(ty: Seq<char>) -> nat {
    if has_sub(ty, "Vec2"@) {
        2
    } else if has_sub(ty, "Vec3"@) {
        3
    } else if has_sub(ty, "Vec4"@) || has_sub(ty, "Quat"@) {
        4
    } else {
        0
    }
}

/// The name of component `i`: `x`, `y`, `z`, `w`.
pub open spec fn component_name(i: int) -> Seq<char> {
    if i == 0 {
        "x"@
    } else if i == 1 {
        "y"@
    } else if i == 2 {
        "z"@
    } else {
        "w"@
    }
}

/// One path per scalar component, with the examples 1.0, 2.0, ...
pub open spec fn math_paths(base: Seq<char>, ty: Seq<char>) -> Seq<PathEntry> {
    Seq::new(
        math_width(ty),
        |i: int|
            entry(
                base + "."@ + component_name(i),
                "f32"@,
                Json::Float(i + 1, 0),
                "Mutate the "@ + component_name(i) + " component"@,
            ),
    )
}

/// The curated sub-tree of a `Transform`: translation with its three
/// components, rotation as a whole, scale with its `x` component only.
pub open spec fn transform_paths(base: Seq<char>) -> Seq<PathEntry> {
    seq![
        entry(base + ".translation"@, "bevy_math::vec3::Vec3"@, whole_numbers(seq![0, 0, 0]), "Mutate the entire translation"@),
        entry(base + ".translation.x"@, "f32"@, Json::Float(10, 0), "Mutate the translation x component"@),
        entry(base + ".translation.y"@, "f32"@, Json::Float(20, 0), "Mutate the translation y component"@),
        entry(base + ".translation.z"@, "f32"@, Json::Float(30, 0), "Mutate the translation z component"@),
        entry(base + ".rotation"@, "bevy_math::quat::Quat"@, whole_numbers(seq![0, 0, 0, 1]), "Mutate the entire rotation"@),
        entry(base + ".scale"@, "bevy_math::vec3::Vec3"@, whole_numbers(seq![1, 1, 1]), "Mutate the entire scale"@),
        entry(base + ".scale.x"@, "f32"@, Json::Float(2, 0), "Mutate the scale x component"@),
    ]
}

/// The sub-paths chosen by the shape of a field's type path.
pub open spec fn sub_paths(base: Seq<char>, ty: Seq<char>) -> Seq<PathEntry> {
    if is_list_path(ty) {
        list_paths(base)
    } else if is_map_path(ty) {
        map_paths(base)
    } else if is_math_path(ty) {
        math_paths(base, ty)
    } else if is_transform_path(ty) {
        transform_paths(base)
    } else {
        Seq::empty()
    }
}

/// The paths of one field: `.field` itself, then its sub-paths.
pub open spec fn field_paths(field: Seq<char>, ty: Seq<char>) -> Seq<PathEntry> {
    let base = "."@ + field;
    seq![entry(base, ty, default_example(ty), "Mutate the entire "@ + field + " field"@)]
        + sub_paths(base, ty)
}

/// The paths of named fields, field after field.
pub open spec fn struct_paths(fields: Seq<NamedField>) -> Seq<PathEntry>
    decreases fields.len(),
{
    if fields.len() == 0 {
        Seq::empty()
    } else {
        struct_paths(fields.drop_last()) + field_paths(
            fields.last().name@,
            fields.last().type_path@,
        )
    }
}

/// The paths of positional fields, named by their index.
pub open spec fn indexed_paths(types: Seq<String>) -> Seq<PathEntry>
    decreases types.len(),
{
    if types.len() == 0 {
        Seq::empty()
    } else {
        indexed_paths(types.drop_last()) + field_paths(
            decimal_text((types.len() - 1) as nat),
            types.last()@,
        )
    }
}

/// The mutation paths of a type with descriptor `d` registered as `name`, or
/// the failure for a category without addressable fields.
pub open spec fn mutation_paths(d: TypeDescriptor, name: Seq<char>) -> Result<Seq<PathEntry>, Failure> {
    match d {
        TypeDescriptor::Struct { fields } => Ok(struct_paths(fields@)),
        TypeDescriptor::TupleStruct { fields } => Ok(indexed_paths(fields@)),
        TypeDescriptor::Tuple { elements } => Ok(indexed_paths(elements@)),
        _ => Err(
            Failure::Unsupported("Mutation info generation"@ + " not supported for type: "@ + name),
        ),
    }
}

/// The description of a type's mutation paths, by its kind and field count.
pub open spec fn mutation_description(d: TypeDescriptor) -> Seq<char> {
    match d {
        TypeDescriptor::Struct { fields } => "Mutation info for struct with "@ + decimal_text(
            fields@.len(),
        ) + " fields"@,
        TypeDescriptor::TupleStruct { fields } => "Mutation info for tuple struct with "@
            + decimal_text(fields@.len()) + " fields"@,
        TypeDescriptor::Tuple { elements } => "Mutation info for tuple with "@ + decimal_text(
            elements@.len(),
        ) + " fields"@,
        _ => Seq::empty(),
    }
}

fn path_info(path: String, value_type: &str, example: JsonValue, description: String) -> (r: FieldInfo)
    ensures
        r@ == entry(path@, value_type@, example@, description@),
{
    FieldInfo { path, value_type: String::from_str(value_type), example, description }
}

fn push_info(v: &mut Vec<FieldInfo>, f: FieldInfo)
    ensures
        entries_of(final(v)@) == entries_of(old(v)@).push(f@),
{
    v.push(f);
    assert(entries_of(v@) =~= entries_of(old(v)@).push(f@));
}

fn list_path_infos(base: &str) -> (r: Vec<FieldInfo>)
    ensures
        entries_of(r@) == list_paths(base@),
{
    let mut r: Vec<FieldInfo> = Vec::new();
    push_info(&mut r, path_info(join2(base, "[0]"), "array_element", JsonValue::text("first_element_value"), String::from_str("Mutate the first element of the Vec")));
    push_info(&mut r, path_info(join2(base, "[1]"), "array_element", JsonValue::text("second_element_value"), String::from_str("Mutate the second element of the Vec")));
    assert(entries_of(r@) =~= list_paths(base@));
    r
}

fn map_path_infos(base: &str) -> (r: Vec<FieldInfo>)
    ensures
        entries_of(r@) == map_paths(base@),
{
    let mut r: Vec<FieldInfo> = Vec::new();
    push_info(&mut r, path_info(join2(base, "[\"key\"]"), "map_value", JsonValue::text("value_for_key"), String::from_str("Mutate a value in the map by key")));
    assert(entries_of(r@) =~= map_paths(base@));
    r
}

fn component_str(i: usize) -> (r: &'static str)
    requires
        i < 4,
    ensures
        r@ == component_name(i as int),
{
    if i == 0 {
        "x"
    } else if i == 1 {
        "y"
    } else if i == 2 {
        "z"
    } else {
        "w"
    }
}

fn math_path_infos(base: &str, ty: &str) -> (r: Vec<FieldInfo>)
    ensures
        entries_of(r@) == math_paths(base@, ty@),
{
    let width: usize = if contains_text(ty, "Vec2") {
        2
    } else if contains_text(ty, "Vec3") {
        3
    } else if contains_text(ty, "Vec4") || contains_text(ty, "Quat") {
        4
    } else {
        0
    };
    let mut r: Vec<FieldInfo> = Vec::new();
    let mut i: usize = 0;
    while i < width
        invariant
            width == math_width(ty@),
            width <= 4,
            i <= width,
            entries_of(r@) =~= math_paths(base@, ty@).subrange(0, i as int),
        decreases width - i,
    {
        let c = component_str(i);
        let mut path = join3(base, ".", c);
        let description = join3("Mutate the ", c, " component");
        push_info(&mut r, path_info(path, "f32", JsonValue::decimal((i + 1) as i64, 0), description));
        i = i + 1;
    }
    r
}

fn transform_path_infos(base: &str) -> (r: Vec<FieldInfo>)
    ensures
        entries_of(r@) == transform_paths(base@),
{
    let mut r: Vec<FieldInfo> = Vec::new();
    let translation = whole_numbers_value(0, 0, 0, 0, 3);
    assert(seq![0int, 0, 0, 0].subrange(0, 3) =~= seq![0int, 0, 0]);
    push_info(&mut r, path_info(join2(base, ".translation"), "bevy_math::vec3::Vec3", translation, String::from_str("Mutate the entire translation")));
    push_info(&mut r, path_info(join2(base, ".translation.x"), "f32", JsonValue::decimal(10, 0), String::from_str("Mutate the translation x component")));
    push_info(&mut r, path_info(join2(base, ".translation.y"), "f32", JsonValue::decimal(20, 0), String::from_str("Mutate the translation y component")));
    push_info(&mut r, path_info(join2(base, ".translation.z"), "f32", JsonValue::decimal(30, 0), String::from_str("Mutate the translation z component")));
    let rotation = whole_numbers_value(0, 0, 0, 1, 4);
    assert(seq![0int, 0, 0, 1].subrange(0, 4) =~= seq![0int, 0, 0, 1]);
    push_info(&mut r, path_info(join2(base, ".rotation"), "bevy_math::quat::Quat", rotation, String::from_str("Mutate the entire rotation")));
    let scale = whole_numbers_value(1, 1, 1, 0, 3);
    assert(seq![1int, 1, 1, 0].subrange(0, 3) =~= seq![1int, 1, 1]);
    push_info(&mut r, path_info(join2(base, ".scale"), "bevy_math::vec3::Vec3", scale, String::from_str("Mutate the entire scale")));
    push_info(&mut r, path_info(join2(base, ".scale.x"), "f32", JsonValue::decimal(2, 0), String::from_str("Mutate the scale x component")));
    assert(entries_of(r@) =~= transform_paths(base@));
    r
}

/// The mutation paths of one field: its base path `.field`, whose example
/// is the default for its type, then the sub-paths its type path calls for.
/// It never fails.
pub fn generate_field_mutation_paths(
    field_name: &str,
    field_type: &str,
    debug: &mut DebugContext,
) -> (r: Vec<FieldInfo>)
    ensures
        entries_of(r@) == field_paths(field_name@, field_type@),
        extends(*old(debug), *final(debug)),
{
    let base = join2(".", field_name);
    let example = generate_default_example_for_type(field_type);
    let description = join3("Mutate the entire ", field_name, " field");
    let mut r: Vec<FieldInfo> = Vec::new();
    push_info(&mut r, path_info(base.clone(), field_type, example, description));
    let mut subs = if contains_text(field_type, "Vec<") {
        debug.push_owned(join2("Generating Vec mutation paths for ", field_name));
        list_path_infos(base.as_str())
    } else if contains_text(field_type, "HashMap") || contains_text(field_type, "BTreeMap") {
        debug.push_owned(join2("Generating Map mutation paths for ", field_name));
        map_path_infos(base.as_str())
    } else if starts_with_text(field_type, "bevy_math::") || starts_with_text(field_type, "glam::") {
        debug.push_owned(join2("Generating math type mutation paths for ", field_name));
        math_path_infos(base.as_str(), field_type)
    } else if contains_text(field_type, "Transform") {
        debug.push_owned(join2("Generating Transform mutation paths for ", field_name));
        transform_path_infos(base.as_str())
    } else {
        let v: Vec<FieldInfo> = Vec::new();
        assert(entries_of(v@) =~= Seq::empty());
        v
    };
    let ghost first = entries_of(r@);
    let ghost rest = entries_of(subs@);
    r.append(&mut subs);
    assert(entries_of(r@) =~= first + rest);
    r
}

/// The mutation paths of a struct's named fields.
pub fn generate_mutation_info_for_struct(fields: &Vec<NamedField>, debug: &mut DebugContext) -> (r:
    Vec<FieldInfo>)
    ensures
        entries_of(r@) == struct_paths(fields@),
        extends(*old(debug), *final(debug)),
{
    let mut r: Vec<FieldInfo> = Vec::new();
    let mut i: usize = 0;
    assert(entries_of(r@) =~= Seq::empty());
    assert(fields@.subrange(0, 0) =~= Seq::<NamedField>::empty());
    while i < fields.len()
        invariant
            i <= fields@.len(),
            entries_of(r@) == struct_paths(fields@.subrange(0, i as int)),
            extends(*old(debug), *debug),
        decreases fields@.len() - i,
    {
        let f = &fields[i];
        assert(fields@.subrange(0, i + 1).drop_last() =~= fields@.subrange(0, i as int));
        let mut paths = generate_field_mutation_paths(f.name.as_str(), f.type_path.as_str(), debug);
        let ghost first = entries_of(r@);
        let ghost rest = entries_of(paths@);
        r.append(&mut paths);
        assert(entries_of(r@) =~= first + rest);
        i = i + 1;
    }
    assert(fields@.subrange(0, fields@.len() as int) =~= fields@);
    r
}

/// The mutation paths of positional fields, named by their index.
pub fn generate_mutation_info_for_tuple_struct(types: &Vec<String>, debug: &mut DebugContext) -> (r:
    Vec<FieldInfo>)
    ensures
        entries_of(r@) == indexed_paths(types@),
        extends(*old(debug), *final(debug)),
{
    let mut r: Vec<FieldInfo> = Vec::new();
    let mut i: usize = 0;
    assert(entries_of(r@) =~= Seq::empty());
    assert(types@.subrange(0, 0) =~= Seq::<String>::empty());
    while i < types.len()
        invariant
            i <= types@.len(),
            entries_of(r@) == indexed_paths(types@.subrange(0, i as int)),
            extends(*old(debug), *debug),
        decreases types@.len() - i,
    {
        assert(types@.subrange(0, i + 1).drop_last() =~= types@.subrange(0, i as int));
        let index = decimal_string(i);
        let mut paths = generate_field_mutation_paths(index.as_str(), types[i].as_str(), debug);
        let ghost first = entries_of(r@);
        let ghost rest = entries_of(paths@);
        r.append(&mut paths);
        assert(entries_of(r@) =~= first + rest);
        i = i + 1;
    }
    assert(types@.subrange(0, types@.len() as int) =~= types@);
    r
}

/// The mutation paths of a type registered under `type_path` with
/// descriptor `d`; only structs, tuple structs and tuples have them.
pub fn generate_mutation_info(d: &TypeDescriptor, type_path: &str, debug: &mut DebugContext) -> (r:
    Result<MutationInfo, DiscoveryError>)
    ensures
        match r {
            Ok(info) => mutation_paths(*d, type_path@) == Ok::<Seq<PathEntry>, Failure>(
                entries_of(info.fields@),
            ) && info.description@ == mutation_description(*d),
            Err(e) => mutation_paths(*d, type_path@) == Err::<Seq<PathEntry>, Failure>(e@),
        },
        r is Ok <==> is_mutable_category(category_of(*d)),
        r is Ok && well_named(*d) ==> path_list(entries_of(r->Ok_0.fields@)).no_duplicates(),
        extends(*old(debug), *final(debug)),
{
    debug.push_owned(join2("Generating mutation info for: ", type_path));
    let r = match d {
        TypeDescriptor::Struct { fields } => {
            let paths = generate_mutation_info_for_struct(fields, debug);
            let n = decimal_string(fields.len());
            Ok(MutationInfo { fields: paths, description: join3("Mutation info for struct with ", n.as_str(), " fields") })
        },
        TypeDescriptor::TupleStruct { fields } => {
            let paths = generate_mutation_info_for_tuple_struct(fields, debug);
            let n = decimal_string(fields.len());
            Ok(MutationInfo { fields: paths, description: join3("Mutation info for tuple struct with ", n.as_str(), " fields") })
        },
        TypeDescriptor::Tuple { elements } => {
            let paths = generate_mutation_info_for_tuple_struct(elements, debug);
            let n = decimal_string(elements.len());
            Ok(MutationInfo { fields: paths, description: join3("Mutation info for tuple with ", n.as_str(), " fields") })
        },
        _ => Err(DiscoveryError::type_not_supported_for(type_path, "Mutation info generation")),
    };
    proof {
        if r is Ok && well_named(*d) {
            lemma_mutation_paths_distinct(*d, type_path@);
        }
    }
    r
}

/// `base + p == base + q` only where `p == q`.
proof fn lemma_suffix_cancel(base: Seq<char>, p: Seq<char>, q: Seq<char>)
    requires
        base + p == base + q,
    ensures
        p == q,
{
    assert(p =~= (base + p).subrange(base.len() as int, (base + p).len() as int));
    assert(q =~= (base + q).subrange(base.len() as int, (base + q).len() as int));
}

/// The `Transform` sub-tree under `base` holds the paths `.translation`,
/// `.translation.x`, `.translation.y`, `.translation.z`, `.rotation`,
/// `.scale` and `.scale.x`, and neither `.scale.y` nor `.scale.z`.
pub proof fn lemma_transform_paths(base: Seq<char>)
    ensures
        transform_paths(base).map_values(|e: PathEntry| e.path).to_set() == set![
            base + ".translation"@,
            base + ".translation.x"@,
            base + ".translation.y"@,
            base + ".translation.z"@,
            base + ".rotation"@,
            base + ".scale"@,
            base + ".scale.x"@,
        ],
        !transform_paths(base).map_values(|e: PathEntry| e.path).contains(base + ".scale.y"@),
        !transform_paths(base).map_values(|e: PathEntry| e.path).contains(base + ".scale.z"@),
{
    let ps = transform_paths(base).map_values(|e: PathEntry| e.path);
    let expected = seq![
        base + ".translation"@,
        base + ".translation.x"@,
        base + ".translation.y"@,
        base + ".translation.z"@,
        base + ".rotation"@,
        base + ".scale"@,
        base + ".scale.x"@,
    ];
    assert(ps =~= expected);
    assert(ps.to_set() =~= set![
        base + ".translation"@,
        base + ".translation.x"@,
        base + ".translation.y"@,
        base + ".translation.z"@,
        base + ".rotation"@,
        base + ".scale"@,
        base + ".scale.x"@,
    ]) by {
        assert forall|x: Seq<char>| ps.to_set().contains(x) implies set![
            base + ".translation"@,
            base + ".translation.x"@,
            base + ".translation.y"@,
            base + ".translation.z"@,
            base + ".rotation"@,
            base + ".scale"@,
            base + ".scale.x"@,
        ].contains(x) by {
            let i = choose|i: int| 0 <= i < ps.len() && ps[i] == x;
        }
        assert forall|x: Seq<char>| set![
            base + ".translation"@,
            base + ".translation.x"@,
            base + ".translation.y"@,
            base + ".translation.z"@,
            base + ".rotation"@,
            base + ".scale"@,
            base + ".scale.x"@,
        ].contains(x) implies ps.to_set().contains(x) by {
            if x == expected[0] { assert(ps[0] == x); }
            else if x == expected[1] { assert(ps[1] == x); }
            else if x == expected[2] { assert(ps[2] == x); }
            else if x == expected[3] { assert(ps[3] == x); }
            else if x == expected[4] { assert(ps[4] == x); }
            else if x == expected[5] { assert(ps[5] == x); }
            else { assert(ps[6] == x); }
        }
    }
    reveal_strlit(".translation");
    reveal_strlit(".translation.x");
    reveal_strlit(".translation.y");
    reveal_strlit(".translation.z");
    reveal_strlit(".rotation");
    reveal_strlit(".scale");
    reveal_strlit(".scale.x");
    reveal_strlit(".scale.y");
    reveal_strlit(".scale.z");
    let suffixes = seq![
        ".translation"@,
        ".translation.x"@,
        ".translation.y"@,
        ".translation.z"@,
        ".rotation"@,
        ".scale"@,
        ".scale.x"@,
    ];
    assert forall|i: int| 0 <= i < ps.len() implies ps[i] != base + ".scale.y"@ && ps[i] != base + ".scale.z"@ by {
        assert(ps[i] == base + suffixes[i]);
        if ps[i] == base + ".scale.y"@ {
            lemma_suffix_cancel(base, suffixes[i], ".scale.y"@);
            assert(suffixes[i].len() == 8 ==> suffixes[i][7] != ".scale.y"@[7]);
        }
        if ps[i] == base + ".scale.z"@ {
            lemma_suffix_cancel(base, suffixes[i], ".scale.z"@);
            assert(suffixes[i].len() == 8 ==> suffixes[i][7] != ".scale.z"@[7]);
        }
    }
}

/// The paths of a list of mutation paths.
pub open spec fn path_list(s: Seq<PathEntry>) -> Seq<Seq<char>> {
    s.map_values(|e: PathEntry| e.path)
}

/// A field name that cannot run into a sub-path: no `.` and no `[`.
pub open spec fn plain_name(n: Seq<char>) -> bool {
    forall|i: int| 0 <= i < n.len() ==> n[i] != '.' && n[i] != '['
}

/// A sub-path suffix: empty, or starting a member or an index.
pub open spec fn suffix_ok(s: Seq<char>) -> bool {
    s.len() == 0 || s[0] == '.' || s[0] == '['
}

/// What follows `.field` in each of a field's paths, in order.
pub open spec fn field_suffixes(ty: Seq<char>) -> Seq<Seq<char>> {
    seq![Seq::<char>::empty()] + if is_list_path(ty) {
        seq!["[0]"@, "[1]"@]
    } else if is_map_path(ty) {
        seq!["[\"key\"]"@]
    } else if is_math_path(ty) {
        Seq::new(math_width(ty), |i: int| "."@ + component_name(i))
    } else if is_transform_path(ty) {
        seq![
            ".translation"@,
            ".translation.x"@,
            ".translation.y"@,
            ".translation.z"@,
            ".rotation"@,
            ".scale"@,
            ".scale.x"@,
        ]
    } else {
        Seq::empty()
    }
}

proof fn lemma_field_paths_suffixes(f: Seq<char>, ty: Seq<char>)
    ensures
        path_list(field_paths(f, ty)) == field_suffixes(ty).map_values(|x: Seq<char>| ("."@ + f) + x),
{
    let base = "."@ + f;
    assert(base + Seq::<char>::empty() =~= base);
    if !is_list_path(ty) && !is_map_path(ty) && is_math_path(ty) {
        assert forall|i: int| 0 <= i < math_width(ty) implies (base + "."@) + component_name(i) =~= base + (
        "."@ + component_name(i)) by {}
    }
    assert(path_list(field_paths(f, ty)) =~= field_suffixes(ty).map_values(|x: Seq<char>| ("."@ + f) + x));
}

proof fn lemma_field_suffixes_ok(ty: Seq<char>)
    ensures
        forall|j: int| 0 <= j < field_suffixes(ty).len() ==> suffix_ok(#[trigger] field_suffixes(ty)[j]),
        field_suffixes(ty).no_duplicates(),
{
    reveal_strlit("[0]");
    reveal_strlit("[1]");
    reveal_strlit("[\"key\"]");
    reveal_strlit(".");
    reveal_strlit("x");
    reveal_strlit("y");
    reveal_strlit("z");
    reveal_strlit("w");
    reveal_strlit(".translation");
    reveal_strlit(".translation.x");
    reveal_strlit(".translation.y");
    reveal_strlit(".translation.z");
    reveal_strlit(".rotation");
    reveal_strlit(".scale");
    reveal_strlit(".scale.x");
    let s = field_suffixes(ty);
    assert("[0]"@[1] != "[1]"@[1]);
    assert(".translation.x"@[13] != ".translation.y"@[13]);
    assert(".translation.x"@[13] != ".translation.z"@[13]);
    assert(".translation.y"@[13] != ".translation.z"@[13]);
    assert("[0]"@[0] == '[' && "[1]"@[0] == '[' && "[\"key\"]"@[0] == '[');
    assert(".translation"@[0] == '.' && ".translation.x"@[0] == '.' && ".translation.y"@[0] == '.');
    assert(".translation.z"@[0] == '.' && ".rotation"@[0] == '.' && ".scale"@[0] == '.' && ".scale.x"@[0] == '.');
    if !is_list_path(ty) && !is_map_path(ty) && is_math_path(ty) {
        assert forall|i: int| 0 <= i < math_width(ty) implies ("."@ + component_name(i)).len() == 2 && ("."@
            + component_name(i))[0] == '.' && ("."@ + component_name(i))[1] == component_name(i)[0] by {}
        assert("x"@[0] == 'x' && "y"@[0] == 'y' && "z"@[0] == 'z' && "w"@[0] == 'w');
        assert forall|i: int, j: int| 0 <= i < math_width(ty) && 0 <= j < math_width(ty) && i != j implies
            component_name(i)[0] != component_name(j)[0] by {}
    }
    assert forall|j: int| 0 <= j < s.len() implies suffix_ok(#[trigger] s[j]) by {}
    assert forall|i: int, j: int| 0 <= i < s.len() && 0 <= j < s.len() && i != j implies s[i] != s[j] by {
        if s[i] == s[j] {
            if i > 0 && j > 0 && !is_list_path(ty) && !is_map_path(ty) && is_math_path(ty) {
                assert(s[i][1] == s[j][1]);
            }
            if i > 0 && j > 0 {
                assert(s[i].len() == s[j].len());
            }
            if s[i].len() == 14 {
                assert(s[i][13] == s[j][13]);
            }
            if s[i].len() == 3 {
                assert(s[i][1] == s[j][1]);
            }
        }
    }
}

/// Paths under two plain field names meet only where names and suffixes do.
proof fn lemma_paths_meet(a: Seq<char>, b: Seq<char>, s1: Seq<char>, s2: Seq<char>)
    requires
        plain_name(a),
        plain_name(b),
        suffix_ok(s1),
        suffix_ok(s2),
        ("."@ + a) + s1 == ("."@ + b) + s2,
    ensures
        a == b,
        s1 == s2,
{
    reveal_strlit(".");
    let x = ("."@ + a) + s1;
    if a.len() < b.len() {
        let k: int = 1 + a.len() as int;
        if s1.len() == 0 {
            assert(x.len() == 1 + a.len());
        } else {
            assert(x[k] == s1[0]);
            assert(x[k] == b[a.len() as int]);
        }
    } else if b.len() < a.len() {
        let k: int = 1 + b.len() as int;
        if s2.len() == 0 {
            assert(x.len() == 1 + b.len());
        } else {
            assert(x[k] == s2[0]);
            assert(x[k] == a[b.len() as int]);
        }
    } else {
        assert(a =~= x.subrange(1, 1 + a.len() as int));
        assert(b =~= x.subrange(1, 1 + b.len() as int));
        assert(s1 =~= x.subrange(1 + a.len() as int, x.len() as int));
        assert(s2 =~= x.subrange(1 + b.len() as int, x.len() as int));
    }
}

/// `p` is a path under field `name`: `.name`, then a sub-path suffix.
pub open spec fn starts_field(p: Seq<char>, name: Seq<char>) -> bool {
    &&& p.len() >= 1 + name.len()
    &&& p.subrange(0, 1 + name.len() as int) == "."@ + name
    &&& suffix_ok(p.subrange(1 + name.len() as int, p.len() as int))
}

proof fn lemma_starts_field(name: Seq<char>, suf: Seq<char>)
    requires
        suffix_ok(suf),
    ensures
        starts_field(("."@ + name) + suf, name),
{
    reveal_strlit(".");
    let p = ("."@ + name) + suf;
    assert(p.subrange(0, 1 + name.len() as int) =~= "."@ + name);
    assert(p.subrange(1 + name.len() as int, p.len() as int) =~= suf);
}

proof fn lemma_starts_field_split(p: Seq<char>, name: Seq<char>)
    requires
        starts_field(p, name),
    ensures
        p == ("."@ + name) + p.subrange(1 + name.len() as int, p.len() as int),
{
    assert(p =~= p.subrange(0, 1 + name.len() as int) + p.subrange(1 + name.len() as int, p.len() as int));
}

/// `p` is a path under one of `names`.
pub open spec fn under_some_field(p: Seq<char>, names: Seq<Seq<char>>) -> bool {
    exists|k: int| 0 <= k < names.len() && #[trigger] starts_field(p, names[k])
}

/// The paths of the fields `names[i]: tys[i]`, field after field.
pub open spec fn paths_for(names: Seq<Seq<char>>, tys: Seq<Seq<char>>) -> Seq<Seq<char>>
    decreases names.len(),
{
    if names.len() == 0 || tys.len() != names.len() {
        Seq::empty()
    } else {
        paths_for(names.drop_last(), tys.drop_last()) + path_list(
            field_paths(names.last(), tys.last()),
        )
    }
}

proof fn lemma_paths_for_distinct(names: Seq<Seq<char>>, tys: Seq<Seq<char>>)
    requires
        names.len() == tys.len(),
        names.no_duplicates(),
        forall|i: int| 0 <= i < names.len() ==> plain_name(#[trigger] names[i]),
    ensures
        paths_for(names, tys).no_duplicates(),
        forall|j: int|
            0 <= j < paths_for(names, tys).len() ==> under_some_field(
                #[trigger] paths_for(names, tys)[j],
                names,
            ),
    decreases names.len(),
{
    if names.len() == 0 {
        assert(paths_for(names, tys) =~= Seq::<Seq<char>>::empty());
    }
    if names.len() > 0 {
        let pn = names.drop_last();
        let pt = tys.drop_last();
        assert forall|i: int| 0 <= i < pn.len() implies plain_name(#[trigger] pn[i]) by {
            assert(pn[i] == names[i]);
        }
        lemma_paths_for_distinct(pn, pt);
        let p = paths_for(pn, pt);
        let last = names.last();
        let q = path_list(field_paths(last, tys.last()));
        lemma_field_paths_suffixes(last, tys.last());
        lemma_field_suffixes_ok(tys.last());
        let sx = field_suffixes(tys.last());
        let all = paths_for(names, tys);
        assert(all == p + q);
        assert forall|j: int| 0 <= j < all.len() implies under_some_field(#[trigger] all[j], names) by {
            if j < p.len() {
                assert(under_some_field(p[j], pn));
                let k = choose|k: int| 0 <= k < pn.len() && #[trigger] starts_field(p[j], pn[k]);
                assert(pn[k] == names[k]);
                assert(starts_field(all[j], names[k]));
            } else {
                let jj = j - p.len();
                assert(q[jj] == ("."@ + last) + sx[jj]);
                lemma_starts_field(last, sx[jj]);
                assert(starts_field(all[j], names[names.len() - 1]));
            }
        }
        assert forall|i: int, j: int| 0 <= i < all.len() && 0 <= j < all.len() && i != j implies all[i]
            != all[j] by {
            if i < p.len() && j < p.len() {
            } else if i >= p.len() && j >= p.len() {
                let ii = i - p.len();
                let jj = j - p.len();
                if all[i] == all[j] {
                    lemma_paths_meet(last, last, sx[ii], sx[jj]);
                }
            } else {
                let (a, b) = if i < p.len() { (i, j) } else { (j, i) };
                let bb = b - p.len();
                assert(under_some_field(p[a], pn));
                let k = choose|k: int| 0 <= k < pn.len() && #[trigger] starts_field(p[a], pn[k]);
                lemma_starts_field_split(p[a], pn[k]);
                let suf = p[a].subrange(1 + pn[k].len() as int, p[a].len() as int);
                if all[a] == all[b] {
                    assert(all[b] == ("."@ + last) + sx[bb]);
                    lemma_paths_meet(pn[k], last, suf, sx[bb]);
                    assert(names[k] == names[names.len() - 1]);
                }
            }
        }
    }
}

proof fn lemma_struct_paths_as_fields(fields: Seq<NamedField>)
    ensures
        path_list(struct_paths(fields)) == paths_for(
            fields.map_values(|f: NamedField| f.name@),
            fields.map_values(|f: NamedField| f.type_path@),
        ),
    decreases fields.len(),
{
    if fields.len() > 0 {
        lemma_struct_paths_as_fields(fields.drop_last());
        assert(fields.map_values(|f: NamedField| f.name@).drop_last() =~= fields.drop_last().map_values(
            |f: NamedField| f.name@,
        ));
        assert(fields.map_values(|f: NamedField| f.type_path@).drop_last() =~= fields.drop_last().map_values(
            |f: NamedField| f.type_path@,
        ));
        assert(path_list(struct_paths(fields)) =~= path_list(struct_paths(fields.drop_last())) + path_list(
            field_paths(fields.last().name@, fields.last().type_path@),
        ));
    } else {
        assert(path_list(struct_paths(fields)) =~= Seq::<Seq<char>>::empty());
    }
}

/// The index names of `n` positional fields.
pub open spec fn index_names(n: nat) -> Seq<Seq<char>> {
    Seq::new(n, |i: int| decimal_text(i as nat))
}

proof fn lemma_indexed_paths_as_fields(types: Seq<String>)
    ensures
        path_list(indexed_paths(types)) == paths_for(
            index_names(types.len()),
            types.map_values(|t: String| t@),
        ),
    decreases types.len(),
{
    if types.len() > 0 {
        lemma_indexed_paths_as_fields(types.drop_last());
        assert(index_names(types.len()).drop_last() =~= index_names(types.drop_last().len()));
        assert(types.map_values(|t: String| t@).drop_last() =~= types.drop_last().map_values(
            |t: String| t@,
        ));
        assert(path_list(indexed_paths(types)) =~= path_list(indexed_paths(types.drop_last()))
            + path_list(field_paths(decimal_text((types.len() - 1) as nat), types.last()@)));
    } else {
        assert(path_list(indexed_paths(types)) =~= Seq::<Seq<char>>::empty());
    }
}

/// The field names of a struct are distinct and plain; tuples name their
/// fields by index, which always are.
pub open spec fn well_named(d: TypeDescriptor) -> bool {
    match d {
        TypeDescriptor::Struct { fields } => {
            &&& fields@.map_values(|f: NamedField| f.name@).no_duplicates()
            &&& forall|i: int| 0 <= i < fields@.len() ==> plain_name(#[trigger] fields@[i].name@)
        },
        _ => true,
    }
}

/// Where a type's field names are distinct and hold no `.` or `[`, its
/// mutation paths are pairwise distinct, so keying them by path loses none.
pub proof fn lemma_mutation_paths_distinct(d: TypeDescriptor, name: Seq<char>)
    requires
        well_named(d),
        mutation_paths(d, name) is Ok,
    ensures
        path_list(mutation_paths(d, name)->Ok_0).no_duplicates(),
{
    match d {
        TypeDescriptor::Struct { fields } => {
            let names = fields@.map_values(|f: NamedField| f.name@);
            lemma_struct_paths_as_fields(fields@);
            assert forall|i: int| 0 <= i < names.len() implies plain_name(#[trigger] names[i]) by {
                assert(plain_name(fields@[i].name@));
            }
            lemma_paths_for_distinct(names, fields@.map_values(|f: NamedField| f.type_path@));
        },
        TypeDescriptor::TupleStruct { fields } => {
            lemma_index_names(fields@.len());
            lemma_indexed_paths_as_fields(fields@);
            lemma_paths_for_distinct(index_names(fields@.len()), fields@.map_values(|t: String| t@));
        },
        TypeDescriptor::Tuple { elements } => {
            lemma_index_names(elements@.len());
            lemma_indexed_paths_as_fields(elements@);
            lemma_paths_for_distinct(index_names(elements@.len()), elements@.map_values(|t: String| t@));
        },
        _ => {},
    }
}

proof fn lemma_index_names(n: nat)
    ensures
        index_names(n).no_duplicates(),
        forall|i: int| 0 <= i < n ==> plain_name(#[trigger] index_names(n)[i]),
{
    let s = index_names(n);
    assert forall|i: int| 0 <= i < n implies plain_name(#[trigger] s[i]) by {
        lemma_decimal_text_digits(i as nat);
        assert forall|c: int| 0 <= c < s[i].len() implies s[i][c] != '.' && s[i][c] != '[' by {
            assert('0' <= decimal_text(i as nat)[c] <= '9');
        }
    }
    assert forall|i: int, j: int| 0 <= i < s.len() && 0 <= j < s.len() && i != j implies s[i] != s[j] by {
        if s[i] == s[j] {
            lemma_decimal_text_injective(i as nat, j as nat);
        }
    }
}

} // verus!
