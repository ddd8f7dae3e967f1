//! Spawn examples: the recursive walk from a type to an example value that
//! constructs a new instance of it.
use vstd::prelude::*;
use crate::descriptor::{
    lemma_unvisited_insert, lookup, unvisited, NamedField, TypeDescriptor, TypeRegistry,
    VariantKind,
};
use crate::error::{outcome, extends, DebugContext, DiscoveryError, Failure};
use crate::examples::{generate_primitive_example, primitive_example};
use crate::format::SpawnInfo;
use crate::json::{key_set, push_member, push_value, view_members, view_values, Json, JsonValue};
use crate::text::{has_sub, occurs_at};
use crate::text::{decimal_string, decimal_text, join2, join3};

verus! {

/// A registry's entries.
pub type Entries = Seq<(String, TypeDescriptor)>;

/// The line that reports a named field without an example.
pub open spec fn named_line(name: Seq<char>, ty: Seq<char>) -> Seq<char> {
    "Field '"@ + name + "' has type "@ + ty + " which cannot be represented in JSON"@
}

/// The line that reports a positional field without an example.
pub open spec fn indexed_line(index: nat, ty: Seq<char>) -> Seq<char> {
    "Field "@ + decimal_text(index) + " has type "@ + ty + " which cannot be represented in JSON"@
}

/// The lines joined by `"; "`.
pub open spec fn join_lines(s: Seq<Seq<char>>) -> Seq<char>
    decreases s.len(),
{
    if s.len() == 0 {
        Seq::empty()
    } else if s.len() == 1 {
        s[0]
    } else {
        join_lines(s.drop_last()) + "; "@ + s.last()
    }
}

/// The message of an enum that has no variant to show.
pub open spec fn no_variants_message(name: Seq<char>) -> Seq<char> {
    "Enum '"@ + name + "' has no variants to use as an example"@
}

/// How far a descriptor's own fields reach before the walk moves to another
/// type; the second part of the walk's termination measure.
pub open spec fn descriptor_width(d: TypeDescriptor) -> nat {
    match d {
        TypeDescriptor::Struct { fields } => fields@.len() + 2,
        TypeDescriptor::TupleStruct { fields } => fields@.len() + 2,
        TypeDescriptor::Tuple { elements } => elements@.len() + 2,
        TypeDescriptor::Enum { variants } => if variants@.len() == 0 {
            2
        } else {
            match variants@[0].kind {
                VariantKind::Unit => 2,
                VariantKind::Tuple(types) => types@.len() + 2,
                VariantKind::Struct(fields) => fields@.len() + 2,
            }
        },
        _ => 2,
    }
}

/// The example of the type registered under `name`, or of the leaf type
/// `name` where none is; `seen` holds the types already on the walk.
pub open spec fn name_example(reg: Entries, name: Seq<char>, seen: Set<Seq<char>>) -> Result<
    Json,
    Failure,
>
    decreases unvisited(reg, seen), 0nat,
{
    match lookup(reg, name) {
        None => primitive_example(name),
        Some(d) => if seen.contains(name) {
            Err(Failure::Recursive(name))
        } else {
            proof {
                lemma_unvisited_insert(reg, seen, name);
            }
            descriptor_example(reg, d, name, seen.insert(name))
        },
    }
}

/// All fields' examples or all fields' failures, as one outcome.
pub open spec fn gathered<T>(values: T, failures: Seq<Seq<char>>) -> Result<T, Failure> {
    if failures.len() == 0 {
        Ok(values)
    } else {
        Err(Failure::Generation(join_lines(failures)))
    }
}

/// The example of a type with descriptor `d`, registered as `name`.
pub open spec fn descriptor_example(
    reg: Entries,
    d: TypeDescriptor,
    name: Seq<char>,
    seen: Set<Seq<char>>,
) -> Result<Json, Failure>
    decreases unvisited(reg, seen), descriptor_width(d),
{
    match d {
        TypeDescriptor::Struct { fields } => {
            let c = named_examples(reg, fields@, seen);
            gathered(Json::Object(c.0), c.1)
        },
        TypeDescriptor::TupleStruct { fields } => if fields@.len() == 1 {
            name_example(reg, fields@[0]@, seen)
        } else {
            let c = indexed_examples(reg, fields@, seen);
            gathered(Json::Array(c.0), c.1)
        },
        TypeDescriptor::Tuple { elements } => {
            let c = indexed_examples(reg, elements@, seen);
            gathered(Json::Array(c.0), c.1)
        },
        TypeDescriptor::Enum { variants } => if variants@.len() == 0 {
            Err(Failure::Generation(no_variants_message(name)))
        } else {
            let v = variants@[0];
            match v.kind {
                VariantKind::Unit => Ok(Json::Str(v.name@)),
                VariantKind::Tuple(types) => if types@.len() == 1 {
                    match name_example(reg, types@[0]@, seen) {
                        Ok(j) => Ok(Json::Object(seq![(v.name@, j)])),
                        Err(e) => Err(e),
                    }
                } else {
                    let c = indexed_examples(reg, types@, seen);
                    gathered(Json::Object(seq![(v.name@, Json::Array(c.0))]), c.1)
                },
                VariantKind::Struct(fields) => {
                    let c = named_examples(reg, fields@, seen);
                    gathered(Json::Object(seq![(v.name@, Json::Object(c.0))]), c.1)
                },
            }
        },
        TypeDescriptor::List { .. } => Ok(Json::Array(Seq::empty())),
        TypeDescriptor::Array { .. } => Ok(Json::Array(Seq::empty())),
        TypeDescriptor::MapLike { .. } => Ok(Json::Object(Seq::empty())),
        TypeDescriptor::SetLike { .. } => primitive_example(name),
        TypeDescriptor::Opaque { .. } => primitive_example(name),
    }
}

/// The examples of the named fields that have one, keyed by field name, and
/// a line for each field that has none, both in declaration order.
pub open spec fn named_examples(reg: Entries, fields: Seq<NamedField>, seen: Set<Seq<char>>) -> (
    Seq<(Seq<char>, Json)>,
    Seq<Seq<char>>,
)
    decreases unvisited(reg, seen), fields.len() + 1,
{
    if fields.len() == 0 {
        (Seq::empty(), Seq::empty())
    } else {
        let prev = named_examples(reg, fields.drop_last(), seen);
        let f = fields.last();
        match name_example(reg, f.type_path@, seen) {
            Ok(j) => (prev.0.push((f.name@, j)), prev.1),
            Err(_) => (prev.0, prev.1.push(named_line(f.name@, f.type_path@))),
        }
    }
}

/// The examples of the positional fields that have one, and a line for each
/// field that has none, both in declaration order.
pub open spec fn indexed_examples(reg: Entries, types: Seq<String>, seen: Set<Seq<char>>) -> (
    Seq<Json>,
    Seq<Seq<char>>,
)
    decreases unvisited(reg, seen), types.len() + 1,
{
    if types.len() == 0 {
        (Seq::empty(), Seq::empty())
    } else {
        let prev = indexed_examples(reg, types.drop_last(), seen);
        match name_example(reg, types.last()@, seen) {
            Ok(j) => (prev.0.push(j), prev.1),
            Err(_) => (
                prev.0,
                prev.1.push(indexed_line((types.len() - 1) as nat, types.last()@)),
            ),
        }
    }
}

/// The set of type paths on a walk's path.
pub open spec fn seen_of(path: Seq<String>) -> Set<Seq<char>> {
    Set::new(|k: Seq<char>| exists|i: int| 0 <= i < path.len() && path[i]@ == k)
}

/// The views of a list of strings.
pub open spec fn views_of(s: Seq<String>) -> Seq<Seq<char>> {
    s.map_values(|x: String| x@)
}

fn path_contains(path: &Vec<String>, name: &str) -> (r: bool)
    ensures
        r == seen_of(path@).contains(name@),
{
    let key = String::from_str(name);
    let mut i: usize = 0;
    while i < path.len()
        invariant
            i <= path@.len(),
            key@ == name@,
            forall|j: int| 0 <= j < i ==> path@[j]@ != name@,
        decreases path@.len() - i,
    {
        if path[i] == key {
            return true;
        }
        i = i + 1;
    }
    false
}

fn extend_path(path: &Vec<String>, name: &str) -> (r: Vec<String>)
    ensures
        seen_of(r@) == seen_of(path@).insert(name@),
{
    let mut r: Vec<String> = Vec::new();
    let mut i: usize = 0;
    while i < path.len()
        invariant
            i <= path@.len(),
            r@.len() == i,
            forall|j: int| 0 <= j < i ==> r@[j]@ == path@[j]@,
        decreases path@.len() - i,
    {
        r.push(path[i].clone());
        i = i + 1;
    }
    r.push(String::from_str(name));
    assert(seen_of(r@) =~= seen_of(path@).insert(name@)) by {
        assert forall|k: Seq<char>| seen_of(r@).contains(k) implies seen_of(path@).insert(
            name@,
        ).contains(k) by {
            let j = choose|j: int| 0 <= j < r@.len() && r@[j]@ == k;
            if j < path@.len() {
                assert(path@[j]@ == k);
            }
        }
        assert forall|k: Seq<char>| seen_of(path@).insert(name@).contains(k) implies seen_of(
            r@,
        ).contains(k) by {
            if k == name@ {
                assert(r@[path@.len() as int]@ == k);
            } else {
                let j = choose|j: int| 0 <= j < path@.len() && path@[j]@ == k;
                assert(r@[j]@ == k);
            }
        }
    }
    r
}

fn join_failures(lines: &Vec<String>) -> (r: String)
    ensures
        r@ == join_lines(views_of(lines@)),
{
    let mut r = String::new();
    let mut i: usize = 0;
    while i < lines.len()
        invariant
            i <= lines@.len(),
            r@ == join_lines(views_of(lines@.subrange(0, i as int))),
        decreases lines@.len() - i,
    {
        let ghost before = views_of(lines@.subrange(0, i as int));
        let ghost after = views_of(lines@.subrange(0, i + 1));
        assert(after.drop_last() =~= before);
        if i > 0 {
            r.append("; ");
        }
        r.append(lines[i].as_str());
        proof {
            if i == 0 {
                assert(r@ =~= after[0]);
            }
        }
        i = i + 1;
    }
    assert(lines@.subrange(0, lines@.len() as int) =~= lines@);
    r
}

fn named_failure_line(name: &str, ty: &str) -> (r: String)
    ensures
        r@ == named_line(name@, ty@),
{
    let mut r = join3("Field '", name, "' has type ");
    r.append(ty);
    r.append(" which cannot be represented in JSON");
    r
}

fn indexed_failure_line(index: usize, ty: &str) -> (r: String)
    ensures
        r@ == indexed_line(index as nat, ty@),
{
    let digits = decimal_string(index);
    let mut r = join3("Field ", digits.as_str(), " has type ");
    r.append(ty);
    r.append(" which cannot be represented in JSON");
    r
}

fn gathered_failure(failures: &Vec<String>) -> (r: DiscoveryError)
    ensures
        r@ == Failure::Generation(join_lines(views_of(failures@))),
{
    DiscoveryError::FormatGeneration { message: join_failures(failures) }
}

/// The example of the type registered under `name`, or of the leaf type
/// `name`; `path` holds the types already on the walk.
fn example_for_name(
    reg: &TypeRegistry,
    name: &str,
    path: &Vec<String>,
    debug: &mut DebugContext,
) -> (r: Result<JsonValue, DiscoveryError>)
    ensures
        outcome(r) == name_example(reg.entries@, name@, seen_of(path@)),
        extends(*old(debug), *final(debug)),
    decreases unvisited(reg.entries@, seen_of(path@)), 0nat,
{
    debug.push_owned(join3("Discovering example for: ", name, ""));
    match reg.resolve(name) {
        None => generate_primitive_example(name),
        Some(d) => {
            if path_contains(path, name) {
                DebugContext::push(debug, "Type already on the walk; stopping");
                Err(DiscoveryError::RecursiveType { type_path: String::from_str(name) })
            } else {
                let inner = extend_path(path, name);
                proof {
                    lemma_unvisited_insert(reg.entries@, seen_of(path@), name@);
                }
                example_for_descriptor(reg, d, name, &inner, debug)
            }
        },
    }
}

/// The example of a type with descriptor `d`, registered as `name`.
fn example_for_descriptor(
    reg: &TypeRegistry,
    d: &TypeDescriptor,
    name: &str,
    path: &Vec<String>,
    debug: &mut DebugContext,
) -> (r: Result<JsonValue, DiscoveryError>)
    ensures
        outcome(r) == descriptor_example(reg.entries@, *d, name@, seen_of(path@)),
        extends(*old(debug), *final(debug)),
    decreases unvisited(reg.entries@, seen_of(path@)), descriptor_width(*d),
{
    match d {
        TypeDescriptor::Struct { fields } => {
            let (members, failures) = named_field_examples(reg, fields, path, debug);
            if failures.len() == 0 {
                Ok(JsonValue::Object(members))
            } else {
                Err(gathered_failure(&failures))
            }
        },
        TypeDescriptor::TupleStruct { fields } => {
            if fields.len() == 1 {
                example_for_name(reg, fields[0].as_str(), path, debug)
            } else {
                let (values, failures) = indexed_field_examples(reg, fields, path, debug);
                if failures.len() == 0 {
                    Ok(JsonValue::Array(values))
                } else {
                    Err(gathered_failure(&failures))
                }
            }
        },
        TypeDescriptor::Tuple { elements } => {
            let (values, failures) = indexed_field_examples(reg, elements, path, debug);
            if failures.len() == 0 {
                Ok(JsonValue::Array(values))
            } else {
                Err(gathered_failure(&failures))
            }
        },
        TypeDescriptor::Enum { variants } => {
            if variants.len() == 0 {
                Err(
                    DiscoveryError::FormatGeneration {
                        message: join3("Enum '", name, "' has no variants to use as an example"),
                    },
                )
            } else {
                let v = &variants[0];
                match &v.kind {
                    VariantKind::Unit => Ok(JsonValue::Str(v.name.clone())),
                    VariantKind::Tuple(types) => {
                        if types.len() == 1 {
                            match example_for_name(reg, types[0].as_str(), path, debug) {
                                Ok(j) => {
                                    let mut m: Vec<(String, JsonValue)> = Vec::new();
                                    let ghost jm = j@;
                                    push_member(&mut m, v.name.clone(), j);
                                    assert(view_members(m@) =~= seq![(v.name@, jm)]);
                                    Ok(JsonValue::Object(m))
                                },
                                Err(e) => Err(e),
                            }
                        } else {
                            let (values, failures) = indexed_field_examples(
                                reg,
                                types,
                                path,
                                debug,
                            );
                            if failures.len() == 0 {
                                let mut m: Vec<(String, JsonValue)> = Vec::new();
                                let ghost jm = Json::Array(view_values(values@));
                                push_member(&mut m, v.name.clone(), JsonValue::Array(values));
                                assert(view_members(m@) =~= seq![(v.name@, jm)]);
                                Ok(JsonValue::Object(m))
                            } else {
                                Err(gathered_failure(&failures))
                            }
                        }
                    },
                    VariantKind::Struct(fields) => {
                        let (members, failures) = named_field_examples(reg, fields, path, debug);
                        if failures.len() == 0 {
                            let mut m: Vec<(String, JsonValue)> = Vec::new();
                            let ghost jm = Json::Object(view_members(members@));
                            push_member(&mut m, v.name.clone(), JsonValue::Object(members));
                            assert(view_members(m@) =~= seq![(v.name@, jm)]);
                            Ok(JsonValue::Object(m))
                        } else {
                            Err(gathered_failure(&failures))
                        }
                    },
                }
            }
        },
        TypeDescriptor::List { .. } | TypeDescriptor::Array { .. } => {
            let v: Vec<JsonValue> = Vec::new();
            assert(view_values(v@) =~= Seq::empty());
            Ok(JsonValue::Array(v))
        },
        TypeDescriptor::MapLike { .. } => {
            let m: Vec<(String, JsonValue)> = Vec::new();
            assert(view_members(m@) =~= Seq::empty());
            Ok(JsonValue::Object(m))
        },
        TypeDescriptor::SetLike { .. } => generate_primitive_example(name),
        TypeDescriptor::Opaque { .. } => generate_primitive_example(name),
    }
}

/// The examples of the named fields, and the failure lines, in declaration order.
fn named_field_examples(
    reg: &TypeRegistry,
    fields: &Vec<NamedField>,
    path: &Vec<String>,
    debug: &mut DebugContext,
) -> (r: (Vec<(String, JsonValue)>, Vec<String>))
    ensures
        view_members(r.0@) == named_examples(reg.entries@, fields@, seen_of(path@)).0,
        views_of(r.1@) == named_examples(reg.entries@, fields@, seen_of(path@)).1,
        extends(*old(debug), *final(debug)),
    decreases unvisited(reg.entries@, seen_of(path@)), fields@.len() + 1,
{
    let ghost reg_s = reg.entries@;
    let ghost seen = seen_of(path@);
    let mut members: Vec<(String, JsonValue)> = Vec::new();
    let mut failures: Vec<String> = Vec::new();
    let mut i: usize = 0;
    assert(view_members(members@) =~= Seq::empty());
    assert(views_of(failures@) =~= Seq::empty());
    assert(fields@.subrange(0, 0) =~= Seq::<NamedField>::empty());
    while i < fields.len()
        invariant
            i <= fields@.len(),
            reg_s == reg.entries@,
            seen == seen_of(path@),
            view_members(members@) == named_examples(reg_s, fields@.subrange(0, i as int), seen).0,
            views_of(failures@) == named_examples(reg_s, fields@.subrange(0, i as int), seen).1,
            extends(*old(debug), *debug),
        decreases fields@.len() - i,
    {
        let f = &fields[i];
        let ghost pre = fields@.subrange(0, i as int);
        let ghost post = fields@.subrange(0, i + 1);
        assert(post.drop_last() =~= pre);
        assert(post.last() == *f);
        let ghost debug_before = *debug;
        match example_for_name(reg, f.type_path.as_str(), path, debug) {
            Ok(j) => {
                push_member(&mut members, f.name.clone(), j);
            },
            Err(_) => {
                let line = named_failure_line(f.name.as_str(), f.type_path.as_str());
                let ghost old_failures = failures@;
                failures.push(line);
                assert(views_of(failures@) =~= views_of(old_failures).push(line@));
            },
        }
        i = i + 1;
    }
    assert(fields@.subrange(0, fields@.len() as int) =~= fields@);
    (members, failures)
}

/// The examples of the positional fields, and the failure lines, in order.
fn indexed_field_examples(
    reg: &TypeRegistry,
    types: &Vec<String>,
    path: &Vec<String>,
    debug: &mut DebugContext,
) -> (r: (Vec<JsonValue>, Vec<String>))
    ensures
        view_values(r.0@) == indexed_examples(reg.entries@, types@, seen_of(path@)).0,
        views_of(r.1@) == indexed_examples(reg.entries@, types@, seen_of(path@)).1,
        extends(*old(debug), *final(debug)),
    decreases unvisited(reg.entries@, seen_of(path@)), types@.len() + 1,
{
    let ghost reg_s = reg.entries@;
    let ghost seen = seen_of(path@);
    let mut values: Vec<JsonValue> = Vec::new();
    let mut failures: Vec<String> = Vec::new();
    let mut i: usize = 0;
    assert(view_values(values@) =~= Seq::empty());
    assert(views_of(failures@) =~= Seq::empty());
    assert(types@.subrange(0, 0) =~= Seq::<String>::empty());
    while i < types.len()
        invariant
            i <= types@.len(),
            reg_s == reg.entries@,
            seen == seen_of(path@),
            view_values(values@) == indexed_examples(reg_s, types@.subrange(0, i as int), seen).0,
            views_of(failures@) == indexed_examples(reg_s, types@.subrange(0, i as int), seen).1,
            extends(*old(debug), *debug),
        decreases types@.len() - i,
    {
        let t = &types[i];
        let ghost pre = types@.subrange(0, i as int);
        let ghost post = types@.subrange(0, i + 1);
        assert(post.drop_last() =~= pre);
        assert(post.last() == *t);
        match example_for_name(reg, t.as_str(), path, debug) {
            Ok(j) => {
                push_value(&mut values, j);
            },
            Err(_) => {
                let line = indexed_failure_line(i, t.as_str());
                let ghost old_failures = failures@;
                failures.push(line);
                assert(views_of(failures@) =~= views_of(old_failures).push(line@));
            },
        }
        i = i + 1;
    }
    assert(types@.subrange(0, types@.len() as int) =~= types@);
    (values, failures)
}

/// The spawn example of the type at `type_path`: the descriptor registered
/// under it walked field by field, or the leaf example where none is.
pub fn generate_spawn_example(
    reg: &TypeRegistry,
    type_path: &str,
    debug: &mut DebugContext,
) -> (r: Result<JsonValue, DiscoveryError>)
    ensures
        outcome(r) == name_example(reg.entries@, type_path@, Set::empty()),
        extends(*old(debug), *final(debug)),
{
    let path: Vec<String> = Vec::new();
    assert(seen_of(path@) =~= Set::<Seq<char>>::empty());
    example_for_name(reg, type_path, &path, debug)
}

/// The description of a spawn example, by the kind of the type: its count
/// of fields or variants, the wrapped type of a newtype, or a basic format.
pub open spec fn spawn_description(d: TypeDescriptor, type_path: Seq<char>) -> Seq<char> {
    match d {
        TypeDescriptor::Struct { fields } => "Struct with "@ + decimal_text(fields@.len()) + " fields"@,
        TypeDescriptor::TupleStruct { fields } => if fields@.len() == 1 {
            "Newtype wrapper around "@ + fields@[0]@
        } else {
            "Tuple struct with "@ + decimal_text(fields@.len()) + " fields"@
        },
        TypeDescriptor::Enum { variants } => "Enum with "@ + decimal_text(variants@.len())
            + " variants"@,
        _ => "Basic format for "@ + type_path,
    }
}

fn spawn_description_of(d: &TypeDescriptor, type_path: &str) -> (r: String)
    ensures
        r@ == spawn_description(*d, type_path@),
{
    match d {
        TypeDescriptor::Struct { fields } => {
            let n = decimal_string(fields.len());
            join3("Struct with ", n.as_str(), " fields")
        },
        TypeDescriptor::TupleStruct { fields } => {
            if fields.len() == 1 {
                join2("Newtype wrapper around ", fields[0].as_str())
            } else {
                let n = decimal_string(fields.len());
                join3("Tuple struct with ", n.as_str(), " fields")
            }
        },
        TypeDescriptor::Enum { variants } => {
            let n = decimal_string(variants.len());
            join3("Enum with ", n.as_str(), " variants")
        },
        _ => join2("Basic format for ", type_path),
    }
}

/// The spawn format of a type registered under `type_path` with descriptor
/// `d`: its example, or the error that keeps it from having one.
pub fn generate_spawn_format(
    reg: &TypeRegistry,
    d: &TypeDescriptor,
    type_path: &str,
    debug: &mut DebugContext,
) -> (r: Result<SpawnInfo, DiscoveryError>)
    ensures
        match r {
            Ok(info) => descriptor_example(reg.entries@, *d, type_path@, set![type_path@]) == Ok::<
                Json,
                Failure,
            >(info.example@) && info.description@ == spawn_description(*d, type_path@),
            Err(e) => descriptor_example(reg.entries@, *d, type_path@, set![type_path@]) == Err::<
                Json,
                Failure,
            >(e@),
        },
        extends(*old(debug), *final(debug)),
{
    debug.push_owned(join2("Generating spawn format for: ", type_path));
    let mut path: Vec<String> = Vec::new();
    path.push(String::from_str(type_path));
    assert(seen_of(path@) =~= set![type_path@]) by {
        assert(path@[0]@ == type_path@);
    }
    match example_for_descriptor(reg, d, type_path, &path, debug) {
        Ok(example) => Ok(SpawnInfo { example, description: spawn_description_of(d, type_path) }),
        Err(e) => Err(e),
    }
}

/// When every field has an example, the named-field walk reports no
/// failure and keys one member by each field's name, in order.
pub proof fn lemma_named_examples_complete(reg: Entries, fields: Seq<NamedField>, seen: Set<Seq<char>>)
    requires
        forall|i: int| 0 <= i < fields.len() ==> #[trigger] name_example(reg, fields[i].type_path@, seen) is Ok,
    ensures
        named_examples(reg, fields, seen).1.len() == 0,
        named_examples(reg, fields, seen).0.len() == fields.len(),
        forall|i: int| 0 <= i < fields.len() ==> #[trigger] named_examples(reg, fields, seen).0[i].0 == fields[i].name@,
    decreases fields.len(),
{
    if fields.len() > 0 {
        let pre = fields.drop_last();
        assert forall|i: int| 0 <= i < pre.len() implies #[trigger] name_example(reg, pre[i].type_path@, seen) is Ok by {
            assert(pre[i] == fields[i]);
        }
        lemma_named_examples_complete(reg, pre, seen);
        assert(name_example(reg, fields[fields.len() - 1].type_path@, seen) is Ok);
    }
}

/// Each field without an example has its line among the walk's failures.
pub proof fn lemma_named_examples_failures(reg: Entries, fields: Seq<NamedField>, seen: Set<Seq<char>>, i: int)
    requires
        0 <= i < fields.len(),
        name_example(reg, fields[i].type_path@, seen) is Err,
    ensures
        named_examples(reg, fields, seen).1.contains(named_line(fields[i].name@, fields[i].type_path@)),
    decreases fields.len(),
{
    let pre = fields.drop_last();
    let prev = named_examples(reg, pre, seen);
    if i < fields.len() - 1 {
        assert(pre[i] == fields[i]);
        lemma_named_examples_failures(reg, pre, seen, i);
        let j = choose|j: int| 0 <= j < prev.1.len() && prev.1[j] == named_line(fields[i].name@, fields[i].type_path@);
        let cur = named_examples(reg, fields, seen).1;
        assert(cur[j] == prev.1[j]);
    } else {
        let cur = named_examples(reg, fields, seen).1;
        assert(cur[cur.len() - 1] == named_line(fields[i].name@, fields[i].type_path@));
    }
}

/// Every line occurs in the lines joined by `"; "`.
pub proof fn lemma_join_lines_has_each(s: Seq<Seq<char>>, j: int)
    requires
        0 <= j < s.len(),
    ensures
        has_sub(join_lines(s), s[j]),
    decreases s.len(),
{
    if s.len() == 1 {
        assert(occurs_at(join_lines(s), s[j], 0)) by {
            assert(join_lines(s).subrange(0, s[0].len() as int) =~= s[0]);
        }
    } else {
        let pre = join_lines(s.drop_last());
        let whole = join_lines(s);
        assert(whole == pre + "; "@ + s.last());
        if j == s.len() - 1 {
            let at: int = (pre.len() + "; "@.len()) as int;
            assert(whole.subrange(at, at + s[j].len()) =~= s[j]);
            assert(occurs_at(whole, s[j], at));
        } else {
            assert(s.drop_last()[j] == s[j]);
            lemma_join_lines_has_each(s.drop_last(), j);
            let k = choose|k: int| occurs_at(pre, s[j], k);
            assert(whole.subrange(k, k + s[j].len()) =~= pre.subrange(k, k + s[j].len()));
            assert(occurs_at(whole, s[j], k));
        }
    }
}

/// A struct whose fields all have examples gets an object whose keys are
/// exactly the declared field names; it never fails.
pub proof fn lemma_struct_example_keys(reg: Entries, d: TypeDescriptor, name: Seq<char>, seen: Set<Seq<char>>)
    requires
        d is Struct,
        forall|i: int| 0 <= i < d->Struct_fields@.len() ==> #[trigger] name_example(reg, d->Struct_fields@[i].type_path@, seen) is Ok,
    ensures
        descriptor_example(reg, d, name, seen) is Ok,
        descriptor_example(reg, d, name, seen)->Ok_0 is Object,
        key_set(descriptor_example(reg, d, name, seen)->Ok_0->Object_0) == Set::new(
            |k: Seq<char>| exists|i: int| 0 <= i < d->Struct_fields@.len() && d->Struct_fields@[i].name@ == k,
        ),
        d->Struct_fields@.map_values(|f: NamedField| f.name@).no_duplicates() ==> descriptor_example(
            reg,
            d,
            name,
            seen,
        )->Ok_0->Object_0.map_values(|m: (Seq<char>, Json)| m.0).no_duplicates(),
{
    let fields = d->Struct_fields@;
    lemma_named_examples_complete(reg, fields, seen);
    let members = named_examples(reg, fields, seen).0;
    assert(key_set(members) =~= Set::new(
        |k: Seq<char>| exists|i: int| 0 <= i < fields.len() && fields[i].name@ == k,
    )) by {
        assert forall|k: Seq<char>| key_set(members).contains(k) implies exists|i: int| 0 <= i < fields.len() && fields[i].name@ == k by {
            let i = choose|i: int| 0 <= i < members.len() && members[i].0 == k;
            assert(members[i].0 == fields[i].name@);
        }
        assert forall|k: Seq<char>| (exists|i: int| 0 <= i < fields.len() && fields[i].name@ == k) implies key_set(members).contains(k) by {
            let i = choose|i: int| 0 <= i < fields.len() && fields[i].name@ == k;
            assert(members[i].0 == k);
        }
    }
    assert(members.map_values(|m: (Seq<char>, Json)| m.0) =~= fields.map_values(|f: NamedField| f.name@));
}

/// A struct with a field that has no example fails as a whole, and the error
/// text names every such field with its type.
pub proof fn lemma_struct_failure_lists_fields(reg: Entries, d: TypeDescriptor, name: Seq<char>, seen: Set<Seq<char>>)
    requires
        d is Struct,
        exists|i: int| 0 <= i < d->Struct_fields@.len() && #[trigger] name_example(reg, d->Struct_fields@[i].type_path@, seen) is Err,
    ensures
        descriptor_example(reg, d, name, seen) is Err,
        descriptor_example(reg, d, name, seen)->Err_0 is Generation,
        forall|i: int| 0 <= i < d->Struct_fields@.len() && #[trigger] name_example(reg, d->Struct_fields@[i].type_path@, seen) is Err
            ==> has_sub(descriptor_example(reg, d, name, seen)->Err_0->Generation_0, named_line(d->Struct_fields@[i].name@, d->Struct_fields@[i].type_path@)),
{
    let fields = d->Struct_fields@;
    let c = named_examples(reg, fields, seen);
    let i0 = choose|i: int| 0 <= i < fields.len() && #[trigger] name_example(reg, fields[i].type_path@, seen) is Err;
    lemma_named_examples_failures(reg, fields, seen, i0);
    assert(c.1.len() > 0);
    assert forall|i: int| 0 <= i < fields.len() && #[trigger] name_example(reg, fields[i].type_path@, seen) is Err
        implies has_sub(join_lines(c.1), named_line(fields[i].name@, fields[i].type_path@)) by {
        lemma_named_examples_failures(reg, fields, seen, i);
        let j = choose|j: int| 0 <= j < c.1.len() && c.1[j] == named_line(fields[i].name@, fields[i].type_path@);
        lemma_join_lines_has_each(c.1, j);
    }
}

/// A tuple struct with a single field is transparent: its example is that
/// field's own example, not wrapped in an array.
pub proof fn lemma_newtype_transparent(reg: Entries, d: TypeDescriptor, name: Seq<char>, seen: Set<Seq<char>>)
    requires
        d is TupleStruct,
        d->TupleStruct_fields@.len() == 1,
    ensures
        descriptor_example(reg, d, name, seen) == name_example(reg, d->TupleStruct_fields@[0]@, seen),
{
}

/// An enum whose first declared variant is a unit variant has that
/// variant's name as its example, whatever follows it.
pub proof fn lemma_enum_first_unit_variant(reg: Entries, d: TypeDescriptor, name: Seq<char>, seen: Set<Seq<char>>)
    requires
        d is Enum,
        d->Enum_variants@.len() >= 1,
        d->Enum_variants@[0].kind is Unit,
    ensures
        descriptor_example(reg, d, name, seen) == Ok::<Json, Failure>(Json::Str(d->Enum_variants@[0].name@)),
{
}

} // verus!
