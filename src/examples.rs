//! Canonical examples for scalar and opaque leaf types.
use vstd::prelude::*;
use crate::error::{outcome, DiscoveryError, Failure};
use crate::json::{push_member, push_value, view_members, view_values, whole_numbers, Json, JsonValue};
use crate::text::{contains_text, has_prefix, has_sub, join2, join3, last_segment, last_segment_of, starts_with_text, text_eq};

verus! {

/// Type paths under which math vectors, quaternions and matrices are registered.
pub open spec fn is_math_path(n: Seq<char>) -> bool {
    has_prefix(n, "bevy_math::"@) || has_prefix(n, "glam::"@)
}

/// Type paths that stand for runtime-managed handles, which have no JSON form.
pub open spec fn is_handle_path(n: Seq<char>) -> bool {
    has_sub(n, "Arc<"@) || has_sub(n, "Handle<"@) || has_sub(n, "StrongHandle"@)
}

/// The fixed RGBA example `{red: 1.0, green: 0.0, blue: 0.0, alpha: 1.0}`.
pub open spec fn rgba_example() -> Json {
    Json::Object(
        seq![
            ("red"@, Json::Float(1, 0)),
            ("green"@, Json::Float(0, 0)),
            ("blue"@, Json::Float(0, 0)),
            ("alpha"@, Json::Float(1, 0)),
        ],
    )
}

/// Row `i` of the identity matrix of size `size`.
pub open spec fn unit_row(size: nat, i: int) -> Seq<int> {
    Seq::new(size, |k: int| if k == i { 1int } else { 0int })
}

/// The identity matrix of size `size`, row by row.
pub open spec fn identity_example(size: nat) -> Json {
    Json::Array(Seq::new(size, |i: int| whole_numbers(unit_row(size, i))))
}

/// The example of a math type, by the name in its path.
pub open spec fn math_example(n: Seq<char>) -> Option<Json> {
    if has_sub(n, "Mat2"@) {
        Some(identity_example(2))
    } else if has_sub(n, "Mat3"@) {
        Some(identity_example(3))
    } else if has_sub(n, "Mat4"@) {
        Some(identity_example(4))
    } else if has_sub(n, "Vec2"@) {
        Some(whole_numbers(seq![1, 2]))
    } else if has_sub(n, "Vec3"@) {
        Some(whole_numbers(seq![1, 2, 3]))
    } else if has_sub(n, "Vec4"@) {
        Some(whole_numbers(seq![1, 2, 3, 4]))
    } else if has_sub(n, "Quat"@) {
        Some(whole_numbers(seq![0, 0, 0, 1]))
    } else {
        None
    }
}

/// The failure for a leaf type outside the table.
pub open spec fn unknown_leaf(n: Seq<char>) -> Failure {
    if is_handle_path(n) {
        Failure::Unsupported(
            "Type '"@ + n + "' cannot be represented in JSON as it contains runtime-managed resources"@,
        )
    } else {
        Failure::Unsupported(
            "Type '"@ + n + "' is not a known primitive type and cannot be represented in JSON"@,
        )
    }
}

/// The canonical example of a leaf type: extremal values for integers, pi for
/// floats, fixed literals for text, math and color types.
pub open spec fn primitive_example(n: Seq<char>) -> Result<Json, Failure> {
    if n == "i8"@ {
        Ok(Json::Int(-128))
    } else if n == "i16"@ {
        Ok(Json::Int(-32768))
    } else if n == "i32"@ {
        Ok(Json::Int(-2147483648))
    } else if n == "i64"@ || n == "isize"@ {
        Ok(Json::Int(-9223372036854775808))
    } else if n == "i128"@ {
        Ok(Json::Str("-170141183460469231731687303715884105728"@))
    } else if n == "u8"@ {
        Ok(Json::Int(255))
    } else if n == "u16"@ {
        Ok(Json::Int(65535))
    } else if n == "u32"@ {
        Ok(Json::Int(4294967295))
    } else if n == "u64"@ || n == "usize"@ {
        Ok(Json::Int(18446744073709551615))
    } else if n == "u128"@ {
        Ok(Json::Str("340282366920938463463374607431768211455"@))
    } else if n == "f32"@ {
        Ok(Json::Float(31415927410125732, 16))
    } else if n == "f64"@ {
        Ok(Json::Float(3141592653589793, 15))
    } else if n == "alloc::string::String"@ || n == "std::string::String"@ || n == "String"@ {
        Ok(Json::Str("example_string"@))
    } else if n == "&str"@ || n == "str"@ {
        Ok(Json::Str("example_str"@))
    } else if n == "char"@ {
        Ok(Json::Str("A"@))
    } else if n == "bool"@ {
        Ok(Json::Bool(true))
    } else if is_math_path(n) && math_example(n) is Some {
        Ok(math_example(n).unwrap())
    } else if n == "bevy_color::srgba::Srgba"@ || n == "bevy_color::linear_rgba::LinearRgba"@ {
        Ok(rgba_example())
    } else if n == "bevy_color::Color"@ {
        Ok(Json::Object(seq![("Srgba"@, rgba_example())]))
    } else if n == "alloc::vec::Vec"@ {
        Ok(Json::Array(Seq::empty()))
    } else if n == "std::collections::HashMap"@ || n == "std::collections::BTreeMap"@ {
        Ok(Json::Object(Seq::empty()))
    } else if n == "core::option::Option"@ {
        Ok(Json::Null)
    } else {
        Err(unknown_leaf(n))
    }
}

/// A type-appropriate example that never fails: the table's example where
/// there is one, else one chosen by the shape of the path.
pub open spec fn default_example(n: Seq<char>) -> Json {
    match primitive_example(n) {
        Ok(j) => j,
        Err(_) => if has_sub(n, "Option"@) {
            Json::Null
        } else if has_sub(n, "Vec"@) {
            Json::Array(Seq::empty())
        } else if has_sub(n, "HashMap"@) || has_sub(n, "BTreeMap"@) {
            Json::Object(Seq::empty())
        } else {
            Json::Str("example_"@ + last_segment(n))
        },
    }
}

/// The scalar types whose table entry is a plain literal.
pub open spec fn is_primitive_name(n: Seq<char>) -> bool {
    n == "i8"@ || n == "i16"@ || n == "i32"@ || n == "i64"@ || n == "i128"@ || n == "u8"@ || n
        == "u16"@ || n == "u32"@ || n == "u64"@ || n == "u128"@ || n == "f32"@ || n == "f64"@ || n
        == "bool"@ || n == "char"@ || n == "alloc::string::String"@ || n == "std::string::String"@
        || n == "String"@ || n == "&str"@ || n == "str"@
}

/// Whether `type_path` names a scalar type.
pub fn is_primitive_type(type_path: &str) -> (r: bool)
    ensures
        r == is_primitive_name(type_path@),
{
    text_eq(type_path, "i8") || text_eq(type_path, "i16") || text_eq(type_path, "i32")
        || text_eq(type_path, "i64") || text_eq(type_path, "i128") || text_eq(type_path, "u8")
        || text_eq(type_path, "u16") || text_eq(type_path, "u32") || text_eq(type_path, "u64")
        || text_eq(type_path, "u128") || text_eq(type_path, "f32") || text_eq(type_path, "f64")
        || text_eq(type_path, "bool") || text_eq(type_path, "char") || text_eq(
        type_path,
        "alloc::string::String",
    ) || text_eq(type_path, "std::string::String") || text_eq(type_path, "String") || text_eq(
        type_path,
        "&str",
    ) || text_eq(type_path, "str")
}

fn rgba_value() -> (r: JsonValue)
    ensures
        r@ == rgba_example(),
{
    let mut m: Vec<(String, JsonValue)> = Vec::new();
    assert(view_members(m@) =~= Seq::empty());
    push_member(&mut m, String::from_str("red"), JsonValue::decimal(1, 0));
    push_member(&mut m, String::from_str("green"), JsonValue::decimal(0, 0));
    push_member(&mut m, String::from_str("blue"), JsonValue::decimal(0, 0));
    push_member(&mut m, String::from_str("alpha"), JsonValue::decimal(1, 0));
    let r = JsonValue::Object(m);
    assert(view_members(m@) =~= rgba_example()->Object_0);
    r
}

fn identity_value(size: usize) -> (r: JsonValue)
    requires
        2 <= size <= 4,
    ensures
        r@ == identity_example(size as nat),
{
    let mut rows: Vec<JsonValue> = Vec::new();
    let mut i: usize = 0;
    while i < size
        invariant
            2 <= size <= 4,
            i <= size,
            view_values(rows@) =~= Seq::new(
                i as nat,
                |k: int| whole_numbers(unit_row(size as nat, k)),
            ),
        decreases size - i,
    {
        let mut row: Vec<i64> = Vec::new();
        let mut j: usize = 0;
        while j < size
            invariant
                2 <= size <= 4,
                j <= size,
                i < size,
                row@.len() == j,
                forall|k: int| 0 <= k < j ==> row@[k] == if k == i { 1i64 } else { 0i64 },
            decreases size - j,
        {
            row.push(if j == i { 1 } else { 0 });
            j = j + 1;
        }
        let v = JsonValue::whole_number_array(&row);
        assert(row@.map_values(|m: i64| m as int) =~= unit_row(size as nat, i as int));
        push_value(&mut rows, v);
        i = i + 1;
    }
    JsonValue::Array(rows)
}

pub(crate) fn whole_numbers_value(a: i64, b: i64, c: i64, d: i64, count: usize) -> (r: JsonValue)
    requires
        2 <= count <= 4,
    ensures
        r@ == whole_numbers(seq![a as int, b as int, c as int, d as int].subrange(0, count as int)),
{
    let mut row: Vec<i64> = Vec::new();
    row.push(a);
    row.push(b);
    if count >= 3 {
        row.push(c);
    }
    if count >= 4 {
        row.push(d);
    }
    let r = JsonValue::whole_number_array(&row);
    assert(row@.map_values(|m: i64| m as int) =~= seq![a as int, b as int, c as int, d as int].subrange(
        0,
        count as int,
    ));
    r
}

fn math_value(n: &str) -> (r: Option<JsonValue>)
    ensures
        match math_example(n@) {
            Some(j) => r is Some && r.unwrap()@ == j,
            None => r is None,
        },
{
    if contains_text(n, "Mat2") {
        Some(identity_value(2))
    } else if contains_text(n, "Mat3") {
        Some(identity_value(3))
    } else if contains_text(n, "Mat4") {
        Some(identity_value(4))
    } else if contains_text(n, "Vec2") {
        let r = whole_numbers_value(1, 2, 0, 0, 2);
        assert(seq![1int, 2, 0, 0].subrange(0, 2) =~= seq![1int, 2]);
        Some(r)
    } else if contains_text(n, "Vec3") {
        let r = whole_numbers_value(1, 2, 3, 0, 3);
        assert(seq![1int, 2, 3, 0].subrange(0, 3) =~= seq![1int, 2, 3]);
        Some(r)
    } else if contains_text(n, "Vec4") {
        let r = whole_numbers_value(1, 2, 3, 4, 4);
        assert(seq![1int, 2, 3, 4].subrange(0, 4) =~= seq![1int, 2, 3, 4]);
        Some(r)
    } else if contains_text(n, "Quat") {
        let r = whole_numbers_value(0, 0, 0, 1, 4);
        assert(seq![0int, 0, 0, 1].subrange(0, 4) =~= seq![0int, 0, 0, 1]);
        Some(r)
    } else {
        None
    }
}

fn unknown_leaf_error(n: &str) -> (r: DiscoveryError)
    ensures
        r@ == unknown_leaf(n@),
{
    if contains_text(n, "Arc<") || contains_text(n, "Handle<") || contains_text(n, "StrongHandle") {
        DiscoveryError::UnsupportedType {
            message: join3(
                "Type '",
                n,
                "' cannot be represented in JSON as it contains runtime-managed resources",
            ),
        }
    } else {
        DiscoveryError::UnsupportedType {
            message: join3(
                "Type '",
                n,
                "' is not a known primitive type and cannot be represented in JSON",
            ),
        }
    }
}

/// The canonical example of the leaf type `type_path`, or the error that
/// says why it has none. The result is a function of the path alone.
pub fn generate_primitive_example(type_path: &str) -> (r: Result<JsonValue, DiscoveryError>)
    ensures
        outcome(r) == primitive_example(type_path@),
{
    let n = type_path;
    if text_eq(n, "i8") {
        Ok(JsonValue::Int(-128))
    } else if text_eq(n, "i16") {
        Ok(JsonValue::Int(-32768))
    } else if text_eq(n, "i32") {
        Ok(JsonValue::Int(-2147483648))
    } else if text_eq(n, "i64") || text_eq(n, "isize") {
        Ok(JsonValue::Int(-9223372036854775808))
    } else if text_eq(n, "i128") {
        Ok(JsonValue::text("-170141183460469231731687303715884105728"))
    } else if text_eq(n, "u8") {
        Ok(JsonValue::Int(255))
    } else if text_eq(n, "u16") {
        Ok(JsonValue::Int(65535))
    } else if text_eq(n, "u32") {
        Ok(JsonValue::Int(4294967295))
    } else if text_eq(n, "u64") || text_eq(n, "usize") {
        Ok(JsonValue::Int(18446744073709551615))
    } else if text_eq(n, "u128") {
        Ok(JsonValue::text("340282366920938463463374607431768211455"))
    } else if text_eq(n, "f32") {
        Ok(JsonValue::decimal(31415927410125732, 16))
    } else if text_eq(n, "f64") {
        Ok(JsonValue::decimal(3141592653589793, 15))
    } else if text_eq(n, "alloc::string::String") || text_eq(n, "std::string::String") || text_eq(
        n,
        "String",
    ) {
        Ok(JsonValue::text("example_string"))
    } else if text_eq(n, "&str") || text_eq(n, "str") {
        Ok(JsonValue::text("example_str"))
    } else if text_eq(n, "char") {
        Ok(JsonValue::text("A"))
    } else if text_eq(n, "bool") {
        Ok(JsonValue::Bool(true))
    } else {
        let math = if starts_with_text(n, "bevy_math::") || starts_with_text(n, "glam::") {
            math_value(n)
        } else {
            None
        };
        match math {
            Some(v) => Ok(v),
            None => {
                if text_eq(n, "bevy_color::srgba::Srgba") || text_eq(
                    n,
                    "bevy_color::linear_rgba::LinearRgba",
                ) {
                    Ok(rgba_value())
                } else if text_eq(n, "bevy_color::Color") {
                    let mut m: Vec<(String, JsonValue)> = Vec::new();
                    push_member(&mut m, String::from_str("Srgba"), rgba_value());
                    assert(view_members(m@) =~= seq![("Srgba"@, rgba_example())]);
                    Ok(JsonValue::Object(m))
                } else if text_eq(n, "alloc::vec::Vec") {
                    let v: Vec<JsonValue> = Vec::new();
                    assert(view_values(v@) =~= Seq::empty());
                    Ok(JsonValue::Array(v))
                } else if text_eq(n, "std::collections::HashMap") || text_eq(
                    n,
                    "std::collections::BTreeMap",
                ) {
                    let m: Vec<(String, JsonValue)> = Vec::new();
                    assert(view_members(m@) =~= Seq::empty());
                    Ok(JsonValue::Object(m))
                } else if text_eq(n, "core::option::Option") {
                    Ok(JsonValue::Null)
                } else {
                    Err(unknown_leaf_error(n))
                }
            },
        }
    }
}

/// An example for `type_path` that never fails: the table's example where
/// there is one, else one chosen by the shape of the path.
pub fn generate_default_example_for_type(type_path: &str) -> (r: JsonValue)
    ensures
        r@ == default_example(type_path@),
{
    match generate_primitive_example(type_path) {
        Ok(v) => v,
        Err(_) => {
            if contains_text(type_path, "Option") {
                JsonValue::Null
            } else if contains_text(type_path, "Vec") {
                let v: Vec<JsonValue> = Vec::new();
                assert(view_values(v@) =~= Seq::empty());
                JsonValue::Array(v)
            } else if contains_text(type_path, "HashMap") || contains_text(type_path, "BTreeMap") {
                let m: Vec<(String, JsonValue)> = Vec::new();
                assert(view_members(m@) =~= Seq::empty());
                JsonValue::Object(m)
            } else {
                let last = last_segment_of(type_path);
                JsonValue::Str(join2("example_", last.as_str()))
            }
        },
    }
}

/// Lengths and first characters of the scalar names in the table, which
/// tell them apart.
proof fn lemma_scalar_names()
    ensures
        "i8"@.len() == 2 && "i8"@[0] == 'i',
        "i16"@.len() == 3 && "i16"@[0] == 'i',
        "i32"@.len() == 3 && "i32"@[0] == 'i',
        "i64"@.len() == 3 && "i64"@[0] == 'i',
        "isize"@.len() == 5 && "isize"@[0] == 'i',
        "i128"@.len() == 4 && "i128"@[0] == 'i',
        "u8"@.len() == 2 && "u8"@[0] == 'u',
        "u16"@.len() == 3 && "u16"@[0] == 'u',
        "u32"@.len() == 3 && "u32"@[0] == 'u',
        "u64"@.len() == 3 && "u64"@[0] == 'u',
        "usize"@.len() == 5 && "usize"@[0] == 'u',
        "u128"@.len() == 4 && "u128"@[0] == 'u',
        "f32"@.len() == 3 && "f32"@[0] == 'f',
        "f64"@.len() == 3 && "f64"@[0] == 'f',
        "String"@.len() == 6 && "String"@[0] == 'S',
        "str"@.len() == 3 && "str"@[0] == 's',
        "&str"@.len() == 4 && "&str"@[0] == '&',
        "char"@.len() == 4 && "char"@[0] == 'c',
        "bool"@.len() == 4 && "bool"@[0] == 'b',
        "alloc::string::String"@.len() == 21,
        "std::string::String"@.len() == 19,
{
    reveal_strlit("i8");
    reveal_strlit("i16");
    reveal_strlit("i32");
    reveal_strlit("i64");
    reveal_strlit("isize");
    reveal_strlit("i128");
    reveal_strlit("u8");
    reveal_strlit("u16");
    reveal_strlit("u32");
    reveal_strlit("u64");
    reveal_strlit("usize");
    reveal_strlit("u128");
    reveal_strlit("f32");
    reveal_strlit("f64");
    reveal_strlit("String");
    reveal_strlit("str");
    reveal_strlit("&str");
    reveal_strlit("char");
    reveal_strlit("bool");
    reveal_strlit("alloc::string::String");
    reveal_strlit("std::string::String");
}

/// Integer types up to 64 bits get integer examples.
pub proof fn lemma_integer_examples(n: Seq<char>)
    requires
        n == "i8"@ || n == "i16"@ || n == "i32"@ || n == "i64"@ || n == "isize"@ || n == "u8"@ || n
            == "u16"@ || n == "u32"@ || n == "u64"@ || n == "usize"@,
    ensures
        primitive_example(n) is Ok && primitive_example(n)->Ok_0 is Int,
{
    lemma_scalar_names();
}

/// Float types get decimal examples.
pub proof fn lemma_float_examples(n: Seq<char>)
    requires
        n == "f32"@ || n == "f64"@,
    ensures
        primitive_example(n) is Ok && primitive_example(n)->Ok_0 is Float,
{
    lemma_scalar_names();
    assert(n.len() == 3 && n[0] == 'f');
}

/// `bool` gets a boolean example, and text types get string examples, as do
/// the 128-bit integers, which JSON numbers cannot hold.
pub proof fn lemma_text_and_bool_examples(n: Seq<char>)
    ensures
        n == "bool"@ ==> primitive_example(n) is Ok && primitive_example(n)->Ok_0 is Bool,
        (n == "alloc::string::String"@ || n == "std::string::String"@ || n == "String"@ || n
            == "&str"@ || n == "str"@ || n == "char"@ || n == "i128"@ || n == "u128"@)
            ==> primitive_example(n) is Ok && primitive_example(n)->Ok_0 is Str,
{
    lemma_scalar_names();
    if n == "bool"@ {
        assert(n.len() == 4 && n[0] == 'b');
    }
    if n == "str"@ {
        assert(n.len() == 3 && n[0] == 's');
    }
    if n == "&str"@ {
        assert(n.len() == 4 && n[0] == '&');
    }
    if n == "char"@ {
        assert(n.len() == 4 && n[0] == 'c');
    }
    if n == "u128"@ {
        assert(n.len() == 4 && n[0] == 'u');
    }
}

} // verus!
