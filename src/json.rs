//! A JSON value as the discovery engine builds it, and its mathematical model.
use vstd::prelude::*;

verus! {

/// A decimal number `mantissa / 10^scale`; how the engine writes
/// floating-point examples without holding a float.
#[derive(Debug, Clone, Copy, PartialEq, Eq)]
pub struct Decimal {
    pub mantissa: i64,
    pub scale: u32,
}

/// The model of a JSON value: objects keep their members in insertion order.
pub enum Json {
    Null,
    Bool(bool),
    Int(int),
    Float(int, nat),
    Str(Seq<char>),
    Array(Seq<Json>),
    Object(Seq<(Seq<char>, Json)>),
}

/// A JSON value. Numbers are integers or decimals; an object is a list of
/// members, keys unique where the engine builds it.
#[derive(Debug, PartialEq, Eq)]
pub enum JsonValue {
    Null,
    Bool(bool),
    Int(i128),
    Float(Decimal),
    Str(String),
    Array(Vec<JsonValue>),
    Object(Vec<(String, JsonValue)>),
}

impl View for JsonValue {
    type V = Json;

    open spec fn view(&self) -> Json
        decreases self,
    {
        match self {
            JsonValue::Null => Json::Null,
            JsonValue::Bool(b) => Json::Bool(*b),
            JsonValue::Int(i) => Json::Int(*i as int),
            JsonValue::Float(d) => Json::Float(d.mantissa as int, d.scale as nat),
            JsonValue::Str(s) => Json::Str(s@),
            JsonValue::Array(v) => Json::Array(view_values(v@)),
            JsonValue::Object(m) => Json::Object(view_members(m@)),
        }
    }
}

/// The models of a sequence of values.
pub open spec fn view_values(s: Seq<JsonValue>) -> Seq<Json>
    decreases s,
{
    if s.len() == 0 {
        Seq::empty()
    } else {
        view_values(s.subrange(0, s.len() - 1)).push(s[s.len() - 1]@)
    }
}

/// The models of a sequence of object members.
pub open spec fn view_members(s: Seq<(String, JsonValue)>) -> Seq<(Seq<char>, Json)>
    decreases s,
{
    if s.len() == 0 {
        Seq::empty()
    } else {
        view_members(s.subrange(0, s.len() - 1)).push((s[s.len() - 1].0@, s[s.len() - 1].1@))
    }
}

/// The models of a sequence of values have its length and, at each index,
/// the model of the value there.
pub proof fn lemma_view_values_index(s: Seq<JsonValue>)
    ensures
        view_values(s).len() == s.len(),
        forall|i: int| 0 <= i < s.len() ==> #[trigger] view_values(s)[i] == s[i]@,
    decreases s.len(),
{
    if s.len() > 0 {
        let t = s.subrange(0, s.len() - 1);
        lemma_view_values_index(t);
        assert(view_values(s) == view_values(t).push(s[s.len() - 1]@));
        assert forall|i: int| 0 <= i < s.len() implies #[trigger] view_values(s)[i] == s[i]@ by {
            if i < s.len() - 1 {
                assert(t[i] == s[i]);
            }
        }
    }
}

/// The models of a sequence of members have its length and, at each index,
/// the key and the model of the value there.
pub proof fn lemma_view_members_index(s: Seq<(String, JsonValue)>)
    ensures
        view_members(s).len() == s.len(),
        forall|i: int|
            0 <= i < s.len() ==> #[trigger] view_members(s)[i] == (s[i].0@, s[i].1@),
    decreases s.len(),
{
    if s.len() > 0 {
        let t = s.subrange(0, s.len() - 1);
        lemma_view_members_index(t);
        assert(view_members(s) == view_members(t).push((s[s.len() - 1].0@, s[s.len() - 1].1@)));
        assert forall|i: int| 0 <= i < s.len() implies #[trigger] view_members(s)[i] == (
            s[i].0@,
            s[i].1@,
        ) by {
            if i < s.len() - 1 {
                assert(t[i] == s[i]);
            }
        }
    }
}

/// Appends a value to the elements of an array.
pub fn push_value(v: &mut Vec<JsonValue>, x: JsonValue)
    ensures
        view_values(final(v)@) == view_values(old(v)@).push(x@),
{
    let ghost x_model = x@;
    v.push(x);
    assert(v@.subrange(0, v@.len() - 1) =~= old(v)@);
}

/// Appends a member to the members of an object.
pub fn push_member(m: &mut Vec<(String, JsonValue)>, key: String, x: JsonValue)
    ensures
        view_members(final(m)@) == view_members(old(m)@).push((key@, x@)),
{
    m.push((key, x));
    assert(m@.subrange(0, m@.len() - 1) =~= old(m)@);
}

/// The value of the first member named `key`.
pub open spec fn member(s: Seq<(Seq<char>, Json)>, key: Seq<char>) -> Option<Json>
    decreases s.len(),
{
    if s.len() == 0 {
        None
    } else if s[0].0 == key {
        Some(s[0].1)
    } else {
        member(s.drop_first(), key)
    }
}

/// The keys of an object's members, as a set.
pub open spec fn key_set(s: Seq<(Seq<char>, Json)>) -> Set<Seq<char>> {
    Set::new(|k: Seq<char>| exists|i: int| 0 <= i < s.len() && s[i].0 == k)
}

/// An array of decimals with no fractional digits: `[a, b, ...]`.
pub open spec fn whole_numbers(s: Seq<int>) -> Json {
    Json::Array(s.map_values(|m: int| Json::Float(m, 0)))
}

impl JsonValue {
    /// The value of the first member named `key`, where `self` is an object.
    pub fn get(&self, key: &str) -> (r: Option<&JsonValue>)
        ensures
            self@ is Object ==> match r {
                Some(v) => member(self@->Object_0, key@) == Some(v@),
                None => member(self@->Object_0, key@) is None,
            },
            !(self@ is Object) ==> r is None,
    {
        match self {
            JsonValue::Object(m) => {
                proof {
                    lemma_view_members_index(m@);
                    assert(self@ == Json::Object(view_members(m@)));
                }
                let k = String::from_str(key);
                let mut i: usize = 0;
                assert(view_members(m@).subrange(0, m@.len() as int) =~= view_members(m@));
                while i < m.len()
                    invariant
                        i <= m@.len(),
                        k@ == key@,
                        self@ == Json::Object(view_members(m@)),
                        view_members(m@).len() == m@.len(),
                        forall|j: int|
                            0 <= j < m@.len() ==> #[trigger] view_members(m@)[j] == (
                                m@[j].0@,
                                m@[j].1@,
                            ),
                        member(view_members(m@), key@) == member(
                            view_members(m@).subrange(i as int, m@.len() as int),
                            key@,
                        ),
                    decreases m@.len() - i,
                {
                    let ghost rest = view_members(m@).subrange(i as int, m@.len() as int);
                    assert(rest.drop_first() =~= view_members(m@).subrange(
                        i + 1,
                        m@.len() as int,
                    ));
                    assert(rest[0] == view_members(m@)[i as int]);
                    if m[i].0 == k {
                        assert(rest[0].0 == key@);
                        assert(member(rest, key@) == Some(m@[i as int].1@));
                        return Some(&m[i].1);
                    }
                    i = i + 1;
                }
                None
            },
            _ => None,
        }
    }

    /// A decimal `mantissa / 10^scale`.
    pub fn decimal(mantissa: i64, scale: u32) -> (r: JsonValue)
        ensures
            r@ == Json::Float(mantissa as int, scale as nat),
    {
        JsonValue::Float(Decimal { mantissa, scale })
    }

    /// A string value.
    pub fn text(s: &str) -> (r: JsonValue)
        ensures
            r@ == Json::Str(s@),
    {
        JsonValue::Str(String::from_str(s))
    }

    /// An array of decimals with no fractional digits.
    pub fn whole_number_array(values: &Vec<i64>) -> (r: JsonValue)
        ensures
            r@ == whole_numbers(values@.map_values(|m: i64| m as int)),
    {
        let mut out: Vec<JsonValue> = Vec::new();
        let mut i: usize = 0;
        while i < values.len()
            invariant
                i <= values@.len(),
                view_values(out@) == values@.subrange(0, i as int).map_values(
                    |m: i64| Json::Float(m as int, 0),
                ),
            decreases values@.len() - i,
        {
            push_value(&mut out, JsonValue::decimal(values[i], 0));
            assert(values@.subrange(0, i + 1) =~= values@.subrange(0, i as int).push(values@[i as int]));
            assert(values@.subrange(0, i + 1).map_values(|m: i64| Json::Float(m as int, 0))
                =~= values@.subrange(0, i as int).map_values(|m: i64| Json::Float(m as int, 0)).push(
                Json::Float(values@[i as int] as int, 0),
            ));
            i = i + 1;
        }
        assert(values@.subrange(0, values@.len() as int) =~= values@);
        let r = JsonValue::Array(out);
        assert(values@.map_values(|m: i64| Json::Float(m as int, 0)) =~= values@.map_values(
            |m: i64| m as int,
        ).map_values(|m: int| Json::Float(m, 0)));
        r
    }
}

} // verus!
