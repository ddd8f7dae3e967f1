//! The `types` parameter of a discovery request.
use vstd::prelude::*;
use crate::json::{lemma_view_values_index, member, view_values, Json, JsonValue};

verus! {

/// Why a request's `types` parameter was rejected.
#[derive(Debug, Clone, Copy, PartialEq, Eq)]
pub enum ParamsError {
    Missing,
    WrongType,
    Empty,
}

impl ParamsError {
    /// The message reported to the caller.
    pub fn message(&self) -> (r: &'static str)
        ensures
            r@ == params_message(*self),
    {
        match self {
            ParamsError::Missing => "Missing required 'types' parameter. Specify component types to get format information for.",
            ParamsError::WrongType => "Parameter 'types' must be a string or array of strings",
            ParamsError::Empty => "At least one type must be specified in the 'types' parameter",
        }
    }
}

pub open spec fn params_message(e: ParamsError) -> Seq<char> {
    match e {
        ParamsError::Missing => "Missing required 'types' parameter. Specify component types to get format information for."@,
        ParamsError::WrongType => "Parameter 'types' must be a string or array of strings"@,
        ParamsError::Empty => "At least one type must be specified in the 'types' parameter"@,
    }
}

/// The strings among `s`, in order; other values are skipped.
pub open spec fn strings_in(s: Seq<Json>) -> Seq<Seq<char>>
    decreases s.len(),
{
    if s.len() == 0 {
        Seq::empty()
    } else {
        let prev = strings_in(s.drop_last());
        match s.last() {
            Json::Str(t) => prev.push(t),
            _ => prev,
        }
    }
}

/// The type names that a `types` value gives: a string names one type, an
/// array names the strings it holds.
pub open spec fn type_names_of(v: Json) -> Result<Seq<Seq<char>>, ParamsError> {
    match v {
        Json::Str(t) => Ok(seq![t]),
        Json::Array(items) => Ok(strings_in(items)),
        _ => Err(ParamsError::WrongType),
    }
}

/// The type names a request asks for, or why it is rejected.
pub open spec fn requested_types(params: Option<Json>) -> Result<Seq<Seq<char>>, ParamsError> {
    match params {
        None => Err(ParamsError::Missing),
        Some(p) => if !(p is Object) || member(p->Object_0, "types"@) is None {
            Err(ParamsError::Missing)
        } else {
            match type_names_of(member(p->Object_0, "types"@).unwrap()) {
                Err(e) => Err(e),
                Ok(names) => if names.len() == 0 {
                    Err(ParamsError::Empty)
                } else {
                    Ok(names)
                },
            }
        },
    }
}

/// The type names that a `types` value gives.
pub fn extract_type_names(value: &JsonValue) -> (r: Result<Vec<String>, ParamsError>)
    ensures
        match r {
            Ok(names) => type_names_of(value@) == Ok::<Seq<Seq<char>>, ParamsError>(
                names@.map_values(|t: String| t@),
            ),
            Err(e) => type_names_of(value@) == Err::<Seq<Seq<char>>, ParamsError>(e),
        },
{
    match value {
        JsonValue::Str(s) => {
            let mut names: Vec<String> = Vec::new();
            names.push(s.clone());
            assert(names@.map_values(|t: String| t@) =~= seq![s@]);
            Ok(names)
        },
        JsonValue::Array(items) => {
            proof {
                lemma_view_values_index(items@);
            }
            let ghost models = view_values(items@);
            let mut names: Vec<String> = Vec::new();
            let mut i: usize = 0;
            assert(models.subrange(0, 0) =~= Seq::<Json>::empty());
            assert(names@.map_values(|t: String| t@) =~= Seq::empty());
            while i < items.len()
                invariant
                    i <= items@.len(),
                    models == view_values(items@),
                    models.len() == items@.len(),
                    forall|j: int| 0 <= j < items@.len() ==> #[trigger] models[j] == items@[j]@,
                    names@.map_values(|t: String| t@) == strings_in(models.subrange(0, i as int)),
                decreases items@.len() - i,
            {
                assert(models.subrange(0, i + 1).drop_last() =~= models.subrange(0, i as int));
                assert(models.subrange(0, i + 1).last() == items@[i as int]@);
                match &items[i] {
                    JsonValue::Str(s) => {
                        let ghost before = names@;
                        names.push(s.clone());
                        assert(names@.map_values(|t: String| t@) =~= before.map_values(
                            |t: String| t@,
                        ).push(s@));
                    },
                    _ => {},
                }
                i = i + 1;
            }
            assert(models.subrange(0, items@.len() as int) =~= models);
            Ok(names)
        },
        _ => Err(ParamsError::WrongType),
    }
}

/// The type names a request's parameters ask for: the `types` member, a
/// string or an array of strings, naming at least one type.
pub fn parse_types_parameter(params: Option<&JsonValue>) -> (r: Result<Vec<String>, ParamsError>)
    ensures
        match r {
            Ok(names) => requested_types(
                match params {
                    Some(p) => Some(p@),
                    None => None,
                },
            ) == Ok::<Seq<Seq<char>>, ParamsError>(names@.map_values(|t: String| t@)),
            Err(e) => requested_types(
                match params {
                    Some(p) => Some(p@),
                    None => None,
                },
            ) == Err::<Seq<Seq<char>>, ParamsError>(e),
        },
{
    let p = match params {
        Some(p) => p,
        None => {
            return Err(ParamsError::Missing);
        },
    };
    let types = match p.get("types") {
        Some(t) => t,
        None => {
            return Err(ParamsError::Missing);
        },
    };
    let names = match extract_type_names(types) {
        Ok(n) => n,
        Err(e) => {
            return Err(e);
        },
    };
    if names.len() == 0 {
        return Err(ParamsError::Empty);
    }
    Ok(names)
}

} // verus!
