//! Errors of format discovery, and the trace collected while discovering.
use vstd::prelude::*;
use crate::json::{push_member, view_members, Json, JsonValue};
use crate::text::{join2, join3};

verus! {

/// Registry lookups that fail.
#[derive(Debug)]
pub enum RegistryError {
    TypeNotFound { type_path: String },
}

/// Everything that can stop discovery of one type.
#[derive(Debug)]
pub enum DiscoveryError {
    Registry(RegistryError),
    UnsupportedType { message: String },
    FormatGeneration { message: String },
    RecursiveType { type_path: String },
}

/// The model of a discovery error.
pub enum Failure {
    NotFound(Seq<char>),
    Unsupported(Seq<char>),
    Generation(Seq<char>),
    Recursive(Seq<char>),
}

impl View for DiscoveryError {
    type V = Failure;

    open spec fn view(&self) -> Failure {
        match self {
            DiscoveryError::Registry(RegistryError::TypeNotFound { type_path }) => Failure::NotFound(
                type_path@,
            ),
            DiscoveryError::UnsupportedType { message } => Failure::Unsupported(message@),
            DiscoveryError::FormatGeneration { message } => Failure::Generation(message@),
            DiscoveryError::RecursiveType { type_path } => Failure::Recursive(type_path@),
        }
    }
}

/// The model of the outcome of a discovery step.
pub open spec fn outcome<T: View>(r: Result<T, DiscoveryError>) -> Result<T::V, Failure> {
    match r {
        Ok(v) => Ok(v@),
        Err(e) => Err(e@),
    }
}

/// The short reason reported for a failure.
pub open spec fn reason_of(f: Failure) -> Seq<char> {
    match f {
        Failure::NotFound(_) => "Type not found in registry"@,
        Failure::Unsupported(_) => "Unsupported type"@,
        Failure::Generation(_) => "Format generation error"@,
        Failure::Recursive(_) => "Recursive type"@,
    }
}

/// The details reported for a failure.
pub open spec fn details_of(f: Failure) -> Seq<char> {
    match f {
        Failure::NotFound(p) => "Type '"@ + p + "' is not registered with Bevy's type registry"@,
        Failure::Unsupported(m) => m,
        Failure::Generation(m) => m,
        Failure::Recursive(p) => "Type '"@ + p + "' contains itself through its fields"@,
    }
}

/// The `{reason, details}` object of a failure.
pub open spec fn error_object(f: Failure) -> Json {
    Json::Object(seq![("reason"@, Json::Str(reason_of(f))), ("details"@, Json::Str(details_of(f)))])
}

impl RegistryError {
    /// The `{reason, details}` object reported for this error.
    pub fn to_json_error(&self) -> (r: JsonValue)
        ensures
            match self {
                RegistryError::TypeNotFound { type_path } => r@ == error_object(
                    Failure::NotFound(type_path@),
                ),
            },
    {
        match self {
            RegistryError::TypeNotFound { type_path } => {
                let details = join3(
                    "Type '",
                    type_path.as_str(),
                    "' is not registered with Bevy's type registry",
                );
                reason_details("Type not found in registry", details)
            },
        }
    }
}

fn reason_details(reason: &str, details: String) -> (r: JsonValue)
    ensures
        r@ == Json::Object(seq![("reason"@, Json::Str(reason@)), ("details"@, Json::Str(details@))]),
{
    let mut m: Vec<(String, JsonValue)> = Vec::new();
    let ghost d = details@;
    push_member(&mut m, String::from_str("reason"), JsonValue::text(reason));
    push_member(&mut m, String::from_str("details"), JsonValue::Str(details));
    assert(view_members(Seq::<(String, JsonValue)>::empty()) =~= Seq::empty());
    let r = JsonValue::Object(m);
    assert(view_members(m@) =~= seq![("reason"@, Json::Str(reason@)), ("details"@, Json::Str(d))]);
    r
}

impl DiscoveryError {
    /// An unsupported-type error with the given message.
    pub fn unsupported_type(message: &str) -> (r: DiscoveryError)
        ensures
            r@ == Failure::Unsupported(message@),
    {
        DiscoveryError::UnsupportedType { message: String::from_str(message) }
    }

    /// A format-generation error with the given message.
    pub fn format_generation(message: &str) -> (r: DiscoveryError)
        ensures
            r@ == Failure::Generation(message@),
    {
        DiscoveryError::FormatGeneration { message: String::from_str(message) }
    }

    /// The error for an operation that a type's category does not support.
    pub fn type_not_supported_for(type_path: &str, operation: &str) -> (r: DiscoveryError)
        ensures
            r@ == Failure::Unsupported(operation@ + " not supported for type: "@ + type_path@),
    {
        DiscoveryError::UnsupportedType {
            message: join3(operation, " not supported for type: ", type_path),
        }
    }

    /// The error for a descriptor that is not of the expected category.
    pub fn type_cast_failed(from_type: &str, to_type: &str) -> (r: DiscoveryError)
        ensures
            r@ == Failure::Generation("Failed to cast "@ + from_type@ + " to "@ + to_type@),
    {
        let mut message = join3("Failed to cast ", from_type, " to ");
        message.append(to_type);
        DiscoveryError::FormatGeneration { message }
    }

    /// The error for a type that has no example.
    pub fn no_example_for_type(type_path: &str) -> (r: DiscoveryError)
        ensures
            r@ == Failure::Unsupported("No example available for type: "@ + type_path@),
    {
        DiscoveryError::UnsupportedType {
            message: join2("No example available for type: ", type_path),
        }
    }

    /// The `{reason, details}` object reported for this error.
    pub fn to_json_error(&self) -> (r: JsonValue)
        ensures
            r@ == error_object(self@),
    {
        match self {
            DiscoveryError::Registry(e) => e.to_json_error(),
            DiscoveryError::UnsupportedType { message } => reason_details(
                "Unsupported type",
                message.clone(),
            ),
            DiscoveryError::FormatGeneration { message } => reason_details(
                "Format generation error",
                message.clone(),
            ),
            DiscoveryError::RecursiveType { type_path } => {
                let details = join3(
                    "Type '",
                    type_path.as_str(),
                    "' contains itself through its fields",
                );
                reason_details("Recursive type", details)
            },
        }
    }
}

/// An append-only trace of diagnostic lines for one discovery call.
#[derive(Debug, Default)]
pub struct DebugContext {
    pub messages: Vec<String>,
}

/// `b` holds the lines of `a` and possibly more after them.
pub open spec fn extends(a: DebugContext, b: DebugContext) -> bool {
    &&& a.messages@.len() <= b.messages@.len()
    &&& forall|i: int| 0 <= i < a.messages@.len() ==> #[trigger] b.messages@[i] == a.messages@[i]
}

impl DebugContext {
    /// An empty trace.
    pub fn new() -> (r: DebugContext)
        ensures
            r.messages@.len() == 0,
    {
        DebugContext { messages: Vec::new() }
    }

    /// Appends one line.
    pub fn push(&mut self, message: &str)
        ensures
            final(self).messages@.len() == old(self).messages@.len() + 1,
            final(self).messages@.drop_last() == old(self).messages@,
            final(self).messages@.last()@ == message@,
            extends(*old(self), *final(self)),
    {
        self.messages.push(String::from_str(message));
    }

    /// Appends one owned line.
    pub fn push_owned(&mut self, message: String)
        ensures
            final(self).messages@ == old(self).messages@.push(message),
            extends(*old(self), *final(self)),
    {
        self.messages.push(message);
    }

    /// The lines, for code that appends to them directly.
    pub fn as_mut_vec(&mut self) -> (r: &mut Vec<String>)
        ensures
            *r == old(self).messages,
            final(self).messages == *final(r),
    {
        &mut self.messages
    }
}

} // verus!
