//! Discovery of one type and of a batch of types.
use vstd::prelude::*;
use crate::descriptor::{category_of, is_mutable_category, lookup, TypeRegistry};
use crate::error::{extends, DebugContext, DiscoveryError, Failure, RegistryError};
use crate::format::{FormatInfo, MutationInfo};
use crate::json::Json;
use crate::mutation::{entries_of, generate_mutation_info, mutation_description, mutation_paths, PathEntry};
use crate::spawn::{descriptor_example, generate_spawn_format, name_example, spawn_description};
use crate::text::{join2, join3};

verus! {

/// The model of a discovered format.
pub struct FormatModel {
    pub type_path: Seq<char>,
    pub example: Json,
    pub spawn_description: Seq<char>,
    pub paths: Seq<PathEntry>,
    pub mutation_description: Seq<char>,
}

/// The description of the empty mutation info of a type without fields.
pub open spec fn immutable_description(name: Seq<char>) -> Seq<char> {
    "Type "@ + name + " does not support mutation"@
}

/// What discovery finds for the type at `name`, or why it finds nothing. A
/// type without addressable fields gets no mutation paths; that never fails
/// the type.
pub open spec fn format_outcome(reg: Seq<(String, crate::descriptor::TypeDescriptor)>, name: Seq<char>) -> Result<
    FormatModel,
    Failure,
> {
    match lookup(reg, name) {
        None => Err(Failure::NotFound(name)),
        Some(d) => match descriptor_example(reg, d, name, set![name]) {
            Err(f) => Err(f),
            Ok(j) => Ok(
                FormatModel {
                    type_path: name,
                    example: j,
                    spawn_description: spawn_description(d, name),
                    paths: match mutation_paths(d, name) {
                        Ok(ps) => ps,
                        Err(_) => Seq::empty(),
                    },
                    mutation_description: if is_mutable_category(category_of(d)) {
                        mutation_description(d)
                    } else {
                        immutable_description(name)
                    },
                },
            ),
        },
    }
}

/// The model of a discovered format.
pub open spec fn format_model(f: FormatInfo) -> FormatModel {
    FormatModel {
        type_path: f.type_path@,
        example: f.spawn_format.example@,
        spawn_description: f.spawn_format.description@,
        paths: entries_of(f.mutation_info.fields@),
        mutation_description: f.mutation_info.description@,
    }
}

/// Discovers the format of the type registered under `type_path`: lookup,
/// then the spawn example, then the mutation paths.
pub fn discover_component_format(
    reg: &TypeRegistry,
    type_path: &str,
    debug: &mut DebugContext,
) -> (r: Result<FormatInfo, DiscoveryError>)
    ensures
        match r {
            Ok(f) => format_outcome(reg.entries@, type_path@) == Ok::<FormatModel, Failure>(
                format_model(f),
            ) && f.type_path@ == type_path@,
            Err(e) => format_outcome(reg.entries@, type_path@) == Err::<FormatModel, Failure>(
                e@,
            ),
        },
        r is Ok ==> name_example(reg.entries@, type_path@, Set::empty()) == Ok::<Json, Failure>(
            r->Ok_0.spawn_format.example@,
        ),
        r is Ok && !is_mutable_category(category_of(lookup(reg.entries@, type_path@)->Some_0))
            ==> r->Ok_0.mutation_info.fields@.len() == 0,
        extends(*old(debug), *final(debug)),
{
    debug.push_owned(join2("Discovering format for type: ", type_path));
    let d = match reg.resolve(type_path) {
        Some(d) => d,
        None => {
            DebugContext::push(debug, "Type not found in registry");
            return Err(
                DiscoveryError::Registry(
                    RegistryError::TypeNotFound { type_path: String::from_str(type_path) },
                ),
            );
        },
    };
    assert(set![type_path@] =~= Set::<Seq<char>>::empty().insert(type_path@));
    let spawn_format = match generate_spawn_format(reg, d, type_path, debug) {
        Ok(s) => s,
        Err(e) => {
            return Err(e);
        },
    };
    let mutation_info = match generate_mutation_info(d, type_path, debug) {
        Ok(m) => m,
        Err(_) => {
            DebugContext::push(debug, "Type is not mutable, creating empty mutation info");
            let fields = Vec::new();
            assert(entries_of(fields@) =~= Seq::empty());
            MutationInfo { fields, description: join3("Type ", type_path, " does not support mutation") }
        },
    };
    DebugContext::push(debug, "Successfully generated format info");
    Ok(FormatInfo { type_path: String::from_str(type_path), spawn_format, mutation_info })
}

/// Lists, arrays, maps and enums have no mutation paths: where such a type
/// is discovered its paths are empty, and whether discovery fails depends on
/// its spawn example alone.
pub proof fn lemma_collections_and_enums_have_no_paths(
    reg: Seq<(String, crate::descriptor::TypeDescriptor)>,
    name: Seq<char>,
)
    requires
        lookup(reg, name) is Some,
        lookup(reg, name)->Some_0 is List || lookup(reg, name)->Some_0 is Array || lookup(
            reg,
            name,
        )->Some_0 is MapLike || lookup(reg, name)->Some_0 is Enum,
    ensures
        format_outcome(reg, name) is Ok ==> format_outcome(reg, name)->Ok_0.paths.len() == 0,
        format_outcome(reg, name) is Err <==> descriptor_example(
            reg,
            lookup(reg, name)->Some_0,
            name,
            set![name],
        ) is Err,
{
}

/// The outcome of a batch: formats and errors, each keyed by type path.
#[derive(Debug)]
pub struct MultiDiscoveryResult {
    pub formats: Vec<(String, FormatInfo)>,
    pub errors: Vec<(String, DiscoveryError)>,
}

/// The keys of a batch's formats.
pub open spec fn format_keys(s: Seq<(String, FormatInfo)>) -> Seq<Seq<char>> {
    s.map_values(|p: (String, FormatInfo)| p.0@)
}

/// The keys of a batch's errors.
pub open spec fn error_keys(s: Seq<(String, DiscoveryError)>) -> Seq<Seq<char>> {
    s.map_values(|p: (String, DiscoveryError)| p.0@)
}

/// A batch result answers exactly the requested names: each once, as a
/// format where discovery succeeds and as an error where it fails.
pub open spec fn answers(
    reg: Seq<(String, crate::descriptor::TypeDescriptor)>,
    requested: Seq<Seq<char>>,
    formats: Seq<(String, FormatInfo)>,
    errors: Seq<(String, DiscoveryError)>,
) -> bool {
    &&& forall|i: int|
        0 <= i < formats.len() ==> format_outcome(reg, #[trigger] formats[i].0@) == Ok::<
            FormatModel,
            Failure,
        >(format_model(formats[i].1))
    &&& forall|i: int|
        0 <= i < errors.len() ==> format_outcome(reg, #[trigger] errors[i].0@) == Err::<
            FormatModel,
            Failure,
        >(errors[i].1@)
    &&& format_keys(formats).no_duplicates()
    &&& error_keys(errors).no_duplicates()
    &&& forall|k: Seq<char>|
        #[trigger] requested.contains(k) <==> (format_keys(formats).contains(k) || error_keys(
            errors,
        ).contains(k))
}

/// No name is answered both as a format and as an error.
pub proof fn lemma_batch_disjoint(
    reg: Seq<(String, crate::descriptor::TypeDescriptor)>,
    requested: Seq<Seq<char>>,
    formats: Seq<(String, FormatInfo)>,
    errors: Seq<(String, DiscoveryError)>,
    k: Seq<char>,
)
    requires
        answers(reg, requested, formats, errors),
    ensures
        !(format_keys(formats).contains(k) && error_keys(errors).contains(k)),
{
    if format_keys(formats).contains(k) && error_keys(errors).contains(k) {
        let i = choose|i: int| 0 <= i < format_keys(formats).len() && format_keys(formats)[i] == k;
        let j = choose|j: int| 0 <= j < error_keys(errors).len() && error_keys(errors)[j] == k;
        assert(formats[i].0@ == k);
        assert(errors[j].0@ == k);
    }
}

proof fn lemma_push_contains(s: Seq<Seq<char>>, x: Seq<char>)
    ensures
        forall|k: Seq<char>| #[trigger] s.push(x).contains(k) <==> (s.contains(k) || k == x),
{
    assert forall|k: Seq<char>| #[trigger] s.push(x).contains(k) <==> (s.contains(k) || k == x) by {
        if s.push(x).contains(k) {
            let j = choose|j: int| 0 <= j < s.push(x).len() && s.push(x)[j] == k;
            if j < s.len() {
                assert(s[j] == k);
            }
        }
        if s.contains(k) {
            let j = choose|j: int| 0 <= j < s.len() && s[j] == k;
            assert(s.push(x)[j] == k);
        }
        if k == x {
            assert(s.push(x)[s.len() as int] == k);
        }
    }
}

fn has_key<T>(s: &Vec<(String, T)>, key: &String) -> (r: bool)
    ensures
        r == s@.map_values(|p: (String, T)| p.0@).contains(key@),
{
    let ghost keys = s@.map_values(|p: (String, T)| p.0@);
    let mut i: usize = 0;
    while i < s.len()
        invariant
            i <= s@.len(),
            keys == s@.map_values(|p: (String, T)| p.0@),
            forall|j: int| 0 <= j < i ==> keys[j] != key@,
        decreases s@.len() - i,
    {
        if s[i].0 == *key {
            assert(keys[i as int] == key@);
            return true;
        }
        i = i + 1;
    }
    false
}

/// Discovers each requested type once, with a trace.
pub fn discover_multiple_formats_with_debug(
    reg: &TypeRegistry,
    type_paths: &Vec<String>,
    debug: &mut DebugContext,
) -> (r: MultiDiscoveryResult)
    ensures
        answers(reg.entries@, type_paths@.map_values(|t: String| t@), r.formats@, r.errors@),
        extends(*old(debug), *final(debug)),
{
    let ghost requested = type_paths@.map_values(|t: String| t@);
    let mut formats: Vec<(String, FormatInfo)> = Vec::new();
    let mut errors: Vec<(String, DiscoveryError)> = Vec::new();
    let mut i: usize = 0;
    assert(format_keys(formats@) =~= Seq::empty());
    assert(error_keys(errors@) =~= Seq::empty());
    while i < type_paths.len()
        invariant
            i <= type_paths@.len(),
            requested == type_paths@.map_values(|t: String| t@),
            answers(reg.entries@, requested.subrange(0, i as int), formats@, errors@),
            extends(*old(debug), *debug),
        decreases type_paths@.len() - i,
    {
        let name = &type_paths[i];
        let ghost done = requested.subrange(0, i as int);
        let ghost next = requested.subrange(0, i + 1);
        assert(next =~= done.push(name@));
        assert forall|k: Seq<char>| #[trigger] next.contains(k) <==> (done.contains(k) || k == name@) by {
            if next.contains(k) {
                let j = choose|j: int| 0 <= j < next.len() && next[j] == k;
                if j < i {
                    assert(done[j] == k);
                }
            }
            if done.contains(k) {
                let j = choose|j: int| 0 <= j < done.len() && done[j] == k;
                assert(next[j] == k);
            }
            if k == name@ {
                assert(next[i as int] == k);
            }
        }
        if has_key(&formats, name) || has_key(&errors, name) {
            debug.push_owned(join2("Already discovered: ", name.as_str()));
        } else {
            let ghost fk = format_keys(formats@);
            let ghost ek = error_keys(errors@);
            let ghost prev_formats = formats@;
            let ghost prev_errors = errors@;
            match discover_component_format(reg, name.as_str(), debug) {
                Ok(f) => {
                    formats.push((name.clone(), f));
                    assert(format_keys(formats@) =~= fk.push(name@));
                    proof {
                        lemma_push_contains(fk, name@);
                    }
                    assert forall|j: int| 0 <= j < formats@.len() implies format_outcome(
                        reg.entries@,
                        #[trigger] formats@[j].0@,
                    ) == Ok::<FormatModel, Failure>(format_model(formats@[j].1)) by {
                        if j < formats@.len() - 1 {
                            assert(formats@[j] == prev_formats[j]);
                        }
                    }
                    assert(format_keys(formats@).no_duplicates()) by {
                        assert forall|a: int, b: int|
                            0 <= a < b < format_keys(formats@).len() implies format_keys(formats@)[a]
                            != format_keys(formats@)[b] by {
                            if b == format_keys(formats@).len() - 1 {
                                assert(fk[a] == format_keys(formats@)[a]);
                                assert(fk.contains(fk[a]));
                            } else {
                                assert(fk[a] == format_keys(formats@)[a]);
                                assert(fk[b] == format_keys(formats@)[b]);
                            }
                        }
                    }
                },
                Err(e) => {
                    errors.push((name.clone(), e));
                    assert(error_keys(errors@) =~= ek.push(name@));
                    proof {
                        lemma_push_contains(ek, name@);
                    }
                    assert forall|j: int| 0 <= j < errors@.len() implies format_outcome(
                        reg.entries@,
                        #[trigger] errors@[j].0@,
                    ) == Err::<FormatModel, Failure>(errors@[j].1@) by {
                        if j < errors@.len() - 1 {
                            assert(errors@[j] == prev_errors[j]);
                        }
                    }
                    assert(error_keys(errors@).no_duplicates()) by {
                        assert forall|a: int, b: int|
                            0 <= a < b < error_keys(errors@).len() implies error_keys(errors@)[a]
                            != error_keys(errors@)[b] by {
                            if b == error_keys(errors@).len() - 1 {
                                assert(ek[a] == error_keys(errors@)[a]);
                                assert(ek.contains(ek[a]));
                            } else {
                                assert(ek[a] == error_keys(errors@)[a]);
                                assert(ek[b] == error_keys(errors@)[b]);
                            }
                        }
                    }
                },
            }
        }
        i = i + 1;
    }
    assert(requested.subrange(0, type_paths@.len() as int) =~= requested);
    MultiDiscoveryResult { formats, errors }
}

/// Discovers each requested type once; the trace is dropped.
pub fn discover_multiple_formats(reg: &TypeRegistry, type_paths: &Vec<String>) -> (r:
    MultiDiscoveryResult)
    ensures
        answers(reg.entries@, type_paths@.map_values(|t: String| t@), r.formats@, r.errors@),
{
    let mut debug = DebugContext::new();
    discover_multiple_formats_with_debug(reg, type_paths, &mut debug)
}

/// Counts over a batch: requested names, successes and failures.
#[derive(Debug, Clone, Copy, PartialEq, Eq)]
pub struct DiscoverySummary {
    pub total_requested: usize,
    pub successful_discoveries: usize,
    pub failed_discoveries: usize,
}

impl DiscoverySummary {
    /// The counts of a batch over the names it was asked for.
    pub fn of(result: &MultiDiscoveryResult, type_paths: &Vec<String>) -> (r: DiscoverySummary)
        ensures
            r.total_requested == type_paths@.len(),
            r.successful_discoveries == result.formats@.len(),
            r.failed_discoveries == result.errors@.len(),
    {
        DiscoverySummary {
            total_requested: type_paths.len(),
            successful_discoveries: result.formats.len(),
            failed_discoveries: result.errors.len(),
        }
    }

    /// The success rate as `(numerator, denominator)`: successes over
    /// requested names, and zero when nothing was requested.
    pub fn success_rate(&self) -> (r: (usize, usize))
        ensures
            r.1 > 0,
            self.total_requested == 0 ==> r == (0usize, 1usize),
            self.total_requested > 0 ==> r == (self.successful_discoveries, self.total_requested),
    {
        if self.total_requested == 0 {
            (0, 1)
        } else {
            (self.successful_discoveries, self.total_requested)
        }
    }
}

/// Type paths of components that most applications register.
pub fn get_common_component_types() -> (r: Vec<String>)
    ensures
        r@.map_values(|t: String| t@) == seq![
            "bevy_transform::components::transform::Transform"@,
            "bevy_core::name::Name"@,
            "bevy_render::color::LinearRgba"@,
            "bevy_sprite::sprite::Sprite"@,
            "bevy_render::camera::camera::Camera"@,
        ],
{
    let mut r: Vec<String> = Vec::new();
    r.push(String::from_str("bevy_transform::components::transform::Transform"));
    r.push(String::from_str("bevy_core::name::Name"));
    r.push(String::from_str("bevy_render::color::LinearRgba"));
    r.push(String::from_str("bevy_sprite::sprite::Sprite"));
    r.push(String::from_str("bevy_render::camera::camera::Camera"));
    assert(r@.map_values(|t: String| t@) =~= seq![
        "bevy_transform::components::transform::Transform"@,
        "bevy_core::name::Name"@,
        "bevy_render::color::LinearRgba"@,
        "bevy_sprite::sprite::Sprite"@,
        "bevy_render::camera::camera::Camera"@,
    ]);
    r
}

} // verus!
