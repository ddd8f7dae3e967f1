//! The JSON answer to a discovery request.
use vstd::prelude::*;
use crate::discovery::{format_model, FormatModel, MultiDiscoveryResult};
use crate::error::{error_object, DebugContext, DiscoveryError};
use crate::format::{FieldInfo, FormatInfo};
use crate::json::{push_member, push_value, view_members, view_values, Json, JsonValue};
use crate::mutation::PathEntry;

verus! {

/// The JSON of one mutation path.
pub open spec fn field_json(e: PathEntry) -> Json {
    Json::Object(
        seq![
            ("path"@, Json::Str(e.path)),
            ("value_type"@, Json::Str(e.value_type)),
            ("example"@, e.example),
            ("description"@, Json::Str(e.description)),
        ],
    )
}

/// The JSON of a discovered format: type name, spawn format and mutation
/// info, whose fields are keyed by path.
pub open spec fn format_json(m: FormatModel) -> Json {
    Json::Object(
        seq![
            ("type_name"@, Json::Str(m.type_path)),
            (
                "spawn_format"@,
                Json::Object(
                    seq![("example"@, m.example), ("description"@, Json::Str(m.spawn_description))],
                ),
            ),
            (
                "mutation_info"@,
                Json::Object(
                    seq![
                        (
                            "fields"@,
                            Json::Object(m.paths.map_values(|e: PathEntry| (e.path, field_json(e)))),
                        ),
                        ("description"@, Json::Str(m.mutation_description)),
                    ],
                ),
            ),
        ],
    )
}

/// Text values as a JSON array.
pub open spec fn text_array(s: Seq<String>) -> Json {
    Json::Array(s.map_values(|t: String| Json::Str(t@)))
}

/// The answer to a discovery request, all but the success rate of its
/// summary: formats by name, the requested names, the count found, errors
/// and their count where there are any, the trace where one is given and
/// not empty, and the counts of the summary.
pub open spec fn response_json(
    formats: Seq<(String, FormatInfo)>,
    errors: Seq<(String, DiscoveryError)>,
    requested: Seq<String>,
    trace: Option<Seq<String>>,
) -> Json {
    Json::Object(
        seq![
            ("success"@, Json::Bool(true)),
            (
                "formats"@,
                Json::Object(
                    formats.map_values(
                        |p: (String, FormatInfo)| (p.0@, format_json(format_model(p.1))),
                    ),
                ),
            ),
            ("requested_types"@, text_array(requested)),
            ("discovered_count"@, Json::Int(formats.len() as int)),
        ] + if errors.len() > 0 {
            seq![
                (
                    "errors"@,
                    Json::Object(
                        errors.map_values(|p: (String, DiscoveryError)| (p.0@, error_object(p.1@))),
                    ),
                ),
                ("error_count"@, Json::Int(errors.len() as int)),
            ]
        } else {
            Seq::empty()
        } + match trace {
            Some(t) => if t.len() > 0 {
                seq![("debug_info"@, text_array(t))]
            } else {
                Seq::empty()
            },
            None => Seq::empty(),
        } + seq![
            (
                "summary"@,
                Json::Object(
                    seq![
                        ("total_requested"@, Json::Int(requested.len() as int)),
                        ("successful_discoveries"@, Json::Int(formats.len() as int)),
                        ("failed_discoveries"@, Json::Int(errors.len() as int)),
                    ],
                ),
            ),
        ],
    )
}

fn text_array_value(s: &Vec<String>) -> (r: JsonValue)
    ensures
        r@ == text_array(s@),
{
    let mut out: Vec<JsonValue> = Vec::new();
    let mut i: usize = 0;
    assert(view_values(out@) =~= Seq::empty());
    while i < s.len()
        invariant
            i <= s@.len(),
            view_values(out@) =~= s@.subrange(0, i as int).map_values(|t: String| Json::Str(t@)),
        decreases s@.len() - i,
    {
        push_value(&mut out, JsonValue::Str(s[i].clone()));
        assert(s@.subrange(0, i + 1) =~= s@.subrange(0, i as int).push(s@[i as int]));
        i = i + 1;
    }
    assert(s@.subrange(0, s@.len() as int) =~= s@);
    JsonValue::Array(out)
}

fn field_value(f: FieldInfo) -> (r: JsonValue)
    ensures
        r@ == field_json(f@),
{
    let ghost e = f@;
    let mut m: Vec<(String, JsonValue)> = Vec::new();
    push_member(&mut m, String::from_str("path"), JsonValue::Str(f.path));
    push_member(&mut m, String::from_str("value_type"), JsonValue::Str(f.value_type));
    push_member(&mut m, String::from_str("example"), f.example);
    push_member(&mut m, String::from_str("description"), JsonValue::Str(f.description));
    assert(view_members(m@) =~= field_json(e)->Object_0);
    JsonValue::Object(m)
}

fn format_value(f: FormatInfo) -> (r: JsonValue)
    ensures
        r@ == format_json(format_model(f)),
{
    let ghost model = format_model(f);
    let FormatInfo { type_path, spawn_format, mutation_info } = f;
    let mut fields = mutation_info.fields;
    let ghost all = fields@;
    let mut members: Vec<(String, JsonValue)> = Vec::new();
    assert(view_members(members@) =~= Seq::empty());
    while fields.len() > 0
        invariant
            all.len() >= fields@.len(),
            fields@ == all.subrange(all.len() - fields@.len(), all.len() as int),
            view_members(members@) =~= all.subrange(0, all.len() - fields@.len()).map_values(
                |x: FieldInfo| (x@.path, field_json(x@)),
            ),
        decreases fields@.len(),
    {
        let ghost k = all.len() - fields@.len();
        let f = fields.remove(0);
        assert(f == all[k]);
        let key = f.path.clone();
        push_member(&mut members, key, field_value(f));
        assert(all.subrange(0, k + 1) =~= all.subrange(0, k).push(all[k]));
        assert(fields@ =~= all.subrange(k + 1, all.len() as int));
    }
    assert(all.subrange(0, all.len() as int) =~= all);
    assert(model.paths.map_values(|e: PathEntry| (e.path, field_json(e))) =~= all.map_values(
        |x: FieldInfo| (x@.path, field_json(x@)),
    ));
    let mut spawn: Vec<(String, JsonValue)> = Vec::new();
    let ghost spawn_model = seq![
        ("example"@, model.example),
        ("description"@, Json::Str(model.spawn_description)),
    ];
    push_member(&mut spawn, String::from_str("example"), spawn_format.example);
    push_member(&mut spawn, String::from_str("description"), JsonValue::Str(spawn_format.description));
    assert(view_members(spawn@) =~= spawn_model);
    let mut mutation: Vec<(String, JsonValue)> = Vec::new();
    let ghost fields_json = Json::Object(view_members(members@));
    push_member(&mut mutation, String::from_str("fields"), JsonValue::Object(members));
    push_member(
        &mut mutation,
        String::from_str("description"),
        JsonValue::Str(mutation_info.description),
    );
    let ghost mutation_model = view_members(mutation@);
    assert(fields_json == Json::Object(model.paths.map_values(|e: PathEntry| (e.path, field_json(e)))));
    assert(mutation_model =~= seq![
        ("fields"@, Json::Object(model.paths.map_values(|e: PathEntry| (e.path, field_json(e))))),
        ("description"@, Json::Str(model.mutation_description)),
    ]);
    let mut out: Vec<(String, JsonValue)> = Vec::new();
    push_member(&mut out, String::from_str("type_name"), JsonValue::Str(type_path));
    push_member(&mut out, String::from_str("spawn_format"), JsonValue::Object(spawn));
    push_member(&mut out, String::from_str("mutation_info"), JsonValue::Object(mutation));
    assert(view_members(out@) =~= seq![
        ("type_name"@, Json::Str(model.type_path)),
        ("spawn_format"@, Json::Object(spawn_model)),
        ("mutation_info"@, Json::Object(mutation_model)),
    ]);
    assert(view_members(out@) =~= format_json(model)->Object_0);
    JsonValue::Object(out)
}

/// The answer to a discovery request, without the success rate of its
/// summary, which is a ratio of the counts there.
pub fn create_discovery_response(
    result: MultiDiscoveryResult,
    requested_types: &Vec<String>,
    debug: Option<&DebugContext>,
) -> (r: JsonValue)
    ensures
        r@ == response_json(
            result.formats@,
            result.errors@,
            requested_types@,
            match debug {
                Some(d) => Some(d.messages@),
                None => None,
            },
        ),
{
    let ghost all_formats = result.formats@;
    let ghost all_errors = result.errors@;
    let MultiDiscoveryResult { formats, errors } = result;
    let n_formats = formats.len();
    let n_errors = errors.len();
    let mut formats = formats;
    let mut errors = errors;

    let mut format_members: Vec<(String, JsonValue)> = Vec::new();
    assert(view_members(format_members@) =~= Seq::empty());
    while formats.len() > 0
        invariant
            all_formats.len() >= formats@.len(),
            formats@ == all_formats.subrange(all_formats.len() - formats@.len(), all_formats.len() as int),
            view_members(format_members@) =~= all_formats.subrange(
                0,
                all_formats.len() - formats@.len(),
            ).map_values(|p: (String, FormatInfo)| (p.0@, format_json(format_model(p.1)))),
        decreases formats@.len(),
    {
        let ghost k = all_formats.len() - formats@.len();
        let (key, f) = formats.remove(0);
        assert((key, f) == all_formats[k]);
        push_member(&mut format_members, key, format_value(f));
        assert(all_formats.subrange(0, k + 1) =~= all_formats.subrange(0, k).push(all_formats[k]));
        assert(formats@ =~= all_formats.subrange(k + 1, all_formats.len() as int));
    }
    assert(all_formats.subrange(0, all_formats.len() as int) =~= all_formats);

    let mut error_members: Vec<(String, JsonValue)> = Vec::new();
    assert(view_members(error_members@) =~= Seq::empty());
    while errors.len() > 0
        invariant
            all_errors.len() >= errors@.len(),
            errors@ == all_errors.subrange(all_errors.len() - errors@.len(), all_errors.len() as int),
            view_members(error_members@) =~= all_errors.subrange(
                0,
                all_errors.len() - errors@.len(),
            ).map_values(|p: (String, DiscoveryError)| (p.0@, error_object(p.1@))),
        decreases errors@.len(),
    {
        let ghost k = all_errors.len() - errors@.len();
        let (key, e) = errors.remove(0);
        assert((key, e) == all_errors[k]);
        push_member(&mut error_members, key, e.to_json_error());
        assert(all_errors.subrange(0, k + 1) =~= all_errors.subrange(0, k).push(all_errors[k]));
        assert(errors@ =~= all_errors.subrange(k + 1, all_errors.len() as int));
    }
    assert(all_errors.subrange(0, all_errors.len() as int) =~= all_errors);

    let mut out: Vec<(String, JsonValue)> = Vec::new();
    push_member(&mut out, String::from_str("success"), JsonValue::Bool(true));
    push_member(&mut out, String::from_str("formats"), JsonValue::Object(format_members));
    push_member(&mut out, String::from_str("requested_types"), text_array_value(requested_types));
    push_member(&mut out, String::from_str("discovered_count"), JsonValue::Int(n_formats as i128));
    let ghost head = view_members(out@);
    let ghost formats_part = Json::Object(
        all_formats.map_values(|p: (String, FormatInfo)| (p.0@, format_json(format_model(p.1)))),
    );
    let ghost errors_part = Json::Object(
        all_errors.map_values(|p: (String, DiscoveryError)| (p.0@, error_object(p.1@))),
    );
    assert(head =~= seq![
        ("success"@, Json::Bool(true)),
        ("formats"@, formats_part),
        ("requested_types"@, text_array(requested_types@)),
        ("discovered_count"@, Json::Int(all_formats.len() as int)),
    ]);
    let ghost error_items: Seq<(Seq<char>, Json)> = if all_errors.len() > 0 {
        seq![("errors"@, errors_part), ("error_count"@, Json::Int(all_errors.len() as int))]
    } else {
        Seq::empty()
    };
    if n_errors > 0 {
        push_member(&mut out, String::from_str("errors"), JsonValue::Object(error_members));
        push_member(&mut out, String::from_str("error_count"), JsonValue::Int(n_errors as i128));
    }
    let ghost with_errors = view_members(out@);
    assert(with_errors =~= head + error_items);
    let ghost trace_items: Seq<(Seq<char>, Json)> = match debug {
        Some(d) => if d.messages@.len() > 0 {
            seq![("debug_info"@, text_array(d.messages@))]
        } else {
            Seq::empty()
        },
        None => Seq::empty(),
    };
    match debug {
        Some(d) => {
            if d.messages.len() > 0 {
                push_member(&mut out, String::from_str("debug_info"), text_array_value(&d.messages));
            }
        },
        None => {},
    }
    let ghost with_trace = view_members(out@);
    assert(with_trace =~= head + error_items + trace_items);
    let mut summary: Vec<(String, JsonValue)> = Vec::new();
    push_member(&mut summary, String::from_str("total_requested"), JsonValue::Int(requested_types.len() as i128));
    push_member(&mut summary, String::from_str("successful_discoveries"), JsonValue::Int(n_formats as i128));
    push_member(&mut summary, String::from_str("failed_discoveries"), JsonValue::Int(n_errors as i128));
    let ghost summary_model = view_members(summary@);
    push_member(&mut out, String::from_str("summary"), JsonValue::Object(summary));
    let ghost spec = response_json(
        all_formats,
        all_errors,
        requested_types@,
        match debug {
            Some(d) => Some(d.messages@),
            None => None,
        },
    );
    assert(summary_model =~= seq![
        ("total_requested"@, Json::Int(requested_types@.len() as int)),
        ("successful_discoveries"@, Json::Int(all_formats.len() as int)),
        ("failed_discoveries"@, Json::Int(all_errors.len() as int)),
    ]);
    assert(view_members(out@) =~= head + error_items + trace_items + seq![
        ("summary"@, Json::Object(summary_model)),
    ]);
    assert(view_members(out@) =~= spec->Object_0);
    JsonValue::Object(out)
}

} // verus!
