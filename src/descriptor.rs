//! Structural descriptors of registered types, and the registry that maps
//! type paths to them.
use vstd::prelude::*;

verus! {

/// A named field of a struct or of a struct variant.
#[derive(Debug, Clone)]
pub struct NamedField {
    pub name: String,
    pub type_path: String,
}

/// The shape of one enum variant.
#[derive(Debug, Clone)]
pub enum VariantKind {
    Unit,
    Tuple(Vec<String>),
    Struct(Vec<NamedField>),
}

/// One enum variant, as declared.
#[derive(Debug, Clone)]
pub struct Variant {
    pub name: String,
    pub kind: VariantKind,
}

/// The structural shape of a type as reflection exposes it.
#[derive(Debug, Clone)]
pub enum TypeDescriptor {
    Struct { fields: Vec<NamedField> },
    TupleStruct { fields: Vec<String> },
    Enum { variants: Vec<Variant> },
    Tuple { elements: Vec<String> },
    List { element: String },
    Array { element: String, length: usize },
    MapLike { key: String, value: String },
    SetLike { element: String },
    Opaque { type_path: String },
}

/// The category of a descriptor, without its contents.
#[derive(Debug, Clone, Copy, PartialEq, Eq)]
pub enum TypeCategory {
    Struct,
    TupleStruct,
    Tuple,
    Array,
    List,
    MapLike,
    SetLike,
    Enum,
    Opaque,
}

pub open spec fn category_of(d: TypeDescriptor) -> TypeCategory {
    match d {
        TypeDescriptor::Struct { .. } => TypeCategory::Struct,
        TypeDescriptor::TupleStruct { .. } => TypeCategory::TupleStruct,
        TypeDescriptor::Enum { .. } => TypeCategory::Enum,
        TypeDescriptor::Tuple { .. } => TypeCategory::Tuple,
        TypeDescriptor::List { .. } => TypeCategory::List,
        TypeDescriptor::Array { .. } => TypeCategory::Array,
        TypeDescriptor::MapLike { .. } => TypeCategory::MapLike,
        TypeDescriptor::SetLike { .. } => TypeCategory::SetLike,
        TypeDescriptor::Opaque { .. } => TypeCategory::Opaque,
    }
}

/// Only structs, tuple structs and tuples have addressable fields.
pub open spec fn is_mutable_category(c: TypeCategory) -> bool {
    c == TypeCategory::Struct || c == TypeCategory::TupleStruct || c == TypeCategory::Tuple
}

/// The category of a descriptor.
pub fn analyze_type_info(d: &TypeDescriptor) -> (r: TypeCategory)
    ensures
        r == category_of(*d),
{
    match d {
        TypeDescriptor::Struct { .. } => TypeCategory::Struct,
        TypeDescriptor::TupleStruct { .. } => TypeCategory::TupleStruct,
        TypeDescriptor::Enum { .. } => TypeCategory::Enum,
        TypeDescriptor::Tuple { .. } => TypeCategory::Tuple,
        TypeDescriptor::List { .. } => TypeCategory::List,
        TypeDescriptor::Array { .. } => TypeCategory::Array,
        TypeDescriptor::MapLike { .. } => TypeCategory::MapLike,
        TypeDescriptor::SetLike { .. } => TypeCategory::SetLike,
        TypeDescriptor::Opaque { .. } => TypeCategory::Opaque,
    }
}

/// Whether the descriptor's category supports mutation paths.
pub fn is_mutable_type(d: &TypeDescriptor) -> (r: bool)
    ensures
        r == is_mutable_category(category_of(*d)),
{
    let c = analyze_type_info(d);
    match c {
        TypeCategory::Struct | TypeCategory::TupleStruct | TypeCategory::Tuple => true,
        _ => false,
    }
}

/// The descriptor registered last under `name`, if any.
pub open spec fn lookup(entries: Seq<(String, TypeDescriptor)>, name: Seq<char>) -> Option<
    TypeDescriptor,
>
    decreases entries.len(),
{
    if entries.len() == 0 {
        None
    } else if entries.last().0@ == name {
        Some(entries.last().1)
    } else {
        lookup(entries.drop_last(), name)
    }
}

/// How many entries have a name outside `seen`: the budget of descents that
/// a walk through the registry still has.
pub open spec fn unvisited(entries: Seq<(String, TypeDescriptor)>, seen: Set<Seq<char>>) -> nat
    decreases entries.len(),
{
    if entries.len() == 0 {
        0
    } else {
        unvisited(entries.drop_last(), seen) + if seen.contains(entries.last().0@) {
            0nat
        } else {
            1nat
        }
    }
}

/// Marking a name as seen never raises the budget, and marking a registered
/// name that was not yet seen lowers it.
pub proof fn lemma_unvisited_insert(
    entries: Seq<(String, TypeDescriptor)>,
    seen: Set<Seq<char>>,
    name: Seq<char>,
)
    ensures
        unvisited(entries, seen.insert(name)) <= unvisited(entries, seen),
        lookup(entries, name) is Some && !seen.contains(name) ==> unvisited(
            entries,
            seen.insert(name),
        ) < unvisited(entries, seen),
    decreases entries.len(),
{
    if entries.len() > 0 {
        lemma_unvisited_insert(entries.drop_last(), seen, name);
    }
}

/// A registry of type descriptors keyed by type path. A later registration
/// of a path shadows an earlier one.
pub struct TypeRegistry {
    pub entries: Vec<(String, TypeDescriptor)>,
}

impl TypeRegistry {
    /// An empty registry.
    pub fn new() -> (r: TypeRegistry)
        ensures
            r.entries@.len() == 0,
    {
        TypeRegistry { entries: Vec::new() }
    }

    /// Registers `descriptor` under `type_path`.
    pub fn register(&mut self, type_path: String, descriptor: TypeDescriptor)
        ensures
            lookup(final(self).entries@, type_path@) == Some(descriptor),
            forall|n: Seq<char>|
                n != type_path@ ==> lookup(final(self).entries@, n) == lookup(
                    old(self).entries@,
                    n,
                ),
    {
        let ghost name = type_path@;
        self.entries.push((type_path, descriptor));
        assert(self.entries@.drop_last() == old(self).entries@);
    }

    /// The descriptor registered under `type_path`: exact, case-sensitive.
    pub fn resolve(&self, type_path: &str) -> (r: Option<&TypeDescriptor>)
        ensures
            match r {
                Some(d) => lookup(self.entries@, type_path@) == Some(*d),
                None => lookup(self.entries@, type_path@) is None,
            },
    {
        let key = String::from_str(type_path);
        let n = self.entries.len();
        let mut i: usize = n;
        assert(self.entries@.subrange(0, n as int) =~= self.entries@);
        while i > 0
            invariant
                i <= n,
                n == self.entries@.len(),
                key@ == type_path@,
                lookup(self.entries@, type_path@) == lookup(
                    self.entries@.subrange(0, i as int),
                    type_path@,
                ),
            decreases i,
        {
            let ghost s = self.entries@.subrange(0, i as int);
            assert(s.drop_last() == self.entries@.subrange(0, i - 1));
            if self.entries[i - 1].0 == key {
                return Some(&self.entries[i - 1].1);
            }
            i = i - 1;
        }
        None
    }
}

} // verus!
