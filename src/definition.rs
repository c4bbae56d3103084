use vstd::prelude::*;

verus! {

/// The shape of one variant of an error enum.
pub struct VariantShape {
    /// The variant's name.
    pub name: String,
    /// The names of its fields when they are named; `None` for a tuple or unit variant.
    pub named_fields: Option<Vec<String>>,
}

/// The shape of an error type that asks to have its chain rendered.
pub enum TypeShape {
    /// A struct with named fields, given by their names.
    NamedStruct(Vec<String>),
    /// An enum, given by its variants.
    Enum(Vec<VariantShape>),
    /// Any other kind of type: a tuple or unit struct, a union.
    Other,
}

/// Why a type cannot have its chain rendered.
pub enum DefinitionError {
    /// The type is neither a struct with named fields nor an enum.
    NotSupported,
    /// The struct has no `location` field.
    MissingLocation,
    /// The named variant has no `location` field.
    VariantMissingLocation(String),
}

/// A variant of an accepted enum, and whether it carries a location.
pub struct EnumVariant {
    /// The variant's name.
    pub ident: String,
    /// Whether its rendering shows its own location rather than a placeholder.
    pub has_location: bool,
}

/// What is rendered for an accepted type.
pub enum DebugPlan {
    /// A struct: its own location, then its cause.
    Struct,
    /// An enum: for each variant, its location or a placeholder.
    Enum(Vec<EnumVariant>),
}

/// The name of the field that holds a node's location.
pub open spec fn location_field() -> Seq<char> {
    seq!['l', 'o', 'c', 'a', 't', 'i', 'o', 'n']
}

/// Whether one of `fields` is named `name`.
pub open spec fn has_name(fields: Seq<String>, name: Seq<char>) -> bool {
    exists|i: int| 0 <= i < fields.len() && (#[trigger] fields[i])@ == name
}

/// Whether a variant has named fields, one of them `location`.
pub open spec fn variant_located(v: VariantShape) -> bool {
    match v.named_fields {
        Some(f) => has_name(f@, location_field()),
        None => false,
    }
}

/// What checking a struct with these fields gives: acceptance when one of
/// them is `location`, and `MissingLocation` otherwise.
pub open spec fn struct_outcome(fields: Seq<String>, r: Result<DebugPlan, DefinitionError>) -> bool {
    if has_name(fields, location_field()) {
        r matches Ok(DebugPlan::Struct)
    } else {
        r matches Err(DefinitionError::MissingLocation)
    }
}

/// What checking an enum with these variants gives: when every variant is
/// located, one accepted entry per variant, in order, under its name; else the
/// name of the first variant that is not.
pub open spec fn enum_outcome(variants: Seq<VariantShape>, r: Result<DebugPlan, DefinitionError>) -> bool {
    if forall|i: int| 0 <= i < variants.len() ==> variant_located(#[trigger] variants[i]) {
        match r {
            Ok(DebugPlan::Enum(plan)) => plan@.len() == variants.len() && forall|i: int|
                0 <= i < plan@.len() ==> (#[trigger] plan@[i]).ident@ == variants[i].name@
                    && plan@[i].has_location,
            _ => false,
        }
    } else {
        match r {
            Err(DefinitionError::VariantMissingLocation(name)) => exists|k: int|
                0 <= k < variants.len() && !variant_located(#[trigger] variants[k]) && name@
                    == variants[k].name@ && forall|j: int|
                    0 <= j < k ==> variant_located(#[trigger] variants[j]),
            _ => false,
        }
    }
}

impl DefinitionError {
    /// The message that reports this error.
    pub open spec fn spec_message(&self) -> Seq<char> {
        match self {
            DefinitionError::NotSupported => seq![
                'n', 'o', 't', ' ', 's', 'u', 'p', 'p', 'o', 'r', 't', 'e', 'd'
            ],
            _ => seq![
                'l', 'o', 'c', 'a', 't', 'i', 'o', 'n', ' ', 'f', 'i', 'e', 'l', 'd', ' ',
                'm', 'u', 's', 't', ' ', 'b', 'e', ' ', 'e', 'x', 'i', 's', 't'
            ],
        }
    }

    /// The message that reports this error.
    pub fn message(&self) -> (r: &'static str)
        ensures
            r@ == self.spec_message(),
    {
        match self {
            DefinitionError::NotSupported => {
                proof {
                    reveal_strlit("not supported");
                }
                "not supported"
            },
            _ => {
                proof {
                    reveal_strlit("location field must be exist");
                }
                "location field must be exist"
            },
        }
    }
}

/// Whether one of `fields` is named `ident`.
pub fn has_ident(fields: &Vec<String>, ident: &str) -> (r: bool)
    ensures
        r == has_name(fields@, ident@),
{
    let wanted = ident.to_owned();
    let mut i: usize = 0;
    while i < fields.len()
        invariant
            i <= fields@.len(),
            wanted@ == ident@,
            forall|j: int| 0 <= j < i ==> (#[trigger] fields@[j])@ != ident@,
        decreases fields@.len() - i,
    {
        if fields[i] == wanted {
            return true;
        }
        i = i + 1;
    }
    false
}

fn location_name() -> (r: &'static str)
    ensures
        r@ == location_field(),
{
    proof {
        reveal_strlit("location");
    }
    "location"
}

/// Accepts a struct with named fields when one of them is `location`.
pub fn struct_derive_builder(fields: &Vec<String>) -> (r: Result<DebugPlan, DefinitionError>)
    ensures
        struct_outcome(fields@, r),
{
    if !has_ident(fields, location_name()) {
        return Err(DefinitionError::MissingLocation);
    }
    Ok(DebugPlan::Struct)
}

/// Accepts an enum when each of its variants has named fields, one of them
/// `location`; otherwise reports the first variant that does not.
pub fn enum_derive_builder(variants: &Vec<VariantShape>) -> (r: Result<DebugPlan, DefinitionError>)
    ensures
        enum_outcome(variants@, r),
{
    let mut plan: Vec<EnumVariant> = Vec::new();
    let mut i: usize = 0;
    while i < variants.len()
        invariant
            i <= variants@.len(),
            plan@.len() == i,
            forall|j: int| 0 <= j < i ==> variant_located(#[trigger] variants@[j]),
            forall|j: int|
                0 <= j < i ==> (#[trigger] plan@[j]).ident@ == variants@[j].name@
                    && plan@[j].has_location,
        decreases variants@.len() - i,
    {
        let v = &variants[i];
        let located = match &v.named_fields {
            Some(named) => has_ident(named, location_name()),
            None => false,
        };
        if !located {
            return Err(DefinitionError::VariantMissingLocation(v.name.clone()));
        }
        plan.push(EnumVariant { ident: v.name.clone(), has_location: true });
        i = i + 1;
    }
    Ok(DebugPlan::Enum(plan))
}

/// Accepts a struct with named fields, or an enum, whose chain can be rendered.
pub fn derive_builder(shape: &TypeShape) -> (r: Result<DebugPlan, DefinitionError>)
    ensures
        match shape {
            TypeShape::NamedStruct(fields) => struct_outcome(fields@, r),
            TypeShape::Enum(variants) => enum_outcome(variants@, r),
            TypeShape::Other => r matches Err(DefinitionError::NotSupported),
        },
{
    match shape {
        TypeShape::NamedStruct(fields) => struct_derive_builder(fields),
        TypeShape::Enum(variants) => enum_derive_builder(variants),
        TypeShape::Other => Err(DefinitionError::NotSupported),
    }
}

} // verus!
