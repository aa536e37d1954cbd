//! The schema model consumed by the compiler: field-type definitions, their
//! named variants, and the fixed list of scalar base types.

use vstd::prelude::*;
use crate::text::str_eq;

verus! {

/// One named case of a field type: an external display name, a generated
/// case identifier, the 64-bit integer code the case represents, and
/// optional documentation.
#[derive(Debug)]
pub struct FieldTypeVariant {
    pub name: String,
    pub ident: String,
    pub value: i64,
    pub comment: Option<String>,
}

/// The mathematical content of a `FieldTypeVariant`.
#[verifier::ext_equal]
pub struct VariantV {
    pub name: Seq<char>,
    pub ident: Seq<char>,
    pub value: i64,
    pub comment: Option<Seq<char>>,
}

/// The view of an optional documentation string.
pub open spec fn spec_opt_text(c: Option<String>) -> Option<Seq<char>> {
    match c {
        Some(s) => Some(s@),
        None => None,
    }
}

impl View for FieldTypeVariant {
    type V = VariantV;

    open spec fn view(&self) -> VariantV {
        VariantV {
            name: self.name@,
            ident: self.ident@,
            value: self.value,
            comment: spec_opt_text(self.comment),
        }
    }
}

/// The views of a sequence of variants, in order.
pub open spec fn variants_view(vs: Seq<FieldTypeVariant>) -> Seq<VariantV> {
    vs.map_values(|v: FieldTypeVariant| v@)
}

/// One schema entry: a lowercase name, the name of the underlying scalar
/// base type, optional documentation, the identifier the generated fallback
/// case is to carry, and the ordered variant list (insertion order decides
/// generated case order).
#[derive(Debug)]
pub struct FieldTypeDefinition {
    pub name: String,
    pub base_type: String,
    pub comment: Option<String>,
    pub other_value_name: String,
    pub variants: Vec<FieldTypeVariant>,
}

/// The mathematical content of a `FieldTypeDefinition`.
#[verifier::ext_equal]
pub struct DefV {
    pub name: Seq<char>,
    pub base_type: Seq<char>,
    pub comment: Option<Seq<char>>,
    pub other_value_name: Seq<char>,
    pub variants: Seq<VariantV>,
}

impl View for FieldTypeDefinition {
    type V = DefV;

    open spec fn view(&self) -> DefV {
        DefV {
            name: self.name@,
            base_type: self.base_type@,
            comment: spec_opt_text(self.comment),
            other_value_name: self.other_value_name@,
            variants: variants_view(self.variants@),
        }
    }
}

/// The views of a catalog of definitions, in order.
pub open spec fn defs_view(ds: Seq<FieldTypeDefinition>) -> Seq<DefV> {
    ds.map_values(|d: FieldTypeDefinition| d@)
}

/// The fixed list of scalar base types a field type may be declared over.
#[derive(Clone, Copy, Debug, PartialEq, Eq, Structural)]
pub enum BaseType {
    Bool,
    SInt8,
    UInt8,
    SInt16,
    UInt16,
    SInt32,
    UInt32,
    Utf8Str,
    Float32,
    Float64,
    UInt8z,
    UInt16z,
    UInt32z,
    Byte,
    SInt64,
    UInt64,
    UInt64z,
}

/// Which base-type names parse, and to what.
pub open spec fn spec_parse_base_type(s: Seq<char>) -> Option<BaseType> {
    if s == "bool"@ {
        Some(BaseType::Bool)
    } else if s == "sint8"@ {
        Some(BaseType::SInt8)
    } else if s == "uint8"@ {
        Some(BaseType::UInt8)
    } else if s == "sint16"@ {
        Some(BaseType::SInt16)
    } else if s == "uint16"@ {
        Some(BaseType::UInt16)
    } else if s == "sint32"@ {
        Some(BaseType::SInt32)
    } else if s == "uint32"@ {
        Some(BaseType::UInt32)
    } else if s == "string"@ {
        Some(BaseType::Utf8Str)
    } else if s == "float32"@ {
        Some(BaseType::Float32)
    } else if s == "float64"@ {
        Some(BaseType::Float64)
    } else if s == "uint8z"@ {
        Some(BaseType::UInt8z)
    } else if s == "uint16z"@ {
        Some(BaseType::UInt16z)
    } else if s == "uint32z"@ {
        Some(BaseType::UInt32z)
    } else if s == "byte"@ {
        Some(BaseType::Byte)
    } else if s == "sint64"@ {
        Some(BaseType::SInt64)
    } else if s == "uint64"@ {
        Some(BaseType::UInt64)
    } else if s == "uint64z"@ {
        Some(BaseType::UInt64z)
    } else {
        None
    }
}

/// Parses a base-type name against the fixed list; `None` for any other
/// string.
pub fn parse_base_type(s: &str) -> (r: Option<BaseType>)
    ensures
        r == spec_parse_base_type(s@),
{
    if str_eq(s, "bool") {
        Some(BaseType::Bool)
    } else if str_eq(s, "sint8") {
        Some(BaseType::SInt8)
    } else if str_eq(s, "uint8") {
        Some(BaseType::UInt8)
    } else if str_eq(s, "sint16") {
        Some(BaseType::SInt16)
    } else if str_eq(s, "uint16") {
        Some(BaseType::UInt16)
    } else if str_eq(s, "sint32") {
        Some(BaseType::SInt32)
    } else if str_eq(s, "uint32") {
        Some(BaseType::UInt32)
    } else if str_eq(s, "string") {
        Some(BaseType::Utf8Str)
    } else if str_eq(s, "float32") {
        Some(BaseType::Float32)
    } else if str_eq(s, "float64") {
        Some(BaseType::Float64)
    } else if str_eq(s, "uint8z") {
        Some(BaseType::UInt8z)
    } else if str_eq(s, "uint16z") {
        Some(BaseType::UInt16z)
    } else if str_eq(s, "uint32z") {
        Some(BaseType::UInt32z)
    } else if str_eq(s, "byte") {
        Some(BaseType::Byte)
    } else if str_eq(s, "sint64") {
        Some(BaseType::SInt64)
    } else if str_eq(s, "uint64") {
        Some(BaseType::UInt64)
    } else if str_eq(s, "uint64z") {
        Some(BaseType::UInt64z)
    } else {
        None
    }
}

/// The registry tag spelling of a base type.
pub open spec fn spec_base_tag_name(bt: BaseType) -> Seq<char> {
    match bt {
        BaseType::Bool => "Bool"@,
        BaseType::SInt8 => "SInt8"@,
        BaseType::UInt8 => "UInt8"@,
        BaseType::SInt16 => "SInt16"@,
        BaseType::UInt16 => "UInt16"@,
        BaseType::SInt32 => "SInt32"@,
        BaseType::UInt32 => "UInt32"@,
        BaseType::Utf8Str => "String"@,
        BaseType::Float32 => "Float32"@,
        BaseType::Float64 => "Float64"@,
        BaseType::UInt8z => "UInt8z"@,
        BaseType::UInt16z => "UInt16z"@,
        BaseType::UInt32z => "UInt32z"@,
        BaseType::Byte => "Byte"@,
        BaseType::SInt64 => "SInt64"@,
        BaseType::UInt64 => "UInt64"@,
        BaseType::UInt64z => "UInt64z"@,
    }
}

/// The registry tag spelling of a base type, as text.
pub fn base_tag_name(bt: BaseType) -> (r: &'static str)
    ensures
        r@ == spec_base_tag_name(bt),
{
    match bt {
        BaseType::Bool => "Bool",
        BaseType::SInt8 => "SInt8",
        BaseType::UInt8 => "UInt8",
        BaseType::SInt16 => "SInt16",
        BaseType::UInt16 => "UInt16",
        BaseType::SInt32 => "SInt32",
        BaseType::UInt32 => "UInt32",
        BaseType::Utf8Str => "String",
        BaseType::Float32 => "Float32",
        BaseType::Float64 => "Float64",
        BaseType::UInt8z => "UInt8z",
        BaseType::UInt16z => "UInt16z",
        BaseType::UInt32z => "UInt32z",
        BaseType::Byte => "Byte",
        BaseType::SInt64 => "SInt64",
        BaseType::UInt64 => "UInt64",
        BaseType::UInt64z => "UInt64z",
    }
}

/// The scalar payload type the generated fallback case carries, as the
/// target language spells it.
pub open spec fn spec_base_payload_name(bt: BaseType) -> Seq<char> {
    match bt {
        BaseType::Bool => "bool"@,
        BaseType::SInt8 => "i8"@,
        BaseType::UInt8 => "u8"@,
        BaseType::SInt16 => "i16"@,
        BaseType::UInt16 => "u16"@,
        BaseType::SInt32 => "i32"@,
        BaseType::UInt32 => "u32"@,
        BaseType::Utf8Str => "String"@,
        BaseType::Float32 => "f32"@,
        BaseType::Float64 => "f64"@,
        BaseType::UInt8z => "u8"@,
        BaseType::UInt16z => "u16"@,
        BaseType::UInt32z => "u32"@,
        BaseType::Byte => "u8"@,
        BaseType::SInt64 => "i64"@,
        BaseType::UInt64 => "u64"@,
        BaseType::UInt64z => "u64"@,
    }
}

/// The scalar payload type of the fallback case, as text.
pub fn base_payload_name(bt: BaseType) -> (r: &'static str)
    ensures
        r@ == spec_base_payload_name(bt),
{
    match bt {
        BaseType::Bool => "bool",
        BaseType::SInt8 => "i8",
        BaseType::UInt8 => "u8",
        BaseType::SInt16 => "i16",
        BaseType::UInt16 => "u16",
        BaseType::SInt32 => "i32",
        BaseType::UInt32 => "u32",
        BaseType::Utf8Str => "String",
        BaseType::Float32 => "f32",
        BaseType::Float64 => "f64",
        BaseType::UInt8z => "u8",
        BaseType::UInt16z => "u16",
        BaseType::UInt32z => "u32",
        BaseType::Byte => "u8",
        BaseType::SInt64 => "i64",
        BaseType::UInt64 => "u64",
        BaseType::UInt64z => "u64",
    }
}

/// Copies an optional documentation string.
pub fn clone_opt_string(c: &Option<String>) -> (r: Option<String>)
    ensures
        spec_opt_text(r) == spec_opt_text(*c),
{
    match c {
        Some(s) => Some(s.clone()),
        None => None,
    }
}

/// Copies one variant; the copy's view equals the original's.
pub fn clone_variant(v: &FieldTypeVariant) -> (r: FieldTypeVariant)
    ensures
        r@ == v@,
{
    let r = FieldTypeVariant {
        name: v.name.clone(),
        ident: v.ident.clone(),
        value: v.value,
        comment: clone_opt_string(&v.comment),
    };
    proof {
        assert(r@ =~= v@);
    }
    r
}

/// Copies a variant list; the copy's views equal the originals', in order.
pub fn clone_variants(vs: &Vec<FieldTypeVariant>) -> (r: Vec<FieldTypeVariant>)
    ensures
        variants_view(r@) == variants_view(vs@),
{
    let mut r: Vec<FieldTypeVariant> = Vec::new();
    let mut i: usize = 0;
    while i < vs.len()
        invariant
            i <= vs@.len(),
            r@.len() == i,
            forall|j: int| 0 <= j < i ==> r@[j]@ == vs@[j]@,
        decreases vs@.len() - i,
    {
        r.push(clone_variant(&vs[i]));
        i = i + 1;
    }
    proof {
        assert(variants_view(r@) =~= variants_view(vs@));
    }
    r
}

} // verus!
