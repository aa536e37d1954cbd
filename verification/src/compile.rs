//! The type-definition compiler: turns one schema entry with at least one
//! variant into a closed sum-type descriptor, and gives that descriptor its
//! operation set — total construction from a raw number, exact numeric
//! round-trip, membership lookup, formatting, and the classification-driven
//! serialization policy.

use vstd::prelude::*;
use vstd::string::StringExecFns;
use crate::schema::{
    clone_opt_string, clone_variants, parse_base_type, spec_parse_base_type, BaseType, DefV,
    FieldTypeDefinition, FieldTypeVariant, VariantV,
};
use crate::text::{
    contains_str, i64_to_dec, is_valid_ident, spec_camel, spec_contains_str, spec_dec_i64,
    spec_is_valid_ident, type_ident,
};

verus! {

/// The two fatal schema-malformation errors, each naming the offending
/// field type.
#[derive(Debug, PartialEq)]
pub enum CompileError {
    UnparsableBaseType { field_type_name: String },
    InvalidOtherValueName { field_type_name: String },
}

/// The descriptor of one generated sum type: its identifiers, its scalar
/// base type, its classification, and its cases in declared order. The
/// operation set bound to the generated type is the methods below.
#[derive(Debug)]
pub struct CompiledType {
    pub name: String,
    pub ident: String,
    pub base_type: BaseType,
    pub comment: Option<String>,
    pub other_value_name: String,
    pub is_true_enum: bool,
    pub variants: Vec<FieldTypeVariant>,
}

/// The mathematical content of a `CompiledType`.
#[verifier::ext_equal]
pub struct CompiledTypeV {
    pub name: Seq<char>,
    pub ident: Seq<char>,
    pub base_type: BaseType,
    pub comment: Option<Seq<char>>,
    pub other_value_name: Seq<char>,
    pub is_true_enum: bool,
    pub variants: Seq<VariantV>,
}

impl View for CompiledType {
    type V = CompiledTypeV;

    open spec fn view(&self) -> CompiledTypeV {
        CompiledTypeV {
            name: self.name@,
            ident: self.ident@,
            base_type: self.base_type,
            comment: crate::schema::spec_opt_text(self.comment),
            other_value_name: self.other_value_name@,
            is_true_enum: self.is_true_enum,
            variants: crate::schema::variants_view(self.variants@),
        }
    }
}

/// A value of a generated sum type: either the case at a declared position,
/// or the fallback case carrying the raw number.
#[derive(Clone, Copy, Debug, PartialEq, Eq, Structural)]
pub enum FieldTypeValue {
    Named(usize),
    Other(i64),
}

/// The serialized form of a value: a string, or the bare number.
#[derive(Debug, PartialEq)]
pub enum SerializedValue {
    Text(String),
    Number(i64),
}

/// Whether a definition's name stands in the true-enum exclusion list.
pub open spec fn spec_excluded(name: Seq<char>, exclusions: Seq<String>) -> bool {
    spec_contains_str(exclusions, name)
}

/// Whether a definition passes the compiler's schema checks: an empty
/// definition always does (nothing is generated for it); a non-empty one
/// needs a base type on the fixed list and a fallback-case name that is a
/// valid identifier.
pub open spec fn spec_def_ok(d: DefV) -> bool {
    d.variants.len() == 0 || (spec_parse_base_type(d.base_type) is Some
        && spec_is_valid_ident(d.other_value_name))
}

/// Which error reports which malformation, always naming the offending
/// definition.
pub open spec fn spec_error_for(e: CompileError, d: DefV) -> bool {
    match e {
        CompileError::UnparsableBaseType { field_type_name } => field_type_name@ == d.name
            && d.variants.len() > 0 && spec_parse_base_type(d.base_type) is None,
        CompileError::InvalidOtherValueName { field_type_name } => field_type_name@ == d.name
            && d.variants.len() > 0 && spec_parse_base_type(d.base_type) is Some
            && !spec_is_valid_ident(d.other_value_name),
    }
}

/// The descriptor a well-formed non-empty definition compiles to: name kept,
/// type identifier derived from the name, variants kept in declared order,
/// true-enum classification unless the name is excluded.
pub open spec fn spec_compile_view(d: DefV, exclusions: Seq<String>) -> CompiledTypeV {
    CompiledTypeV {
        name: d.name,
        ident: spec_camel(d.name, true),
        base_type: match spec_parse_base_type(d.base_type) {
            Some(b) => b,
            None => vstd::pervasive::arbitrary(),
        },
        comment: d.comment,
        other_value_name: d.other_value_name,
        is_true_enum: !spec_excluded(d.name, exclusions),
        variants: d.variants,
    }
}

/// Compiles one schema entry. An entry with no variants produces no type.
/// A malformed non-empty entry is a fatal error naming the entry; any other
/// non-empty entry produces exactly the descriptor `spec_compile_view`
/// describes.
pub fn compile_field_type(def: &FieldTypeDefinition, exclusions: &Vec<String>) -> (r: Result<
    Option<CompiledType>,
    CompileError,
>)
    ensures
        match r {
            Ok(o) => spec_def_ok(def@) && (match o {
                None => def@.variants.len() == 0,
                Some(ct) => def@.variants.len() > 0 && ct@ == spec_compile_view(
                    def@,
                    exclusions@,
                ),
            }),
            Err(e) => !spec_def_ok(def@) && spec_error_for(e, def@),
        },
{
    if def.variants.len() == 0 {
        return Ok(None);
    }
    let bt = match parse_base_type(def.base_type.as_str()) {
        Some(b) => b,
        None => {
            return Err(
                CompileError::UnparsableBaseType { field_type_name: def.name.clone() },
            );
        },
    };
    if !is_valid_ident(def.other_value_name.as_str()) {
        return Err(
            CompileError::InvalidOtherValueName { field_type_name: def.name.clone() },
        );
    }
    let is_true_enum = !contains_str(exclusions, def.name.as_str());
    let ct = CompiledType {
        name: def.name.clone(),
        ident: type_ident(def.name.as_str()),
        base_type: bt,
        comment: clone_opt_string(&def.comment),
        other_value_name: def.other_value_name.clone(),
        is_true_enum,
        variants: clone_variants(&def.variants),
    };
    proof {
        assert(ct@ =~= spec_compile_view(def@, exclusions@));
    }
    Ok(Some(ct))
}

/// The conventional true-enum exclusion list: the time-valued field types,
/// whose values are never meaningfully enumerable.
pub fn default_exclusions() -> (r: Vec<String>)
    ensures
        r@.len() == 2,
        r@[0]@ == "date_time"@,
        r@[1]@ == "local_date_time"@,
{
    let mut v: Vec<String> = Vec::new();
    v.push(String::from_str("date_time"));
    v.push(String::from_str("local_date_time"));
    v
}

/// Whether some declared variant carries the value `v`.
pub open spec fn spec_has_value(vs: Seq<VariantV>, v: i64) -> bool {
    exists|i: int| 0 <= i < vs.len() && vs[i].value == v
}

/// The declared variant values are pairwise distinct (the schema model's
/// invariant; the compiler itself does not re-check it).
pub open spec fn spec_distinct_values(vs: Seq<VariantV>) -> bool {
    forall|i: int, j: int| 0 <= i < j < vs.len() ==> vs[i].value != vs[j].value
}

/// The position of the first declared variant carrying `v`, or a negative
/// number when none does.
pub open spec fn spec_first_match(vs: Seq<VariantV>, v: i64) -> int
    decreases vs.len(),
{
    if vs.len() == 0 {
        -1
    } else if vs[0].value == v {
        0
    } else {
        let m = spec_first_match(vs.drop_first(), v);
        if m < 0 {
            -1
        } else {
            m + 1
        }
    }
}

/// Construction from a raw number: the first declared case carrying the
/// value, else the fallback case carrying the value unmodified. Total.
pub open spec fn spec_from_i64(vs: Seq<VariantV>, v: i64) -> FieldTypeValue {
    let m = spec_first_match(vs, v);
    if m >= 0 {
        FieldTypeValue::Named(m as usize)
    } else {
        FieldTypeValue::Other(v)
    }
}

/// A value fits a descriptor when a named case points at a declared
/// position.
pub open spec fn spec_valid_value(ct: CompiledTypeV, val: FieldTypeValue) -> bool {
    match val {
        FieldTypeValue::Named(i) => (i as int) < ct.variants.len(),
        FieldTypeValue::Other(_) => true,
    }
}

/// The number a value stands for: a named case's declared value, or the
/// fallback case's carried payload.
pub open spec fn spec_as_i64(ct: CompiledTypeV, val: FieldTypeValue) -> i64 {
    match val {
        FieldTypeValue::Named(i) => ct.variants[i as int].value,
        FieldTypeValue::Other(v) => v,
    }
}

/// The display string of a value: a named case renders as its declared
/// name; the fallback case renders as a synthesized unknown-label for a
/// true-enum type, and as the bare decimal number otherwise.
pub open spec fn spec_display(ct: CompiledTypeV, val: FieldTypeValue) -> Seq<char> {
    match val {
        FieldTypeValue::Named(i) => ct.variants[i as int].name,
        FieldTypeValue::Other(v) => if ct.is_true_enum {
            "unknown_variant_"@ + spec_dec_i64(v as int)
        } else {
            spec_dec_i64(v as int)
        },
    }
}

/// The serialization policy: a true-enum type always serializes as its
/// display string; any other type serializes a named case as its display
/// string and the fallback case as the raw number.
pub open spec fn spec_serializes_as_string(ct: CompiledTypeV, val: FieldTypeValue) -> bool {
    ct.is_true_enum || val is Named
}

pub proof fn lemma_first_match_props(vs: Seq<VariantV>, v: i64)
    ensures
        spec_first_match(vs, v) < 0 ==> !spec_has_value(vs, v),
        spec_first_match(vs, v) >= 0 ==> {
            &&& 0 <= spec_first_match(vs, v) < vs.len()
            &&& vs[spec_first_match(vs, v)].value == v
            &&& forall|j: int| 0 <= j < spec_first_match(vs, v) ==> vs[j].value != v
        },
    decreases vs.len(),
{
    if vs.len() == 0 {
    } else if vs[0].value == v {
    } else {
        lemma_first_match_props(vs.drop_first(), v);
        let m = spec_first_match(vs.drop_first(), v);
        if m < 0 {
            assert forall|i: int| 0 <= i < vs.len() implies vs[i].value != v by {
                if i > 0 {
                    assert(vs.drop_first()[i - 1] == vs[i]);
                }
            }
        } else {
            assert(vs.drop_first()[m] == vs[m + 1]);
            assert forall|j: int| 0 <= j < m + 1 implies vs[j].value != v by {
                if j > 0 {
                    assert(vs.drop_first()[j - 1] == vs[j]);
                }
            }
        }
    }
}

pub proof fn lemma_first_match_at(vs: Seq<VariantV>, v: i64, k: int)
    requires
        0 <= k < vs.len(),
        vs[k].value == v,
        forall|j: int| 0 <= j < k ==> vs[j].value != v,
    ensures
        spec_first_match(vs, v) == k,
    decreases vs.len(),
{
    if k == 0 {
    } else {
        assert(vs[0].value != v);
        assert(vs.drop_first()[k - 1] == vs[k]);
        assert forall|j: int| 0 <= j < k - 1 implies vs.drop_first()[j].value != v by {
            assert(vs.drop_first()[j] == vs[j + 1]);
        }
        lemma_first_match_at(vs.drop_first(), v, k - 1);
    }
}

impl CompiledType {
    /// True exactly when `value` equals one of the declared variant values;
    /// a pure lookup, independent of construction.
    pub fn is_named_variant(&self, value: i64) -> (r: bool)
        ensures
            r == spec_has_value(self@.variants, value),
    {
        let n = self.variants.len();
        let mut i: usize = 0;
        while i < n
            invariant
                i <= n,
                n == self.variants@.len(),
                forall|j: int| 0 <= j < i ==> self@.variants[j].value != value,
            decreases n - i,
        {
            if self.variants[i].value == value {
                assert(self@.variants[i as int].value == value);
                return true;
            }
            i = i + 1;
        }
        false
    }

    /// Total construction from a raw 64-bit number: scans the declared
    /// variants in order and returns the first exact match; with no match,
    /// the fallback case carrying `value` unmodified. Never fails.
    pub fn from_i64(&self, value: i64) -> (r: FieldTypeValue)
        ensures
            r == spec_from_i64(self@.variants, value),
            spec_valid_value(self@, r),
    {
        let n = self.variants.len();
        let mut i: usize = 0;
        while i < n
            invariant
                i <= n,
                n == self.variants@.len(),
                forall|j: int| 0 <= j < i ==> self@.variants[j].value != value,
            decreases n - i,
        {
            if self.variants[i].value == value {
                proof {
                    assert(self@.variants[i as int].value == value);
                    lemma_first_match_at(self@.variants, value, i as int);
                }
                return FieldTypeValue::Named(i);
            }
            i = i + 1;
        }
        proof {
            lemma_first_match_props(self@.variants, value);
            if spec_first_match(self@.variants, value) >= 0 {
                assert(self@.variants[spec_first_match(self@.variants, value)].value == value);
            }
        }
        FieldTypeValue::Other(value)
    }

    /// The numeric round-trip: a named case's declared value, the fallback
    /// case's payload unchanged.
    pub fn as_i64(&self, val: &FieldTypeValue) -> (r: i64)
        requires
            spec_valid_value(self@, *val),
        ensures
            r == spec_as_i64(self@, *val),
    {
        match val {
            FieldTypeValue::Named(i) => self.variants[*i].value,
            FieldTypeValue::Other(v) => *v,
        }
    }

    /// Renders a value: the declared name for a named case; for the
    /// fallback case, `unknown_variant_<v>` when the type is a true enum,
    /// else the bare decimal number.
    pub fn display_string(&self, val: &FieldTypeValue) -> (r: String)
        requires
            spec_valid_value(self@, *val),
        ensures
            r@ == spec_display(self@, *val),
    {
        match val {
            FieldTypeValue::Named(i) => self.variants[*i].name.clone(),
            FieldTypeValue::Other(v) => {
                if self.is_true_enum {
                    let mut s = String::from_str("unknown_variant_");
                    let digits = i64_to_dec(*v);
                    s.append(digits.as_str());
                    s
                } else {
                    i64_to_dec(*v)
                }
            },
        }
    }

    /// Serializes a value under the per-type policy: a string whenever the
    /// type is a true enum or the case is named, the raw number otherwise.
    pub fn serialize_value(&self, val: &FieldTypeValue) -> (r: SerializedValue)
        requires
            spec_valid_value(self@, *val),
        ensures
            spec_serializes_as_string(self@, *val) ==> (r matches SerializedValue::Text(s)
                && s@ == spec_display(self@, *val)),
            !spec_serializes_as_string(self@, *val) ==> r == SerializedValue::Number(
                spec_as_i64(self@, *val),
            ),
    {
        if self.is_true_enum {
            SerializedValue::Text(self.display_string(val))
        } else {
            match val {
                FieldTypeValue::Named(_) => SerializedValue::Text(self.display_string(val)),
                FieldTypeValue::Other(v) => SerializedValue::Number(*v),
            }
        }
    }
}

/// Totality and round-trip: constructing any descriptor's value from any
/// 64-bit number always yields a value that fits the descriptor, and
/// reading the number back returns exactly the number that went in, for
/// named and fallback cases alike.
pub proof fn lemma_round_trip(ct: CompiledTypeV, v: i64)
    requires
        ct.variants.len() <= usize::MAX,
    ensures
        spec_valid_value(ct, spec_from_i64(ct.variants, v)),
        spec_as_i64(ct, spec_from_i64(ct.variants, v)) == v,
{
    lemma_first_match_props(ct.variants, v);
    let m = spec_first_match(ct.variants, v);
    if m >= 0 {
        assert((m as usize) as int == m);
    }
}

/// Named-value fidelity: under the schema invariant that declared values
/// are distinct, constructing from a declared variant's value yields the
/// case whose display string is exactly that variant's name.
pub proof fn lemma_named_value_fidelity(ct: CompiledTypeV, k: int)
    requires
        spec_distinct_values(ct.variants),
        ct.variants.len() <= usize::MAX,
        0 <= k < ct.variants.len(),
    ensures
        spec_display(ct, spec_from_i64(ct.variants, ct.variants[k].value)) == ct.variants[k].name,
{
    let v = ct.variants[k].value;
    assert forall|j: int| 0 <= j < k implies ct.variants[j].value != v by {}
    lemma_first_match_at(ct.variants, v, k);
    assert((k as usize) as int == k);
}

/// Unknown-value fallback for a true-enum type: constructing from a value
/// absent from the declared set yields the fallback case, whose display
/// string is the synthesized unknown-label, and whose serialized form is
/// that same string.
pub proof fn lemma_unknown_value_true_enum(ct: CompiledTypeV, v: i64)
    requires
        ct.is_true_enum,
        !spec_has_value(ct.variants, v),
    ensures
        spec_from_i64(ct.variants, v) == FieldTypeValue::Other(v),
        spec_display(ct, spec_from_i64(ct.variants, v)) == "unknown_variant_"@ + spec_dec_i64(
            v as int,
        ),
        spec_serializes_as_string(ct, spec_from_i64(ct.variants, v)),
{
    lemma_first_match_props(ct.variants, v);
    if spec_first_match(ct.variants, v) >= 0 {
        assert(ct.variants[spec_first_match(ct.variants, v)].value == v);
    }
}

/// Unknown-value fallback for a non-true-enum type: constructing from an
/// absent value yields the fallback case, whose display string is the bare
/// decimal rendering of the value, and whose serialized form is the raw
/// number itself.
pub proof fn lemma_unknown_value_plain(ct: CompiledTypeV, v: i64)
    requires
        !ct.is_true_enum,
        !spec_has_value(ct.variants, v),
    ensures
        spec_from_i64(ct.variants, v) == FieldTypeValue::Other(v),
        spec_display(ct, spec_from_i64(ct.variants, v)) == spec_dec_i64(v as int),
        !spec_serializes_as_string(ct, spec_from_i64(ct.variants, v)),
        spec_as_i64(ct, spec_from_i64(ct.variants, v)) == v,
{
    lemma_first_match_props(ct.variants, v);
    if spec_first_match(ct.variants, v) >= 0 {
        assert(ct.variants[spec_first_match(ct.variants, v)].value == v);
    }
}

} // verus!
