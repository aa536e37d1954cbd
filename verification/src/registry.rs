//! The master registry: the umbrella tag space over the built-in scalar
//! base types and every generated sum type, built once over the full
//! catalog, with three total dispatch operations keyed by tag.

use vstd::prelude::*;
use vstd::string::StringExecFns;
use crate::compile::{
    compile_field_type, spec_compile_view, spec_def_ok, spec_display, spec_error_for,
    spec_from_i64, spec_has_value, CompileError, CompiledType, CompiledTypeV,
};
use crate::schema::{defs_view, BaseType, DefV, FieldTypeDefinition};
use crate::text::{i64_to_dec, spec_dec_i64};

verus! {

/// One tag of the umbrella space: a built-in scalar base type, or the
/// generated sum type at a registry position.
#[derive(Clone, Copy, Debug, PartialEq, Eq, Structural)]
pub enum FieldDataType {
    Base(BaseType),
    Generated(usize),
}

/// The registry: every generated descriptor, in catalog order (one per
/// definition with at least one variant).
#[derive(Debug)]
pub struct Registry {
    pub types: Vec<CompiledType>,
}

impl View for Registry {
    type V = Seq<CompiledTypeV>;

    open spec fn view(&self) -> Seq<CompiledTypeV> {
        self.types@.map_values(|c: CompiledType| c@)
    }
}

/// The descriptors a catalog compiles to: one per definition with at least
/// one variant, in catalog order; definitions with no variants contribute
/// nothing.
pub open spec fn spec_compiled_types(ds: Seq<DefV>, exclusions: Seq<String>) -> Seq<CompiledTypeV>
    decreases ds.len(),
{
    if ds.len() == 0 {
        Seq::empty()
    } else {
        let rest = spec_compiled_types(ds.drop_last(), exclusions);
        if ds.last().variants.len() == 0 {
            rest
        } else {
            rest.push(spec_compile_view(ds.last(), exclusions))
        }
    }
}

/// Compiles the whole catalog into the registry, reading the definitions in
/// order. Succeeds exactly when every definition passes the compiler's
/// checks, and then holds exactly the descriptors `spec_compiled_types`
/// describes; otherwise reports the first offending definition.
pub fn compile_catalog(defs: &Vec<FieldTypeDefinition>, exclusions: &Vec<String>) -> (r: Result<
    Registry,
    CompileError,
>)
    ensures
        match r {
            Ok(reg) => (forall|i: int|
                0 <= i < defs@.len() ==> spec_def_ok(#[trigger] defs_view(defs@)[i])) && reg@
                == spec_compiled_types(defs_view(defs@), exclusions@),
            Err(e) => exists|i: int|
                {
                    &&& 0 <= i < defs@.len()
                    &&& !spec_def_ok(#[trigger] defs_view(defs@)[i])
                    &&& (forall|j: int| 0 <= j < i ==> spec_def_ok(defs_view(defs@)[j]))
                    &&& spec_error_for(e, defs_view(defs@)[i])
                },
        },
{
    let ghost dv = defs_view(defs@);
    let mut types: Vec<CompiledType> = Vec::new();
    let n = defs.len();
    let mut i: usize = 0;
    proof {
        assert(dv.take(0) =~= Seq::<DefV>::empty());
    }
    while i < n
        invariant
            i <= n,
            n == defs@.len(),
            dv == defs_view(defs@),
            dv.len() == n,
            forall|j: int| 0 <= j < i ==> spec_def_ok(#[trigger] dv[j]),
            types@.map_values(|c: CompiledType| c@) == spec_compiled_types(
                dv.take(i as int),
                exclusions@,
            ),
        decreases n - i,
    {
        proof {
            assert(dv[i as int] == defs@[i as int]@);
        }
        match compile_field_type(&defs[i], exclusions) {
            Ok(Some(ct)) => {
                types.push(ct);
            },
            Ok(None) => {},
            Err(e) => {
                return Err(e);
            },
        }
        proof {
            assert(dv.take(i as int + 1).drop_last() =~= dv.take(i as int));
            assert(dv.take(i as int + 1).last() == dv[i as int]);
            assert(types@.map_values(|c: CompiledType| c@) =~= spec_compiled_types(
                dv.take(i as int + 1),
                exclusions@,
            ));
        }
        i = i + 1;
    }
    proof {
        assert(dv.take(n as int) =~= dv);
    }
    Ok(Registry { types })
}

/// Whether a tag names a generated sum type that is true-enum-classified:
/// false for every base scalar tag and for every tag outside the registry.
pub open spec fn spec_is_enum_type(reg: Seq<CompiledTypeV>, tag: FieldDataType) -> bool {
    match tag {
        FieldDataType::Base(_) => false,
        FieldDataType::Generated(i) => (i as int) < reg.len() && reg[i as int].is_true_enum,
    }
}

/// The string the registry renders a `(tag, value)` pair to: for an
/// enum-classified tag, the display string of that type's value constructed
/// from the raw number; for any other tag, a synthesized placeholder
/// embedding the raw value. Total over the whole tag space.
pub open spec fn spec_field_variant_string(
    reg: Seq<CompiledTypeV>,
    tag: FieldDataType,
    value: i64,
) -> Seq<char> {
    if spec_is_enum_type(reg, tag) {
        let ct = reg[tag->Generated_0 as int];
        spec_display(ct, spec_from_i64(ct.variants, value))
    } else {
        "Undefined"@ + spec_dec_i64(value as int)
    }
}

fn undefined_string(value: i64) -> (r: String)
    ensures
        r@ == "Undefined"@ + spec_dec_i64(value as int),
{
    let mut s = String::from_str("Undefined");
    let digits = i64_to_dec(value);
    s.append(digits.as_str());
    s
}

impl Registry {
    /// True exactly when the tag names a generated, true-enum-classified
    /// type.
    pub fn is_enum_type(&self, tag: FieldDataType) -> (r: bool)
        ensures
            r == spec_is_enum_type(self@, tag),
    {
        match tag {
            FieldDataType::Base(_) => false,
            FieldDataType::Generated(i) => i < self.types.len() && self.types[i].is_true_enum,
        }
    }

    /// For an enum-classified tag, whether the value is one of that type's
    /// declared variant values; false for every other tag.
    pub fn is_named_variant(&self, tag: FieldDataType, value: i64) -> (r: bool)
        ensures
            r == (spec_is_enum_type(self@, tag) && spec_has_value(
                self@[tag->Generated_0 as int].variants,
                value,
            )),
    {
        match tag {
            FieldDataType::Base(_) => false,
            FieldDataType::Generated(i) => {
                if i < self.types.len() && self.types[i].is_true_enum {
                    self.types[i].is_named_variant(value)
                } else {
                    false
                }
            },
        }
    }

    /// Renders a `(tag, value)` pair: for an enum-classified tag, that
    /// type's value constructed from the raw number and displayed; for any
    /// other tag a synthesized placeholder. Total — never fails, for any
    /// tag and any value.
    pub fn get_field_variant_as_string(&self, tag: FieldDataType, value: i64) -> (r: String)
        ensures
            r@ == spec_field_variant_string(self@, tag, value),
    {
        match tag {
            FieldDataType::Base(_) => undefined_string(value),
            FieldDataType::Generated(i) => {
                if i < self.types.len() && self.types[i].is_true_enum {
                    let ct = &self.types[i];
                    let val = ct.from_i64(value);
                    ct.display_string(&val)
                } else {
                    undefined_string(value)
                }
            },
        }
    }
}

/// Empty-variant suppression: a definition with no variants contributes no
/// descriptor to the registry, so no registry tag reaches it and no tag for
/// it can be enum-classified.
pub proof fn lemma_empty_variant_suppressed(ds: Seq<DefV>, d: DefV, exclusions: Seq<String>)
    requires
        d.variants.len() == 0,
    ensures
        spec_compiled_types(ds.push(d), exclusions) == spec_compiled_types(ds, exclusions),
{
    assert(ds.push(d).drop_last() =~= ds);
    assert(ds.push(d).last() == d);
}

} // verus!
