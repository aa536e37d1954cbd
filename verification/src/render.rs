//! Emission: renders the compiled catalog as one source unit — a header
//! embedding the catalog version, the master registry's tag listing, then
//! each generated sum type's declaration in catalog order. The operations
//! bound to the generated types are the verified methods of this library,
//! so the unit lists the type shapes; everything it contains is pinned,
//! character by character, by the spec functions below.

use vstd::prelude::*;
use vstd::string::StringExecFns;
use crate::compile::{spec_def_ok, spec_error_for, CompileError, CompiledType, CompiledTypeV};
use crate::registry::{compile_catalog, spec_compiled_types, Registry};
use crate::schema::{
    base_payload_name, defs_view, spec_base_payload_name, spec_opt_text, DefV, FieldTypeDefinition,
    FieldTypeVariant, VariantV,
};

verus! {

/// One documentation line, under the given indentation; nothing for an
/// absent comment.
pub open spec fn spec_doc_line(indent: Seq<char>, comment: Option<Seq<char>>) -> Seq<char> {
    match comment {
        Some(t) => indent + "/// "@ + t + "\n"@,
        None => Seq::<char>::empty(),
    }
}

/// One case declaration: its documentation, then its identifier.
pub open spec fn spec_variant_line(v: VariantV) -> Seq<char> {
    spec_doc_line("    "@, v.comment) + "    "@ + v.ident + ",\n"@
}

/// The case declarations of a type, in declared order.
pub open spec fn spec_variant_lines(vs: Seq<VariantV>) -> Seq<char>
    decreases vs.len(),
{
    if vs.len() == 0 {
        Seq::<char>::empty()
    } else {
        spec_variant_lines(vs.drop_last()) + spec_variant_line(vs.last())
    }
}

/// One generated sum type's declaration: documentation, the enum header,
/// one case per declared variant in order, and the fallback case carrying
/// the base-type payload.
pub open spec fn spec_type_block(ct: CompiledTypeV) -> Seq<char> {
    spec_doc_line(""@, ct.comment) + "pub enum "@ + ct.ident + " {\n"@ + spec_variant_lines(
        ct.variants,
    ) + "    "@ + ct.other_value_name + "("@ + spec_base_payload_name(ct.base_type) + "),\n}\n\n"@
}

/// Every generated type's declaration, in catalog order.
pub open spec fn spec_type_blocks(cts: Seq<CompiledTypeV>) -> Seq<char>
    decreases cts.len(),
{
    if cts.len() == 0 {
        Seq::<char>::empty()
    } else {
        spec_type_blocks(cts.drop_last()) + spec_type_block(cts.last())
    }
}

/// The registry tag line of one generated type.
pub open spec fn spec_registry_line(ct: CompiledTypeV) -> Seq<char> {
    "    "@ + ct.ident + ",\n"@
}

/// The registry tag lines of the generated types, in catalog order.
pub open spec fn spec_registry_lines(cts: Seq<CompiledTypeV>) -> Seq<char>
    decreases cts.len(),
{
    if cts.len() == 0 {
        Seq::<char>::empty()
    } else {
        spec_registry_lines(cts.drop_last()) + spec_registry_line(cts.last())
    }
}

/// The tag lines of the built-in scalar base types, in their fixed order.
pub open spec fn spec_base_tag_lines() -> Seq<char> {
    "    Bool,\n    SInt8,\n    UInt8,\n    SInt16,\n    UInt16,\n    SInt32,\n    UInt32,\n    String,\n    Float32,\n    Float64,\n    UInt8z,\n    UInt16z,\n    UInt32z,\n    Byte,\n    SInt64,\n    UInt64,\n    UInt64z,\n"@
}

/// The master registry's tag listing: every base scalar tag, then one tag
/// per generated type, in catalog order.
pub open spec fn spec_registry_block(cts: Seq<CompiledTypeV>) -> Seq<char> {
    "pub enum FieldDataType {\n"@ + spec_base_tag_lines() + spec_registry_lines(cts) + "}\n\n"@
}

/// The unit's header, embedding the catalog version string.
pub open spec fn spec_header(version: Seq<char>) -> Seq<char> {
    "//! Profile field types from catalog version: "@ + version
        + "\n//! Not all of these may be used by the defined set of messages\n\n"@
}

/// The whole emitted unit: header, registry listing, then every generated
/// type's declaration in catalog order.
pub open spec fn spec_render_types(cts: Seq<CompiledTypeV>, version: Seq<char>) -> Seq<char> {
    spec_header(version) + spec_registry_block(cts) + spec_type_blocks(cts)
}

fn append_doc_line(out: &mut String, indent: &str, comment: &Option<String>)
    ensures
        final(out)@ == old(out)@ + spec_doc_line(indent@, spec_opt_text(*comment)),
{
    match comment {
        Some(c) => {
            out.append(indent);
            out.append("/// ");
            out.append(c.as_str());
            out.append("\n");
            proof {
                assert(out@ =~= old(out)@ + spec_doc_line(indent@, spec_opt_text(*comment)));
            }
        },
        None => {
            proof {
                assert(out@ =~= old(out)@ + spec_doc_line(indent@, spec_opt_text(*comment)));
            }
        },
    }
}

fn append_variant_line(out: &mut String, v: &FieldTypeVariant)
    ensures
        final(out)@ == old(out)@ + spec_variant_line(v@),
{
    append_doc_line(out, "    ", &v.comment);
    out.append("    ");
    out.append(v.ident.as_str());
    out.append(",\n");
    proof {
        assert(out@ =~= old(out)@ + spec_variant_line(v@));
    }
}

fn append_variant_lines(out: &mut String, vs: &Vec<FieldTypeVariant>)
    ensures
        final(out)@ == old(out)@ + spec_variant_lines(crate::schema::variants_view(vs@)),
{
    let ghost vv = crate::schema::variants_view(vs@);
    let n = vs.len();
    let mut i: usize = 0;
    proof {
        assert(vv.take(0) =~= Seq::<VariantV>::empty());
        assert(out@ =~= old(out)@ + spec_variant_lines(vv.take(0)));
    }
    while i < n
        invariant
            i <= n,
            n == vs@.len(),
            vv == crate::schema::variants_view(vs@),
            out@ == old(out)@ + spec_variant_lines(vv.take(i as int)),
        decreases n - i,
    {
        append_variant_line(out, &vs[i]);
        proof {
            assert(vv.take(i as int + 1).drop_last() =~= vv.take(i as int));
            assert(vv.take(i as int + 1).last() == vv[i as int]);
            assert(vv[i as int] == vs@[i as int]@);
            assert(out@ =~= old(out)@ + spec_variant_lines(vv.take(i as int + 1)));
        }
        i = i + 1;
    }
    proof {
        assert(vv.take(n as int) =~= vv);
    }
}

fn append_type_block(out: &mut String, ct: &CompiledType)
    ensures
        final(out)@ == old(out)@ + spec_type_block(ct@),
{
    append_doc_line(out, "", &ct.comment);
    out.append("pub enum ");
    out.append(ct.ident.as_str());
    out.append(" {\n");
    append_variant_lines(out, &ct.variants);
    out.append("    ");
    out.append(ct.other_value_name.as_str());
    out.append("(");
    out.append(base_payload_name(ct.base_type));
    out.append("),\n}\n\n");
    proof {
        assert(out@ =~= old(out)@ + spec_type_block(ct@));
    }
}

fn append_type_blocks(out: &mut String, types: &Vec<CompiledType>)
    ensures
        final(out)@ == old(out)@ + spec_type_blocks(
            types@.map_values(|c: CompiledType| c@),
        ),
{
    let ghost cv = types@.map_values(|c: CompiledType| c@);
    let n = types.len();
    let mut i: usize = 0;
    proof {
        assert(cv.take(0) =~= Seq::<CompiledTypeV>::empty());
        assert(out@ =~= old(out)@ + spec_type_blocks(cv.take(0)));
    }
    while i < n
        invariant
            i <= n,
            n == types@.len(),
            cv == types@.map_values(|c: CompiledType| c@),
            out@ == old(out)@ + spec_type_blocks(cv.take(i as int)),
        decreases n - i,
    {
        append_type_block(out, &types[i]);
        proof {
            assert(cv.take(i as int + 1).drop_last() =~= cv.take(i as int));
            assert(cv.take(i as int + 1).last() == cv[i as int]);
            assert(cv[i as int] == types@[i as int]@);
            assert(out@ =~= old(out)@ + spec_type_blocks(cv.take(i as int + 1)));
        }
        i = i + 1;
    }
    proof {
        assert(cv.take(n as int) =~= cv);
    }
}

fn append_registry_lines(out: &mut String, types: &Vec<CompiledType>)
    ensures
        final(out)@ == old(out)@ + spec_registry_lines(
            types@.map_values(|c: CompiledType| c@),
        ),
{
    let ghost cv = types@.map_values(|c: CompiledType| c@);
    let n = types.len();
    let mut i: usize = 0;
    proof {
        assert(cv.take(0) =~= Seq::<CompiledTypeV>::empty());
        assert(out@ =~= old(out)@ + spec_registry_lines(cv.take(0)));
    }
    while i < n
        invariant
            i <= n,
            n == types@.len(),
            cv == types@.map_values(|c: CompiledType| c@),
            out@ == old(out)@ + spec_registry_lines(cv.take(i as int)),
        decreases n - i,
    {
        out.append("    ");
        out.append(types[i].ident.as_str());
        out.append(",\n");
        proof {
            assert(cv.take(i as int + 1).drop_last() =~= cv.take(i as int));
            assert(cv.take(i as int + 1).last() == cv[i as int]);
            assert(cv[i as int] == types@[i as int]@);
            assert(out@ =~= old(out)@ + spec_registry_lines(cv.take(i as int + 1)));
        }
        i = i + 1;
    }
    proof {
        assert(cv.take(n as int) =~= cv);
    }
}

fn append_registry_block(out: &mut String, reg: &Registry)
    ensures
        final(out)@ == old(out)@ + spec_registry_block(reg@),
{
    out.append("pub enum FieldDataType {\n");
    out.append(
        "    Bool,\n    SInt8,\n    UInt8,\n    SInt16,\n    UInt16,\n    SInt32,\n    UInt32,\n    String,\n    Float32,\n    Float64,\n    UInt8z,\n    UInt16z,\n    UInt32z,\n    Byte,\n    SInt64,\n    UInt64,\n    UInt64z,\n",
    );
    append_registry_lines(out, &reg.types);
    out.append("}\n\n");
    proof {
        assert(out@ =~= old(out)@ + spec_registry_block(reg@));
    }
}

/// Renders a compiled registry as the emitted unit for the given catalog
/// version.
pub fn render_registry_source(reg: &Registry, version: &str) -> (r: String)
    ensures
        r@ == spec_render_types(reg@, version@),
{
    let mut out = String::from_str("//! Profile field types from catalog version: ");
    out.append(version);
    out.append("\n//! Not all of these may be used by the defined set of messages\n\n");
    proof {
        assert(out@ =~= spec_header(version@));
    }
    append_registry_block(&mut out, reg);
    append_type_blocks(&mut out, &reg.types);
    proof {
        assert(out@ =~= spec_render_types(reg@, version@));
    }
    out
}

/// The whole pipeline as one pure function: compiles the catalog and
/// renders the emitted unit. Succeeds exactly when every definition passes
/// the compiler's checks; the returned text is pinned, character by
/// character, by `spec_render_types` over `spec_compiled_types` — so two
/// runs on one catalog return identical text.
pub fn generate_source(
    defs: &Vec<FieldTypeDefinition>,
    version: &str,
    exclusions: &Vec<String>,
) -> (r: Result<String, CompileError>)
    ensures
        match r {
            Ok(s) => (forall|i: int|
                0 <= i < defs@.len() ==> spec_def_ok(#[trigger] defs_view(defs@)[i])) && s@
                == spec_render_types(
                spec_compiled_types(defs_view(defs@), exclusions@),
                version@,
            ),
            Err(e) => exists|i: int|
                {
                    &&& 0 <= i < defs@.len()
                    &&& !spec_def_ok(#[trigger] defs_view(defs@)[i])
                    &&& (forall|j: int| 0 <= j < i ==> spec_def_ok(defs_view(defs@)[j]))
                    &&& spec_error_for(e, defs_view(defs@)[i])
                },
        },
{
    let reg = match compile_catalog(defs, exclusions) {
        Ok(reg) => reg,
        Err(e) => {
            return Err(e);
        },
    };
    Ok(render_registry_source(&reg, version))
}

/// Entry-by-entry agreement of two variant views.
pub open spec fn spec_variant_eq(a: VariantV, b: VariantV) -> bool {
    a.name == b.name && a.ident == b.ident && a.value == b.value && a.comment == b.comment
}

/// Entry-by-entry agreement of two definition views: every field equal, and
/// the variant lists equal position by position.
pub open spec fn spec_def_eq(a: DefV, b: DefV) -> bool {
    &&& a.name == b.name
    &&& a.base_type == b.base_type
    &&& a.comment == b.comment
    &&& a.other_value_name == b.other_value_name
    &&& a.variants.len() == b.variants.len()
    &&& forall|k: int|
        0 <= k < a.variants.len() ==> spec_variant_eq(#[trigger] a.variants[k], b.variants[k])
}

/// Determinism and order preservation: two catalogs that agree entry by
/// entry — whatever containers or iteration produced them — compile to the
/// same descriptors, case order following declared order, and render to
/// identical text.
pub proof fn lemma_generation_deterministic(
    a: Seq<DefV>,
    b: Seq<DefV>,
    exclusions: Seq<String>,
    version: Seq<char>,
)
    requires
        a.len() == b.len(),
        forall|i: int| 0 <= i < a.len() ==> spec_def_eq(#[trigger] a[i], b[i]),
    ensures
        spec_compiled_types(a, exclusions) == spec_compiled_types(b, exclusions),
        spec_render_types(spec_compiled_types(a, exclusions), version) == spec_render_types(
            spec_compiled_types(b, exclusions),
            version,
        ),
{
    assert forall|i: int| 0 <= i < a.len() implies a[i] == b[i] by {
        assert(spec_def_eq(a[i], b[i]));
        assert forall|k: int| 0 <= k < a[i].variants.len() implies a[i].variants[k]
            == b[i].variants[k] by {
            assert(spec_variant_eq(a[i].variants[k], b[i].variants[k]));
            assert(a[i].variants[k] =~= b[i].variants[k]);
        }
        assert(a[i].variants =~= b[i].variants);
        assert(a[i] =~= b[i]);
    }
    assert(a =~= b);
}

} // verus!
