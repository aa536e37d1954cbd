use fit_field_types::compile::{
    compile_field_type, default_exclusions, CompileError, CompiledType, FieldTypeValue,
    SerializedValue,
};
use fit_field_types::registry::{compile_catalog, FieldDataType};
use fit_field_types::render::generate_source;
use fit_field_types::schema::{parse_base_type, BaseType, FieldTypeDefinition, FieldTypeVariant};
use fit_field_types::text::{i64_to_dec, is_valid_ident, str_eq, type_ident};

fn variant(name: &str, ident: &str, value: i64) -> FieldTypeVariant {
    FieldTypeVariant {
        name: name.to_string(),
        ident: ident.to_string(),
        value,
        comment: None,
    }
}

fn definition(
    name: &str,
    base_type: &str,
    variants: Vec<FieldTypeVariant>,
) -> FieldTypeDefinition {
    FieldTypeDefinition {
        name: name.to_string(),
        base_type: base_type.to_string(),
        comment: None,
        other_value_name: "UnknownValue".to_string(),
        variants,
    }
}

fn display_measure() -> CompiledType {
    let def = definition(
        "display_measure",
        "uint16",
        vec![variant("metric", "Metric", 0), variant("statute", "Statute", 1)],
    );
    compile_field_type(&def, &default_exclusions())
        .unwrap()
        .unwrap()
}

fn temperature() -> CompiledType {
    let def = definition("temperature", "sint8", vec![variant("invalid", "Invalid", -127)]);
    let exclusions = vec!["temperature".to_string()];
    compile_field_type(&def, &exclusions).unwrap().unwrap()
}

#[test]
fn round_trip_named_value() {
    let ct = display_measure();
    let v = ct.from_i64(0);
    assert_eq!(ct.as_i64(&v), 0);
    let v = ct.from_i64(1);
    assert_eq!(ct.as_i64(&v), 1);
}

#[test]
fn round_trip_fallback_value() {
    let ct = display_measure();
    assert_eq!(ct.as_i64(&ct.from_i64(7)), 7);
    assert_eq!(ct.as_i64(&ct.from_i64(65535)), 65535);
    let ct = temperature();
    assert_eq!(ct.as_i64(&ct.from_i64(-128)), -128);
    assert_eq!(ct.as_i64(&ct.from_i64(20)), 20);
}

#[test]
fn named_value_display_fidelity() {
    let ct = display_measure();
    assert_eq!(ct.display_string(&ct.from_i64(0)), "metric");
    assert_eq!(ct.display_string(&ct.from_i64(1)), "statute");
}

#[test]
fn unknown_value_true_enum_displays_synthesized_label() {
    let ct = display_measure();
    assert!(ct.is_true_enum);
    let v = ct.from_i64(7);
    assert_eq!(v, FieldTypeValue::Other(7));
    assert_eq!(ct.display_string(&v), "unknown_variant_7");
    assert_eq!(
        ct.serialize_value(&v),
        SerializedValue::Text("unknown_variant_7".to_string())
    );
}

#[test]
fn unknown_value_plain_type_displays_bare_number() {
    let ct = temperature();
    assert!(!ct.is_true_enum);
    assert_eq!(ct.display_string(&ct.from_i64(-127)), "invalid");
    let v = ct.from_i64(20);
    assert_eq!(ct.display_string(&v), "20");
    assert_eq!(ct.serialize_value(&v), SerializedValue::Number(20));
}

#[test]
fn named_case_of_plain_type_serializes_as_string() {
    let ct = temperature();
    let v = ct.from_i64(-127);
    assert_eq!(
        ct.serialize_value(&v),
        SerializedValue::Text("invalid".to_string())
    );
}

#[test]
fn is_named_variant_matches_declared_set() {
    let ct = display_measure();
    assert!(ct.is_named_variant(0));
    assert!(ct.is_named_variant(1));
    assert!(!ct.is_named_variant(2));
    assert!(!ct.is_named_variant(-1));
}

#[test]
fn duplicate_values_first_declared_wins() {
    let def = definition(
        "sensor_mode",
        "uint8",
        vec![variant("first", "First", 5), variant("second", "Second", 5)],
    );
    let ct = compile_field_type(&def, &default_exclusions()).unwrap().unwrap();
    assert_eq!(ct.display_string(&ct.from_i64(5)), "first");
}

#[test]
fn type_identifier_derived_from_name() {
    let ct = display_measure();
    assert_eq!(ct.ident, "DisplayMeasure");
    assert_eq!(type_ident("local_date_time"), "LocalDateTime");
    assert_eq!(type_ident("mesg_num"), "MesgNum");
}

#[test]
fn empty_variant_definition_produces_no_type() {
    let def = definition("raw_reading", "uint32", vec![]);
    assert!(matches!(
        compile_field_type(&def, &default_exclusions()),
        Ok(None)
    ));
}

#[test]
fn empty_variant_definition_has_no_registry_tag() {
    let defs = vec![
        definition("raw_reading", "uint32", vec![]),
        definition(
            "display_measure",
            "uint16",
            vec![variant("metric", "Metric", 0), variant("statute", "Statute", 1)],
        ),
    ];
    let reg = compile_catalog(&defs, &default_exclusions()).unwrap();
    assert_eq!(reg.types.len(), 1);
    assert_eq!(reg.types[0].name, "display_measure");
    assert!(reg.is_enum_type(FieldDataType::Generated(0)));
    assert!(!reg.is_enum_type(FieldDataType::Generated(1)));
}

#[test]
fn denylisted_type_is_generated_but_not_enum_classified() {
    let defs = vec![definition(
        "date_time",
        "uint32",
        vec![variant("min", "Min", 268435456)],
    )];
    let reg = compile_catalog(&defs, &default_exclusions()).unwrap();
    assert_eq!(reg.types.len(), 1);
    assert!(!reg.types[0].is_true_enum);
    let tag = FieldDataType::Generated(0);
    assert!(!reg.is_enum_type(tag));
    assert!(!reg.is_named_variant(tag, 268435456));
    assert_eq!(reg.get_field_variant_as_string(tag, 268435456), "Undefined268435456");
}

#[test]
fn registry_dispatch_is_total_over_the_tag_space() {
    let defs = vec![definition(
        "display_measure",
        "uint16",
        vec![variant("metric", "Metric", 0), variant("statute", "Statute", 1)],
    )];
    let reg = compile_catalog(&defs, &default_exclusions()).unwrap();
    let base = FieldDataType::Base(BaseType::UInt8);
    assert!(!reg.is_enum_type(base));
    assert!(!reg.is_named_variant(base, 0));
    assert_eq!(reg.get_field_variant_as_string(base, 7), "Undefined7");
    assert_eq!(reg.get_field_variant_as_string(FieldDataType::Generated(9), -3), "Undefined-3");
    let tag = FieldDataType::Generated(0);
    assert!(reg.is_enum_type(tag));
    assert!(reg.is_named_variant(tag, 1));
    assert!(!reg.is_named_variant(tag, 9));
    assert_eq!(reg.get_field_variant_as_string(tag, 0), "metric");
    assert_eq!(reg.get_field_variant_as_string(tag, 9), "unknown_variant_9");
}

#[test]
fn unparsable_base_type_is_fatal_and_names_the_definition() {
    let def = definition("oddity", "uint128", vec![variant("a", "A", 0)]);
    let err = compile_field_type(&def, &default_exclusions()).unwrap_err();
    assert_eq!(
        err,
        CompileError::UnparsableBaseType { field_type_name: "oddity".to_string() }
    );
}

#[test]
fn invalid_fallback_name_is_fatal_and_names_the_definition() {
    let mut def = definition("oddity", "uint8", vec![variant("a", "A", 0)]);
    def.other_value_name = "1bad".to_string();
    let err = compile_field_type(&def, &default_exclusions()).unwrap_err();
    assert_eq!(
        err,
        CompileError::InvalidOtherValueName { field_type_name: "oddity".to_string() }
    );
    let defs = vec![def];
    assert!(compile_catalog(&defs, &default_exclusions()).is_err());
}

#[test]
fn base_type_names_parse_against_the_fixed_list() {
    assert_eq!(parse_base_type("bool"), Some(BaseType::Bool));
    assert_eq!(parse_base_type("sint8"), Some(BaseType::SInt8));
    assert_eq!(parse_base_type("uint8"), Some(BaseType::UInt8));
    assert_eq!(parse_base_type("uint8z"), Some(BaseType::UInt8z));
    assert_eq!(parse_base_type("uint64z"), Some(BaseType::UInt64z));
    assert_eq!(parse_base_type("byte"), Some(BaseType::Byte));
    assert_eq!(parse_base_type("string"), Some(BaseType::Utf8Str));
    assert_eq!(parse_base_type("float64"), Some(BaseType::Float64));
    assert_eq!(parse_base_type("u8"), None);
    assert_eq!(parse_base_type(""), None);
}

#[test]
fn decimal_rendering_is_exact() {
    assert_eq!(i64_to_dec(0), "0");
    assert_eq!(i64_to_dec(20), "20");
    assert_eq!(i64_to_dec(-5), "-5");
    assert_eq!(i64_to_dec(i64::MAX), "9223372036854775807");
    assert_eq!(i64_to_dec(i64::MIN), "-9223372036854775808");
}

#[test]
fn text_helpers_behave() {
    assert!(str_eq("abc", "abc"));
    assert!(!str_eq("abc", "abd"));
    assert!(!str_eq("abc", "ab"));
    assert!(is_valid_ident("UnknownValue"));
    assert!(is_valid_ident("_x9"));
    assert!(!is_valid_ident("9x"));
    assert!(!is_valid_ident(""));
    assert!(!is_valid_ident("a-b"));
}

#[test]
fn generated_unit_matches_expected_text() {
    let mut def = definition(
        "display_measure",
        "uint16",
        vec![variant("metric", "Metric", 0), variant("statute", "Statute", 1)],
    );
    def.comment = Some("Units".to_string());
    def.variants[1].comment = Some("US units".to_string());
    let defs = vec![def];
    let out = generate_source(&defs, "21.0", &default_exclusions()).unwrap();
    let expected = "//! Profile field types from catalog version: 21.0\n//! Not all of these may be used by the defined set of messages\n\npub enum FieldDataType {\n    Bool,\n    SInt8,\n    UInt8,\n    SInt16,\n    UInt16,\n    SInt32,\n    UInt32,\n    String,\n    Float32,\n    Float64,\n    UInt8z,\n    UInt16z,\n    UInt32z,\n    Byte,\n    SInt64,\n    UInt64,\n    UInt64z,\n    DisplayMeasure,\n}\n\n/// Units\npub enum DisplayMeasure {\n    Metric,\n    /// US units\n    Statute,\n    UnknownValue(u16),\n}\n\n";
    assert_eq!(out, expected);
}

#[test]
fn rerunning_compilation_yields_byte_identical_output() {
    let make = || {
        vec![
            definition(
                "display_measure",
                "uint16",
                vec![variant("metric", "Metric", 0), variant("statute", "Statute", 1)],
            ),
            definition("raw_reading", "uint32", vec![]),
            definition("temperature", "sint8", vec![variant("invalid", "Invalid", -127)]),
        ]
    };
    let a = generate_source(&make(), "21.0", &default_exclusions()).unwrap();
    let b = generate_source(&make(), "21.0", &default_exclusions()).unwrap();
    assert_eq!(a, b);
}

#[test]
fn case_order_follows_declared_order() {
    let def = definition(
        "battery_status",
        "uint8",
        vec![
            variant("new", "New", 1),
            variant("good", "Good", 2),
            variant("ok", "Ok", 3),
            variant("low", "Low", 4),
            variant("critical", "Critical", 5),
        ],
    );
    let ct = compile_field_type(&def, &default_exclusions()).unwrap().unwrap();
    let names: Vec<String> = ct.variants.iter().map(|v| v.name.clone()).collect();
    assert_eq!(names, vec!["new", "good", "ok", "low", "critical"]);
    for (i, v) in ct.variants.iter().enumerate() {
        assert_eq!(ct.from_i64(v.value), FieldTypeValue::Named(i));
    }
}
