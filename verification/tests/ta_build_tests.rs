use optee_utee::ta_build::{
    dyn_list_text, ext_property_var_name, is_arm_target, property_entries, string_to_binary_codes, transform_linker_script,
    BuildError,
    Builder, Linker, LinkerType, Property, PropertyValue, RustEdition, TaConfig,
};
use optee_utee::{Uuid, UuidError};

const UUID: &str = "26509cec-4a2b-4935-87ab-762d89fbf0b0";

#[test]
fn default_config() {
    let c = TaConfig::new_default(UUID, "0.1.0", "example").unwrap();
    assert_eq!(c.uuid.to_string(), UUID);
    assert_eq!(c.ta_flags, 0);
    assert_eq!(c.ta_data_size, 32 * 1024);
    assert_eq!(c.ta_stack_size, 2 * 1024);
    assert_eq!(c.ta_version, "0.1.0");
    assert_eq!(c.ta_description, "example");
    assert_eq!(c.trace_level, 4);
    assert_eq!(c.trace_ext_prefix, "TA");
    assert_eq!(c.ta_framework_stack_size, 2048);
    assert!(c.ext_properties.is_empty());
    assert_eq!(c.property_count(), 7);
    assert_eq!(c.head_stack_size(), 2 * 1024 + 2048);
}

#[test]
fn bad_uuid_is_refused() {
    assert!(matches!(TaConfig::new_default("nope", "0.1.0", "x"), Err(BuildError::Uuid(UuidError::InvalidString))));
}

#[test]
fn config_setters() {
    let c = TaConfig::new_default(UUID, "0.1.0", "example")
        .unwrap()
        .ta_stack_size(10 * 1024)
        .ta_data_size(64 * 1024)
        .ta_flags(4)
        .trace_level(2)
        .trace_ext_prefix("MY")
        .ta_framework_stack_size(4096)
        .add_ext_property("gp.ta.one", PropertyValue::U32(1))
        .add_ext_property("gp.ta.two", PropertyValue::Str("s".to_string()));
    assert_eq!(c.ta_stack_size, 10 * 1024);
    assert_eq!(c.ta_data_size, 64 * 1024);
    assert_eq!(c.ta_flags, 4);
    assert_eq!(c.trace_level, 2);
    assert_eq!(c.trace_ext_prefix, "MY");
    assert_eq!(c.ta_framework_stack_size, 4096);
    assert_eq!(c.ext_properties.len(), 2);
    assert_eq!(c.ext_properties[1].name, "gp.ta.two");
    assert_eq!(c.property_count(), 9);
    assert_eq!(c.head_stack_size(), 10 * 1024 + 4096);
    let p = Property::new("k", PropertyValue::Bool(true));
    assert_eq!(p.name, "k");
}

#[test]
fn linker_detection() {
    assert_eq!(Linker::auto(Some("aarch64-linux-gnu-ld")).linker_type, LinkerType::Ld);
    assert_eq!(Linker::auto(Some("/usr/bin/ld.bfd")).linker_type, LinkerType::Ld);
    assert_eq!(Linker::auto(Some("aarch64-linux-gnu-gcc")).linker_type, LinkerType::Cc);
    assert_eq!(Linker::auto(None).linker_type, LinkerType::Cc);
    assert_eq!(Linker::new(LinkerType::Ld).linker_type, LinkerType::Ld);
}

#[test]
fn arm_targets() {
    assert!(is_arm_target(Some("arm-unknown-linux-gnueabihf")));
    assert!(is_arm_target(Some("arm-unknown-optee")));
    assert!(!is_arm_target(Some("aarch64-unknown-optee")));
    assert!(!is_arm_target(None));
}

#[test]
fn linker_script_lines() {
    let lines: Vec<String> = [
        "#include <x.h>",
        "OUTPUT_FORMAT(\"elf32-littlearm\")",
        "OUTPUT_FORMAT(\"elf64-littleaarch64\")",
        "OUTPUT_ARCH(arm)",
        "OUTPUT_ARCH(aarch64)",
        "\t. = ALIGN(4096);",
        "SECTIONS {",
    ]
    .iter()
    .map(|s| s.to_string())
    .collect();
    assert_eq!(
        transform_linker_script(&lines, true),
        "OUTPUT_FORMAT(\"elf64-littleaarch64\")\nOUTPUT_ARCH(aarch64)\n\t. = ALIGN(65536);\nSECTIONS {\n"
    );
    assert_eq!(
        transform_linker_script(&lines, false),
        "OUTPUT_FORMAT(\"elf32-littlearm\")\nOUTPUT_ARCH(arm)\n\t. = ALIGN(65536);\nSECTIONS {\n"
    );
    assert_eq!(transform_linker_script(&[], true), "");
}

#[test]
fn link_directives() {
    let cc = Linker::new(LinkerType::Cc);
    let d = cc.link_all_directives("/kit/lib");
    assert_eq!(d.len(), 8);
    assert_eq!(d[0], "cargo:rustc-link-search=/kit/lib");
    assert_eq!(d[6], "cargo:rustc-link-arg=-Wl,--sort-section=alignment");
    assert_eq!(d[7], "cargo:rustc-link-arg=-Wl,--dynamic-list=dyn_list");
    let ld = Linker::new(LinkerType::Ld);
    let s = ld.linker_script_directives(true, "/out", "/out/ta.lds");
    assert_eq!(
        s,
        vec![
            "cargo:rerun-if-env-changed=TARGET_TA",
            "cargo:rustc-link-arg=--no-warn-mismatch",
            "cargo:rustc-link-search=/out",
            "cargo:rerun-if-changed=/out/ta.lds",
            "cargo:rustc-link-arg=-T/out/ta.lds",
        ]
    );
    assert_eq!(ld.linker_script_directives(false, "/o", "/o/l").len(), 4);
    assert_eq!(dyn_list_text(), "{ __elf_phdr_info; trace_ext_prefix; trace_level; ta_head; };\n");
}

#[test]
fn header_text() {
    assert_eq!(string_to_binary_codes("TA"), "b\"TA\\0\"");
    assert_eq!(RustEdition::Before2024.no_mangle_attribute(), "#[no_mangle]");
    assert_eq!(RustEdition::Edition2024.no_mangle_attribute(), "#[unsafe(no_mangle)]");
    assert_eq!(RustEdition::Before2024.link_section_attribute(".ta_head"), "#[link_section = \".ta_head\"]");
    assert_eq!(RustEdition::Edition2024.link_section_attribute(".bss"), "#[unsafe(link_section = \".bss\")]");
    assert_eq!(ext_property_var_name(0), "EXT_PROP_VALUE_1");
    assert_eq!(ext_property_var_name(11), "EXT_PROP_VALUE_12");
    let u = Uuid::parse_str(UUID).unwrap();
    assert_eq!(PropertyValue::Uuid(u).rust_type(), "optee_utee_sys::TEE_UUID");
    assert_eq!(PropertyValue::Str(String::new()).value_conversion("V"), "V as *const [u8] as *mut _");
    assert_eq!(PropertyValue::U64(1).value_conversion("V"), "&V as *const u64 as *mut _");
    assert_eq!(
        PropertyValue::BinaryBlock(String::new()).utee_type(),
        "optee_utee_sys::user_ta_prop_type::USER_TA_PROP_TYPE_BINARY_BLOCK"
    );
}

#[test]
fn builder_choices() {
    let c = TaConfig::new_default(UUID, "0.1.0", "example").unwrap();
    let b = Builder::new(RustEdition::Before2024, c);
    assert_eq!(b.header_file(), "user_ta_header.rs");
    assert_eq!(b.resolved_out_dir(Some("/env")).unwrap(), "/env");
    assert!(b.resolved_out_dir(None).is_none());
    assert_eq!(b.linker(Some("ld")).linker_type, LinkerType::Ld);
    let b = b.out_dir("/mine").header_file_name("h.rs").linker_type(LinkerType::Cc);
    assert_eq!(b.header_file(), "h.rs");
    assert_eq!(b.resolved_out_dir(Some("/env")).unwrap(), "/mine");
    assert_eq!(b.linker(Some("ld")).linker_type, LinkerType::Cc);
    assert_eq!(b.edition(), RustEdition::Before2024);
    assert_eq!(b.ta_config().ta_version, "0.1.0");
}

#[test]
fn linker_script_is_made_line_by_line() {
    let a: Vec<String> = ["#x", "A", "\t. = ALIGN(4096);"].iter().map(|s| s.to_string()).collect();
    let b: Vec<String> = ["OUTPUT_ARCH(arm)", "B"].iter().map(|s| s.to_string()).collect();
    let ab: Vec<String> = a.iter().chain(b.iter()).cloned().collect();
    for aarch64 in [true, false] {
        assert_eq!(
            transform_linker_script(&ab, aarch64),
            transform_linker_script(&a, aarch64) + &transform_linker_script(&b, aarch64)
        );
    }
}

#[test]
fn property_table_rows() {
    let c = TaConfig::new_default(UUID, "0.1.0", "example")
        .unwrap()
        .add_ext_property("gp.ta.description", PropertyValue::Str("hello".to_string()))
        .add_ext_property("gp.ta.answer", PropertyValue::U32(42));
    let rows = property_entries(&c);
    assert_eq!(rows.len(), 9);
    assert_eq!(rows[0].name, "optee_utee_sys::TA_PROP_STR_SINGLE_INSTANCE");
    assert_eq!(rows[0].prop_type, "optee_utee_sys::user_ta_prop_type::USER_TA_PROP_TYPE_BOOL");
    assert_eq!(rows[0].value, "&FLAG_BOOL as *const bool as *mut _");
    assert_eq!(rows[4].value, "&TA_STACK_SIZE as *const u32 as *mut _");
    assert_eq!(rows[6].name, "optee_utee_sys::TA_PROP_STR_DESCRIPTION");
    assert_eq!(rows[7].name, "b\"gp.ta.description\\0\".as_ptr()");
    assert_eq!(rows[7].prop_type, "optee_utee_sys::user_ta_prop_type::USER_TA_PROP_TYPE_STRING");
    assert_eq!(rows[7].value, "EXT_PROP_VALUE_1 as *const [u8] as *mut _");
    assert_eq!(rows[8].value, "&EXT_PROP_VALUE_2 as *const u32 as *mut _");
}
