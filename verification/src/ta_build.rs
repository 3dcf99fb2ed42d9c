//! The build side of a trusted application: its configuration, the choice of
//! linker, the linker script and cargo directives that link it, and the text
//! that goes into its generated header file.

use vstd::prelude::*;
use crate::text::{concat, dec_digits, ends_with, push_decimal, push_str, starts_with_char, str_eq};
use crate::uuid::{Uuid, UuidError, uuid_crate_parse};

verus! {

/// Why configuring a build failed.
#[derive(Clone, Copy, Debug, PartialEq, Eq, Structural)]
pub enum BuildError {
    /// The UUID of the TA is not a valid UUID.
    Uuid(UuidError),
}

/// The value of a property of the TA, with its type.
pub enum PropertyValue {
    Bool(bool),
    U32(u32),
    Uuid(Uuid),
    Identity(u32, Uuid),
    Str(String),
    BinaryBlock(String),
    U64(u64),
}

/// A property of the TA: a name and a value.
pub struct Property {
    pub name: String,
    pub value: PropertyValue,
}

impl Property {
    /// The property `name` with the value.
    pub fn new(name: &str, value: PropertyValue) -> (p: Property)
        ensures
            p.name@ == name@,
            p.value == value,
    {
        Property { name: name.to_owned(), value }
    }
}

/// The configuration of a TA.
pub struct TaConfig {
    pub uuid: Uuid,
    pub ta_flags: u32,
    pub ta_data_size: u32,
    pub ta_stack_size: u32,
    pub ta_version: String,
    pub ta_description: String,
    pub trace_level: i32,
    pub trace_ext_prefix: String,
    pub ta_framework_stack_size: u32,
    pub ext_properties: Vec<Property>,
}

/// A configuration holds the defaults: no flags, 32 KiB of data, 2 KiB of
/// stack, trace level 4 with the prefix "TA", a framework stack of 2048
/// bytes and no extra properties.
pub open spec fn has_defaults(c: TaConfig) -> bool {
    &&& c.ta_flags == 0
    &&& c.ta_data_size == 32 * 1024
    &&& c.ta_stack_size == 2 * 1024
    &&& c.trace_level == 4
    &&& c.trace_ext_prefix@ == "TA"@
    &&& c.ta_framework_stack_size == 2048
    &&& c.ext_properties@.len() == 0
}

impl TaConfig {
    /// The default configuration of the TA of the UUID, version and
    /// description; fails when the UUID does not parse.
    pub fn new_default(uuid_str: &str, ta_version: &str, ta_description: &str) -> (r: core::result::Result<
        TaConfig,
        BuildError,
    >)
        ensures
            r is Ok <==> uuid_crate_parse(uuid_str@) is Some,
            r matches Ok(c) ==> c.uuid@ == uuid_crate_parse(uuid_str@).unwrap() && c.ta_version@
                == ta_version@ && c.ta_description@ == ta_description@ && has_defaults(c),
            r matches Err(e) ==> e == BuildError::Uuid(UuidError::InvalidString),
    {
        let uuid = match Uuid::parse_str(uuid_str) {
            Ok(u) => u,
            Err(e) => {
                return Err(BuildError::Uuid(e));
            },
        };
        let prefix = "TA".to_owned();
        proof {
            reveal_strlit("TA");
        }
        Ok(TaConfig {
            uuid,
            ta_flags: 0,
            ta_data_size: 32 * 1024,
            ta_stack_size: 2 * 1024,
            ta_version: ta_version.to_owned(),
            ta_description: ta_description.to_owned(),
            trace_level: 4,
            trace_ext_prefix: prefix,
            ta_framework_stack_size: 2048,
            ext_properties: Vec::new(),
        })
    }

    /// The configuration with the flags.
    pub fn ta_flags(self, flags: u32) -> (c: TaConfig)
        ensures
            c == (TaConfig { ta_flags: flags, ..self }),
    {
        let mut c = self;
        c.ta_flags = flags;
        c
    }

    /// The configuration with the stack size.
    pub fn ta_stack_size(self, stack_size: u32) -> (c: TaConfig)
        ensures
            c == (TaConfig { ta_stack_size: stack_size, ..self }),
    {
        let mut c = self;
        c.ta_stack_size = stack_size;
        c
    }

    /// The configuration with the data size.
    pub fn ta_data_size(self, size: u32) -> (c: TaConfig)
        ensures
            c == (TaConfig { ta_data_size: size, ..self }),
    {
        let mut c = self;
        c.ta_data_size = size;
        c
    }

    /// The configuration with the trace level.
    pub fn trace_level(self, level: i32) -> (c: TaConfig)
        ensures
            c == (TaConfig { trace_level: level, ..self }),
    {
        let mut c = self;
        c.trace_level = level;
        c
    }

    /// The configuration with the trace prefix.
    pub fn trace_ext_prefix(self, prefix: &str) -> (c: TaConfig)
        ensures
            c.trace_ext_prefix@ == prefix@,
            c.uuid == self.uuid,
            c.ta_flags == self.ta_flags,
            c.ta_data_size == self.ta_data_size,
            c.ta_stack_size == self.ta_stack_size,
            c.ta_version == self.ta_version,
            c.ta_description == self.ta_description,
            c.trace_level == self.trace_level,
            c.ta_framework_stack_size == self.ta_framework_stack_size,
            c.ext_properties == self.ext_properties,
    {
        let mut c = self;
        c.trace_ext_prefix = prefix.to_owned();
        c
    }

    /// The configuration with the framework's stack size.
    pub fn ta_framework_stack_size(self, stack_size: u32) -> (c: TaConfig)
        ensures
            c == (TaConfig { ta_framework_stack_size: stack_size, ..self }),
    {
        let mut c = self;
        c.ta_framework_stack_size = stack_size;
        c
    }

    /// The configuration with one more property, after the others.
    pub fn add_ext_property(self, name: &str, value: PropertyValue) -> (c: TaConfig)
        ensures
            c.ext_properties@.len() == self.ext_properties@.len() + 1,
            c.ext_properties@.take(self.ext_properties@.len() as int) == self.ext_properties@,
            c.ext_properties@.last().name@ == name@,
            c.ext_properties@.last().value == value,
            c.uuid == self.uuid,
            c.ta_flags == self.ta_flags,
            c.ta_data_size == self.ta_data_size,
            c.ta_stack_size == self.ta_stack_size,
            c.ta_version == self.ta_version,
            c.ta_description == self.ta_description,
            c.trace_level == self.trace_level,
            c.trace_ext_prefix == self.trace_ext_prefix,
            c.ta_framework_stack_size == self.ta_framework_stack_size,
    {
        let mut c = self;
        c.ext_properties.push(Property::new(name, value));
        assert(c.ext_properties@.take(self.ext_properties@.len() as int) =~= self.ext_properties@);
        c
    }

    /// The number of properties of the TA: the seven that every TA has, and
    /// the extra ones.
    pub fn property_count(&self) -> (n: usize)
        requires
            self.ext_properties@.len() + 7 <= usize::MAX,
        ensures
            n == self.ext_properties@.len() + 7,
    {
        self.ext_properties.len() + 7
    }

    /// The stack size in the TA's header: the TA's stack and the
    /// framework's.
    pub fn head_stack_size(&self) -> (n: u32)
        requires
            self.ta_stack_size + self.ta_framework_stack_size <= u32::MAX,
        ensures
            n == self.ta_stack_size + self.ta_framework_stack_size,
    {
        self.ta_stack_size + self.ta_framework_stack_size
    }
}

/// The Rust edition of the generated header: from 2024 on, `no_mangle` and
/// `link_section` are written as unsafe attributes.
#[derive(Clone, Copy, Debug, PartialEq, Eq, Structural)]
pub enum RustEdition {
    Before2024,
    Edition2024,
}

/// The `no_mangle` attribute of an edition.
pub open spec fn no_mangle_text(e: RustEdition) -> Seq<char> {
    match e {
        RustEdition::Before2024 => "#[no_mangle]"@,
        RustEdition::Edition2024 => "#[unsafe(no_mangle)]"@,
    }
}

/// The `link_section` attribute of an edition for a section.
pub open spec fn link_section_text(e: RustEdition, section: Seq<char>) -> Seq<char> {
    match e {
        RustEdition::Before2024 => "#[link_section = \""@ + section + "\"]"@,
        RustEdition::Edition2024 => "#[unsafe(link_section = \""@ + section + "\")]"@,
    }
}

impl RustEdition {
    /// The `no_mangle` attribute.
    pub fn no_mangle_attribute(&self) -> (s: String)
        ensures
            s@ == no_mangle_text(*self),
    {
        match self {
            RustEdition::Before2024 => {
                proof {
                    reveal_strlit("#[no_mangle]");
                }
                "#[no_mangle]".to_owned()
            },
            RustEdition::Edition2024 => {
                proof {
                    reveal_strlit("#[unsafe(no_mangle)]");
                }
                "#[unsafe(no_mangle)]".to_owned()
            },
        }
    }

    /// The `link_section` attribute for the section.
    pub fn link_section_attribute(&self, section: &str) -> (s: String)
        ensures
            s@ == link_section_text(*self, section@),
    {
        let mut s = String::new();
        match self {
            RustEdition::Before2024 => {
                push_str(&mut s, "#[link_section = \"");
                push_str(&mut s, section);
                push_str(&mut s, "\"]");
            },
            RustEdition::Edition2024 => {
                push_str(&mut s, "#[unsafe(link_section = \"");
                push_str(&mut s, section);
                push_str(&mut s, "\")]");
            },
        }
        assert(s@ =~= link_section_text(*self, section@));
        s
    }
}

/// A byte string literal of the characters and a terminating zero.
pub open spec fn binary_literal_text(s: Seq<char>) -> Seq<char> {
    "b\""@ + s + "\\0\""@
}

/// The byte string literal of `s` with a terminating zero, as the header
/// writes strings.
pub fn string_to_binary_codes(s: &str) -> (r: String)
    ensures
        r@ == binary_literal_text(s@),
{
    let mut r = String::new();
    push_str(&mut r, "b\"");
    push_str(&mut r, s);
    push_str(&mut r, "\\0\"");
    assert(r@ =~= binary_literal_text(s@));
    r
}

/// The Rust type of a property's value in the header.
pub open spec fn property_rust_type(v: PropertyValue) -> Seq<char> {
    match v {
        PropertyValue::U32(_) => "u32"@,
        PropertyValue::U64(_) => "u64"@,
        PropertyValue::Bool(_) => "bool"@,
        PropertyValue::Uuid(_) => "optee_utee_sys::TEE_UUID"@,
        PropertyValue::Str(_) => "&[u8]"@,
        PropertyValue::BinaryBlock(_) => "&[u8]"@,
        PropertyValue::Identity(..) => "optee_utee_sys::TEE_Identity"@,
    }
}

/// The property type of a property's value in the TA's property table.
pub open spec fn property_utee_type(v: PropertyValue) -> Seq<char> {
    match v {
        PropertyValue::U32(_) => "optee_utee_sys::user_ta_prop_type::USER_TA_PROP_TYPE_U32"@,
        PropertyValue::U64(_) => "optee_utee_sys::user_ta_prop_type::USER_TA_PROP_TYPE_U64"@,
        PropertyValue::Bool(_) => "optee_utee_sys::user_ta_prop_type::USER_TA_PROP_TYPE_BOOL"@,
        PropertyValue::Uuid(_) => "optee_utee_sys::user_ta_prop_type::USER_TA_PROP_TYPE_UUID"@,
        PropertyValue::Str(_) => "optee_utee_sys::user_ta_prop_type::USER_TA_PROP_TYPE_STRING"@,
        PropertyValue::BinaryBlock(_) => "optee_utee_sys::user_ta_prop_type::USER_TA_PROP_TYPE_BINARY_BLOCK"@,
        PropertyValue::Identity(..) => "optee_utee_sys::user_ta_prop_type::USER_TA_PROP_TYPE_IDENTITY"@,
    }
}

/// How the table points at a property's value: a reference for a value, the
/// slice itself for a string.
pub open spec fn property_value_conversion(var_name: Seq<char>, v: PropertyValue) -> Seq<char> {
    match v {
        PropertyValue::U32(_) => "&"@ + var_name + " as *const u32 as *mut _"@,
        PropertyValue::U64(_) => "&"@ + var_name + " as *const u64 as *mut _"@,
        PropertyValue::Bool(_) => "&"@ + var_name + " as *const bool as *mut _"@,
        PropertyValue::Uuid(_) => "&"@ + var_name + " as *const optee_utee_sys::TEE_UUID as *mut _"@,
        PropertyValue::Str(_) => var_name + " as *const [u8] as *mut _"@,
        PropertyValue::BinaryBlock(_) => var_name + " as *const [u8] as *mut _"@,
        PropertyValue::Identity(..) => "&"@ + var_name + " as *const optee_utee_sys::TEE_Identity as *mut _"@,
    }
}

impl PropertyValue {
    /// The Rust type of the value in the header.
    pub fn rust_type(&self) -> (s: &'static str)
        ensures
            s@ == property_rust_type(*self),
    {
        match self {
            PropertyValue::U32(_) => {
                proof { reveal_strlit("u32"); }
                "u32"
            },
            PropertyValue::U64(_) => {
                proof { reveal_strlit("u64"); }
                "u64"
            },
            PropertyValue::Bool(_) => {
                proof { reveal_strlit("bool"); }
                "bool"
            },
            PropertyValue::Uuid(_) => {
                proof { reveal_strlit("optee_utee_sys::TEE_UUID"); }
                "optee_utee_sys::TEE_UUID"
            },
            PropertyValue::Str(_) => {
                proof { reveal_strlit("&[u8]"); }
                "&[u8]"
            },
            PropertyValue::BinaryBlock(_) => {
                proof { reveal_strlit("&[u8]"); }
                "&[u8]"
            },
            PropertyValue::Identity(..) => {
                proof { reveal_strlit("optee_utee_sys::TEE_Identity"); }
                "optee_utee_sys::TEE_Identity"
            },
        }
    }

    /// The property type of the value in the TA's property table.
    pub fn utee_type(&self) -> (s: &'static str)
        ensures
            s@ == property_utee_type(*self),
    {
        match self {
            PropertyValue::U32(_) => {
                proof { reveal_strlit("optee_utee_sys::user_ta_prop_type::USER_TA_PROP_TYPE_U32"); }
                "optee_utee_sys::user_ta_prop_type::USER_TA_PROP_TYPE_U32"
            },
            PropertyValue::U64(_) => {
                proof { reveal_strlit("optee_utee_sys::user_ta_prop_type::USER_TA_PROP_TYPE_U64"); }
                "optee_utee_sys::user_ta_prop_type::USER_TA_PROP_TYPE_U64"
            },
            PropertyValue::Bool(_) => {
                proof { reveal_strlit("optee_utee_sys::user_ta_prop_type::USER_TA_PROP_TYPE_BOOL"); }
                "optee_utee_sys::user_ta_prop_type::USER_TA_PROP_TYPE_BOOL"
            },
            PropertyValue::Uuid(_) => {
                proof { reveal_strlit("optee_utee_sys::user_ta_prop_type::USER_TA_PROP_TYPE_UUID"); }
                "optee_utee_sys::user_ta_prop_type::USER_TA_PROP_TYPE_UUID"
            },
            PropertyValue::Str(_) => {
                proof { reveal_strlit("optee_utee_sys::user_ta_prop_type::USER_TA_PROP_TYPE_STRING"); }
                "optee_utee_sys::user_ta_prop_type::USER_TA_PROP_TYPE_STRING"
            },
            PropertyValue::BinaryBlock(_) => {
                proof {
                    reveal_strlit("optee_utee_sys::user_ta_prop_type::USER_TA_PROP_TYPE_BINARY_BLOCK");
                }
                "optee_utee_sys::user_ta_prop_type::USER_TA_PROP_TYPE_BINARY_BLOCK"
            },
            PropertyValue::Identity(..) => {
                proof {
                    reveal_strlit("optee_utee_sys::user_ta_prop_type::USER_TA_PROP_TYPE_IDENTITY");
                }
                "optee_utee_sys::user_ta_prop_type::USER_TA_PROP_TYPE_IDENTITY"
            },
        }
    }

    /// How the table points at the value stored in `var_name`.
    pub fn value_conversion(&self, var_name: &str) -> (s: String)
        ensures
            s@ == property_value_conversion(var_name@, *self),
    {
        let mut s = String::new();
        match self {
            PropertyValue::U32(_) => {
                push_str(&mut s, "&");
                push_str(&mut s, var_name);
                push_str(&mut s, " as *const u32 as *mut _");
            },
            PropertyValue::U64(_) => {
                push_str(&mut s, "&");
                push_str(&mut s, var_name);
                push_str(&mut s, " as *const u64 as *mut _");
            },
            PropertyValue::Bool(_) => {
                push_str(&mut s, "&");
                push_str(&mut s, var_name);
                push_str(&mut s, " as *const bool as *mut _");
            },
            PropertyValue::Uuid(_) => {
                push_str(&mut s, "&");
                push_str(&mut s, var_name);
                push_str(&mut s, " as *const optee_utee_sys::TEE_UUID as *mut _");
            },
            PropertyValue::Str(_) => {
                push_str(&mut s, var_name);
                push_str(&mut s, " as *const [u8] as *mut _");
            },
            PropertyValue::BinaryBlock(_) => {
                push_str(&mut s, var_name);
                push_str(&mut s, " as *const [u8] as *mut _");
            },
            PropertyValue::Identity(..) => {
                push_str(&mut s, "&");
                push_str(&mut s, var_name);
                push_str(&mut s, " as *const optee_utee_sys::TEE_Identity as *mut _");
            },
        }
        assert(s@ =~= property_value_conversion(var_name@, *self));
        s
    }
}

/// The name of the constant that holds the extra property at `index`,
/// counted from one.
pub open spec fn ext_property_var_text(index: nat) -> Seq<char> {
    "EXT_PROP_VALUE_"@ + dec_digits(index + 1)
}

/// The name of the constant that holds the extra property at `index`.
pub fn ext_property_var_name(index: usize) -> (s: String)
    requires
        index < u64::MAX,
    ensures
        s@ == ext_property_var_text(index as nat),
{
    let mut s = String::new();
    push_str(&mut s, "EXT_PROP_VALUE_");
    push_decimal(&mut s, index as u64 + 1);
    s
}

/// One row of the TA's property table, as code: the name, the property type
/// and the pointer to the value.
pub struct PropertyEntry {
    pub name: String,
    pub prop_type: String,
    pub value: String,
}

/// The code of a row of the property table.
pub open spec fn entry_text(e: PropertyEntry) -> (Seq<char>, Seq<char>, Seq<char>) {
    (e.name@, e.prop_type@, e.value@)
}

/// The row of one of the seven properties that every TA has: the three
/// flags read from `TA_FLAGS`, the data and stack sizes, the version and the
/// description.
pub open spec fn fixed_property_text(i: int) -> (Seq<char>, Seq<char>, Seq<char>) {
    if i == 0 {
        (
            "optee_utee_sys::TA_PROP_STR_SINGLE_INSTANCE"@,
            "optee_utee_sys::user_ta_prop_type::USER_TA_PROP_TYPE_BOOL"@,
            "&FLAG_BOOL as *const bool as *mut _"@,
        )
    } else if i == 1 {
        (
            "optee_utee_sys::TA_PROP_STR_MULTI_SESSION"@,
            "optee_utee_sys::user_ta_prop_type::USER_TA_PROP_TYPE_BOOL"@,
            "&FLAG_MULTI as *const bool as *mut _"@,
        )
    } else if i == 2 {
        (
            "optee_utee_sys::TA_PROP_STR_KEEP_ALIVE"@,
            "optee_utee_sys::user_ta_prop_type::USER_TA_PROP_TYPE_BOOL"@,
            "&FLAG_INSTANCE as *const bool as *mut _"@,
        )
    } else if i == 3 {
        (
            "optee_utee_sys::TA_PROP_STR_DATA_SIZE"@,
            "optee_utee_sys::user_ta_prop_type::USER_TA_PROP_TYPE_U32"@,
            "&TA_DATA_SIZE as *const u32 as *mut _"@,
        )
    } else if i == 4 {
        (
            "optee_utee_sys::TA_PROP_STR_STACK_SIZE"@,
            "optee_utee_sys::user_ta_prop_type::USER_TA_PROP_TYPE_U32"@,
            "&TA_STACK_SIZE as *const u32 as *mut _"@,
        )
    } else if i == 5 {
        (
            "optee_utee_sys::TA_PROP_STR_VERSION"@,
            "optee_utee_sys::user_ta_prop_type::USER_TA_PROP_TYPE_STRING"@,
            "TA_VERSION as *const [u8] as *mut _"@,
        )
    } else {
        (
            "optee_utee_sys::TA_PROP_STR_DESCRIPTION"@,
            "optee_utee_sys::user_ta_prop_type::USER_TA_PROP_TYPE_STRING"@,
            "TA_DESCRIPTION as *const [u8] as *mut _"@,
        )
    }
}

/// The row of the extra property at `index`: its name as a byte string, the
/// type of its value, and a pointer to the constant that holds the value.
pub open spec fn ext_property_text(index: nat, p: Property) -> (Seq<char>, Seq<char>, Seq<char>) {
    (
        binary_literal_text(p.name@) + ".as_ptr()"@,
        property_utee_type(p.value),
        property_value_conversion(ext_property_var_text(index), p.value),
    )
}

fn entry(name: &str, prop_type: &str, value: &str) -> (e: PropertyEntry)
    ensures
        entry_text(e) == (name@, prop_type@, value@),
{
    PropertyEntry { name: name.to_owned(), prop_type: prop_type.to_owned(), value: value.to_owned() }
}

/// The value that the header defines for each of the seven properties that
/// every TA has, by the property's name: each flag property reads its own
/// flag of `TA_FLAGS` (`FLAG_BOOL` is the single-instance flag, `FLAG_MULTI`
/// the multi-session flag, `FLAG_INSTANCE` the keep-alive flag), the sizes
/// read `TA_DATA_SIZE` and `TA_STACK_SIZE`, and the strings `TA_VERSION` and
/// `TA_DESCRIPTION`; with the type of that value.
pub open spec fn fixed_property_value(name: Seq<char>) -> (Seq<char>, Seq<char>) {
    if name == "optee_utee_sys::TA_PROP_STR_SINGLE_INSTANCE"@ {
        ("FLAG_BOOL"@, "bool"@)
    } else if name == "optee_utee_sys::TA_PROP_STR_MULTI_SESSION"@ {
        ("FLAG_MULTI"@, "bool"@)
    } else if name == "optee_utee_sys::TA_PROP_STR_KEEP_ALIVE"@ {
        ("FLAG_INSTANCE"@, "bool"@)
    } else if name == "optee_utee_sys::TA_PROP_STR_DATA_SIZE"@ {
        ("TA_DATA_SIZE"@, "u32"@)
    } else if name == "optee_utee_sys::TA_PROP_STR_STACK_SIZE"@ {
        ("TA_STACK_SIZE"@, "u32"@)
    } else if name == "optee_utee_sys::TA_PROP_STR_VERSION"@ {
        ("TA_VERSION"@, "[u8]"@)
    } else {
        ("TA_DESCRIPTION"@, "[u8]"@)
    }
}

/// How a row points at a value of the type: a reference for a flag or a
/// size, the slice itself for a string.
pub open spec fn points_at(value: (Seq<char>, Seq<char>)) -> Seq<char> {
    if value.1 == "[u8]"@ {
        value.0 + " as *const [u8] as *mut _"@
    } else {
        "&"@ + value.0 + " as *const "@ + value.1 + " as *mut _"@
    }
}

/// Every one of the seven rows that every TA has points at the value of its
/// own property, and no two of them are rows of the same property.
pub proof fn lemma_fixed_rows_point_at_their_own_values(i: int, j: int)
    requires
        0 <= i < 7,
        0 <= j < 7,
    ensures
        fixed_property_text(i).2 == points_at(fixed_property_value(fixed_property_text(i).0)),
        i != j ==> fixed_property_text(i).0 != fixed_property_text(j).0,
{
    let names = seq![
        "optee_utee_sys::TA_PROP_STR_SINGLE_INSTANCE"@,
        "optee_utee_sys::TA_PROP_STR_MULTI_SESSION"@,
        "optee_utee_sys::TA_PROP_STR_KEEP_ALIVE"@,
        "optee_utee_sys::TA_PROP_STR_DATA_SIZE"@,
        "optee_utee_sys::TA_PROP_STR_STACK_SIZE"@,
        "optee_utee_sys::TA_PROP_STR_VERSION"@,
        "optee_utee_sys::TA_PROP_STR_DESCRIPTION"@,
    ];
    reveal_strlit("optee_utee_sys::TA_PROP_STR_SINGLE_INSTANCE");
    reveal_strlit("optee_utee_sys::TA_PROP_STR_MULTI_SESSION");
    reveal_strlit("optee_utee_sys::TA_PROP_STR_KEEP_ALIVE");
    reveal_strlit("optee_utee_sys::TA_PROP_STR_DATA_SIZE");
    reveal_strlit("optee_utee_sys::TA_PROP_STR_STACK_SIZE");
    reveal_strlit("optee_utee_sys::TA_PROP_STR_VERSION");
    reveal_strlit("optee_utee_sys::TA_PROP_STR_DESCRIPTION");
    assert(names[2][28] != names[4][28]);
    assert forall|a: int, b: int| 0 <= a < 7 && 0 <= b < 7 && a != b implies #[trigger] names[a] != #[trigger] names[b] by {
        if a == 2 && b == 4 || a == 4 && b == 2 {
            assert(names[a][28] != names[b][28]);
        } else {
            assert(names[a].len() != names[b].len());
        }
    }
    assert(fixed_property_text(i).0 == names[i]);
    assert(fixed_property_text(j).0 == names[j]);
    reveal_strlit("[u8]");
    reveal_strlit("bool");
    reveal_strlit("u32");
    reveal_strlit("&");
    reveal_strlit(" as *const ");
    reveal_strlit(" as *mut _");
    reveal_strlit(" as *const [u8] as *mut _");
    reveal_strlit("FLAG_BOOL");
    reveal_strlit("FLAG_MULTI");
    reveal_strlit("FLAG_INSTANCE");
    reveal_strlit("TA_DATA_SIZE");
    reveal_strlit("TA_STACK_SIZE");
    reveal_strlit("TA_VERSION");
    reveal_strlit("TA_DESCRIPTION");
    reveal_strlit("&FLAG_BOOL as *const bool as *mut _");
    reveal_strlit("&FLAG_MULTI as *const bool as *mut _");
    reveal_strlit("&FLAG_INSTANCE as *const bool as *mut _");
    reveal_strlit("&TA_DATA_SIZE as *const u32 as *mut _");
    reveal_strlit("&TA_STACK_SIZE as *const u32 as *mut _");
    reveal_strlit("TA_VERSION as *const [u8] as *mut _");
    reveal_strlit("TA_DESCRIPTION as *const [u8] as *mut _");
    assert("bool"@[0] != "[u8]"@[0]);
    assert("u32"@.len() != "[u8]"@.len());
    if i == 0 {
        assert(points_at(fixed_property_value(names[0])) =~= "&FLAG_BOOL as *const bool as *mut _"@);
    } else if i == 1 {
        assert(points_at(fixed_property_value(names[1])) =~= "&FLAG_MULTI as *const bool as *mut _"@);
    } else if i == 2 {
        assert(points_at(fixed_property_value(names[2])) =~= "&FLAG_INSTANCE as *const bool as *mut _"@);
    } else if i == 3 {
        assert(points_at(fixed_property_value(names[3])) =~= "&TA_DATA_SIZE as *const u32 as *mut _"@);
    } else if i == 4 {
        assert(points_at(fixed_property_value(names[4])) =~= "&TA_STACK_SIZE as *const u32 as *mut _"@);
    } else if i == 5 {
        assert(points_at(fixed_property_value(names[5])) =~= "TA_VERSION as *const [u8] as *mut _"@);
    } else {
        assert(points_at(fixed_property_value(names[6])) =~= "TA_DESCRIPTION as *const [u8] as *mut _"@);
    }
}

/// The rows of the TA's property table: the seven that every TA has, then
/// one for each extra property, in order.
pub fn property_entries(conf: &TaConfig) -> (e: Vec<PropertyEntry>)
    requires
        conf.ext_properties@.len() + 7 <= usize::MAX,
        conf.ext_properties@.len() < u64::MAX,
    ensures
        e@.len() == 7 + conf.ext_properties@.len(),
        forall|i: int| 0 <= i < 7 ==> entry_text(#[trigger] e@[i]) == fixed_property_text(i),
        forall|i: int|
            0 <= i < conf.ext_properties@.len() ==> entry_text(#[trigger] e@[7 + i])
                == ext_property_text(i as nat, conf.ext_properties@[i]),
{
    let mut e: Vec<PropertyEntry> = Vec::new();
    e.push(entry(
        "optee_utee_sys::TA_PROP_STR_SINGLE_INSTANCE",
        "optee_utee_sys::user_ta_prop_type::USER_TA_PROP_TYPE_BOOL",
        "&FLAG_BOOL as *const bool as *mut _",
    ));
    e.push(entry(
        "optee_utee_sys::TA_PROP_STR_MULTI_SESSION",
        "optee_utee_sys::user_ta_prop_type::USER_TA_PROP_TYPE_BOOL",
        "&FLAG_MULTI as *const bool as *mut _",
    ));
    e.push(entry(
        "optee_utee_sys::TA_PROP_STR_KEEP_ALIVE",
        "optee_utee_sys::user_ta_prop_type::USER_TA_PROP_TYPE_BOOL",
        "&FLAG_INSTANCE as *const bool as *mut _",
    ));
    e.push(entry(
        "optee_utee_sys::TA_PROP_STR_DATA_SIZE",
        "optee_utee_sys::user_ta_prop_type::USER_TA_PROP_TYPE_U32",
        "&TA_DATA_SIZE as *const u32 as *mut _",
    ));
    e.push(entry(
        "optee_utee_sys::TA_PROP_STR_STACK_SIZE",
        "optee_utee_sys::user_ta_prop_type::USER_TA_PROP_TYPE_U32",
        "&TA_STACK_SIZE as *const u32 as *mut _",
    ));
    e.push(entry(
        "optee_utee_sys::TA_PROP_STR_VERSION",
        "optee_utee_sys::user_ta_prop_type::USER_TA_PROP_TYPE_STRING",
        "TA_VERSION as *const [u8] as *mut _",
    ));
    e.push(entry(
        "optee_utee_sys::TA_PROP_STR_DESCRIPTION",
        "optee_utee_sys::user_ta_prop_type::USER_TA_PROP_TYPE_STRING",
        "TA_DESCRIPTION as *const [u8] as *mut _",
    ));
    let n = conf.ext_properties.len();
    let mut k: usize = 0;
    while k < n
        invariant
            k <= n,
            n == conf.ext_properties@.len(),
            n < u64::MAX,
            e@.len() == 7 + k,
            forall|i: int| 0 <= i < 7 ==> entry_text(#[trigger] e@[i]) == fixed_property_text(i),
            forall|i: int|
                0 <= i < k ==> entry_text(#[trigger] e@[7 + i]) == ext_property_text(
                    i as nat,
                    conf.ext_properties@[i],
                ),
        decreases n - k,
    {
        let prop = &conf.ext_properties[k];
        let var_name = ext_property_var_name(k);
        let mut name = string_to_binary_codes(prop.name.as_str());
        push_str(&mut name, ".as_ptr()");
        let prop_type = prop.value.utee_type().to_owned();
        let value = prop.value.value_conversion(var_name.as_str());
        e.push(PropertyEntry { name, prop_type, value });
        k = k + 1;
    }
    e
}

/// How the TA is linked: through the C compiler or with `ld` itself.
#[derive(Clone, Copy, Debug, PartialEq, Eq, Structural)]
pub enum LinkerType {
    Cc,
    Ld,
}

/// The linker type that the name of the linker that rustc uses stands for:
/// `ld` for a name that ends in "ld" or "ld.bfd", else the C compiler; with
/// no name, the C compiler.
pub open spec fn detected_linker(rustc_linker: Option<Seq<char>>) -> LinkerType {
    match rustc_linker {
        Some(n) => if (n.len() >= 2 && n.subrange(n.len() - 2, n.len() as int) == "ld"@) || (n.len()
            >= 6 && n.subrange(n.len() - 6, n.len() as int) == "ld.bfd"@) {
            LinkerType::Ld
        } else {
            LinkerType::Cc
        },
        None => LinkerType::Cc,
    }
}

/// The linker of a TA.
#[derive(Clone, Copy, Debug, PartialEq, Eq, Structural)]
pub struct Linker {
    pub linker_type: LinkerType,
}

impl Linker {
    /// The linker of the type.
    pub fn new(linker_type: LinkerType) -> (l: Linker)
        ensures
            l.linker_type == linker_type,
    {
        Linker { linker_type }
    }

    /// The linker that the name of rustc's linker stands for (the value of
    /// `RUSTC_LINKER`, if it is set).
    pub fn auto(rustc_linker: Option<&str>) -> (l: Linker)
        ensures
            l.linker_type == detected_linker(match rustc_linker {
                Some(s) => Some(s@),
                None => None,
            }),
    {
        Linker { linker_type: Self::auto_detect_linker_type(rustc_linker) }
    }

    fn auto_detect_linker_type(rustc_linker: Option<&str>) -> (t: LinkerType)
        ensures
            t == detected_linker(match rustc_linker {
                Some(s) => Some(s@),
                None => None,
            }),
    {
        proof {
            reveal_strlit("ld");
            reveal_strlit("ld.bfd");
        }
        match rustc_linker {
            Some(name) => {
                if ends_with(name, "ld") || ends_with(name, "ld.bfd") {
                    LinkerType::Ld
                } else {
                    LinkerType::Cc
                }
            },
            None => LinkerType::Cc,
        }
    }

    /// The directives that link the TA with the TA dev kit's libraries
    /// under `search_path`, in the order cargo gets them.
    pub fn link_all_directives(&self, search_path: &str) -> (d: Vec<String>)
        ensures
            d@.map_values(|s: String| s@) == link_all_text(self.linker_type, search_path@),
    {
        let mut d: Vec<String> = Vec::new();
        d.push(concat("cargo:rustc-link-search=", search_path));
        d.push("cargo:rustc-link-lib=static=utee".to_owned());
        d.push("cargo:rustc-link-lib=static=utils".to_owned());
        d.push("cargo:rustc-link-arg=-e__ta_entry".to_owned());
        d.push("cargo:rustc-link-arg=-pie".to_owned());
        d.push("cargo:rustc-link-arg=-Os".to_owned());
        match self.linker_type {
            LinkerType::Cc => d.push("cargo:rustc-link-arg=-Wl,--sort-section=alignment".to_owned()),
            LinkerType::Ld => d.push("cargo:rustc-link-arg=--sort-section=alignment".to_owned()),
        }
        match self.linker_type {
            LinkerType::Cc => d.push("cargo:rustc-link-arg=-Wl,--dynamic-list=dyn_list".to_owned()),
            LinkerType::Ld => d.push("cargo:rustc-link-arg=--dynamic-list=dyn_list".to_owned()),
        }
        assert(d@.map_values(|s: String| s@) =~= link_all_text(self.linker_type, search_path@));
        d
    }

    /// The directives that set the linker script at `lds_path` (in
    /// `out_dir`), in the order cargo gets them; on an arm target the linker
    /// is first told not to warn of mismatches.
    pub fn linker_script_directives(&self, arm: bool, out_dir: &str, lds_path: &str) -> (d: Vec<String>)
        ensures
            d@.map_values(|s: String| s@) == linker_script_text(self.linker_type, arm, out_dir@, lds_path@),
    {
        let mut d: Vec<String> = Vec::new();
        d.push("cargo:rerun-if-env-changed=TARGET_TA".to_owned());
        if arm {
            match self.linker_type {
                LinkerType::Cc => d.push("cargo:rustc-link-arg=-Wl,--no-warn-mismatch".to_owned()),
                LinkerType::Ld => d.push("cargo:rustc-link-arg=--no-warn-mismatch".to_owned()),
            }
        }
        d.push(concat("cargo:rustc-link-search=", out_dir));
        d.push(concat("cargo:rerun-if-changed=", lds_path));
        d.push(concat("cargo:rustc-link-arg=-T", lds_path));
        assert(d@.map_values(|s: String| s@) =~= linker_script_text(self.linker_type, arm, out_dir@, lds_path@));
        d
    }
}

/// The directives that link a TA with the libraries under `search_path`.
pub open spec fn link_all_text(t: LinkerType, search_path: Seq<char>) -> Seq<Seq<char>> {
    seq![
        "cargo:rustc-link-search="@ + search_path,
        "cargo:rustc-link-lib=static=utee"@,
        "cargo:rustc-link-lib=static=utils"@,
        "cargo:rustc-link-arg=-e__ta_entry"@,
        "cargo:rustc-link-arg=-pie"@,
        "cargo:rustc-link-arg=-Os"@,
        match t {
            LinkerType::Cc => "cargo:rustc-link-arg=-Wl,--sort-section=alignment"@,
            LinkerType::Ld => "cargo:rustc-link-arg=--sort-section=alignment"@,
        },
        match t {
            LinkerType::Cc => "cargo:rustc-link-arg=-Wl,--dynamic-list=dyn_list"@,
            LinkerType::Ld => "cargo:rustc-link-arg=--dynamic-list=dyn_list"@,
        },
    ]
}

/// Whatever the linker, a TA is linked against the dev kit's libraries as
/// static libraries, `libutee` and `libutils`, found in the search path
/// given, with `__ta_entry` as its entry point, as a position-independent
/// executable.
pub proof fn lemma_link_all_links_the_dev_kit(t: LinkerType, search_path: Seq<char>)
    ensures
        link_all_text(t, search_path).contains("cargo:rustc-link-search="@ + search_path),
        link_all_text(t, search_path).contains("cargo:rustc-link-lib=static=utee"@),
        link_all_text(t, search_path).contains("cargo:rustc-link-lib=static=utils"@),
        link_all_text(t, search_path).contains("cargo:rustc-link-arg=-e__ta_entry"@),
        link_all_text(t, search_path).contains("cargo:rustc-link-arg=-pie"@),
{
    let d = link_all_text(t, search_path);
    assert(d[0] == "cargo:rustc-link-search="@ + search_path);
    assert(d[1] == "cargo:rustc-link-lib=static=utee"@);
    assert(d[2] == "cargo:rustc-link-lib=static=utils"@);
    assert(d[3] == "cargo:rustc-link-arg=-e__ta_entry"@);
    assert(d[4] == "cargo:rustc-link-arg=-pie"@);
}

/// The directives that set the linker script.
pub open spec fn linker_script_text(t: LinkerType, arm: bool, out_dir: Seq<char>, lds_path: Seq<char>) -> Seq<
    Seq<char>,
> {
    let mismatch: Seq<Seq<char>> = if arm {
        seq![
            match t {
                LinkerType::Cc => "cargo:rustc-link-arg=-Wl,--no-warn-mismatch"@,
                LinkerType::Ld => "cargo:rustc-link-arg=--no-warn-mismatch"@,
            },
        ]
    } else {
        seq![]
    };
    seq!["cargo:rerun-if-env-changed=TARGET_TA"@] + mismatch + seq![
        "cargo:rustc-link-search="@ + out_dir,
        "cargo:rerun-if-changed="@ + lds_path,
        "cargo:rustc-link-arg=-T"@ + lds_path,
    ]
}

/// The target is a 32-bit arm one: `TARGET_TA` is
/// "arm-unknown-linux-gnueabihf" or "arm-unknown-optee".
pub open spec fn arm_target(target_ta: Option<Seq<char>>) -> bool {
    match target_ta {
        Some(t) => t == "arm-unknown-linux-gnueabihf"@ || t == "arm-unknown-optee"@,
        None => false,
    }
}

/// Whether the value of `TARGET_TA`, if it is set, names a 32-bit arm
/// target.
pub fn is_arm_target(target_ta: Option<&str>) -> (b: bool)
    ensures
        b == arm_target(match target_ta {
            Some(s) => Some(s@),
            None => None,
        }),
{
    match target_ta {
        Some(t) => str_eq(t, "arm-unknown-linux-gnueabihf") || str_eq(t, "arm-unknown-optee"),
        None => false,
    }
}

/// A line of the TA dev kit's linker script is kept: it is no comment, and
/// no output format or architecture line of the other target.
pub open spec fn kept_line(l: Seq<char>, aarch64: bool) -> bool {
    &&& !(l.len() > 0 && l[0] == '#')
    &&& aarch64 ==> l != "OUTPUT_FORMAT(\"elf32-littlearm\")"@ && l != "OUTPUT_ARCH(arm)"@
    &&& !aarch64 ==> l != "OUTPUT_FORMAT(\"elf64-littleaarch64\")"@ && l != "OUTPUT_ARCH(aarch64)"@
}

/// A kept line as it is written: page alignment becomes 64 KiB alignment.
pub open spec fn rewritten_line(l: Seq<char>) -> Seq<char> {
    if l == "\t. = ALIGN(4096);"@ {
        "\t. = ALIGN(65536);"@
    } else {
        l
    }
}

/// The linker script of the TA: each kept line of the dev kit's script,
/// rewritten, with a newline after it.
pub open spec fn linker_script(lines: Seq<Seq<char>>, aarch64: bool) -> Seq<char>
    decreases lines.len(),
{
    if lines.len() == 0 {
        Seq::empty()
    } else {
        let l = lines.last();
        linker_script(lines.drop_last(), aarch64) + if kept_line(l, aarch64) {
            rewritten_line(l) + "\n"@
        } else {
            Seq::empty()
        }
    }
}

/// The linker script that `lines` of the TA dev kit's script become.
pub fn transform_linker_script(lines: &[String], aarch64: bool) -> (s: String)
    ensures
        s@ == linker_script(lines@.map_values(|l: String| l@), aarch64),
{
    let ghost ls = lines@.map_values(|l: String| l@);
    proof {
        reveal_strlit("OUTPUT_FORMAT(\"elf32-littlearm\")");
        reveal_strlit("OUTPUT_ARCH(arm)");
        reveal_strlit("OUTPUT_FORMAT(\"elf64-littleaarch64\")");
        reveal_strlit("OUTPUT_ARCH(aarch64)");
        reveal_strlit("\t. = ALIGN(4096);");
        reveal_strlit("\t. = ALIGN(65536);");
        reveal_strlit("\n");
    }
    let mut s = String::new();
    let mut i: usize = 0;
    while i < lines.len()
        invariant
            i <= lines@.len(),
            ls == lines@.map_values(|l: String| l@),
            s@ == linker_script(ls.take(i as int), aarch64),
        decreases lines@.len() - i,
    {
        let l = lines[i].as_str();
        let skip = if aarch64 {
            starts_with_char(l, '#') || str_eq(l, "OUTPUT_FORMAT(\"elf32-littlearm\")") || str_eq(
                l,
                "OUTPUT_ARCH(arm)",
            )
        } else {
            starts_with_char(l, '#') || str_eq(l, "OUTPUT_FORMAT(\"elf64-littleaarch64\")") || str_eq(
                l,
                "OUTPUT_ARCH(aarch64)",
            )
        };
        let ghost before = s@;
        if !skip {
            if str_eq(l, "\t. = ALIGN(4096);") {
                push_str(&mut s, "\t. = ALIGN(65536);");
                push_str(&mut s, "\n");
            } else {
                push_str(&mut s, l);
                push_str(&mut s, "\n");
            }
        }
        proof {
            let t = ls.take(i as int + 1);
            assert(t.drop_last() =~= ls.take(i as int));
            assert(t.last() == lines@[i as int]@);
            assert(s@ =~= linker_script(t, aarch64));
        }
        i = i + 1;
    }
    assert(ls.take(lines@.len() as int) =~= ls);
    s
}

/// The list of symbols that the TA exports to the loader.
pub fn dyn_list_text() -> (s: &'static str)
    ensures
        s@ == "{ __elf_phdr_info; trace_ext_prefix; trace_level; ta_head; };\n"@,
{
    "{ __elf_phdr_info; trace_ext_prefix; trace_level; ta_head; };\n"
}

/// The header file name when none is set.
pub open spec fn default_header_file_name() -> Seq<char> {
    "user_ta_header.rs"@
}

/// What a TA build is made of: where it writes, the edition and name of its
/// header, its configuration and its linker.
pub struct Builder {
    out_dir: Option<String>,
    edition: RustEdition,
    header_file_name: Option<String>,
    ta_config: TaConfig,
    linker_type: Option<LinkerType>,
}

impl Builder {
    pub closed spec fn spec_out_dir(&self) -> Option<Seq<char>> {
        match self.out_dir {
            Some(s) => Some(s@),
            None => None,
        }
    }

    pub closed spec fn spec_edition(&self) -> RustEdition {
        self.edition
    }

    pub closed spec fn spec_header_file_name(&self) -> Option<Seq<char>> {
        match self.header_file_name {
            Some(s) => Some(s@),
            None => None,
        }
    }

    pub closed spec fn spec_ta_config(&self) -> TaConfig {
        self.ta_config
    }

    pub closed spec fn spec_linker_type(&self) -> Option<LinkerType> {
        self.linker_type
    }

    /// A build of the configuration, for the edition, with no output
    /// directory, header name or linker set.
    pub fn new(edition: RustEdition, ta_config: TaConfig) -> (b: Builder)
        ensures
            b.spec_out_dir() is None,
            b.spec_header_file_name() is None,
            b.spec_linker_type() is None,
            b.spec_edition() == edition,
            b.spec_ta_config() == ta_config,
    {
        Builder { out_dir: None, edition, header_file_name: None, ta_config, linker_type: None }
    }

    /// The build, writing to `path`.
    pub fn out_dir(self, path: &str) -> (b: Builder)
        ensures
            b.spec_out_dir() == Some(path@),
            b.spec_header_file_name() == self.spec_header_file_name(),
            b.spec_linker_type() == self.spec_linker_type(),
            b.spec_edition() == self.spec_edition(),
            b.spec_ta_config() == self.spec_ta_config(),
    {
        let mut b = self;
        b.out_dir = Some(path.to_owned());
        b
    }

    /// The build, with the header file named `file_name`.
    pub fn header_file_name(self, file_name: &str) -> (b: Builder)
        ensures
            b.spec_header_file_name() == Some(file_name@),
            b.spec_out_dir() == self.spec_out_dir(),
            b.spec_linker_type() == self.spec_linker_type(),
            b.spec_edition() == self.spec_edition(),
            b.spec_ta_config() == self.spec_ta_config(),
    {
        let mut b = self;
        b.header_file_name = Some(file_name.to_owned());
        b
    }

    /// The build, linked by the linker type.
    pub fn linker_type(self, linker_type: LinkerType) -> (b: Builder)
        ensures
            b.spec_linker_type() == Some(linker_type),
            b.spec_out_dir() == self.spec_out_dir(),
            b.spec_header_file_name() == self.spec_header_file_name(),
            b.spec_edition() == self.spec_edition(),
            b.spec_ta_config() == self.spec_ta_config(),
    {
        let mut b = self;
        b.linker_type = Some(linker_type);
        b
    }

    /// The edition of the header.
    pub fn edition(&self) -> (e: RustEdition)
        ensures
            e == self.spec_edition(),
    {
        self.edition
    }

    /// The configuration.
    pub fn ta_config(&self) -> (c: &TaConfig)
        ensures
            *c == self.spec_ta_config(),
    {
        &self.ta_config
    }

    /// The output directory: the one set, else `env_out_dir` (the value of
    /// `OUT_DIR`, if it is set).
    pub fn resolved_out_dir(&self, env_out_dir: Option<&str>) -> (d: Option<String>)
        ensures
            self.spec_out_dir() is Some ==> (d matches Some(s) && Some(s@) == self.spec_out_dir()),
            self.spec_out_dir() is None ==> match env_out_dir {
                Some(e) => d matches Some(s) && s@ == e@,
                None => d is None,
            },
    {
        match &self.out_dir {
            Some(v) => Some(v.as_str().to_owned()),
            None => match env_out_dir {
                Some(e) => Some(e.to_owned()),
                None => None,
            },
        }
    }

    /// The name of the header file: the one set, else "user_ta_header.rs".
    pub fn header_file(&self) -> (s: String)
        ensures
            self.spec_header_file_name() matches Some(n) ==> s@ == n,
            self.spec_header_file_name() is None ==> s@ == default_header_file_name(),
    {
        match &self.header_file_name {
            Some(v) => v.as_str().to_owned(),
            None => {
                proof {
                    reveal_strlit("user_ta_header.rs");
                }
                "user_ta_header.rs".to_owned()
            },
        }
    }

    /// The linker of the build: of the type set, else the one that rustc's
    /// linker name stands for.
    pub fn linker(&self, rustc_linker: Option<&str>) -> (l: Linker)
        ensures
            self.spec_linker_type() matches Some(t) ==> l.linker_type == t,
            self.spec_linker_type() is None ==> l.linker_type == detected_linker(
                match rustc_linker {
                    Some(s) => Some(s@),
                    None => None,
                },
            ),
    {
        match self.linker_type {
            Some(v) => Linker::new(v),
            None => Linker::auto(rustc_linker),
        }
    }
}

/// The linker script is made line by line: the script of two runs of lines
/// is the script of the first followed by that of the second.
pub proof fn lemma_linker_script_append(a: Seq<Seq<char>>, b: Seq<Seq<char>>, aarch64: bool)
    ensures
        linker_script(a + b, aarch64) == linker_script(a, aarch64) + linker_script(b, aarch64),
    decreases b.len(),
{
    if b.len() == 0 {
        assert(a + b =~= a);
        assert(linker_script(a, aarch64) + linker_script(b, aarch64) =~= linker_script(a, aarch64));
    } else {
        let b0 = b.drop_last();
        lemma_linker_script_append(a, b0, aarch64);
        assert((a + b).drop_last() =~= a + b0);
        assert((a + b).last() == b.last());
        let tail = if kept_line(b.last(), aarch64) {
            rewritten_line(b.last()) + "\n"@
        } else {
            Seq::empty()
        };
        assert(linker_script(a + b, aarch64) =~= linker_script(a + b0, aarch64) + tail);
        assert(linker_script(b, aarch64) =~= linker_script(b0, aarch64) + tail);
        assert(linker_script(a + b, aarch64) =~= linker_script(a, aarch64) + linker_script(b, aarch64));
    }
}

/// A comment line leaves nothing in the linker script, and a line kept for
/// one target that names neither target's format or architecture is kept
/// for the other too.
pub proof fn lemma_linker_script_line(l: Seq<char>, aarch64: bool)
    ensures
        l.len() > 0 && l[0] == '#' ==> linker_script(seq![l], aarch64) == Seq::<char>::empty(),
        kept_line(l, aarch64) ==> linker_script(seq![l], aarch64) == rewritten_line(l) + "\n"@,
{
    assert(seq![l].drop_last() =~= Seq::<Seq<char>>::empty());
    assert(linker_script(Seq::<Seq<char>>::empty(), aarch64) =~= Seq::<char>::empty());
    if kept_line(l, aarch64) {
        assert(linker_script(seq![l], aarch64) =~= rewritten_line(l) + "\n"@);
    } else {
        assert(linker_script(seq![l], aarch64) =~= Seq::<char>::empty());
    }
}

} // verus!
