//! The text that declares a module's metadata.
//!
//! Every item of metadata becomes one static byte string in the `.modinfo`
//! section, of the form `field=content` for a loadable module and
//! `module.field=content` for a built-in one. The functions here build the
//! source text of those statics, and the names that go with a module's
//! parameters.

use vstd::prelude::*;
use vstd::string::{StringExecFns, StrSliceExecFns};
use vstd::utf8::encode_utf8;

use crate::template::same_text;

verus! {

/// The character of one decimal digit.
pub open spec fn digit_char(d: nat) -> char {
    if d == 0 {
        '0'
    } else if d == 1 {
        '1'
    } else if d == 2 {
        '2'
    } else if d == 3 {
        '3'
    } else if d == 4 {
        '4'
    } else if d == 5 {
        '5'
    } else if d == 6 {
        '6'
    } else if d == 7 {
        '7'
    } else if d == 8 {
        '8'
    } else {
        '9'
    }
}

/// The decimal digits of `n`, highest first, without leading zeros.
pub open spec fn decimal(n: nat) -> Seq<char>
    decreases n,
{
    if n < 10 {
        seq![digit_char(n)]
    } else {
        decimal(n / 10).push(digit_char(n % 10))
    }
}

/// The text of one decimal digit.
fn digit_str(d: usize) -> (s: &'static str)
    requires
        d < 10,
    ensures
        s@ == seq![digit_char(d as nat)],
{
    proof {
        reveal_strlit("0");
        reveal_strlit("1");
        reveal_strlit("2");
        reveal_strlit("3");
        reveal_strlit("4");
        reveal_strlit("5");
        reveal_strlit("6");
        reveal_strlit("7");
        reveal_strlit("8");
        reveal_strlit("9");
    }
    let s = if d == 0 {
        "0"
    } else if d == 1 {
        "1"
    } else if d == 2 {
        "2"
    } else if d == 3 {
        "3"
    } else if d == 4 {
        "4"
    } else if d == 5 {
        "5"
    } else if d == 6 {
        "6"
    } else if d == 7 {
        "7"
    } else if d == 8 {
        "8"
    } else {
        "9"
    };
    assert(s@ =~= seq![digit_char(d as nat)]);
    s
}

/// Writes `n` in decimal.
pub fn usize_to_decimal(n: usize) -> (s: String)
    ensures
        s@ == decimal(n as nat),
    decreases n,
{
    if n < 10 {
        String::from_str(digit_str(n))
    } else {
        let s = usize_to_decimal(n / 10).concat(digit_str(n % 10));
        assert(s@ =~= decimal(n as nat));
        s
    }
}

/// The condition under which a built-in module's static is compiled.
pub const CFG_BUILTIN: &'static str = "#[cfg(not(MODULE))]";

/// The condition under which a loadable module's static is compiled.
pub const CFG_LOADABLE: &'static str = "#[cfg(MODULE)]";

/// The text in front of the condition.
pub const STATIC_OPEN: &'static str = "\n            ";

/// The text between the condition and the name of the static.
pub const STATIC_ATTRIBUTES: &'static str =
    "\n            #[link_section = \".modinfo\"]\n            #[used]\n            pub static ";

/// The text between the name of the static and its length.
pub const STATIC_TYPE: &'static str = ": [u8; ";

/// The text between the length of the static and its value.
pub const STATIC_VALUE: &'static str = "] = *b\"";

/// The text behind the value: the zero byte that ends it, and the end of
/// the item.
pub const STATIC_CLOSE: &'static str = "\\0\";\n        ";

/// The metadata string of one item: `field=content`, with the module's name
/// and a dot in front for a built-in module.
pub open spec fn modinfo_string(
    module: Seq<char>,
    field: Seq<char>,
    content: Seq<char>,
    builtin: bool,
) -> Seq<char> {
    if builtin {
        module + "."@ + field + "="@ + content
    } else {
        field + "="@ + content
    }
}

/// Whether the metadata string with its closing zero byte has a length that
/// the machine can count.
pub open spec fn modinfo_fits(
    module: Seq<char>,
    field: Seq<char>,
    content: Seq<char>,
    builtin: bool,
) -> bool {
    encode_utf8(modinfo_string(module, field, content, builtin)).len() < usize::MAX
}

/// The source text of the static that holds one metadata string: its
/// condition, its attributes, its name `variable`, its length in bytes with
/// the closing zero byte counted, and its value.
pub open spec fn modinfo_static(
    module: Seq<char>,
    field: Seq<char>,
    content: Seq<char>,
    variable: Seq<char>,
    builtin: bool,
) -> Seq<char> {
    let string = modinfo_string(module, field, content, builtin);
    let cfg = if builtin {
        CFG_BUILTIN@
    } else {
        CFG_LOADABLE@
    };
    STATIC_OPEN@ + cfg + STATIC_ATTRIBUTES@ + variable + STATIC_TYPE@ + decimal(
        encode_utf8(string).len() + 1,
    ) + STATIC_VALUE@ + string + STATIC_CLOSE@
}

/// The name of the static for the item `field` of `module`.
pub open spec fn modinfo_variable(module: Seq<char>, field: Seq<char>) -> Seq<char> {
    "__"@ + module + "_"@ + field
}

/// The name of the static for the item `field` of the parameter `param`.
pub open spec fn modinfo_param_variable(
    module: Seq<char>,
    field: Seq<char>,
    param: Seq<char>,
) -> Seq<char> {
    "__"@ + module + "_"@ + field + "_"@ + param
}

/// Builds the metadata string of one item.
fn build_entry(module: &str, field: &str, content: &str, builtin: bool) -> (string: String)
    ensures
        string@ == modinfo_string(module@, field@, content@, builtin),
{
    if builtin {
        // Built-in modules prefix their metadata strings by `module.`.
        String::from_str(module).concat(".").concat(field).concat("=").concat(content)
    } else {
        // Loadable modules' metadata strings go as they are.
        String::from_str(field).concat("=").concat(content)
    }
}

/// Counts the bytes of a text.
fn byte_len(text: &str) -> (len: usize)
    ensures
        len == encode_utf8(text@).len(),
{
    text.as_bytes().len()
}

/// Builds the source text of the static that holds the metadata string
/// `string`.
fn build_static(string: &str, variable: &str, builtin: bool) -> (text: String)
    requires
        encode_utf8(string@).len() < usize::MAX,
    ensures
        text@ == STATIC_OPEN@ + (if builtin {
            CFG_BUILTIN@
        } else {
            CFG_LOADABLE@
        }) + STATIC_ATTRIBUTES@ + variable@ + STATIC_TYPE@ + decimal(
            encode_utf8(string@).len() + 1,
        ) + STATIC_VALUE@ + string@ + STATIC_CLOSE@,
{
    let cfg = if builtin {
        CFG_BUILTIN
    } else {
        CFG_LOADABLE
    };
    let length = usize_to_decimal(byte_len(string) + 1);
    String::from_str(STATIC_OPEN).concat(cfg).concat(STATIC_ATTRIBUTES).concat(variable).concat(
        STATIC_TYPE,
    ).concat(length.as_str()).concat(STATIC_VALUE).concat(string).concat(STATIC_CLOSE)
}

/// Builds the source text of the static that holds one metadata string.
pub fn __build_modinfo_string_base(
    module: &str,
    field: &str,
    content: &str,
    variable: &str,
    builtin: bool,
) -> (text: String)
    requires
        modinfo_fits(module@, field@, content@, builtin),
    ensures
        text@ == modinfo_static(module@, field@, content@, variable@, builtin),
{
    let string = build_entry(module, field, content, builtin);
    build_static(string.as_str(), variable, builtin)
}

/// The source text of the static that holds one metadata string, where the
/// string has a length that the machine can count, and nothing where it has
/// not.
pub open spec fn checked_static(
    module: Seq<char>,
    field: Seq<char>,
    content: Seq<char>,
    variable: Seq<char>,
    builtin: bool,
) -> Option<Seq<char>> {
    if modinfo_fits(module, field, content, builtin) {
        Some(modinfo_static(module, field, content, variable, builtin))
    } else {
        None
    }
}

/// Builds the source text of the static that holds one metadata string,
/// unless the string is longer than the machine can count.
pub fn try_build_modinfo_string_base(
    module: &str,
    field: &str,
    content: &str,
    variable: &str,
    builtin: bool,
) -> (text: Option<String>)
    ensures
        match text {
            Some(text) => checked_static(module@, field@, content@, variable@, builtin) == Some(
                text@,
            ),
            None => checked_static(module@, field@, content@, variable@, builtin) is None,
        },
{
    let string = build_entry(module, field, content, builtin);
    if byte_len(string.as_str()) < usize::MAX {
        Some(build_static(string.as_str(), variable, builtin))
    } else {
        None
    }
}

/// The statics of one item, the built-in one first, where both metadata
/// strings have a length that the machine can count.
pub open spec fn checked_statics(
    module: Seq<char>,
    field: Seq<char>,
    content: Seq<char>,
    variable: Seq<char>,
) -> Option<Seq<char>> {
    if modinfo_fits(module, field, content, true) && modinfo_fits(module, field, content, false) {
        Some(modinfo_statics(module, field, content, variable))
    } else {
        None
    }
}

/// Builds both statics of one item under the name `variable`, unless a
/// metadata string is longer than the machine can count.
pub fn try_build_modinfo_statics(module: &str, field: &str, content: &str, variable: &str) -> (text:
    Option<String>)
    ensures
        match text {
            Some(text) => checked_statics(module@, field@, content@, variable@) == Some(text@),
            None => checked_statics(module@, field@, content@, variable@) is None,
        },
{
    let builtin = match try_build_modinfo_string_base(module, field, content, variable, true) {
        Some(builtin) => builtin,
        None => {
            return None;
        },
    };
    match try_build_modinfo_string_base(module, field, content, variable, false) {
        Some(loadable) => Some(builtin.concat(loadable.as_str())),
        None => None,
    }
}

/// Builds the name of the static for the item `field` of `module`.
pub fn __build_modinfo_string_variable(module: &str, field: &str) -> (name: String)
    ensures
        name@ == modinfo_variable(module@, field@),
{
    String::from_str("__").concat(module).concat("_").concat(field)
}

/// Builds the static of one item for a built-in module.
pub fn build_modinfo_string_only_builtin(module: &str, field: &str, content: &str) -> (text: String)
    requires
        modinfo_fits(module@, field@, content@, true),
    ensures
        text@ == modinfo_static(
            module@,
            field@,
            content@,
            modinfo_variable(module@, field@),
            true,
        ),
{
    let variable = __build_modinfo_string_variable(module, field);
    __build_modinfo_string_base(module, field, content, variable.as_str(), true)
}

/// Builds the static of one item for a loadable module.
pub fn build_modinfo_string_only_loadable(module: &str, field: &str, content: &str) -> (text:
    String)
    requires
        modinfo_fits(module@, field@, content@, false),
    ensures
        text@ == modinfo_static(
            module@,
            field@,
            content@,
            modinfo_variable(module@, field@),
            false,
        ),
{
    let variable = __build_modinfo_string_variable(module, field);
    __build_modinfo_string_base(module, field, content, variable.as_str(), false)
}

/// The statics of one item: the built-in one, then the loadable one.
pub open spec fn modinfo_statics(
    module: Seq<char>,
    field: Seq<char>,
    content: Seq<char>,
    variable: Seq<char>,
) -> Seq<char> {
    modinfo_static(module, field, content, variable, true) + modinfo_static(
        module,
        field,
        content,
        variable,
        false,
    )
}

/// Builds both statics of one item.
pub fn build_modinfo_string(module: &str, field: &str, content: &str) -> (text: String)
    requires
        modinfo_fits(module@, field@, content@, true),
        modinfo_fits(module@, field@, content@, false),
    ensures
        text@ == modinfo_statics(module@, field@, content@, modinfo_variable(module@, field@)),
{
    let loadable = build_modinfo_string_only_loadable(module, field, content);
    build_modinfo_string_only_builtin(module, field, content).concat(loadable.as_str())
}

/// Builds both statics of an item that may be left out: nothing where it is.
pub fn build_modinfo_string_optional(module: &str, field: &str, content: Option<&str>) -> (text:
    String)
    requires
        content matches Some(c) ==> modinfo_fits(module@, field@, c@, true) && modinfo_fits(
            module@,
            field@,
            c@,
            false,
        ),
    ensures
        text@ == match content {
            Some(c) => modinfo_statics(module@, field@, c@, modinfo_variable(module@, field@)),
            None => Seq::<char>::empty(),
        },
{
    if let Some(content) = content {
        build_modinfo_string(module, field, content)
    } else {
        String::new()
    }
}

/// Builds both statics of one item of a parameter: the content is the
/// parameter's name, a colon and `content`, and the static is named after
/// module, item and parameter.
pub fn build_modinfo_string_param(module: &str, field: &str, param: &str, content: &str) -> (text:
    String)
    requires
        modinfo_fits(module@, field@, param@ + ":"@ + content@, true),
        modinfo_fits(module@, field@, param@ + ":"@ + content@, false),
    ensures
        text@ == modinfo_statics(
            module@,
            field@,
            param@ + ":"@ + content@,
            modinfo_param_variable(module@, field@, param@),
        ),
{
    let variable = String::from_str("__").concat(module).concat("_").concat(field).concat(
        "_",
    ).concat(param);
    let content = String::from_str(param).concat(":").concat(content);
    let loadable = __build_modinfo_string_base(
        module,
        field,
        content.as_str(),
        variable.as_str(),
        false,
    );
    __build_modinfo_string_base(module, field, content.as_str(), variable.as_str(), true).concat(
        loadable.as_str(),
    )
}

/// Both statics of one item of a parameter, where both metadata strings
/// have a length that the machine can count.
pub open spec fn checked_param_statics(
    module: Seq<char>,
    field: Seq<char>,
    param: Seq<char>,
    content: Seq<char>,
) -> Option<Seq<char>> {
    checked_statics(
        module,
        field,
        param + ":"@ + content,
        modinfo_param_variable(module, field, param),
    )
}

/// Builds both statics of one item of a parameter, unless a metadata string
/// is longer than the machine can count.
pub fn try_build_modinfo_string_param(module: &str, field: &str, param: &str, content: &str) -> (text:
    Option<String>)
    ensures
        match text {
            Some(text) => checked_param_statics(module@, field@, param@, content@) == Some(text@),
            None => checked_param_statics(module@, field@, param@, content@) is None,
        },
{
    let variable = String::from_str("__").concat(module).concat("_").concat(field).concat(
        "_",
    ).concat(param);
    let content = String::from_str(param).concat(":").concat(content);
    try_build_modinfo_statics(module, field, content.as_str(), variable.as_str())
}

/// The name of the operations that are generated for an array parameter
/// with elements of type `vals` and at most `max_length` of them.
pub open spec fn array_ops_name(vals: Seq<char>, max_length: nat) -> Seq<char> {
    "__generated_array_ops_"@ + vals + "_"@ + decimal(max_length)
}

/// Builds the name of the operations that are generated for an array
/// parameter.
pub fn generated_array_ops_name(vals: &str, max_length: usize) -> (name: String)
    ensures
        name@ == array_ops_name(vals@, max_length as nat),
{
    let length = usize_to_decimal(max_length);
    String::from_str("__generated_array_ops_").concat(vals).concat("_").concat(length.as_str())
}

/// What `u32::from_str_radix` makes of `digits` in the given radix: the
/// number, or nothing where the text is not a number of that radix or does
/// not fit.
pub uninterp spec fn u32_from_str_radix(digits: Seq<char>, radix: u32) -> Option<u32>;

/// Calls `u32::from_str_radix`, which depends on its arguments alone, and
/// keeps its number; its error becomes `None`. The radix is held to the range
/// outside of which that function panics.
#[verifier::external_body]
fn parse_u32(digits: &str, radix: u32) -> (parsed: Option<u32>)
    requires
        2 <= radix <= 36,
    ensures
        parsed == u32_from_str_radix(digits@, radix),
{
    u32::from_str_radix(digits, radix).ok()
}

/// Whether `text` starts with a zero and then `mark`.
pub open spec fn has_radix_prefix(text: Seq<char>, mark: char) -> bool {
    text.len() >= 2 && text[0] == '0' && text[1] == mark
}

/// The radix in which a permission literal is written: sixteen behind `0x`,
/// eight behind `0o`, two behind `0b`, and ten otherwise.
pub open spec fn permission_radix(perms: Seq<char>) -> u32 {
    if has_radix_prefix(perms, 'x') {
        16
    } else if has_radix_prefix(perms, 'o') {
        8
    } else if has_radix_prefix(perms, 'b') {
        2
    } else {
        10
    }
}

/// The digits of a permission literal: what stands behind its prefix, or
/// all of it where it has none.
pub open spec fn permission_digits(perms: Seq<char>) -> Seq<char> {
    if permission_radix(perms) == 10 {
        perms
    } else {
        perms.subrange(2, perms.len() as int)
    }
}

/// Whether a parsed permission literal denies writing to everybody: it is a
/// number, and none of its three write bits is set.
pub open spec fn mode_is_readonly(parsed: Option<u32>) -> bool {
    match parsed {
        Some(mode) => mode & 0o222 == 0,
        None => false,
    }
}

/// Tells whether a parsed permission literal denies writing to everybody. A
/// literal that is no number does not.
pub fn parsed_permissions_are_readonly(parsed: Option<u32>) -> (readonly: bool)
    ensures
        readonly == mode_is_readonly(parsed),
{
    match parsed {
        Some(mode) => mode & 0o222 == 0,
        None => false,
    }
}

/// Takes a zero and then `mark` off the front of `text`, where they are
/// there.
fn strip_radix_prefix<'a>(text: &'a str, mark: char) -> (rest: Option<&'a str>)
    ensures
        match rest {
            Some(rest) => has_radix_prefix(text@, mark) && rest@ == text@.subrange(
                2,
                text@.len() as int,
            ),
            None => !has_radix_prefix(text@, mark),
        },
{
    let len = text.unicode_len();
    if len >= 2 && text.get_char(0) == '0' && text.get_char(1) == mark {
        Some(text.substring_char(2, len))
    } else {
        None
    }
}

/// Whether the permission literal `perms` denies writing to everybody.
pub open spec fn permissions_readonly(perms: Seq<char>) -> bool {
    mode_is_readonly(u32_from_str_radix(permission_digits(perms), permission_radix(perms)))
}

/// Tells whether the permission literal `perms` denies writing to
/// everybody. The literal is a number in decimal, or in another radix behind
/// `0x`, `0o` or `0b`.
pub fn permissions_are_readonly(perms: &str) -> (readonly: bool)
    ensures
        readonly == permissions_readonly(perms@),
{
    let parsed = if let Some(n) = strip_radix_prefix(perms, 'x') {
        parse_u32(n, 16)
    } else if let Some(n) = strip_radix_prefix(perms, 'o') {
        parse_u32(n, 8)
    } else if let Some(n) = strip_radix_prefix(perms, 'b') {
        parse_u32(n, 2)
    } else {
        parse_u32(perms, 10)
    };
    parsed_permissions_are_readonly(parsed)
}

/// Whether `param_type` names a type that a parameter can have.
pub open spec fn is_param_type(param_type: Seq<char>) -> bool {
    ||| param_type == "bool"@
    ||| param_type == "i8"@
    ||| param_type == "u8"@
    ||| param_type == "i16"@
    ||| param_type == "u16"@
    ||| param_type == "i32"@
    ||| param_type == "u32"@
    ||| param_type == "i64"@
    ||| param_type == "u64"@
    ||| param_type == "isize"@
    ||| param_type == "usize"@
    ||| param_type == "str"@
}

/// The path of the operations for parameters of type `param_type`.
pub open spec fn ops_path(param_type: Seq<char>) -> Seq<char> {
    if param_type == "bool"@ {
        "kernel::module_param::PARAM_OPS_BOOL"@
    } else if param_type == "i8"@ {
        "kernel::module_param::PARAM_OPS_I8"@
    } else if param_type == "u8"@ {
        "kernel::module_param::PARAM_OPS_U8"@
    } else if param_type == "i16"@ {
        "kernel::module_param::PARAM_OPS_I16"@
    } else if param_type == "u16"@ {
        "kernel::module_param::PARAM_OPS_U16"@
    } else if param_type == "i32"@ {
        "kernel::module_param::PARAM_OPS_I32"@
    } else if param_type == "u32"@ {
        "kernel::module_param::PARAM_OPS_U32"@
    } else if param_type == "i64"@ {
        "kernel::module_param::PARAM_OPS_I64"@
    } else if param_type == "u64"@ {
        "kernel::module_param::PARAM_OPS_U64"@
    } else if param_type == "isize"@ {
        "kernel::module_param::PARAM_OPS_ISIZE"@
    } else if param_type == "usize"@ {
        "kernel::module_param::PARAM_OPS_USIZE"@
    } else {
        "kernel::module_param::PARAM_OPS_STR"@
    }
}

/// Tells whether `param_type` names a type that a parameter can have.
pub fn param_type_is_known(param_type: &str) -> (known: bool)
    ensures
        known == is_param_type(param_type@),
{
    same_text(param_type, "bool") || same_text(param_type, "i8") || same_text(param_type, "u8")
        || same_text(param_type, "i16") || same_text(param_type, "u16") || same_text(
        param_type,
        "i32",
    ) || same_text(param_type, "u32") || same_text(param_type, "i64") || same_text(
        param_type,
        "u64",
    ) || same_text(param_type, "isize") || same_text(param_type, "usize") || same_text(
        param_type,
        "str",
    )
}

/// Gives the path of the operations for parameters of type `param_type`,
/// which is one of the types that a parameter can have.
pub fn param_ops_path(param_type: &str) -> (path: &'static str)
    requires
        is_param_type(param_type@),
    ensures
        path@ == ops_path(param_type@),
{
    if same_text(param_type, "bool") {
        "kernel::module_param::PARAM_OPS_BOOL"
    } else if same_text(param_type, "i8") {
        "kernel::module_param::PARAM_OPS_I8"
    } else if same_text(param_type, "u8") {
        "kernel::module_param::PARAM_OPS_U8"
    } else if same_text(param_type, "i16") {
        "kernel::module_param::PARAM_OPS_I16"
    } else if same_text(param_type, "u16") {
        "kernel::module_param::PARAM_OPS_U16"
    } else if same_text(param_type, "i32") {
        "kernel::module_param::PARAM_OPS_I32"
    } else if same_text(param_type, "u32") {
        "kernel::module_param::PARAM_OPS_U32"
    } else if same_text(param_type, "i64") {
        "kernel::module_param::PARAM_OPS_I64"
    } else if same_text(param_type, "u64") {
        "kernel::module_param::PARAM_OPS_U64"
    } else if same_text(param_type, "isize") {
        "kernel::module_param::PARAM_OPS_ISIZE"
    } else if same_text(param_type, "usize") {
        "kernel::module_param::PARAM_OPS_USIZE"
    } else {
        "kernel::module_param::PARAM_OPS_STR"
    }
}

} // verus!
