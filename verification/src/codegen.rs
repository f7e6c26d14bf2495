//! Generating the source text that a module's declaration stands for.
//!
//! A declaration is read, and the text of the items that make a module of
//! the declared type is built from it: the entry points, the metadata
//! strings, and for every parameter its storage, its reader and its
//! description for the loader. The text is built from templates, into which
//! the declared values are filled.

use vstd::prelude::*;
use vstd::string::StringExecFns;

use crate::module::{
    array_ops_name,
    __build_modinfo_string_variable,
    checked_param_statics,
    checked_static,
    checked_statics,
    decimal,
    generated_array_ops_name,
    is_param_type,
    modinfo_variable,
    ops_path,
    param_ops_path,
    param_type_is_known,
    permissions_are_readonly,
    permissions_readonly,
    try_build_modinfo_statics,
    try_build_modinfo_string_base,
    try_build_modinfo_string_param,
    usize_to_decimal,
};
use crate::module_info::{
    expect_end,
    expect_group,
    expect_this_punct,
    expected_group,
    expected_this_punct,
    get_byte_string,
    get_literal,
    named_byte_string,
    named_literal,
    nth,
    text_view,
    ModuleInfo,
    ModuleInfoView,
    ParseError,
};
use crate::module_param::{
    expect_type,
    get_default,
    named_default,
    param_type,
    param_type_len,
    ParamType,
    ParamTypeView,
};
use crate::template::{arg_views, fill, formatted, same_text, Arg, ArgView};
use crate::token_stream::{views, Delimiter, IntoIter, TokenTree, TokenView};

verus! {

/// The items that make a module of a device: a type that holds the
/// registration of the device, and the declaration of the module of that
/// type.
pub const MISC_DEVICE_TEMPLATE: &'static str = "
            #[doc(hidden)]
            struct {module} {{
                _dev: core::pin::Pin<alloc::boxed::Box<kernel::miscdev::Registration>>,
            }}

            impl kernel::KernelModule for {module} {{
                fn init() -> kernel::Result<Self> {{
                    Ok(Self {{
                        _dev: kernel::miscdev::Registration::new_pinned::<{type_}>(
                            kernel::c_str!(\"{name}\"),
                            None,
                            (),
                        )?,
                    }})
                }}
            }}

            kernel::prelude::module! {{
                type: {module},
                name: b\"{name}\",
                {author}
                {description}
                license: b\"{license}\",
                {alias}
            }}
        ";

/// The reader of a parameter that cannot be written: it needs no lock.
pub const READ_READONLY_TEMPLATE: &'static str = "
                        fn read(&self) -> &<{param_type_internal} as kernel::module_param::ModuleParam>::Value {{
                            // SAFETY: Parameters do not need to be locked because they are read only or sysfs is not enabled.
                            unsafe {{ <{param_type_internal} as kernel::module_param::ModuleParam>::value(&__{name}_{param_name}_value) }}
                        }}
                    ";

/// The reader of a parameter that can be written: it asks for the lock
/// that guards the parameters.
pub const READ_LOCKED_TEMPLATE: &'static str = "
                        fn read<'lck>(&self, lock: &'lck kernel::KParamGuard) -> &'lck <{param_type_internal} as kernel::module_param::ModuleParam>::Value {{
                            // SAFETY: Parameters are locked by `KParamGuard`.
                            unsafe {{ <{param_type_internal} as kernel::module_param::ModuleParam>::value(&__{name}_{param_name}_value) }}
                        }}
                    ";

/// The reference from a parameter's description for the loader to its
/// storage.
pub const KPARAM_TEMPLATE: &'static str = "
                    kernel::bindings::kernel_param__bindgen_ty_1 {{
                        arg: unsafe {{ &__{name}_{param_name}_value }} as *const _ as *mut kernel::c_types::c_void,
                    }},
                ";

/// The items of one parameter: its storage, the type and the constant
/// through which it is read, and its description for the loader.
pub const PARAM_TEMPLATE: &'static str = "
                    static mut __{name}_{param_name}_value: {param_type_internal} = {param_default};

                    struct __{name}_{param_name};

                    impl __{name}_{param_name} {{ {read_func} }}

                    const {param_name}: __{name}_{param_name} = __{name}_{param_name};

                    // Note: the C macro that generates the static structs for the `__param` section
                    // asks for them to be `aligned(sizeof(void *))`. However, that was put in place
                    // in 2003 in commit 38d5b085d2 (\"[PATCH] Fix over-alignment problem on x86-64\")
                    // to undo GCC over-alignment of static structs of >32 bytes. It seems that is
                    // not the case anymore, so we simplify to a transparent representation here
                    // in the expectation that it is not needed anymore.
                    #[repr(transparent)]
                    struct __{name}_{param_name}_RacyKernelParam(kernel::bindings::kernel_param);

                    unsafe impl Sync for __{name}_{param_name}_RacyKernelParam {{
                    }}

                    #[cfg(not(MODULE))]
                    const __{name}_{param_name}_name: *const kernel::c_types::c_char = b\"{name}.{param_name}\\0\" as *const _ as *const kernel::c_types::c_char;

                    #[cfg(MODULE)]
                    const __{name}_{param_name}_name: *const kernel::c_types::c_char = b\"{param_name}\\0\" as *const _ as *const kernel::c_types::c_char;

                    #[link_section = \"__param\"]
                    #[used]
                    static __{name}_{param_name}_struct: __{name}_{param_name}_RacyKernelParam = __{name}_{param_name}_RacyKernelParam(kernel::bindings::kernel_param {{
                        name: __{name}_{param_name}_name,
                        // SAFETY: `__this_module` is constructed by the kernel at load time and will not be freed until the module is unloaded.
                        #[cfg(MODULE)]
                        mod_: unsafe {{ &kernel::bindings::__this_module as *const _ as *mut _ }},
                        #[cfg(not(MODULE))]
                        mod_: core::ptr::null_mut(),
                        ops: unsafe {{ &{ops} }} as *const kernel::bindings::kernel_param_ops,
                        perm: {permissions},
                        level: -1,
                        flags: 0,
                        __bindgen_anon_1: {kparam}
                    }});
                    ";

/// The operations of an array parameter.
pub const ARRAY_OPS_TEMPLATE: &'static str = "
                kernel::make_param_ops!(
                    {ops_name},
                    kernel::module_param::ArrayParam<{vals}, {{ {max_length} }}>
                );
            ";

/// The items of a module: its name for the log, the place of its state, its
/// entry points for loading and for building in, and its metadata.
pub const MODULE_TEMPLATE: &'static str = "
            /// The module name.
            ///
            /// Used by the printing macros, e.g. [`info!`].
            const __LOG_PREFIX: &[u8] = b\"{name}\\0\";

            static mut __MOD: Option<{type_}> = None;

            // SAFETY: `__this_module` is constructed by the kernel at load time and will not be freed until the module is unloaded.
            #[cfg(MODULE)]
            static THIS_MODULE: kernel::ThisModule = unsafe {{ kernel::ThisModule::from_ptr(&kernel::bindings::__this_module as *const _ as *mut _) }};
            #[cfg(not(MODULE))]
            static THIS_MODULE: kernel::ThisModule = unsafe {{ kernel::ThisModule::from_ptr(core::ptr::null_mut()) }};

            // Loadable modules need to export the `{{init,cleanup}}_module` identifiers
            #[cfg(MODULE)]
            #[no_mangle]
            pub extern \"C\" fn init_module() -> kernel::c_types::c_int {{
                __init()
            }}

            #[cfg(MODULE)]
            #[no_mangle]
            pub extern \"C\" fn cleanup_module() {{
                __exit()
            }}

            // Built-in modules are initialized through an initcall pointer
            // and the identifiers need to be unique
            #[cfg(not(MODULE))]
            #[cfg(not(CONFIG_HAVE_ARCH_PREL32_RELOCATIONS))]
            #[link_section = \"{initcall_section}\"]
            #[used]
            pub static __{name}_initcall: extern \"C\" fn() -> kernel::c_types::c_int = __{name}_init;

            #[cfg(not(MODULE))]
            #[cfg(CONFIG_HAVE_ARCH_PREL32_RELOCATIONS)]
            global_asm!(
                r#\".section \"{initcall_section}\", \"a\"
                __{name}_initcall:
                    .long   __{name}_init - .
                    .previous
                \"#
            );

            #[cfg(not(MODULE))]
            #[no_mangle]
            pub extern \"C\" fn __{name}_init() -> kernel::c_types::c_int {{
                __init()
            }}

            #[cfg(not(MODULE))]
            #[no_mangle]
            pub extern \"C\" fn __{name}_exit() {{
                __exit()
            }}

            fn __init() -> kernel::c_types::c_int {{
                match <{type_} as kernel::KernelModule>::init() {{
                    Ok(m) => {{
                        unsafe {{
                            __MOD = Some(m);
                        }}
                        return 0;
                    }}
                    Err(e) => {{
                        return e.to_kernel_errno();
                    }}
                }}
            }}

            fn __exit() {{
                unsafe {{
                    // Invokes `drop()` on `__MOD`, which should be used for cleanup.
                    __MOD = None;
                }}
            }}

            {author}
            {description}
            {license}
            {alias}

            // Built-in modules also export the `file` modinfo string
            {file}

            {params_modinfo}

            {generated_array_types}
        ";

/// The section in which a built-in module enters its initialisation.
pub const INITCALL_SECTION: &'static str = ".initcall6.init";

/// The argument called `name` with the value `value`.
pub open spec fn arg(name: Seq<char>, value: Seq<char>) -> ArgView {
    ArgView { name, value }
}

/// The entry `key: b"value",` of a declaration, or nothing where there is
/// no value.
pub open spec fn optional_entry(key: Seq<char>, value: Option<Seq<char>>) -> Seq<char> {
    match value {
        Some(value) => key + ": b\""@ + value + "\","@,
        None => Seq::empty(),
    }
}

/// Builds the entry `key: b"value",` of a declaration, or nothing where
/// there is no value.
pub fn build_optional_entry(key: &str, value: &Option<String>) -> (entry: String)
    ensures
        entry@ == optional_entry(key@, text_view(*value)),
{
    match value {
        Some(value) => String::from_str(key).concat(": b\"").concat(value.as_str()).concat("\","),
        None => String::new(),
    }
}

/// The name of the type that is generated to hold the registration of a
/// device whose sessions have the type `type_`.
pub open spec fn misc_device_module(type_: Seq<char>) -> Seq<char> {
    "__internal_ModuleFor"@ + type_
}

/// The values that are filled into the template of a device's module.
pub open spec fn misc_device_args(info: ModuleInfoView) -> Seq<ArgView> {
    seq![
        arg("module"@, misc_device_module(info.type_)),
        arg("type_"@, info.type_),
        arg("name"@, info.name),
        arg("author"@, optional_entry("author"@, info.author)),
        arg("description"@, optional_entry("description"@, info.description)),
        arg("alias"@, optional_entry("alias"@, info.alias)),
        arg("license"@, info.license),
    ]
}

/// What a text that may have failed to be built counts as.
pub open spec fn built(text: Option<Seq<char>>, fault: ParseError) -> Result<Seq<char>, ParseError> {
    match text {
        Some(text) => Ok(text),
        None => Err(fault),
    }
}

/// The source text that the declaration `tokens` of a device's module
/// stands for. Parameters that the declaration names are left aside.
pub open spec fn misc_device_text(tokens: Seq<TokenView>) -> Result<Seq<char>, ParseError> {
    match ModuleInfoView::parse(tokens) {
        Err(e) => Err(e),
        Ok(info) => built(
            formatted(MISC_DEVICE_TEMPLATE@, misc_device_args(info)),
            ParseError::BadTemplate,
        ),
    }
}

/// Declares a module that exposes a single device: reads the declaration
/// `tokens` and builds the source text of a type that registers the device
/// on its creation, and of the declaration of the module of that type.
pub fn module_misc_device(tokens: &[TokenTree]) -> (text: Result<String, ParseError>)
    ensures
        match text {
            Ok(text) => misc_device_text(views(tokens@)) == Ok::<Seq<char>, ParseError>(text@),
            Err(e) => misc_device_text(views(tokens@)) == Err::<Seq<char>, ParseError>(e),
        },
{
    let mut it = IntoIter::new(tokens);
    let info = match ModuleInfo::parse(&mut it) {
        Ok(info) => info,
        Err(e) => {
            return Err(e);
        },
    };
    let module = String::from_str("__internal_ModuleFor").concat(info.type_.as_str());
    let author = build_optional_entry("author", &info.author);
    let description = build_optional_entry("description", &info.description);
    let alias = build_optional_entry("alias", &info.alias);
    let args = [
        Arg { name: "module", value: module.as_str() },
        Arg { name: "type_", value: info.type_.as_str() },
        Arg { name: "name", value: info.name.as_str() },
        Arg { name: "author", value: author.as_str() },
        Arg { name: "description", value: description.as_str() },
        Arg { name: "alias", value: alias.as_str() },
        Arg { name: "license", value: info.license.as_str() },
    ];
    assert(arg_views(args@) =~= misc_device_args(info@));
    match fill(MISC_DEVICE_TEMPLATE, args.as_slice()) {
        Some(text) => Ok(text),
        None => Err(ParseError::BadTemplate),
    }
}

/// One parameter as its declaration gives it.
#[derive(Debug, PartialEq, Eq)]
pub struct ParamDecl {
    /// The parameter's name.
    pub name: String,
    /// The parameter's type.
    pub param_type: ParamType,
    /// The expression of the parameter's default value.
    pub default: String,
    /// The parameter's permissions, as the literal that was written.
    pub permissions: String,
    /// What the parameter is.
    pub description: String,
}

/// The mathematical value of a [`ParamDecl`].
pub struct ParamDeclView {
    /// The parameter's name.
    pub name: Seq<char>,
    /// The parameter's type.
    pub param_type: ParamTypeView,
    /// The expression of the parameter's default value.
    pub default: Seq<char>,
    /// The parameter's permissions.
    pub permissions: Seq<char>,
    /// What the parameter is.
    pub description: Seq<char>,
}

impl View for ParamDecl {
    type V = ParamDeclView;

    open spec fn view(&self) -> ParamDeclView {
        ParamDeclView {
            name: self.name@,
            param_type: self.param_type@,
            default: self.default@,
            permissions: self.permissions@,
            description: self.description@,
        }
    }
}

/// What is made of the body of a parameter's declaration: the three entries
/// `default`, `permissions` and `description`, in this order, and nothing
/// behind them.
pub open spec fn param_body(
    name: Seq<char>,
    param_type: ParamTypeView,
    body: Seq<TokenView>,
) -> Result<ParamDeclView, ParseError> {
    match named_default(param_type, body) {
        Err(e) => Err(e),
        Ok(default) => match named_literal(body.skip(4), "permissions"@) {
            Err(e) => Err(e),
            Ok(permissions) => match named_byte_string(body.skip(8), "description"@) {
                Err(e) => Err(e),
                Ok(description) => if body.skip(12).len() > 0 {
                    Err(ParseError::ExpectedEnd)
                } else {
                    Ok(ParamDeclView { name, param_type, default, permissions, description })
                },
            },
        },
    }
}

/// What is made of the tokens behind a parameter's name: a colon, the
/// parameter's type, its body in braces, and a comma.
pub open spec fn param_decl(name: Seq<char>, tokens: Seq<TokenView>) -> Result<
    ParamDeclView,
    ParseError,
> {
    match expected_this_punct(nth(tokens, 0), ':') {
        Err(e) => Err(e),
        Ok(()) => match param_type(tokens.skip(1)) {
            Err(e) => Err(e),
            Ok(found) => match expected_group(nth(tokens, 1 + param_type_len(found))) {
                Err(e) => Err(e),
                Ok((delimiter, body)) => match expected_this_punct(
                    nth(tokens, 2 + param_type_len(found)),
                    ',',
                ) {
                    Err(e) => Err(e),
                    Ok(()) => if delimiter != Delimiter::Brace {
                        Err(ParseError::Mismatch)
                    } else {
                        param_body(name, found, body)
                    },
                },
            },
        },
    }
}

/// A declaration that can be read is at least as long as what is read of
/// it.
pub proof fn lemma_param_decl_takes(name: Seq<char>, tokens: Seq<TokenView>)
    ensures
        param_decl(name, tokens) matches Ok(decl) ==> tokens.len() >= param_decl_len(
            decl.param_type,
        ),
{
}

/// How many tokens stand behind a parameter's name in its declaration.
pub open spec fn param_decl_len(param_type: ParamTypeView) -> int {
    3 + param_type_len(param_type)
}

/// Reads what stands behind the name of a parameter, up to the first
/// fault.
fn read_param_decl(name: String, it: &mut IntoIter) -> (r: Result<ParamDecl, ParseError>)
    ensures
        match r {
            Ok(decl) => param_decl(name@, old(it).remaining()) == Ok::<ParamDeclView, ParseError>(
                decl@,
            ) && final(it).remaining() == old(it).remaining().skip(
                param_decl_len(decl@.param_type),
            ),
            Err(e) => param_decl(name@, old(it).remaining()) == Err::<ParamDeclView, ParseError>(
                e,
            ),
        },
{
    let ghost tokens = it.remaining();
    match expect_this_punct(it, ':') {
        Ok(()) => {},
        Err(e) => {
            return Err(e);
        },
    }
    assert(it.remaining() =~= tokens.skip(1));
    let param_type = match expect_type(it) {
        Ok(param_type) => param_type,
        Err(e) => {
            return Err(e);
        },
    };
    assert(it.remaining() =~= tokens.skip(1 + param_type_len(param_type@)));
    let group = match expect_group(it) {
        Ok(group) => group,
        Err(e) => {
            return Err(e);
        },
    };
    match expect_this_punct(it, ',') {
        Ok(()) => {},
        Err(e) => {
            return Err(e);
        },
    }
    assert(it.remaining() =~= tokens.skip(param_decl_len(param_type@)));
    if group.delimiter != Delimiter::Brace {
        return Err(ParseError::Mismatch);
    }
    let mut param_it = IntoIter::new(group.stream);
    let ghost body = param_it.remaining();
    let default = match get_default(&param_type, &mut param_it) {
        Ok(default) => default,
        Err(e) => {
            return Err(e);
        },
    };
    let permissions = match get_literal(&mut param_it, "permissions") {
        Ok(permissions) => permissions,
        Err(e) => {
            return Err(e);
        },
    };
    assert(param_it.remaining() =~= body.skip(8));
    let description = match get_byte_string(&mut param_it, "description") {
        Ok(description) => description,
        Err(e) => {
            return Err(e);
        },
    };
    assert(param_it.remaining() =~= body.skip(12));
    match expect_end(&mut param_it) {
        Ok(()) => {},
        Err(e) => {
            return Err(e);
        },
    }
    Ok(ParamDecl { name, param_type, default, permissions, description })
}

/// Reads what stands behind the name of a parameter in its declaration.
/// Where it succeeds, exactly the tokens of this parameter are taken.
/// A fault ends the reading: no token is left behind it.
pub fn read_param(name: String, it: &mut IntoIter) -> (r: Result<ParamDecl, ParseError>)
    ensures
        match r {
            Ok(decl) => param_decl(name@, old(it).remaining()) == Ok::<ParamDeclView, ParseError>(
                decl@,
            ) && final(it).remaining() == old(it).remaining().skip(
                param_decl_len(decl@.param_type),
            ),
            Err(e) => param_decl(name@, old(it).remaining()) == Err::<ParamDeclView, ParseError>(
                e,
            ),
        },
        r is Err ==> final(it).remaining() == Seq::<TokenView>::empty(),
{
    let r = read_param_decl(name, it);
    if r.is_err() {
        it.exhaust();
    }
    r
}

/// The type of a parameter as the loader is told it.
pub open spec fn kernel_type(param_type: ParamTypeView) -> Seq<char> {
    match param_type {
        ParamTypeView::Ident(name) => name,
        ParamTypeView::Array { vals, max_length } => "__rust_array_param_"@ + vals + "_"@
            + decimal(max_length as nat),
    }
}

/// The operations of a parameter.
pub open spec fn param_ops(param_type: ParamTypeView) -> Seq<char> {
    match param_type {
        ParamTypeView::Ident(name) => ops_path(name),
        ParamTypeView::Array { vals, max_length } => array_ops_name(vals, max_length as nat),
    }
}

/// The type in which a parameter is stored.
pub open spec fn type_internal(param_type: ParamTypeView) -> Seq<char> {
    match param_type {
        ParamTypeView::Ident(name) => if name == "str"@ {
            "kernel::module_param::StringParam"@
        } else {
            name
        },
        ParamTypeView::Array { vals, max_length } => "kernel::module_param::ArrayParam<"@ + vals
            + ", "@ + decimal(max_length as nat) + ">"@,
    }
}

/// Whether a parameter can have the type `param_type`: an array always, a
/// plain type where it is one of those that are known.
pub open spec fn type_recognized(param_type: ParamTypeView) -> bool {
    match param_type {
        ParamTypeView::Ident(name) => is_param_type(name),
        ParamTypeView::Array { .. } => true,
    }
}

/// The values that are filled into the template of a parameter's reader and
/// of its reference to its storage.
pub open spec fn reader_args(module: Seq<char>, decl: ParamDeclView) -> Seq<ArgView> {
    seq![
        arg("name"@, module),
        arg("param_name"@, decl.name),
        arg("param_type_internal"@, type_internal(decl.param_type)),
    ]
}

/// The reader of a parameter.
pub open spec fn read_func(module: Seq<char>, decl: ParamDeclView) -> Option<Seq<char>> {
    formatted(
        if permissions_readonly(decl.permissions) {
            READ_READONLY_TEMPLATE@
        } else {
            READ_LOCKED_TEMPLATE@
        },
        reader_args(module, decl),
    )
}

/// The values that are filled into the template of a parameter.
pub open spec fn param_args(
    module: Seq<char>,
    decl: ParamDeclView,
    read_func: Seq<char>,
    kparam: Seq<char>,
) -> Seq<ArgView> {
    seq![
        arg("name"@, module),
        arg("param_type_internal"@, type_internal(decl.param_type)),
        arg("read_func"@, read_func),
        arg("param_default"@, decl.default),
        arg("param_name"@, decl.name),
        arg("ops"@, param_ops(decl.param_type)),
        arg("permissions"@, decl.permissions),
        arg("kparam"@, kparam),
    ]
}

/// The source text of one parameter of the module `module`: the statics
/// that tell the loader its type and what it is, and its items.
pub open spec fn param_text(module: Seq<char>, decl: ParamDeclView) -> Result<
    Seq<char>,
    ParseError,
> {
    if !type_recognized(decl.param_type) {
        Err(ParseError::UnrecognizedType)
    } else {
        match checked_param_statics(
            module,
            "parmtype"@,
            decl.name,
            kernel_type(decl.param_type),
        ) {
            None => Err(ParseError::TooLong),
            Some(parmtype) => match checked_param_statics(
                module,
                "parm"@,
                decl.name,
                decl.description,
            ) {
                None => Err(ParseError::TooLong),
                Some(parm) => match read_func(module, decl) {
                    None => Err(ParseError::BadTemplate),
                    Some(read_func) => match formatted(
                        KPARAM_TEMPLATE@,
                        reader_args(module, decl),
                    ) {
                        None => Err(ParseError::BadTemplate),
                        Some(kparam) => match formatted(
                            PARAM_TEMPLATE@,
                            param_args(module, decl, read_func, kparam),
                        ) {
                            None => Err(ParseError::BadTemplate),
                            Some(items) => Ok(parmtype + parm + items),
                        },
                    },
                },
            },
        }
    }
}

/// Builds the source text of one parameter of the module `module`.
pub fn generate_param(module: &str, decl: &ParamDecl) -> (r: Result<String, ParseError>)
    ensures
        match r {
            Ok(text) => param_text(module@, decl@) == Ok::<Seq<char>, ParseError>(text@),
            Err(e) => param_text(module@, decl@) == Err::<Seq<char>, ParseError>(e),
        },
{
    let (param_kernel_type, ops) = match &decl.param_type {
        ParamType::Ident(param_type) => {
            if !param_type_is_known(param_type.as_str()) {
                return Err(ParseError::UnrecognizedType);
            }
            (param_type.clone(), String::from_str(param_ops_path(param_type.as_str())))
        },
        ParamType::Array { vals, max_length } => (
            String::from_str("__rust_array_param_").concat(vals.as_str()).concat("_").concat(
                usize_to_decimal(*max_length).as_str(),
            ),
            generated_array_ops_name(vals.as_str(), *max_length),
        ),
    };
    let parmtype = match try_build_modinfo_string_param(
        module,
        "parmtype",
        decl.name.as_str(),
        param_kernel_type.as_str(),
    ) {
        Some(parmtype) => parmtype,
        None => {
            return Err(ParseError::TooLong);
        },
    };
    let parm = match try_build_modinfo_string_param(
        module,
        "parm",
        decl.name.as_str(),
        decl.description.as_str(),
    ) {
        Some(parm) => parm,
        None => {
            return Err(ParseError::TooLong);
        },
    };
    let param_type_internal = match &decl.param_type {
        ParamType::Ident(param_type) => if same_text(param_type.as_str(), "str") {
            String::from_str("kernel::module_param::StringParam")
        } else {
            param_type.clone()
        },
        ParamType::Array { vals, max_length } => String::from_str(
            "kernel::module_param::ArrayParam<",
        ).concat(vals.as_str()).concat(", ").concat(usize_to_decimal(*max_length).as_str()).concat(
            ">",
        ),
    };
    let reader_args = [
        Arg { name: "name", value: module },
        Arg { name: "param_name", value: decl.name.as_str() },
        Arg { name: "param_type_internal", value: param_type_internal.as_str() },
    ];
    assert(arg_views(reader_args@) =~= self::reader_args(module@, decl@));
    let read_template = if permissions_are_readonly(decl.permissions.as_str()) {
        READ_READONLY_TEMPLATE
    } else {
        READ_LOCKED_TEMPLATE
    };
    let read_func = match fill(read_template, reader_args.as_slice()) {
        Some(read_func) => read_func,
        None => {
            return Err(ParseError::BadTemplate);
        },
    };
    let kparam = match fill(KPARAM_TEMPLATE, reader_args.as_slice()) {
        Some(kparam) => kparam,
        None => {
            return Err(ParseError::BadTemplate);
        },
    };
    let args = [
        Arg { name: "name", value: module },
        Arg { name: "param_type_internal", value: param_type_internal.as_str() },
        Arg { name: "read_func", value: read_func.as_str() },
        Arg { name: "param_default", value: decl.default.as_str() },
        Arg { name: "param_name", value: decl.name.as_str() },
        Arg { name: "ops", value: ops.as_str() },
        Arg { name: "permissions", value: decl.permissions.as_str() },
        Arg { name: "kparam", value: kparam.as_str() },
    ];
    assert(arg_views(args@) =~= param_args(module@, decl@, read_func@, kparam@));
    match fill(PARAM_TEMPLATE, args.as_slice()) {
        Some(items) => Ok(parmtype.concat(parm.as_str()).concat(items.as_str())),
        None => Err(ParseError::BadTemplate),
    }
}

/// The type of the values and the length of an array parameter.
#[derive(Debug, PartialEq, Eq)]
pub struct ArrayType {
    /// The type of the values.
    pub vals: String,
    /// The largest number of values.
    pub max_length: usize,
}

/// The mathematical value of an [`ArrayType`].
pub struct ArrayTypeView {
    /// The type of the values.
    pub vals: Seq<char>,
    /// The largest number of values.
    pub max_length: usize,
}

impl View for ArrayType {
    type V = ArrayTypeView;

    open spec fn view(&self) -> ArrayTypeView {
        ArrayTypeView { vals: self.vals@, max_length: self.max_length }
    }
}

/// The values of a run of array types.
pub open spec fn array_type_views(types: Seq<ArrayType>) -> Seq<ArrayTypeView> {
    Seq::new(types.len(), |i: int| types[i]@)
}

/// The array types `types`, and behind them that of `param_type` where it
/// is an array.
pub open spec fn with_array(types: Seq<ArrayTypeView>, param_type: ParamTypeView) -> Seq<
    ArrayTypeView,
> {
    match param_type {
        ParamTypeView::Ident(_) => types,
        ParamTypeView::Array { vals, max_length } => types.push(
            ArrayTypeView { vals, max_length },
        ),
    }
}

/// The source text of the parameters that `tokens` declare, and the array
/// types among them, behind the text `modinfo` and the types `arrays` of the
/// parameters before them.
///
/// Every parameter is read and its text is built before the next one is
/// looked at: of two faults, that of the earlier parameter is told.
pub open spec fn params_text(
    module: Seq<char>,
    tokens: Seq<TokenView>,
    modinfo: Seq<char>,
    arrays: Seq<ArrayTypeView>,
) -> Result<(Seq<char>, Seq<ArrayTypeView>), ParseError>
    decreases tokens.len(),
{
    if tokens.len() == 0 {
        Ok((modinfo, arrays))
    } else {
        match tokens[0] {
            TokenView::Ident(name) => match param_decl(name, tokens.skip(1)) {
                Err(e) => Err(e),
                Ok(decl) => match param_text(module, decl) {
                    Err(e) => Err(e),
                    Ok(text) => {
                        proof {
                            lemma_param_decl_takes(name, tokens.skip(1));
                        }
                        params_text(
                            module,
                            tokens.skip(1 + param_decl_len(decl.param_type)),
                            modinfo + text,
                            with_array(arrays, decl.param_type),
                        )
                    },
                },
            },
            _ => Err(ParseError::ExpectedIdentOrEnd),
        }
    }
}

/// The values that are filled into the template of an array's operations.
pub open spec fn array_ops_args(array: ArrayTypeView) -> Seq<ArgView> {
    seq![
        arg("ops_name"@, array_ops_name(array.vals, array.max_length as nat)),
        arg("vals"@, array.vals),
        arg("max_length"@, decimal(array.max_length as nat)),
    ]
}

/// The source text of the operations of the array types `arrays`, one
/// after the other.
pub open spec fn array_types_text(arrays: Seq<ArrayTypeView>) -> Option<Seq<char>>
    decreases arrays.len(),
{
    if arrays.len() == 0 {
        Some(Seq::empty())
    } else {
        match array_types_text(arrays.drop_last()) {
            None => None,
            Some(before) => match formatted(ARRAY_OPS_TEMPLATE@, array_ops_args(arrays.last())) {
                None => None,
                Some(text) => Some(before + text),
            },
        }
    }
}

/// Both statics of an item that may be left out: nothing where it is.
pub open spec fn checked_optional(
    module: Seq<char>,
    field: Seq<char>,
    content: Option<Seq<char>>,
) -> Option<Seq<char>> {
    match content {
        Some(content) => checked_statics(module, field, content, modinfo_variable(module, field)),
        None => Some(Seq::empty()),
    }
}

/// The values that are filled into the template of a module.
pub open spec fn module_args(
    info: ModuleInfoView,
    author: Seq<char>,
    description: Seq<char>,
    license: Seq<char>,
    alias: Seq<char>,
    file: Seq<char>,
    params_modinfo: Seq<char>,
    generated_array_types: Seq<char>,
) -> Seq<ArgView> {
    seq![
        arg("type_"@, info.type_),
        arg("name"@, info.name),
        arg("author"@, author),
        arg("description"@, description),
        arg("license"@, license),
        arg("alias"@, alias),
        arg("file"@, file),
        arg("params_modinfo"@, params_modinfo),
        arg("generated_array_types"@, generated_array_types),
        arg("initcall_section"@, INITCALL_SECTION@),
    ]
}

/// The source text of the parameters of a module, and the array types among
/// them. The parameters stand in braces.
pub open spec fn declared_params(info: ModuleInfoView) -> Result<
    (Seq<char>, Seq<ArrayTypeView>),
    ParseError,
> {
    match info.params {
        None => Ok((Seq::empty(), Seq::empty())),
        Some((delimiter, stream)) => if delimiter != Delimiter::Brace {
            Err(ParseError::Mismatch)
        } else {
            params_text(info.name, stream, Seq::empty(), Seq::empty())
        },
    }
}

/// The source text of the module that `info` describes, with the text
/// `params_modinfo` of its parameters and the operations
/// `generated_array_types` of their arrays. `file` is the file that holds
/// the module.
pub open spec fn module_items(
    info: ModuleInfoView,
    file: Seq<char>,
    params_modinfo: Seq<char>,
    generated_array_types: Seq<char>,
) -> Result<Seq<char>, ParseError> {
    match checked_optional(info.name, "author"@, info.author) {
        None => Err(ParseError::TooLong),
        Some(author) => match checked_optional(info.name, "description"@, info.description) {
            None => Err(ParseError::TooLong),
            Some(description) => match checked_statics(
                info.name,
                "license"@,
                info.license,
                modinfo_variable(info.name, "license"@),
            ) {
                None => Err(ParseError::TooLong),
                Some(license) => match checked_optional(info.name, "alias"@, info.alias) {
                    None => Err(ParseError::TooLong),
                    Some(alias) => match checked_static(
                        info.name,
                        "file"@,
                        file,
                        modinfo_variable(info.name, "file"@),
                        true,
                    ) {
                        None => Err(ParseError::TooLong),
                        Some(file) => built(
                            formatted(
                                MODULE_TEMPLATE@,
                                module_args(
                                    info,
                                    author,
                                    description,
                                    license,
                                    alias,
                                    file,
                                    params_modinfo,
                                    generated_array_types,
                                ),
                            ),
                            ParseError::BadTemplate,
                        ),
                    },
                },
            },
        },
    }
}

/// The source text that the declaration `tokens` of a module stands for.
/// `file` is the file that holds the module; that it is not known is only
/// told for a declaration that is sound.
pub open spec fn module_text(tokens: Seq<TokenView>, file: Option<Seq<char>>) -> Result<
    Seq<char>,
    ParseError,
> {
    match ModuleInfoView::parse(tokens) {
        Err(e) => Err(e),
        Ok(info) => match declared_params(info) {
            Err(e) => Err(e),
            Ok((params_modinfo, arrays)) => match array_types_text(arrays) {
                None => Err(ParseError::BadTemplate),
                Some(generated_array_types) => match file {
                    None => Err(ParseError::UnknownFile),
                    Some(file) => module_items(info, file, params_modinfo, generated_array_types),
                },
            },
        },
    }
}

/// The value of a file's name that may be missing.
pub open spec fn file_view(file: Option<&str>) -> Option<Seq<char>> {
    match file {
        Some(file) => Some(file@),
        None => None,
    }
}

/// Reading one parameter and building its text is one step of reading all.
pub proof fn lemma_params_step(
    module: Seq<char>,
    tokens: Seq<TokenView>,
    modinfo: Seq<char>,
    arrays: Seq<ArrayTypeView>,
)
    requires
        tokens.len() > 0,
    ensures
        params_text(module, tokens, modinfo, arrays) == match tokens[0] {
            TokenView::Ident(name) => match param_decl(name, tokens.skip(1)) {
                Err(e) => Err(e),
                Ok(decl) => match param_text(module, decl) {
                    Err(e) => Err(e),
                    Ok(text) => params_text(
                        module,
                        tokens.skip(1 + param_decl_len(decl.param_type)),
                        modinfo + text,
                        with_array(arrays, decl.param_type),
                    ),
                },
            },
            _ => Err(ParseError::ExpectedIdentOrEnd),
        },
{
}

/// Reads the parameters that `tokens` declare and builds their source
/// text, and gathers the array types among them.
pub fn generate_params(module: &str, tokens: &[TokenTree]) -> (r: Result<
    (String, Vec<ArrayType>),
    ParseError,
>)
    ensures
        match r {
            Ok((modinfo, arrays)) => params_text(
                module@,
                views(tokens@),
                Seq::empty(),
                Seq::empty(),
            ) == Ok::<(Seq<char>, Seq<ArrayTypeView>), ParseError>(
                (modinfo@, array_type_views(arrays@)),
            ),
            Err(e) => params_text(module@, views(tokens@), Seq::empty(), Seq::empty()) == Err::<
                (Seq<char>, Seq<ArrayTypeView>),
                ParseError,
            >(e),
        },
{
    let mut it = IntoIter::new(tokens);
    let mut array_types_to_generate: Vec<ArrayType> = Vec::new();
    let mut params_modinfo = String::new();
    let ghost whole = it.remaining();
    assert(array_type_views(array_types_to_generate@) =~= Seq::<ArrayTypeView>::empty());
    loop
        invariant
            whole == views(tokens@),
            params_text(module@, whole, Seq::empty(), Seq::empty()) == params_text(
                module@,
                it.remaining(),
                params_modinfo@,
                array_type_views(array_types_to_generate@),
            ),
        ensures
            it.remaining().len() == 0,
        decreases it.remaining().len(),
    {
        let ghost tokens_left = it.remaining();
        let ghost arrays = array_type_views(array_types_to_generate@);
        proof {
            if tokens_left.len() > 0 {
                lemma_params_step(module@, tokens_left, params_modinfo@, arrays);
            }
        }
        let param_name = match it.next() {
            Some(TokenTree::Ident(ident)) => ident.clone(),
            Some(_) => {
                return Err(ParseError::ExpectedIdentOrEnd);
            },
            None => {
                break ;
            },
        };
        let decl = match read_param(param_name, &mut it) {
            Ok(decl) => decl,
            Err(e) => {
                return Err(e);
            },
        };
        assert(it.remaining() =~= tokens_left.skip(1 + param_decl_len(decl@.param_type)));
        let text = match generate_param(module, &decl) {
            Ok(text) => text,
            Err(e) => {
                return Err(e);
            },
        };
        match decl.param_type {
            ParamType::Ident(_) => {},
            ParamType::Array { vals, max_length } => {
                array_types_to_generate.push(ArrayType { vals, max_length });
                assert(array_type_views(array_types_to_generate@) =~= with_array(
                    arrays,
                    decl@.param_type,
                ));
            },
        }
        params_modinfo = params_modinfo.concat(text.as_str());
    }
    Ok((params_modinfo, array_types_to_generate))
}

/// Builds the source text of the operations of the array types `arrays`.
pub fn generate_array_types(arrays: &Vec<ArrayType>) -> (text: Option<String>)
    ensures
        match text {
            Some(text) => array_types_text(array_type_views(arrays@)) == Some(text@),
            None => array_types_text(array_type_views(arrays@)) is None,
        },
{
    let mut generated_array_types = String::new();
    let mut i: usize = 0;
    let ghost all = array_type_views(arrays@);
    while i < arrays.len()
        invariant
            i <= arrays@.len(),
            all == array_type_views(arrays@),
            array_types_text(all.take(i as int)) == Some(generated_array_types@),
        decreases arrays@.len() - i,
    {
        let ops_name = generated_array_ops_name(arrays[i].vals.as_str(), arrays[i].max_length);
        let max_length = usize_to_decimal(arrays[i].max_length);
        let args = [
            Arg { name: "ops_name", value: ops_name.as_str() },
            Arg { name: "vals", value: arrays[i].vals.as_str() },
            Arg { name: "max_length", value: max_length.as_str() },
        ];
        assert(arg_views(args@) =~= array_ops_args(all[i as int]));
        proof {
            assert(all.take(i + 1).drop_last() =~= all.take(i as int));
            assert(all.take(i + 1).last() == all[i as int]);
        }
        match fill(ARRAY_OPS_TEMPLATE, args.as_slice()) {
            Some(text) => {
                generated_array_types = generated_array_types.concat(text.as_str());
            },
            None => {
                proof {
                    lemma_array_types_prefix(all, i + 1);
                }
                return None;
            },
        }
        i = i + 1;
    }
    assert(all.take(arrays@.len() as int) =~= all);
    Some(generated_array_types)
}

/// Where the operations of some of the first array types cannot be built,
/// those of all of them cannot.
pub proof fn lemma_array_types_prefix(arrays: Seq<ArrayTypeView>, k: int)
    requires
        0 <= k <= arrays.len(),
        array_types_text(arrays.take(k)) is None,
    ensures
        array_types_text(arrays) is None,
    decreases arrays.len(),
{
    if k < arrays.len() {
        assert(arrays.drop_last().take(k) =~= arrays.take(k));
        lemma_array_types_prefix(arrays.drop_last(), k);
    } else {
        assert(arrays.take(k) =~= arrays);
    }
}

/// Builds both statics of an item that may be left out, unless a metadata
/// string is longer than the machine can count.
pub fn try_build_modinfo_string_optional(module: &str, field: &str, content: &Option<String>) -> (text:
    Option<String>)
    ensures
        match text {
            Some(text) => checked_optional(module@, field@, text_view(*content)) == Some(text@),
            None => checked_optional(module@, field@, text_view(*content)) is None,
        },
{
    match content {
        Some(content) => {
            let variable = __build_modinfo_string_variable(module, field);
            try_build_modinfo_statics(module, field, content.as_str(), variable.as_str())
        },
        None => Some(String::new()),
    }
}

/// Builds the source text of the module that `info` describes, with the
/// text `params_modinfo` of its parameters and the operations
/// `generated_array_types` of their arrays.
pub fn generate_module_items(
    info: &ModuleInfo,
    file: &str,
    params_modinfo: &str,
    generated_array_types: &str,
) -> (text: Result<String, ParseError>)
    ensures
        match text {
            Ok(text) => module_items(info@, file@, params_modinfo@, generated_array_types@) == Ok::<
                Seq<char>,
                ParseError,
            >(text@),
            Err(e) => module_items(info@, file@, params_modinfo@, generated_array_types@) == Err::<
                Seq<char>,
                ParseError,
            >(e),
        },
{
    let name = info.name.as_str();
    let author = match try_build_modinfo_string_optional(name, "author", &info.author) {
        Some(text) => text,
        None => {
            return Err(ParseError::TooLong);
        },
    };
    let description = match try_build_modinfo_string_optional(
        name,
        "description",
        &info.description,
    ) {
        Some(text) => text,
        None => {
            return Err(ParseError::TooLong);
        },
    };
    let license_variable = __build_modinfo_string_variable(name, "license");
    let license = match try_build_modinfo_statics(
        name,
        "license",
        info.license.as_str(),
        license_variable.as_str(),
    ) {
        Some(text) => text,
        None => {
            return Err(ParseError::TooLong);
        },
    };
    let alias = match try_build_modinfo_string_optional(name, "alias", &info.alias) {
        Some(text) => text,
        None => {
            return Err(ParseError::TooLong);
        },
    };
    let file_variable = __build_modinfo_string_variable(name, "file");
    let file = match try_build_modinfo_string_base(
        name,
        "file",
        file,
        file_variable.as_str(),
        true,
    ) {
        Some(text) => text,
        None => {
            return Err(ParseError::TooLong);
        },
    };
    let args = [
        Arg { name: "type_", value: info.type_.as_str() },
        Arg { name: "name", value: info.name.as_str() },
        Arg { name: "author", value: author.as_str() },
        Arg { name: "description", value: description.as_str() },
        Arg { name: "license", value: license.as_str() },
        Arg { name: "alias", value: alias.as_str() },
        Arg { name: "file", value: file.as_str() },
        Arg { name: "params_modinfo", value: params_modinfo },
        Arg { name: "generated_array_types", value: generated_array_types },
        Arg { name: "initcall_section", value: INITCALL_SECTION },
    ];
    assert(arg_views(args@) =~= module_args(
        info@,
        author@,
        description@,
        license@,
        alias@,
        file@,
        params_modinfo@,
        generated_array_types@,
    ));
    match fill(MODULE_TEMPLATE, args.as_slice()) {
        Some(text) => Ok(text),
        None => Err(ParseError::BadTemplate),
    }
}

/// Declares a module: reads the declaration `tokens` and builds the source
/// text of the module's items. `file` is the file that holds the module, if
/// it is known.
pub fn module(tokens: &[TokenTree], file: Option<&str>) -> (text: Result<String, ParseError>)
    ensures
        match text {
            Ok(text) => module_text(views(tokens@), file_view(file)) == Ok::<
                Seq<char>,
                ParseError,
            >(text@),
            Err(e) => module_text(views(tokens@), file_view(file)) == Err::<Seq<char>, ParseError>(
                e,
            ),
        },
{
    let mut it = IntoIter::new(tokens);
    let info = match ModuleInfo::parse(&mut it) {
        Ok(info) => info,
        Err(e) => {
            return Err(e);
        },
    };
    let (params_modinfo, array_types_to_generate) = match &info.params {
        Some(params) => {
            if params.delimiter != Delimiter::Brace {
                return Err(ParseError::Mismatch);
            }
            match generate_params(info.name.as_str(), params.stream) {
                Ok(generated) => generated,
                Err(e) => {
                    return Err(e);
                },
            }
        },
        None => {
            let none: Vec<ArrayType> = Vec::new();
            assert(array_type_views(none@) =~= Seq::<ArrayTypeView>::empty());
            (String::new(), none)
        },
    };
    let generated_array_types = match generate_array_types(&array_types_to_generate) {
        Some(text) => text,
        None => {
            return Err(ParseError::BadTemplate);
        },
    };
    let file = match file {
        Some(file) => file,
        None => {
            return Err(ParseError::UnknownFile);
        },
    };
    generate_module_items(
        &info,
        file,
        params_modinfo.as_str(),
        generated_array_types.as_str(),
    )
}

} // verus!
