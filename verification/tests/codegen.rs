use device_session::codegen::{
    build_optional_entry, generate_array_types, generate_param, generate_params, module,
    module_misc_device, read_param, ArrayType, ParamDecl, INITCALL_SECTION,
};
use device_session::module::{
    build_modinfo_string, build_modinfo_string_only_builtin, build_modinfo_string_param,
    generated_array_ops_name, param_ops_path, try_build_modinfo_statics,
    try_build_modinfo_string_base, try_build_modinfo_string_param,
};
use device_session::module_info::{Key, ParseError};
use device_session::module_param::ParamType;
use device_session::token_stream::{Delimiter, IntoIter, TokenTree};

fn ident(text: &str) -> TokenTree {
    TokenTree::Ident(text.to_string())
}

fn lit(text: &str) -> TokenTree {
    TokenTree::Literal(text.to_string())
}

fn punct(c: char) -> TokenTree {
    TokenTree::Punct(c)
}

fn bytes(text: &str) -> TokenTree {
    lit(&format!("b\"{}\"", text))
}

fn braces(tokens: Vec<TokenTree>) -> TokenTree {
    TokenTree::Group(Delimiter::Brace, tokens)
}

fn entry(key: &str, value: TokenTree) -> Vec<TokenTree> {
    vec![ident(key), punct(':'), value, punct(',')]
}

fn head() -> Vec<TokenTree> {
    let mut tokens = entry("type", ident("MyKernelModule"));
    tokens.extend(entry("name", bytes("my_kernel_module")));
    tokens.extend(entry("author", bytes("Rust for Linux Contributors")));
    tokens.extend(entry("description", bytes("My very own kernel module!")));
    tokens.extend(entry("license", bytes("GPL v2")));
    tokens
}

fn body(default: Vec<TokenTree>, permissions: &str, description: &str) -> TokenTree {
    let mut tokens = vec![ident("default"), punct(':')];
    tokens.extend(default);
    tokens.push(punct(','));
    tokens.extend(entry("permissions", lit(permissions)));
    tokens.extend(entry("description", bytes(description)));
    braces(tokens)
}

fn param(name: &str, param_type: Vec<TokenTree>, body: TokenTree) -> Vec<TokenTree> {
    let mut tokens = vec![ident(name), punct(':')];
    tokens.extend(param_type);
    tokens.push(body);
    tokens.push(punct(','));
    tokens
}

fn array_type(vals: &str, max_length: &str) -> Vec<TokenTree> {
    vec![ident("ArrayParam"), punct('<'), ident(vals), punct(','), lit(max_length), punct('>')]
}

fn with_params(params: Vec<TokenTree>) -> Vec<TokenTree> {
    let mut tokens = head();
    tokens.extend(entry("params", braces(params)));
    tokens
}

fn expected_read_readonly(name: &str, param_name: &str, param_type_internal: &str) -> String {
    format!(
        "
                        fn read(&self) -> &<{param_type_internal} as kernel::module_param::ModuleParam>::Value {{
                            // SAFETY: Parameters do not need to be locked because they are read only or sysfs is not enabled.
                            unsafe {{ <{param_type_internal} as kernel::module_param::ModuleParam>::value(&__{name}_{param_name}_value) }}
                        }}
                    ",
        name = name,
        param_name = param_name,
        param_type_internal = param_type_internal,
    )
}

fn expected_read_locked(name: &str, param_name: &str, param_type_internal: &str) -> String {
    format!(
        "
                        fn read<'lck>(&self, lock: &'lck kernel::KParamGuard) -> &'lck <{param_type_internal} as kernel::module_param::ModuleParam>::Value {{
                            // SAFETY: Parameters are locked by `KParamGuard`.
                            unsafe {{ <{param_type_internal} as kernel::module_param::ModuleParam>::value(&__{name}_{param_name}_value) }}
                        }}
                    ",
        name = name,
        param_name = param_name,
        param_type_internal = param_type_internal,
    )
}

fn expected_kparam(name: &str, param_name: &str) -> String {
    format!(
        "
                    kernel::bindings::kernel_param__bindgen_ty_1 {{
                        arg: unsafe {{ &__{name}_{param_name}_value }} as *const _ as *mut kernel::c_types::c_void,
                    }},
                ",
        name = name,
        param_name = param_name,
    )
}

fn expected_param(
    name: &str,
    param_name: &str,
    param_type_internal: &str,
    read_func: &str,
    param_default: &str,
    ops: &str,
    permissions: &str,
) -> String {
    let kparam = expected_kparam(name, param_name);
    format!(
        "
                    static mut __{name}_{param_name}_value: {param_type_internal} = {param_default};

                    struct __{name}_{param_name};

                    impl __{name}_{param_name} {{ {read_func} }}

                    const {param_name}: __{name}_{param_name} = __{name}_{param_name};

                    // Note: the C macro that generates the static structs for the `__param` section
                    // asks for them to be `aligned(sizeof(void *))`. However, that was put in place
                    // in 2003 in commit 38d5b085d2 (\"[PATCH] Fix over-alignment problem on x86-64\")
                    // to undo GCC over-alignment of static structs of >32 bytes. It seems that is
                    // not the case anymore, so we simplify to a transparent representation here
                    // in the expectation that it is not needed anymore.
                    #[repr(transparent)]
                    struct __{name}_{param_name}_RacyKernelParam(kernel::bindings::kernel_param);

                    unsafe impl Sync for __{name}_{param_name}_RacyKernelParam {{
                    }}

                    #[cfg(not(MODULE))]
                    const __{name}_{param_name}_name: *const kernel::c_types::c_char = b\"{name}.{param_name}\\0\" as *const _ as *const kernel::c_types::c_char;

                    #[cfg(MODULE)]
                    const __{name}_{param_name}_name: *const kernel::c_types::c_char = b\"{param_name}\\0\" as *const _ as *const kernel::c_types::c_char;

                    #[link_section = \"__param\"]
                    #[used]
                    static __{name}_{param_name}_struct: __{name}_{param_name}_RacyKernelParam = __{name}_{param_name}_RacyKernelParam(kernel::bindings::kernel_param {{
                        name: __{name}_{param_name}_name,
                        // SAFETY: `__this_module` is constructed by the kernel at load time and will not be freed until the module is unloaded.
                        #[cfg(MODULE)]
                        mod_: unsafe {{ &kernel::bindings::__this_module as *const _ as *mut _ }},
                        #[cfg(not(MODULE))]
                        mod_: core::ptr::null_mut(),
                        ops: unsafe {{ &{ops} }} as *const kernel::bindings::kernel_param_ops,
                        perm: {permissions},
                        level: -1,
                        flags: 0,
                        __bindgen_anon_1: {kparam}
                    }});
                    ",
        name = name,
        param_type_internal = param_type_internal,
        read_func = read_func,
        param_default = param_default,
        param_name = param_name,
        ops = ops,
        permissions = permissions,
        kparam = kparam,
    )
}

fn expected_array_ops(ops_name: &str, vals: &str, max_length: usize) -> String {
    format!(
        "
                kernel::make_param_ops!(
                    {ops_name},
                    kernel::module_param::ArrayParam<{vals}, {{ {max_length} }}>
                );
            ",
        ops_name = ops_name,
        vals = vals,
        max_length = max_length,
    )
}

fn expected_module(
    type_: &str,
    name: &str,
    author: &str,
    description: &str,
    license: &str,
    alias: &str,
    file: &str,
    params_modinfo: &str,
    generated_array_types: &str,
) -> String {
    format!(
        "
            /// The module name.
            ///
            /// Used by the printing macros, e.g. [`info!`].
            const __LOG_PREFIX: &[u8] = b\"{name}\\0\";

            static mut __MOD: Option<{type_}> = None;

            // SAFETY: `__this_module` is constructed by the kernel at load time and will not be freed until the module is unloaded.
            #[cfg(MODULE)]
            static THIS_MODULE: kernel::ThisModule = unsafe {{ kernel::ThisModule::from_ptr(&kernel::bindings::__this_module as *const _ as *mut _) }};
            #[cfg(not(MODULE))]
            static THIS_MODULE: kernel::ThisModule = unsafe {{ kernel::ThisModule::from_ptr(core::ptr::null_mut()) }};

            // Loadable modules need to export the `{{init,cleanup}}_module` identifiers
            #[cfg(MODULE)]
            #[no_mangle]
            pub extern \"C\" fn init_module() -> kernel::c_types::c_int {{
                __init()
            }}

            #[cfg(MODULE)]
            #[no_mangle]
            pub extern \"C\" fn cleanup_module() {{
                __exit()
            }}

            // Built-in modules are initialized through an initcall pointer
            // and the identifiers need to be unique
            #[cfg(not(MODULE))]
            #[cfg(not(CONFIG_HAVE_ARCH_PREL32_RELOCATIONS))]
            #[link_section = \"{initcall_section}\"]
            #[used]
            pub static __{name}_initcall: extern \"C\" fn() -> kernel::c_types::c_int = __{name}_init;

            #[cfg(not(MODULE))]
            #[cfg(CONFIG_HAVE_ARCH_PREL32_RELOCATIONS)]
            global_asm!(
                r#\".section \"{initcall_section}\", \"a\"
                __{name}_initcall:
                    .long   __{name}_init - .
                    .previous
                \"#
            );

            #[cfg(not(MODULE))]
            #[no_mangle]
            pub extern \"C\" fn __{name}_init() -> kernel::c_types::c_int {{
                __init()
            }}

            #[cfg(not(MODULE))]
            #[no_mangle]
            pub extern \"C\" fn __{name}_exit() {{
                __exit()
            }}

            fn __init() -> kernel::c_types::c_int {{
                match <{type_} as kernel::KernelModule>::init() {{
                    Ok(m) => {{
                        unsafe {{
                            __MOD = Some(m);
                        }}
                        return 0;
                    }}
                    Err(e) => {{
                        return e.to_kernel_errno();
                    }}
                }}
            }}

            fn __exit() {{
                unsafe {{
                    // Invokes `drop()` on `__MOD`, which should be used for cleanup.
                    __MOD = None;
                }}
            }}

            {author}
            {description}
            {license}
            {alias}

            // Built-in modules also export the `file` modinfo string
            {file}

            {params_modinfo}

            {generated_array_types}
        ",
        type_ = type_,
        name = name,
        author = author,
        description = description,
        license = license,
        alias = alias,
        file = file,
        params_modinfo = params_modinfo,
        generated_array_types = generated_array_types,
        initcall_section = ".initcall6.init"
    )
}

fn expected_misc_device(
    module: &str,
    type_: &str,
    name: &str,
    author: &str,
    description: &str,
    license: &str,
    alias: &str,
) -> String {
    format!(
        "
            #[doc(hidden)]
            struct {module} {{
                _dev: core::pin::Pin<alloc::boxed::Box<kernel::miscdev::Registration>>,
            }}

            impl kernel::KernelModule for {module} {{
                fn init() -> kernel::Result<Self> {{
                    Ok(Self {{
                        _dev: kernel::miscdev::Registration::new_pinned::<{type_}>(
                            kernel::c_str!(\"{name}\"),
                            None,
                            (),
                        )?,
                    }})
                }}
            }}

            kernel::prelude::module! {{
                type: {module},
                name: b\"{name}\",
                {author}
                {description}
                license: b\"{license}\",
                {alias}
            }}
        ",
        module = module,
        type_ = type_,
        name = name,
        author = author,
        description = description,
        alias = alias,
        license = license
    )
}

fn i32_param_text(module: &str, name: &str, default: &str, permissions: &str, readonly: bool) -> String {
    let read_func = if readonly {
        expected_read_readonly(module, name, "i32")
    } else {
        expected_read_locked(module, name, "i32")
    };
    build_modinfo_string_param(module, "parmtype", name, "i32")
        + &build_modinfo_string_param(module, "parm", name, "Example of i32")
        + &expected_param(
            module,
            name,
            "i32",
            &read_func,
            default,
            "kernel::module_param::PARAM_OPS_I32",
            permissions,
        )
}

#[test]
fn optional_entries() {
    assert_eq!(build_optional_entry("author", &None), "");
    assert_eq!(build_optional_entry("author", &Some("me".to_string())), "author: b\"me\",");
    assert_eq!(build_optional_entry("alias", &Some("".to_string())), "alias: b\"\",");
}

#[test]
fn checked_builders_agree_with_the_plain_ones() {
    assert_eq!(
        try_build_modinfo_string_base("m", "file", "drivers/m.rs", "__m_file", true),
        Some(build_modinfo_string_only_builtin("m", "file", "drivers/m.rs"))
    );
    assert_eq!(
        try_build_modinfo_statics("m", "license", "GPL v2", "__m_license"),
        Some(build_modinfo_string("m", "license", "GPL v2"))
    );
    assert_eq!(
        try_build_modinfo_string_param("m", "parm", "p", "what it is"),
        Some(build_modinfo_string_param("m", "parm", "p", "what it is"))
    );
}

#[test]
fn device_module_with_all_entries() {
    let mut tokens = head();
    tokens.extend(entry("alias", bytes("my_alias")));
    let text = module_misc_device(&tokens).ok().unwrap();
    assert_eq!(
        text,
        expected_misc_device(
            "__internal_ModuleForMyKernelModule",
            "MyKernelModule",
            "my_kernel_module",
            "author: b\"Rust for Linux Contributors\",",
            "description: b\"My very own kernel module!\",",
            "GPL v2",
            "alias: b\"my_alias\",",
        )
    );
    assert!(text.contains("struct __internal_ModuleForMyKernelModule {"));
    assert!(text.contains("kernel::c_str!(\"my_kernel_module\")"));
    assert!(text.contains("license: b\"GPL v2\","));
}

#[test]
fn device_module_with_required_entries_only() {
    let mut tokens = entry("type", ident("MyFile"));
    tokens.extend(entry("name", bytes("my_miscdev")));
    tokens.extend(entry("license", bytes("GPL v2")));
    let text = module_misc_device(&tokens).ok().unwrap();
    assert_eq!(
        text,
        expected_misc_device("__internal_ModuleForMyFile", "MyFile", "my_miscdev", "", "", "GPL v2", "")
    );
    assert!(!text.contains("author"));
}

#[test]
fn device_module_leaves_parameters_aside() {
    let tokens = with_params(vec![lit("not a parameter")]);
    assert_eq!(module_misc_device(&tokens), module_misc_device(&head()));
}

#[test]
fn device_module_faults() {
    assert_eq!(module_misc_device(&[]), Err(ParseError::MissingRequiredKey(Key::Type)));
    let tokens = entry("type", bytes("MyFile"));
    assert_eq!(module_misc_device(&tokens), Err(ParseError::ExpectedIdent));
}

#[test]
fn module_without_parameters() {
    let text = module(&head(), Some("samples/rust/my_kernel_module.rs")).ok().unwrap();
    let author = build_modinfo_string("my_kernel_module", "author", "Rust for Linux Contributors");
    let description =
        build_modinfo_string("my_kernel_module", "description", "My very own kernel module!");
    let license = build_modinfo_string("my_kernel_module", "license", "GPL v2");
    let file = build_modinfo_string_only_builtin(
        "my_kernel_module",
        "file",
        "samples/rust/my_kernel_module.rs",
    );
    assert_eq!(
        text,
        expected_module(
            "MyKernelModule",
            "my_kernel_module",
            &author,
            &description,
            &license,
            "",
            &file,
            "",
            "",
        )
    );
    assert!(text.contains("static mut __MOD: Option<MyKernelModule> = None;"));
    assert!(text.contains("const __LOG_PREFIX: &[u8] = b\"my_kernel_module\\0\";"));
    assert!(text.contains("#[link_section = \".initcall6.init\"]"));
    assert!(text.contains("pub extern \"C\" fn __my_kernel_module_init() -> kernel::c_types::c_int {"));
    assert!(text.contains("// Loadable modules need to export the `{init,cleanup}_module` identifiers"));
    assert_eq!(INITCALL_SECTION, ".initcall6.init");
}

#[test]
fn module_with_plain_parameters() {
    let mut params =
        param("my_i32", vec![ident("i32")], body(vec![lit("42")], "0o000", "Example of i32"));
    params.extend(param(
        "writeable_i32",
        vec![ident("i32")],
        body(vec![lit("42")], "0o644", "Example of i32"),
    ));
    let tokens = with_params(params);
    let text = module(&tokens, Some("m.rs")).ok().unwrap();
    let params_modinfo = i32_param_text("my_kernel_module", "my_i32", "42", "0o000", true)
        + &i32_param_text("my_kernel_module", "writeable_i32", "42", "0o644", false);
    let expected = expected_module(
        "MyKernelModule",
        "my_kernel_module",
        &build_modinfo_string("my_kernel_module", "author", "Rust for Linux Contributors"),
        &build_modinfo_string("my_kernel_module", "description", "My very own kernel module!"),
        &build_modinfo_string("my_kernel_module", "license", "GPL v2"),
        "",
        &build_modinfo_string_only_builtin("my_kernel_module", "file", "m.rs"),
        &params_modinfo,
        "",
    );
    assert_eq!(text, expected);
    assert!(text.contains("static mut __my_kernel_module_my_i32_value: i32 = 42;"));
    assert!(text.contains("fn read(&self) -> &<i32 as kernel::module_param::ModuleParam>::Value {"));
    assert!(text.contains("fn read<'lck>(&self, lock: &'lck kernel::KParamGuard)"));
    assert!(text.contains("perm: 0o644,"));
    assert!(text.contains("b\"my_kernel_module.parmtype=my_i32:i32\\0\""));
}

#[test]
fn module_with_string_and_array_parameters() {
    let array_default =
        TokenTree::Group(Delimiter::Bracket, vec![lit("0"), punct(','), lit("1")]);
    let mut params = param(
        "my_str",
        vec![ident("str")],
        body(vec![lit("b\"default str val\"")], "0o644", "Example of a string param"),
    );
    params.extend(param(
        "my_array",
        array_type("i32", "3"),
        body(vec![array_default], "0", "Example of array"),
    ));
    params.extend(param(
        "my_bool",
        vec![ident("bool")],
        body(vec![ident("true")], "0", "Example of bool"),
    ));
    let tokens = with_params(params);
    let text = module(&tokens, Some("m.rs")).ok().unwrap();
    let m = "my_kernel_module";
    let str_text = build_modinfo_string_param(m, "parmtype", "my_str", "str")
        + &build_modinfo_string_param(m, "parm", "my_str", "Example of a string param")
        + &expected_param(
            m,
            "my_str",
            "kernel::module_param::StringParam",
            &expected_read_locked(m, "my_str", "kernel::module_param::StringParam"),
            "kernel::module_param::StringParam::Ref(b\"default str val\")",
            param_ops_path("str"),
            "0o644",
        );
    let array_text = build_modinfo_string_param(m, "parmtype", "my_array", "__rust_array_param_i32_3")
        + &build_modinfo_string_param(m, "parm", "my_array", "Example of array")
        + &expected_param(
            m,
            "my_array",
            "kernel::module_param::ArrayParam<i32, 3>",
            &expected_read_readonly(m, "my_array", "kernel::module_param::ArrayParam<i32, 3>"),
            "kernel::module_param::ArrayParam::create(&[0,1])",
            &generated_array_ops_name("i32", 3),
            "0",
        );
    let bool_text = build_modinfo_string_param(m, "parmtype", "my_bool", "bool")
        + &build_modinfo_string_param(m, "parm", "my_bool", "Example of bool")
        + &expected_param(
            m,
            "my_bool",
            "bool",
            &expected_read_readonly(m, "my_bool", "bool"),
            "true",
            param_ops_path("bool"),
            "0",
        );
    let expected = expected_module(
        "MyKernelModule",
        m,
        &build_modinfo_string(m, "author", "Rust for Linux Contributors"),
        &build_modinfo_string(m, "description", "My very own kernel module!"),
        &build_modinfo_string(m, "license", "GPL v2"),
        "",
        &build_modinfo_string_only_builtin(m, "file", "m.rs"),
        &(str_text + &array_text + &bool_text),
        &expected_array_ops("__generated_array_ops_i32_3", "i32", 3),
    );
    assert_eq!(text, expected);
    assert!(text.contains("kernel::module_param::ArrayParam<i32, { 3 }>"));
}

#[test]
fn module_whose_file_is_not_known() {
    assert_eq!(module(&head(), None), Err(ParseError::UnknownFile));
    // A fault of the declaration is told first.
    assert_eq!(module(&[], None), Err(ParseError::MissingRequiredKey(Key::Type)));
    let unknown = param("p", vec![ident("f32")], body(vec![lit("1.0")], "0", "a float"));
    assert_eq!(module(&with_params(unknown), None), Err(ParseError::UnrecognizedType));
}

#[test]
fn module_with_an_alias() {
    let mut tokens = head();
    tokens.extend(entry("alias_rtnl_link", bytes("dummy")));
    let text = module(&tokens, Some("m.rs")).ok().unwrap();
    let alias = build_modinfo_string("my_kernel_module", "alias", "rtnl-link-dummy");
    assert!(text.contains(&alias));
}

#[test]
fn module_faults() {
    assert_eq!(module(&[], Some("m.rs")), Err(ParseError::MissingRequiredKey(Key::Type)));
    // The parameters must stand in braces.
    let mut tokens = head();
    tokens.extend(entry("params", TokenTree::Group(Delimiter::Bracket, vec![])));
    assert_eq!(module(&tokens, Some("m.rs")), Err(ParseError::Mismatch));
    assert_eq!(module(&with_params(vec![lit("1")]), Some("m.rs")), Err(ParseError::ExpectedIdentOrEnd));
    assert_eq!(module(&with_params(vec![ident("p")]), Some("m.rs")), Err(ParseError::EndOfStream));
    assert_eq!(
        module(&with_params(vec![ident("p"), punct(':')]), Some("m.rs")),
        Err(ParseError::EndOfStream)
    );
    assert_eq!(
        module(&with_params(vec![ident("p"), punct(':'), lit("i32")]), Some("m.rs")),
        Err(ParseError::ExpectedParamType)
    );
    assert_eq!(
        module(&with_params(vec![ident("p"), punct(':'), ident("i32")]), Some("m.rs")),
        Err(ParseError::EndOfStream)
    );
    assert_eq!(
        module(&with_params(vec![ident("p"), punct(':'), ident("i32"), ident("x")]), Some("m.rs")),
        Err(ParseError::ExpectedGroup)
    );
    let wrong_body = TokenTree::Group(Delimiter::Parenthesis, vec![]);
    assert_eq!(
        module(&with_params(param("p", vec![ident("i32")], wrong_body)), Some("m.rs")),
        Err(ParseError::Mismatch)
    );
    let unknown = param("p", vec![ident("f32")], body(vec![lit("1.0")], "0", "a float"));
    assert_eq!(module(&with_params(unknown), Some("m.rs")), Err(ParseError::UnrecognizedType));
    let invbool = param("p", vec![ident("invbool")], body(vec![lit("1")], "0", "inverted"));
    assert_eq!(module(&with_params(invbool), Some("m.rs")), Err(ParseError::UnrecognizedType));
}

#[test]
fn of_two_faults_the_earlier_parameters_is_told() {
    let unknown = param("p", vec![ident("f32")], body(vec![lit("1.0")], "0", "a float"));
    let mut params = unknown;
    params.push(lit("no parameter"));
    assert_eq!(module(&with_params(params), Some("m.rs")), Err(ParseError::UnrecognizedType));
    let good = param("p", vec![ident("i32")], body(vec![lit("1")], "0", "fine"));
    let mut params = good;
    params.push(lit("no parameter"));
    assert_eq!(module(&with_params(params), Some("m.rs")), Err(ParseError::ExpectedIdentOrEnd));
}

#[test]
fn parameter_body_faults() {
    let read = |body: TokenTree| {
        let tokens = vec![punct(':'), ident("i32"), body, punct(',')];
        let mut it = IntoIter::new(&tokens);
        read_param("p".to_string(), &mut it).err()
    };
    assert_eq!(read(braces(vec![])), Some(ParseError::ExpectedIdent));
    let tokens = vec![punct(':'), lit("i32"), ident("left"), ident("left")];
    let mut it = IntoIter::new(&tokens);
    assert_eq!(read_param("p".to_string(), &mut it).err(), Some(ParseError::ExpectedParamType));
    assert!(it.next().is_none());
    let mut tokens = vec![ident("default"), punct(':'), lit("1"), punct(',')];
    assert_eq!(read(braces(copy(&tokens))), Some(ParseError::ExpectedIdent));
    tokens.extend(entry("description", bytes("d")));
    assert_eq!(read(braces(copy(&tokens))), Some(ParseError::Mismatch));
    let mut tokens = vec![ident("default"), punct(':'), lit("1"), punct(',')];
    tokens.extend(entry("permissions", ident("rw")));
    assert_eq!(read(braces(copy(&tokens))), Some(ParseError::ExpectedLiteral));
    let mut tokens = vec![ident("default"), punct(':'), lit("1"), punct(',')];
    tokens.extend(entry("permissions", lit("0")));
    tokens.extend(entry("description", lit("\"d\"")));
    assert_eq!(read(braces(copy(&tokens))), Some(ParseError::ExpectedByteString));
    let mut tokens = vec![ident("default"), punct(':'), lit("1"), punct(',')];
    tokens.extend(entry("permissions", lit("0")));
    tokens.extend(entry("description", bytes("d")));
    tokens.push(ident("more"));
    assert_eq!(read(braces(copy(&tokens))), Some(ParseError::ExpectedEnd));
}

fn copy(tokens: &[TokenTree]) -> Vec<TokenTree> {
    tokens
        .iter()
        .map(|token| match token {
            TokenTree::Ident(text) => TokenTree::Ident(text.clone()),
            TokenTree::Literal(text) => TokenTree::Literal(text.clone()),
            TokenTree::Punct(c) => TokenTree::Punct(*c),
            TokenTree::Group(delimiter, stream) => TokenTree::Group(*delimiter, copy(stream)),
        })
        .collect()
}

#[test]
fn one_parameter_read_and_generated() {
    let tokens = param("count", vec![ident("u8")], body(vec![lit("7")], "0o444", "How many"));
    let mut it = IntoIter::new(&tokens[1..]);
    let decl = read_param("count".to_string(), &mut it).ok().unwrap();
    assert!(it.next().is_none());
    assert_eq!(decl.name, "count");
    assert!(matches!(&decl.param_type, ParamType::Ident(name) if name == "u8"));
    assert_eq!(decl.default, "7");
    assert_eq!(decl.permissions, "0o444");
    assert_eq!(decl.description, "How many");
    let text = generate_param("m", &decl).ok().unwrap();
    let expected = build_modinfo_string_param("m", "parmtype", "count", "u8")
        + &build_modinfo_string_param("m", "parm", "count", "How many")
        + &expected_param(
            "m",
            "count",
            "u8",
            &expected_read_readonly("m", "count", "u8"),
            "7",
            "kernel::module_param::PARAM_OPS_U8",
            "0o444",
        );
    assert_eq!(text, expected);
    let (all, arrays) = generate_params("m", &tokens).ok().unwrap();
    assert_eq!(all, expected);
    assert!(arrays.is_empty());
}

#[test]
fn a_parameter_of_unknown_type_is_not_generated() {
    let decl = ParamDecl {
        name: "p".to_string(),
        param_type: ParamType::Ident("f64".to_string()),
        default: "1".to_string(),
        permissions: "0".to_string(),
        description: "d".to_string(),
    };
    assert_eq!(generate_param("m", &decl), Err(ParseError::UnrecognizedType));
}

#[test]
fn array_operations() {
    assert_eq!(generate_array_types(&vec![]), Some("".to_string()));
    let arrays = vec![
        ArrayType { vals: "i32".to_string(), max_length: 3 },
        ArrayType { vals: "u8".to_string(), max_length: 16 },
    ];
    assert_eq!(
        generate_array_types(&arrays),
        Some(
            expected_array_ops("__generated_array_ops_i32_3", "i32", 3)
                + &expected_array_ops("__generated_array_ops_u8_16", "u8", 16)
        )
    );
}
