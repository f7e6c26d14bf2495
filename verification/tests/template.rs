use device_session::template::{fill, find_arg, Arg};

fn args<'a>(pairs: &[(&'a str, &'a str)]) -> Vec<Arg<'a>> {
    pairs.iter().map(|(name, value)| Arg { name, value }).collect()
}

#[test]
fn text_without_braces_stands_for_itself() {
    assert_eq!(fill("", &[]), Some("".to_string()));
    assert_eq!(fill("plain text\n", &[]), Some("plain text\n".to_string()));
    assert_eq!(fill("Zo\u{eb}", &args(&[("x", "y")])), Some("Zo\u{eb}".to_string()));
}

#[test]
fn names_are_replaced_by_values() {
    let a = args(&[("field", "author"), ("content", "me"), ("module", "m")]);
    assert_eq!(fill("{module}.{field}={content}", &a), Some(format!("{}.{}={}", "m", "author", "me")));
    assert_eq!(fill("{field}{field}", &a), Some("authorauthor".to_string()));
    assert_eq!(fill("{content}", &a), Some("me".to_string()));
    assert_eq!(fill("a{content}b", &a), Some("ameb".to_string()));
}

#[test]
fn doubled_braces_are_braces() {
    let a = args(&[("x", "1")]);
    assert_eq!(fill("{{", &a), Some("{".to_string()));
    assert_eq!(fill("}}", &a), Some("}".to_string()));
    assert_eq!(fill("fn f() {{ {x} }}", &a), Some(format!("fn f() {{ {x} }}", x = 1)));
    assert_eq!(fill("{{x}}", &a), Some("{x}".to_string()));
    assert_eq!(fill("{{{x}}}", &a), Some("{1}".to_string()));
    assert_eq!(fill("{{{{", &a), Some("{{".to_string()));
}

#[test]
fn values_are_not_read_again() {
    let a = args(&[("x", "{y}"), ("y", "}}{{")]);
    assert_eq!(fill("{x}{y}", &a), Some("{y}}}{{".to_string()));
}

#[test]
fn unusable_templates() {
    let a = args(&[("x", "1")]);
    assert_eq!(fill("{", &a), None);
    assert_eq!(fill("}", &a), None);
    assert_eq!(fill("{x", &a), None);
    assert_eq!(fill("x}", &a), None);
    assert_eq!(fill("{y}", &a), None);
    assert_eq!(fill("{}", &a), None);
    assert_eq!(fill("{x}{", &a), None);
    assert_eq!(fill("{ x}", &a), None);
    assert_eq!(fill("{x}}", &a), None);
}

#[test]
fn the_first_argument_of_a_name_counts() {
    let a = args(&[("x", "1"), ("y", "2"), ("x", "3"), ("", "empty")]);
    assert_eq!(find_arg(&a, "x"), Some("1"));
    assert_eq!(find_arg(&a, "y"), Some("2"));
    assert_eq!(find_arg(&a, "z"), None);
    assert_eq!(find_arg(&a, ""), Some("empty"));
    assert_eq!(fill("{x}{y}{}", &a), Some("12empty".to_string()));
    assert_eq!(find_arg(&[], "x"), None);
}
