//! Filling named values into a template.
//!
//! A template is a text in which `{name}` stands for the value of the
//! argument `name`, `{{` for an opening brace and `}}` for a closing one.
//! Every other character stands for itself. A brace that is neither doubled
//! nor part of a `{name}`, and a name for which no argument is given, make
//! the template unusable.

use vstd::prelude::*;
use vstd::string::{StringExecFns, StrSliceExecFns};

verus! {

/// A named value.
#[derive(Clone, Copy, Debug)]
pub struct Arg<'a> {
    /// The name under which templates refer to the value.
    pub name: &'a str,
    /// The value.
    pub value: &'a str,
}

/// The mathematical value of an [`Arg`].
pub struct ArgView {
    /// The name.
    pub name: Seq<char>,
    /// The value.
    pub value: Seq<char>,
}

impl<'a> View for Arg<'a> {
    type V = ArgView;

    open spec fn view(&self) -> ArgView {
        ArgView { name: self.name@, value: self.value@ }
    }
}

/// The values of a run of arguments.
pub open spec fn arg_views(args: Seq<Arg>) -> Seq<ArgView> {
    Seq::new(args.len(), |i: int| args[i]@)
}

/// The value of the first argument called `name`, from the place `from` on.
pub open spec fn lookup(args: Seq<ArgView>, name: Seq<char>, from: int) -> Option<Seq<char>>
    decreases args.len() - from,
{
    if from < 0 || from >= args.len() {
        None
    } else if args[from].name == name {
        Some(args[from].value)
    } else {
        lookup(args, name, from + 1)
    }
}

/// The place of the first closing brace at or behind `from`, or the length
/// of the text where there is none.
pub open spec fn closing(text: Seq<char>, from: int) -> int
    decreases text.len() - from,
{
    if from < 0 || from >= text.len() {
        text.len() as int
    } else if text[from] == '}' {
        from
    } else {
        closing(text, from + 1)
    }
}

/// The text `head` in front of what `tail` gives, if it gives anything.
pub open spec fn followed(head: Seq<char>, tail: Option<Seq<char>>) -> Option<Seq<char>> {
    match tail {
        Some(tail) => Some(head + tail),
        None => None,
    }
}

/// What the template makes of `args`, read from the place `from` on.
pub open spec fn formatted_from(template: Seq<char>, args: Seq<ArgView>, from: int) -> Option<
    Seq<char>,
>
    decreases template.len() - from,
{
    if from < 0 || from >= template.len() {
        Some(Seq::empty())
    } else if template[from] == '{' {
        if from + 1 < template.len() && template[from + 1] == '{' {
            followed(seq!['{'], formatted_from(template, args, from + 2))
        } else {
            let end = closing(template, from + 1);
            if end <= from || end >= template.len() {
                None
            } else {
                match lookup(args, template.subrange(from + 1, end), 0) {
                    None => None,
                    Some(value) => followed(value, formatted_from(template, args, end + 1)),
                }
            }
        }
    } else if template[from] == '}' {
        if from + 1 < template.len() && template[from + 1] == '}' {
            followed(seq!['}'], formatted_from(template, args, from + 2))
        } else {
            None
        }
    } else {
        followed(seq![template[from]], formatted_from(template, args, from + 1))
    }
}

/// What the template makes of `args`: nothing where the template is
/// unusable.
pub open spec fn formatted(template: Seq<char>, args: Seq<ArgView>) -> Option<Seq<char>> {
    formatted_from(template, args, 0)
}

/// Tells whether two texts are the same.
pub fn same_text(a: &str, b: &str) -> (same: bool)
    ensures
        same == (a@ == b@),
{
    String::from_str(a) == String::from_str(b)
}

/// Finds the value of the first argument called `name`.
pub fn find_arg<'a>(args: &[Arg<'a>], name: &str) -> (value: Option<&'a str>)
    ensures
        match value {
            Some(value) => lookup(arg_views(args@), name@, 0) == Some(value@),
            None => lookup(arg_views(args@), name@, 0) is None,
        },
{
    let mut i: usize = 0;
    while i < args.len()
        invariant
            i <= args@.len(),
            lookup(arg_views(args@), name@, 0) == lookup(arg_views(args@), name@, i as int),
        decreases args@.len() - i,
    {
        if same_text(args[i].name, name) {
            return Some(args[i].value);
        }
        i = i + 1;
    }
    None
}

/// Fills the values of `args` into `template`. An unusable template gives
/// nothing.
pub fn fill(template: &str, args: &[Arg]) -> (text: Option<String>)
    ensures
        match text {
            Some(text) => formatted(template@, arg_views(args@)) == Some(text@),
            None => formatted(template@, arg_views(args@)) is None,
        },
{
    let len = template.unicode_len();
    let mut out = String::new();
    let mut i: usize = 0;
    assert(Seq::<char>::empty() + Seq::<char>::empty() =~= Seq::<char>::empty());
    while i < len
        invariant
            len == template@.len(),
            i <= len,
            formatted(template@, arg_views(args@)) == followed(
                out@,
                formatted_from(template@, arg_views(args@), i as int),
            ),
        decreases len - i,
    {
        let ghost before = out@;
        let ghost tail = formatted_from(template@, arg_views(args@), i as int);
        let c = template.get_char(i);
        if c == '{' {
            if i + 1 < len && template.get_char(i + 1) == '{' {
                out.append("{");
                proof {
                    reveal_strlit("{");
                    assert("{"@ =~= seq!['{']);
                    lemma_followed_twice(
                        before,
                        seq!['{'],
                        formatted_from(template@, arg_views(args@), i + 2),
                    );
                }
                i = i + 2;
            } else {
                let mut end: usize = i + 1;
                while end < len && template.get_char(end) != '}'
                    invariant
                        len == template@.len(),
                        i + 1 <= end <= len,
                        closing(template@, i + 1) == closing(template@, end as int),
                    decreases len - end,
                {
                    end = end + 1;
                }
                if end >= len {
                    return None;
                }
                let name = template.substring_char(i + 1, end);
                match find_arg(args, name) {
                    None => {
                        return None;
                    },
                    Some(value) => {
                        out.append(value);
                        proof {
                            lemma_followed_twice(
                                before,
                                value@,
                                formatted_from(template@, arg_views(args@), end + 1),
                            );
                        }
                    },
                }
                i = end + 1;
            }
        } else if c == '}' {
            if i + 1 < len && template.get_char(i + 1) == '}' {
                out.append("}");
                proof {
                    reveal_strlit("}");
                    assert("}"@ =~= seq!['}']);
                    lemma_followed_twice(
                        before,
                        seq!['}'],
                        formatted_from(template@, arg_views(args@), i + 2),
                    );
                }
                i = i + 2;
            } else {
                return None;
            }
        } else {
            out.append(template.substring_char(i, i + 1));
            proof {
                assert(template@.subrange(i as int, i + 1) =~= seq![template@[i as int]]);
                lemma_followed_twice(
                    before,
                    seq![template@[i as int]],
                    formatted_from(template@, arg_views(args@), i + 1),
                );
            }
            i = i + 1;
        }
    }
    assert(out@ + Seq::<char>::empty() =~= out@);
    Some(out)
}

/// Putting `head` in front, after `more` was put in front of `tail`, is putting
/// the two in front of `tail` as one.
pub proof fn lemma_followed_twice(head: Seq<char>, more: Seq<char>, tail: Option<Seq<char>>)
    ensures
        followed(head, followed(more, tail)) == followed(head + more, tail),
{
    if let Some(tail) = tail {
        assert(head + (more + tail) =~= (head + more) + tail);
    }
}

} // verus!
