//! Reading the declaration of a module's parameters.
//!
//! A parameter is declared as `name: type { default: value, permissions:
//! number, description: b"text", },`. Its type is a plain type, or an array
//! `ArrayParam<type, length>`, whose default is a bracketed list of values.

use vstd::prelude::*;
use vstd::string::StringExecFns;

use crate::module_info::{
    byte_string_of,
    expect_group,
    expect_ident,
    expect_literal,
    expect_this_punct,
    expected_group,
    expected_ident,
    expected_literal,
    expected_this_punct,
    first,
    ident_of,
    literal_of,
    nth,
    rest,
    try_byte_string,
    try_ident,
    try_literal,
    ParseError,
};
use crate::template::same_text;
use crate::token_stream::{views, Delimiter, IntoIter, TokenTree, TokenView};

verus! {

/// The type of a parameter.
#[derive(Debug, PartialEq, Eq)]
pub enum ParamType {
    /// A plain type, by its name.
    Ident(String),
    /// An array of at most `max_length` values of the type `vals`.
    Array { vals: String, max_length: usize },
}

/// The mathematical value of a [`ParamType`].
pub enum ParamTypeView {
    /// A plain type.
    Ident(Seq<char>),
    /// An array.
    Array { vals: Seq<char>, max_length: usize },
}

impl View for ParamType {
    type V = ParamTypeView;

    open spec fn view(&self) -> ParamTypeView {
        match self {
            ParamType::Ident(name) => ParamTypeView::Ident(name@),
            ParamType::Array { vals, max_length } => ParamTypeView::Array {
                vals: vals@,
                max_length: *max_length,
            },
        }
    }
}

impl ParamTypeView {
    /// The name of the type of a single value of the parameter.
    pub open spec fn value_type(self) -> Seq<char> {
        match self {
            ParamTypeView::Ident(name) => name,
            ParamTypeView::Array { vals, max_length } => vals,
        }
    }
}

/// What `str::parse::<usize>` makes of `text`: the number, or nothing where
/// the text is not a number or does not fit.
pub uninterp spec fn usize_from_str(text: Seq<char>) -> Option<usize>;

/// Calls `str::parse::<usize>`, which depends on its argument alone, and
/// keeps its number; its error becomes `None`.
#[verifier::external_body]
fn parse_usize(text: &str) -> (parsed: Option<usize>)
    ensures
        parsed == usize_from_str(text@),
{
    text.parse::<usize>().ok()
}

/// The type of an array whose values have the type `vals` and whose length
/// was parsed to `max_length`.
pub open spec fn array_type(vals: Seq<char>, max_length: Option<usize>) -> Result<
    ParamTypeView,
    ParseError,
> {
    match max_length {
        Some(max_length) => Ok(ParamTypeView::Array { vals, max_length }),
        None => Err(ParseError::ExpectedUsizeLength),
    }
}

/// Makes the type of an array from the type of its values and what its
/// length was parsed to. A length that is no number is refused.
pub fn make_array_type(vals: String, max_length: Option<usize>) -> (r: Result<
    ParamType,
    ParseError,
>)
    ensures
        match r {
            Ok(param_type) => array_type(vals@, max_length) == Ok::<ParamTypeView, ParseError>(
                param_type@,
            ),
            Err(e) => array_type(vals@, max_length) == Err::<ParamTypeView, ParseError>(e),
        },
{
    match max_length {
        Some(max_length) => Ok(ParamType::Array { vals, max_length }),
        None => Err(ParseError::ExpectedUsizeLength),
    }
}

/// What is made of the five tokens `<type, length>`.
pub open spec fn array_fields(tokens: Seq<TokenView>) -> Result<ParamTypeView, ParseError> {
    match expected_this_punct(nth(tokens, 0), '<') {
        Err(e) => Err(e),
        Ok(()) => match expected_ident(nth(tokens, 1)) {
            Err(e) => Err(e),
            Ok(vals) => match expected_this_punct(nth(tokens, 2), ',') {
                Err(e) => Err(e),
                Ok(()) => match expected_literal(nth(tokens, 3)) {
                    Err(e) => Err(e),
                    Ok(length) => match array_type(vals, usize_from_str(length)) {
                        Err(e) => Err(e),
                        Ok(param_type) => match expected_this_punct(nth(tokens, 4), '>') {
                            Err(e) => Err(e),
                            Ok(()) => Ok(param_type),
                        },
                    },
                },
            },
        },
    }
}

/// Reads the five tokens `<type, length>`, up to the first fault.
fn read_array_fields(it: &mut IntoIter) -> (r: Result<ParamType, ParseError>)
    ensures
        match r {
            Ok(param_type) => array_fields(old(it).remaining()) == Ok::<
                ParamTypeView,
                ParseError,
            >(param_type@) && final(it).remaining() == old(it).remaining().skip(5),
            Err(e) => array_fields(old(it).remaining()) == Err::<ParamTypeView, ParseError>(e),
        },
{
    let ghost tokens = it.remaining();
    match expect_this_punct(it, '<') {
        Ok(()) => {},
        Err(e) => {
            return Err(e);
        },
    }
    let vals = match expect_ident(it) {
        Ok(vals) => vals,
        Err(e) => {
            return Err(e);
        },
    };
    match expect_this_punct(it, ',') {
        Ok(()) => {},
        Err(e) => {
            return Err(e);
        },
    }
    let max_length_str = match expect_literal(it) {
        Ok(literal) => literal,
        Err(e) => {
            return Err(e);
        },
    };
    let param_type = match make_array_type(vals, parse_usize(max_length_str.as_str())) {
        Ok(param_type) => param_type,
        Err(e) => {
            return Err(e);
        },
    };
    match expect_this_punct(it, '>') {
        Ok(()) => {},
        Err(e) => {
            return Err(e);
        },
    }
    assert(it.remaining() =~= tokens.skip(5));
    Ok(param_type)
}

/// Takes the five tokens `<type, length>` of an array's type. Where it
/// succeeds, exactly these five tokens are taken.
/// A fault ends the reading: no token is left behind it.
pub fn expect_array_fields(it: &mut IntoIter) -> (r: Result<ParamType, ParseError>)
    ensures
        match r {
            Ok(param_type) => array_fields(old(it).remaining()) == Ok::<
                ParamTypeView,
                ParseError,
            >(param_type@) && final(it).remaining() == old(it).remaining().skip(5),
            Err(e) => array_fields(old(it).remaining()) == Err::<ParamTypeView, ParseError>(e),
        },
        r is Err ==> final(it).remaining() == Seq::<TokenView>::empty(),
{
    let r = read_array_fields(it);
    if r.is_err() {
        it.exhaust();
    }
    r
}

/// The name that introduces the type of an array.
pub const ARRAY_PARAM: &'static str = "ArrayParam";

/// What is made of the tokens of a parameter's type.
pub open spec fn param_type(tokens: Seq<TokenView>) -> Result<ParamTypeView, ParseError> {
    match first(tokens) {
        None => Err(ParseError::EndOfStream),
        Some(TokenView::Ident(name)) => if name == ARRAY_PARAM@ {
            array_fields(tokens.skip(1))
        } else {
            Ok(ParamTypeView::Ident(name))
        },
        Some(_) => Err(ParseError::ExpectedParamType),
    }
}

/// How many tokens the type of a parameter takes.
pub open spec fn param_type_len(param_type: ParamTypeView) -> int {
    match param_type {
        ParamTypeView::Ident(_) => 1,
        ParamTypeView::Array { .. } => 6,
    }
}

/// Reads the tokens of a parameter's type, up to the first fault.
fn read_type(it: &mut IntoIter) -> (r: Result<ParamType, ParseError>)
    ensures
        match r {
            Ok(found) => param_type(old(it).remaining()) == Ok::<ParamTypeView, ParseError>(
                found@,
            ) && final(it).remaining() == old(it).remaining().skip(param_type_len(found@)),
            Err(e) => param_type(old(it).remaining()) == Err::<ParamTypeView, ParseError>(e),
        },
{
    let ghost tokens = it.remaining();
    match it.next() {
        None => Err(ParseError::EndOfStream),
        Some(TokenTree::Ident(ident)) => {
            if same_text(ident.as_str(), ARRAY_PARAM) {
                let r = expect_array_fields(it);
                assert(r is Ok ==> it.remaining() =~= tokens.skip(6));
                r
            } else {
                Ok(ParamType::Ident(ident.clone()))
            }
        },
        Some(_) => Err(ParseError::ExpectedParamType),
    }
}

/// Takes the tokens of a parameter's type: one name, or `ArrayParam` and
/// the five tokens of an array's type.
/// A fault ends the reading: no token is left behind it.
pub fn expect_type(it: &mut IntoIter) -> (r: Result<ParamType, ParseError>)
    ensures
        match r {
            Ok(found) => param_type(old(it).remaining()) == Ok::<ParamTypeView, ParseError>(
                found@,
            ) && final(it).remaining() == old(it).remaining().skip(param_type_len(found@)),
            Err(e) => param_type(old(it).remaining()) == Err::<ParamTypeView, ParseError>(e),
        },
        r is Err ==> final(it).remaining() == Seq::<TokenView>::empty(),
{
    let r = read_type(it);
    if r.is_err() {
        it.exhaust();
    }
    r
}

/// How the value of a parameter is written.
#[derive(Clone, Copy, Debug, PartialEq, Eq, Structural)]
pub enum ParamValKind {
    /// As an identifier: the values of `bool`.
    Ident,
    /// As a byte string literal: the values of `str`.
    ByteString,
    /// As any other literal.
    Literal,
}

/// The text in front of the content of a string parameter's value.
pub const STRING_PARAM_OPEN: &'static str = "kernel::module_param::StringParam::Ref(b\"";

/// The text behind the content of a string parameter's value.
pub const STRING_PARAM_CLOSE: &'static str = "\")";

/// How the values of the type `param_type` are written.
pub open spec fn val_kind(param_type: Seq<char>) -> ParamValKind {
    if param_type == "bool"@ {
        ParamValKind::Ident
    } else if param_type == "str"@ {
        ParamValKind::ByteString
    } else {
        ParamValKind::Literal
    }
}

/// The value that the token `token` gives to a parameter whose values are
/// written as `kind` says: the text of an identifier or of a literal, or the
/// expression that makes a string parameter of a byte string.
pub open spec fn param_val(kind: ParamValKind, token: Option<TokenView>) -> Option<Seq<char>> {
    match kind {
        ParamValKind::Ident => ident_of(token),
        ParamValKind::ByteString => match byte_string_of(token) {
            Some(content) => Some(STRING_PARAM_OPEN@ + content + STRING_PARAM_CLOSE@),
            None => None,
        },
        ParamValKind::Literal => literal_of(token),
    }
}

/// Tells how the values of the type `param_type` are written.
pub fn try_simple_param_val(param_type: &str) -> (kind: ParamValKind)
    ensures
        kind == val_kind(param_type@),
{
    if same_text(param_type, "bool") {
        ParamValKind::Ident
    } else if same_text(param_type, "str") {
        ParamValKind::ByteString
    } else {
        ParamValKind::Literal
    }
}

/// Takes the next token and gives the value that it gives to a parameter,
/// if it is written as `kind` says.
pub fn try_param_val(kind: ParamValKind, it: &mut IntoIter) -> (val: Option<String>)
    ensures
        final(it).remaining() == rest(old(it).remaining()),
        match val {
            Some(text) => param_val(kind, first(old(it).remaining())) == Some(text@),
            None => param_val(kind, first(old(it).remaining())) is None,
        },
{
    match kind {
        ParamValKind::Ident => try_ident(it),
        ParamValKind::ByteString => match try_byte_string(it) {
            Some(s) => Some(
                String::from_str(STRING_PARAM_OPEN).concat(s.as_str()).concat(STRING_PARAM_CLOSE),
            ),
            None => None,
        },
        ParamValKind::Literal => try_literal(it),
    }
}

/// The values in the bracketed list `tokens`.
///
/// The list is read value by value. It ends where the tokens end, and also,
/// without complaint, at the first token that gives no value. Behind a value
/// stands a comma or the end.
pub open spec fn array_values(kind: ParamValKind, tokens: Seq<TokenView>) -> Result<
    Seq<Seq<char>>,
    ParseError,
>
    decreases tokens.len(),
{
    match param_val(kind, first(tokens)) {
        None => Ok(Seq::empty()),
        Some(val) => match nth(tokens, 1) {
            None => Ok(seq![val]),
            Some(TokenView::Punct(c)) => if c != ',' {
                Err(ParseError::Mismatch)
            } else {
                after(seq![val], array_values(kind, tokens.skip(2)))
            },
            Some(_) => Err(ParseError::ExpectedCommaOrEnd),
        },
    }
}

/// The values `read`, and then those that `more` gives, if it gives any.
pub open spec fn after(read: Seq<Seq<char>>, more: Result<Seq<Seq<char>>, ParseError>) -> Result<
    Seq<Seq<char>>,
    ParseError,
> {
    match more {
        Ok(more) => Ok(read + more),
        Err(e) => Err(e),
    }
}

/// The texts `values`, with `separator` between each two of them.
pub open spec fn joined(values: Seq<Seq<char>>, separator: Seq<char>) -> Seq<char>
    decreases values.len(),
{
    if values.len() == 0 {
        Seq::empty()
    } else if values.len() == 1 {
        values[0]
    } else {
        joined(values.drop_last(), separator) + separator + values.last()
    }
}

/// The values of a run of texts.
pub open spec fn texts(values: Seq<String>) -> Seq<Seq<char>> {
    Seq::new(values.len(), |i: int| values[i]@)
}

/// Joins `values`, with `separator` between each two of them.
pub fn join(values: &Vec<String>, separator: &str) -> (text: String)
    ensures
        text@ == joined(texts(values@), separator@),
{
    let mut text = String::new();
    let mut i: usize = 0;
    while i < values.len()
        invariant
            i <= values@.len(),
            text@ == joined(texts(values@).take(i as int), separator@),
        decreases values@.len() - i,
    {
        proof {
            let upto = texts(values@).take(i + 1);
            assert(upto.drop_last() =~= texts(values@).take(i as int));
            assert(upto.last() == values@[i as int]@);
        }
        if i > 0 {
            text = text.concat(separator);
        }
        text = text.concat(values[i].as_str());
        i = i + 1;
        assert(text@ =~= joined(texts(values@).take(i as int), separator@));
    }
    assert(texts(values@).take(values@.len() as int) =~= texts(values@));
    text
}

/// The text in front of an array's default values.
pub const ARRAY_PARAM_OPEN: &'static str = "kernel::module_param::ArrayParam::create(&[";

/// The text behind an array's default values.
pub const ARRAY_PARAM_CLOSE: &'static str = "])";

/// The default value that a parameter's declaration gives behind `default:`.
/// For a plain type it is the one value that stands there. For an array it
/// is the expression that makes an array of the values in the bracketed
/// list.
pub open spec fn default_value(param_type: ParamTypeView, token: Option<TokenView>) -> Result<
    Seq<char>,
    ParseError,
> {
    let kind = val_kind(param_type.value_type());
    match param_type {
        ParamTypeView::Ident(_) => match param_val(kind, token) {
            Some(val) => Ok(val),
            None => Err(ParseError::ExpectedDefault),
        },
        ParamTypeView::Array { .. } => match expected_group(token) {
            Err(e) => Err(e),
            Ok((delimiter, stream)) => if delimiter != Delimiter::Bracket {
                Err(ParseError::Mismatch)
            } else {
                match array_values(kind, stream) {
                    Err(e) => Err(e),
                    Ok(values) => Ok(
                        ARRAY_PARAM_OPEN@ + joined(values, ","@) + ARRAY_PARAM_CLOSE@,
                    ),
                }
            },
        },
    }
}

/// What is made of the four tokens `default: value,`.
pub open spec fn named_default(param_type: ParamTypeView, tokens: Seq<TokenView>) -> Result<
    Seq<char>,
    ParseError,
> {
    match expected_ident(nth(tokens, 0)) {
        Err(e) => Err(e),
        Ok(ident) => if ident != "default"@ {
            Err(ParseError::Mismatch)
        } else {
            match expected_this_punct(nth(tokens, 1), ':') {
                Err(e) => Err(e),
                Ok(()) => match default_value(param_type, nth(tokens, 2)) {
                    Err(e) => Err(e),
                    Ok(default) => match expected_this_punct(nth(tokens, 3), ',') {
                        Err(e) => Err(e),
                        Ok(()) => Ok(default),
                    },
                },
            }
        },
    }
}

/// Reads the values of the bracketed list `tokens`.
pub fn read_array_values(kind: ParamValKind, tokens: &[TokenTree]) -> (r: Result<
    Vec<String>,
    ParseError,
>)
    ensures
        match r {
            Ok(values) => array_values(kind, views(tokens@)) == Ok::<Seq<Seq<char>>, ParseError>(
                texts(values@),
            ),
            Err(e) => array_values(kind, views(tokens@)) == Err::<Seq<Seq<char>>, ParseError>(e),
        },
{
    let mut it = IntoIter::new(tokens);
    let mut default_vals: Vec<String> = Vec::new();
    let ghost whole = it.remaining();
    assert(texts(default_vals@) =~= Seq::<Seq<char>>::empty());
    loop
        invariant_except_break
            array_values(kind, whole) == after(
                texts(default_vals@),
                array_values(kind, it.remaining()),
            ),
        invariant
            whole == views(tokens@),
        ensures
            array_values(kind, whole) == Ok::<Seq<Seq<char>>, ParseError>(texts(default_vals@)),
        decreases it.remaining().len(),
    {
        let ghost left = it.remaining();
        let ghost had = texts(default_vals@);
        let default_val = match try_param_val(kind, &mut it) {
            Some(default_val) => default_val,
            None => {
                assert(had + Seq::<Seq<char>>::empty() =~= had);
                break ;
            },
        };
        let ghost val = default_val@;
        default_vals.push(default_val);
        assert(texts(default_vals@) =~= had + seq![val]);
        match it.next() {
            Some(TokenTree::Punct(punct)) => {
                if *punct != ',' {
                    return Err(ParseError::Mismatch);
                }
                assert(it.remaining() =~= left.skip(2));
                assert forall|more: Seq<Seq<char>>| had + (seq![val] + more) =~= (had + seq![val])
                    + more by {}
            },
            None => {
                break ;
            },
            Some(_) => {
                return Err(ParseError::ExpectedCommaOrEnd);
            },
        }
    }
    Ok(default_vals)
}

/// Reads the four tokens `default: value,`, up to the first fault.
fn read_default(param_type: &ParamType, param_it: &mut IntoIter) -> (r: Result<
    String,
    ParseError,
>)
    ensures
        match r {
            Ok(default) => named_default(param_type@, old(param_it).remaining()) == Ok::<
                Seq<char>,
                ParseError,
            >(default@) && final(param_it).remaining() == old(param_it).remaining().skip(4),
            Err(e) => named_default(param_type@, old(param_it).remaining()) == Err::<
                Seq<char>,
                ParseError,
            >(e),
        },
{
    let ghost tokens = param_it.remaining();
    let kind = match param_type {
        ParamType::Ident(param_type) => try_simple_param_val(param_type.as_str()),
        ParamType::Array { vals, max_length: _ } => try_simple_param_val(vals.as_str()),
    };
    let ident = match expect_ident(param_it) {
        Ok(ident) => ident,
        Err(e) => {
            return Err(e);
        },
    };
    if !same_text(ident.as_str(), "default") {
        return Err(ParseError::Mismatch);
    }
    match expect_this_punct(param_it, ':') {
        Ok(()) => {},
        Err(e) => {
            return Err(e);
        },
    }
    let default = match param_type {
        ParamType::Ident(_) => match try_param_val(kind, param_it) {
            Some(val) => val,
            None => {
                return Err(ParseError::ExpectedDefault);
            },
        },
        ParamType::Array { vals: _, max_length: _ } => {
            let group = match expect_group(param_it) {
                Ok(group) => group,
                Err(e) => {
                    return Err(e);
                },
            };
            if group.delimiter != Delimiter::Bracket {
                return Err(ParseError::Mismatch);
            }
            let default_vals = match read_array_values(kind, group.stream) {
                Ok(default_vals) => default_vals,
                Err(e) => {
                    return Err(e);
                },
            };
            String::from_str(ARRAY_PARAM_OPEN).concat(join(&default_vals, ",").as_str()).concat(
                ARRAY_PARAM_CLOSE,
            )
        },
    };
    match expect_this_punct(param_it, ',') {
        Ok(()) => {},
        Err(e) => {
            return Err(e);
        },
    }
    assert(param_it.remaining() =~= tokens.skip(4));
    Ok(default)
}

/// Takes the four tokens `default: value,` of the declaration of a
/// parameter of the type `param_type`, and gives the default value as the
/// text of an expression. Where it succeeds, exactly these four tokens are
/// taken.
/// A fault ends the reading: no token is left behind it.
pub fn get_default(param_type: &ParamType, param_it: &mut IntoIter) -> (r: Result<
    String,
    ParseError,
>)
    ensures
        match r {
            Ok(default) => named_default(param_type@, old(param_it).remaining()) == Ok::<
                Seq<char>,
                ParseError,
            >(default@) && final(param_it).remaining() == old(param_it).remaining().skip(4),
            Err(e) => named_default(param_type@, old(param_it).remaining()) == Err::<
                Seq<char>,
                ParseError,
            >(e),
        },
        r is Err ==> final(param_it).remaining() == Seq::<TokenView>::empty(),
{
    let r = read_default(param_type, param_it);
    if r.is_err() {
        param_it.exhaust();
    }
    r
}

} // verus!
