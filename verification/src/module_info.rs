//! Reading the declaration of a module's metadata.
//!
//! A declaration is a run of entries `key: value,`. The keys are known, each
//! may stand once, some must stand, and they stand in one fixed order. What
//! is wrong with a declaration is told by a [`ParseError`]; nothing is
//! repaired and nothing is guessed.

use vstd::prelude::*;
use vstd::string::{StringExecFns, StrSliceExecFns};

use crate::template::same_text;
use crate::token_stream::{lemma_group_view, views, Delimiter, IntoIter, TokenTree, TokenView};

verus! {

/// A key of a declaration, in the order in which the keys must stand.
#[derive(Clone, Copy, Debug, PartialEq, Eq, Structural)]
pub enum Key {
    /// `type`: the type that implements the module. Required.
    Type,
    /// `name`: the module's name. Required.
    Name,
    /// `author`
    Author,
    /// `description`
    Description,
    /// `license`. Required.
    License,
    /// `alias`
    Alias,
    /// `alias_rtnl_link`: an alias with a fixed prefix.
    AliasRtnlLink,
    /// `params`: the module's parameters.
    Params,
}

/// What is wrong with a declaration.
#[derive(Clone, Copy, Debug, PartialEq, Eq, Structural)]
pub enum ParseError {
    /// An identifier was expected.
    ExpectedIdent,
    /// A literal was expected.
    ExpectedLiteral,
    /// A byte string literal was expected.
    ExpectedByteString,
    /// A punctuation character was expected, and another token stands there.
    ExpectedPunct,
    /// A group was expected, and another token stands there.
    ExpectedGroup,
    /// The tokens ended where a punctuation character, a group or a type
    /// was expected.
    EndOfStream,
    /// Another token, or another delimiter, was expected than the one that
    /// stands there.
    Mismatch,
    /// The tokens go on where they should end.
    ExpectedEnd,
    /// A key or the end of the declaration was expected.
    ExpectedIdentOrEnd,
    /// A key stands twice.
    DuplicatedKey(Key),
    /// A key is not known.
    UnknownKey,
    /// A required key does not stand.
    MissingRequiredKey(Key),
    /// The keys do not stand in their order.
    KeysNotOrdered,
    /// The type of a parameter was expected.
    ExpectedParamType,
    /// The length of an array parameter is no number.
    ExpectedUsizeLength,
    /// The default value of a parameter was expected.
    ExpectedDefault,
    /// A comma or the end of an array's default values was expected.
    ExpectedCommaOrEnd,
    /// The type of a parameter is not one that a parameter can have.
    UnrecognizedType,
    /// A generated text would be longer than the machine can count.
    TooLong,
    /// A template is unusable.
    BadTemplate,
    /// The file that holds the module is not known.
    UnknownFile,
}

/// The first of a run of tokens, if there is one.
pub open spec fn first(tokens: Seq<TokenView>) -> Option<TokenView> {
    if tokens.len() > 0 {
        Some(tokens[0])
    } else {
        None
    }
}

/// A run of tokens without its first, if there is one.
pub open spec fn rest(tokens: Seq<TokenView>) -> Seq<TokenView> {
    if tokens.len() > 0 {
        tokens.skip(1)
    } else {
        tokens
    }
}

/// The text of a token that is an identifier.
pub open spec fn ident_of(token: Option<TokenView>) -> Option<Seq<char>> {
    match token {
        Some(TokenView::Ident(text)) => Some(text),
        _ => None,
    }
}

/// The text of a token that is a literal.
pub open spec fn literal_of(token: Option<TokenView>) -> Option<Seq<char>> {
    match token {
        Some(TokenView::Literal(text)) => Some(text),
        _ => None,
    }
}

/// What stands between the quotes of a byte string literal: the text of a
/// literal that starts with `b"` and ends with `"`, without these.
pub open spec fn byte_string_content(literal: Seq<char>) -> Option<Seq<char>> {
    if literal.len() >= 3 && literal[0] == 'b' && literal[1] == '"' && literal[literal.len() - 1]
        == '"' {
        Some(literal.subrange(2, literal.len() - 1))
    } else {
        None
    }
}

/// The content of a token that is a byte string literal.
pub open spec fn byte_string_of(token: Option<TokenView>) -> Option<Seq<char>> {
    match literal_of(token) {
        Some(literal) => byte_string_content(literal),
        None => None,
    }
}

/// What is made of a token where an identifier is expected.
pub open spec fn expected_ident(token: Option<TokenView>) -> Result<Seq<char>, ParseError> {
    match ident_of(token) {
        Some(text) => Ok(text),
        None => Err(ParseError::ExpectedIdent),
    }
}

/// What is made of a token where a literal is expected.
pub open spec fn expected_literal(token: Option<TokenView>) -> Result<Seq<char>, ParseError> {
    match literal_of(token) {
        Some(text) => Ok(text),
        None => Err(ParseError::ExpectedLiteral),
    }
}

/// What is made of a token where a byte string literal is expected.
pub open spec fn expected_byte_string(token: Option<TokenView>) -> Result<Seq<char>, ParseError> {
    match byte_string_of(token) {
        Some(text) => Ok(text),
        None => Err(ParseError::ExpectedByteString),
    }
}

/// What is made of a token where a punctuation character is expected.
pub open spec fn expected_punct(token: Option<TokenView>) -> Result<char, ParseError> {
    match token {
        Some(TokenView::Punct(c)) => Ok(c),
        Some(_) => Err(ParseError::ExpectedPunct),
        None => Err(ParseError::EndOfStream),
    }
}

/// What is made of a token where the punctuation character `wanted` is
/// expected.
pub open spec fn expected_this_punct(token: Option<TokenView>, wanted: char) -> Result<
    (),
    ParseError,
> {
    match expected_punct(token) {
        Ok(c) => if c == wanted {
            Ok(())
        } else {
            Err(ParseError::Mismatch)
        },
        Err(e) => Err(e),
    }
}

/// What is made of a token where a group is expected.
pub open spec fn expected_group(token: Option<TokenView>) -> Result<
    (Delimiter, Seq<TokenView>),
    ParseError,
> {
    match token {
        Some(TokenView::Group(delimiter, stream)) => Ok((delimiter, stream)),
        Some(_) => Err(ParseError::ExpectedGroup),
        None => Err(ParseError::EndOfStream),
    }
}

/// Takes the next token and gives its text if it is an identifier.
pub fn try_ident(it: &mut IntoIter) -> (ident: Option<String>)
    ensures
        final(it).remaining() == rest(old(it).remaining()),
        match ident {
            Some(text) => ident_of(first(old(it).remaining())) == Some(text@),
            None => ident_of(first(old(it).remaining())) is None,
        },
{
    if let Some(TokenTree::Ident(ident)) = it.next() {
        Some(ident.clone())
    } else {
        None
    }
}

/// Takes the next token and gives its text if it is a literal.
pub fn try_literal(it: &mut IntoIter) -> (literal: Option<String>)
    ensures
        final(it).remaining() == rest(old(it).remaining()),
        match literal {
            Some(text) => literal_of(first(old(it).remaining())) == Some(text@),
            None => literal_of(first(old(it).remaining())) is None,
        },
{
    if let Some(TokenTree::Literal(literal)) = it.next() {
        Some(literal.clone())
    } else {
        None
    }
}

/// Gives what stands between the quotes of the byte string literal
/// `literal`, if it is one.
fn strip_byte_string(literal: &str) -> (content: Option<String>)
    ensures
        match content {
            Some(text) => byte_string_content(literal@) == Some(text@),
            None => byte_string_content(literal@) is None,
        },
{
    let len = literal.unicode_len();
    if len >= 3 && literal.get_char(0) == 'b' && literal.get_char(1) == '"' && literal.get_char(
        len - 1,
    ) == '"' {
        Some(String::from_str(literal.substring_char(2, len - 1)))
    } else {
        None
    }
}

/// Takes the next token and gives its content if it is a byte string
/// literal.
pub fn try_byte_string(it: &mut IntoIter) -> (content: Option<String>)
    ensures
        final(it).remaining() == rest(old(it).remaining()),
        match content {
            Some(text) => byte_string_of(first(old(it).remaining())) == Some(text@),
            None => byte_string_of(first(old(it).remaining())) is None,
        },
{
    match try_literal(it) {
        Some(byte_string) => strip_byte_string(byte_string.as_str()),
        None => None,
    }
}

/// Takes the next token, which must be an identifier.
pub fn expect_ident(it: &mut IntoIter) -> (ident: Result<String, ParseError>)
    ensures
        final(it).remaining() == rest(old(it).remaining()),
        match ident {
            Ok(text) => expected_ident(first(old(it).remaining())) == Ok::<Seq<char>, ParseError>(
                text@,
            ),
            Err(e) => expected_ident(first(old(it).remaining())) == Err::<Seq<char>, ParseError>(
                e,
            ),
        },
{
    match try_ident(it) {
        Some(ident) => Ok(ident),
        None => Err(ParseError::ExpectedIdent),
    }
}

/// Takes the next token, which must be a punctuation character.
pub fn expect_punct(it: &mut IntoIter) -> (punct: Result<char, ParseError>)
    ensures
        final(it).remaining() == rest(old(it).remaining()),
        punct == expected_punct(first(old(it).remaining())),
{
    match it.next() {
        Some(TokenTree::Punct(punct)) => Ok(*punct),
        Some(_) => Err(ParseError::ExpectedPunct),
        None => Err(ParseError::EndOfStream),
    }
}

/// Takes the next token, which must be the punctuation character `wanted`.
pub fn expect_this_punct(it: &mut IntoIter, wanted: char) -> (r: Result<(), ParseError>)
    ensures
        final(it).remaining() == rest(old(it).remaining()),
        r == expected_this_punct(first(old(it).remaining()), wanted),
{
    match expect_punct(it) {
        Ok(c) => if c == wanted {
            Ok(())
        } else {
            Err(ParseError::Mismatch)
        },
        Err(e) => Err(e),
    }
}

/// Takes the next token, which must be a literal.
pub fn expect_literal(it: &mut IntoIter) -> (literal: Result<String, ParseError>)
    ensures
        final(it).remaining() == rest(old(it).remaining()),
        match literal {
            Ok(text) => expected_literal(first(old(it).remaining())) == Ok::<
                Seq<char>,
                ParseError,
            >(text@),
            Err(e) => expected_literal(first(old(it).remaining())) == Err::<
                Seq<char>,
                ParseError,
            >(e),
        },
{
    match try_literal(it) {
        Some(literal) => Ok(literal),
        None => Err(ParseError::ExpectedLiteral),
    }
}

/// A delimited run of tokens, borrowed from the declaration that holds it.
#[derive(Debug)]
pub struct Group<'a> {
    /// How the run is delimited.
    pub delimiter: Delimiter,
    /// The tokens of the run.
    pub stream: &'a [TokenTree],
}

impl<'a> View for Group<'a> {
    type V = (Delimiter, Seq<TokenView>);

    open spec fn view(&self) -> (Delimiter, Seq<TokenView>) {
        (self.delimiter, views(self.stream@))
    }
}

/// Takes the next token, which must be a group.
pub fn expect_group<'a>(it: &mut IntoIter<'a>) -> (group: Result<Group<'a>, ParseError>)
    ensures
        final(it).remaining() == rest(old(it).remaining()),
        match group {
            Ok(group) => expected_group(first(old(it).remaining())) == Ok::<
                (Delimiter, Seq<TokenView>),
                ParseError,
            >(group@),
            Err(e) => expected_group(first(old(it).remaining())) == Err::<
                (Delimiter, Seq<TokenView>),
                ParseError,
            >(e),
        },
{
    match it.next() {
        Some(TokenTree::Group(delimiter, stream)) => {
            proof {
                lemma_group_view(*delimiter, *stream);
            }
            Ok(Group { delimiter: *delimiter, stream: stream.as_slice() })
        },
        Some(_) => Err(ParseError::ExpectedGroup),
        None => Err(ParseError::EndOfStream),
    }
}

/// Takes the next token, which must be a byte string literal, and gives its
/// content.
pub fn expect_byte_string(it: &mut IntoIter) -> (content: Result<String, ParseError>)
    ensures
        final(it).remaining() == rest(old(it).remaining()),
        match content {
            Ok(text) => expected_byte_string(first(old(it).remaining())) == Ok::<
                Seq<char>,
                ParseError,
            >(text@),
            Err(e) => expected_byte_string(first(old(it).remaining())) == Err::<
                Seq<char>,
                ParseError,
            >(e),
        },
{
    match try_byte_string(it) {
        Some(content) => Ok(content),
        None => Err(ParseError::ExpectedByteString),
    }
}

/// Takes the next token, of which there must be none.
pub fn expect_end(it: &mut IntoIter) -> (r: Result<(), ParseError>)
    ensures
        final(it).remaining() == rest(old(it).remaining()),
        r == if old(it).remaining().len() == 0 {
            Ok::<(), ParseError>(())
        } else {
            Err::<(), ParseError>(ParseError::ExpectedEnd)
        },
{
    if it.next().is_some() {
        Err(ParseError::ExpectedEnd)
    } else {
        Ok(())
    }
}

/// The token at place `i` of a run, if the run is that long.
pub open spec fn nth(tokens: Seq<TokenView>, i: int) -> Option<TokenView> {
    if 0 <= i < tokens.len() {
        Some(tokens[i])
    } else {
        None
    }
}

/// What is made of the four tokens `name: literal,`.
pub open spec fn named_literal(tokens: Seq<TokenView>, name: Seq<char>) -> Result<
    Seq<char>,
    ParseError,
> {
    match expected_ident(nth(tokens, 0)) {
        Err(e) => Err(e),
        Ok(ident) => if ident != name {
            Err(ParseError::Mismatch)
        } else {
            match expected_this_punct(nth(tokens, 1), ':') {
                Err(e) => Err(e),
                Ok(()) => match expected_literal(nth(tokens, 2)) {
                    Err(e) => Err(e),
                    Ok(literal) => match expected_this_punct(nth(tokens, 3), ',') {
                        Err(e) => Err(e),
                        Ok(()) => Ok(literal),
                    },
                },
            }
        },
    }
}

/// What is made of the four tokens `name: b"content",`.
pub open spec fn named_byte_string(tokens: Seq<TokenView>, name: Seq<char>) -> Result<
    Seq<char>,
    ParseError,
> {
    match expected_ident(nth(tokens, 0)) {
        Err(e) => Err(e),
        Ok(ident) => if ident != name {
            Err(ParseError::Mismatch)
        } else {
            match expected_this_punct(nth(tokens, 1), ':') {
                Err(e) => Err(e),
                Ok(()) => match expected_byte_string(nth(tokens, 2)) {
                    Err(e) => Err(e),
                    Ok(content) => match expected_this_punct(nth(tokens, 3), ',') {
                        Err(e) => Err(e),
                        Ok(()) => Ok(content),
                    },
                },
            }
        },
    }
}

/// Reads the four tokens `expected_name: literal,`, up to the first fault.
fn read_named_literal(it: &mut IntoIter, expected_name: &str) -> (literal: Result<String, ParseError>)
    ensures
        match literal {
            Ok(text) => named_literal(old(it).remaining(), expected_name@) == Ok::<
                Seq<char>,
                ParseError,
            >(text@) && final(it).remaining() == old(it).remaining().skip(4),
            Err(e) => named_literal(old(it).remaining(), expected_name@) == Err::<
                Seq<char>,
                ParseError,
            >(e),
        },
{
    let ghost tokens = it.remaining();
    let ident = match expect_ident(it) {
        Ok(ident) => ident,
        Err(e) => {
            return Err(e);
        },
    };
    if !same_text(ident.as_str(), expected_name) {
        return Err(ParseError::Mismatch);
    }
    match expect_this_punct(it, ':') {
        Ok(()) => {},
        Err(e) => {
            return Err(e);
        },
    }
    let literal = match expect_literal(it) {
        Ok(literal) => literal,
        Err(e) => {
            return Err(e);
        },
    };
    match expect_this_punct(it, ',') {
        Ok(()) => {},
        Err(e) => {
            return Err(e);
        },
    }
    assert(it.remaining() =~= tokens.skip(4));
    Ok(literal)
}

/// Takes the four tokens `expected_name: literal,` and gives the literal's
/// text. Where it succeeds, exactly these four tokens are taken.
/// A fault ends the reading: no token is left behind it.
pub fn get_literal(it: &mut IntoIter, expected_name: &str) -> (literal: Result<String, ParseError>)
    ensures
        match literal {
            Ok(text) => named_literal(old(it).remaining(), expected_name@) == Ok::<
                Seq<char>,
                ParseError,
            >(text@) && final(it).remaining() == old(it).remaining().skip(4),
            Err(e) => named_literal(old(it).remaining(), expected_name@) == Err::<
                Seq<char>,
                ParseError,
            >(e),
        },
        literal is Err ==> final(it).remaining() == Seq::<TokenView>::empty(),
{
    let literal = read_named_literal(it, expected_name);
    if literal.is_err() {
        it.exhaust();
    }
    literal
}

/// Reads the four tokens `expected_name: b"content",`, up to the first
/// fault.
fn read_named_byte_string(it: &mut IntoIter, expected_name: &str) -> (content: Result<
    String,
    ParseError,
>)
    ensures
        match content {
            Ok(text) => named_byte_string(old(it).remaining(), expected_name@) == Ok::<
                Seq<char>,
                ParseError,
            >(text@) && final(it).remaining() == old(it).remaining().skip(4),
            Err(e) => named_byte_string(old(it).remaining(), expected_name@) == Err::<
                Seq<char>,
                ParseError,
            >(e),
        },
{
    let ghost tokens = it.remaining();
    let ident = match expect_ident(it) {
        Ok(ident) => ident,
        Err(e) => {
            return Err(e);
        },
    };
    if !same_text(ident.as_str(), expected_name) {
        return Err(ParseError::Mismatch);
    }
    match expect_this_punct(it, ':') {
        Ok(()) => {},
        Err(e) => {
            return Err(e);
        },
    }
    let byte_string = match expect_byte_string(it) {
        Ok(byte_string) => byte_string,
        Err(e) => {
            return Err(e);
        },
    };
    match expect_this_punct(it, ',') {
        Ok(()) => {},
        Err(e) => {
            return Err(e);
        },
    }
    assert(it.remaining() =~= tokens.skip(4));
    Ok(byte_string)
}

/// Takes the four tokens `expected_name: b"content",` and gives the
/// content. Where it succeeds, exactly these four tokens are taken.
/// A fault ends the reading: no token is left behind it.
pub fn get_byte_string(it: &mut IntoIter, expected_name: &str) -> (content: Result<
    String,
    ParseError,
>)
    ensures
        match content {
            Ok(text) => named_byte_string(old(it).remaining(), expected_name@) == Ok::<
                Seq<char>,
                ParseError,
            >(text@) && final(it).remaining() == old(it).remaining().skip(4),
            Err(e) => named_byte_string(old(it).remaining(), expected_name@) == Err::<
                Seq<char>,
                ParseError,
            >(e),
        },
        content is Err ==> final(it).remaining() == Seq::<TokenView>::empty(),
{
    let content = read_named_byte_string(it, expected_name);
    if content.is_err() {
        it.exhaust();
    }
    content
}

impl Key {
    /// The key that `name` spells, if it is one.
    pub open spec fn of(name: Seq<char>) -> Option<Key> {
        if name == "type"@ {
            Some(Key::Type)
        } else if name == "name"@ {
            Some(Key::Name)
        } else if name == "author"@ {
            Some(Key::Author)
        } else if name == "description"@ {
            Some(Key::Description)
        } else if name == "license"@ {
            Some(Key::License)
        } else if name == "alias"@ {
            Some(Key::Alias)
        } else if name == "alias_rtnl_link"@ {
            Some(Key::AliasRtnlLink)
        } else if name == "params"@ {
            Some(Key::Params)
        } else {
            None
        }
    }

    /// The place of the key in the order in which the keys must stand.
    pub open spec fn rank(self) -> nat {
        match self {
            Key::Type => 0,
            Key::Name => 1,
            Key::Author => 2,
            Key::Description => 3,
            Key::License => 4,
            Key::Alias => 5,
            Key::AliasRtnlLink => 6,
            Key::Params => 7,
        }
    }

    /// Finds the key that `name` spells.
    pub fn from_name(name: &str) -> (key: Option<Key>)
        ensures
            key == Key::of(name@),
    {
        if same_text(name, "type") {
            Some(Key::Type)
        } else if same_text(name, "name") {
            Some(Key::Name)
        } else if same_text(name, "author") {
            Some(Key::Author)
        } else if same_text(name, "description") {
            Some(Key::Description)
        } else if same_text(name, "license") {
            Some(Key::License)
        } else if same_text(name, "alias") {
            Some(Key::Alias)
        } else if same_text(name, "alias_rtnl_link") {
            Some(Key::AliasRtnlLink)
        } else if same_text(name, "params") {
            Some(Key::Params)
        } else {
            None
        }
    }

    /// The place of the key in the order in which the keys must stand.
    pub fn place(&self) -> (place: u8)
        ensures
            place == self.rank(),
    {
        match self {
            Key::Type => 0,
            Key::Name => 1,
            Key::Author => 2,
            Key::Description => 3,
            Key::License => 4,
            Key::Alias => 5,
            Key::AliasRtnlLink => 6,
            Key::Params => 7,
        }
    }
}

/// Whether keys stand in their order: each before those of a higher place.
pub open spec fn keys_ordered(keys: Seq<Key>) -> bool {
    forall|i: int, j: int| 0 <= i < j < keys.len() ==> keys[i].rank() < keys[j].rank()
}

/// What the keys that a declaration holds say of it: the first required key
/// that does not stand is its fault, and then keys out of order are.
pub open spec fn keys_fault(keys: Seq<Key>) -> Option<ParseError> {
    if !keys.contains(Key::Type) {
        Some(ParseError::MissingRequiredKey(Key::Type))
    } else if !keys.contains(Key::Name) {
        Some(ParseError::MissingRequiredKey(Key::Name))
    } else if !keys.contains(Key::License) {
        Some(ParseError::MissingRequiredKey(Key::License))
    } else if !keys_ordered(keys) {
        Some(ParseError::KeysNotOrdered)
    } else {
        None
    }
}

/// Tells whether `key` is among `keys`.
pub fn contains_key(keys: &Vec<Key>, key: Key) -> (found: bool)
    ensures
        found == keys@.contains(key),
{
    let mut i: usize = 0;
    while i < keys.len()
        invariant
            i <= keys@.len(),
            forall|j: int| 0 <= j < i ==> keys@[j] != key,
        decreases keys@.len() - i,
    {
        if keys[i] == key {
            return true;
        }
        i = i + 1;
    }
    false
}

/// Tells whether `keys` stand in their order.
pub fn keys_are_ordered(keys: &Vec<Key>) -> (ordered: bool)
    ensures
        ordered == keys_ordered(keys@),
{
    let mut i: usize = 1;
    while i < keys.len()
        invariant
            1 <= i,
            forall|a: int, b: int| 0 <= a < b < i && b < keys@.len() ==> keys@[a].rank() < keys@[b].rank(),
        decreases keys@.len() - i,
    {
        if keys[i - 1].place() >= keys[i].place() {
            return false;
        }
        assert forall|a: int, b: int| 0 <= a < b < i + 1 && b < keys@.len() implies keys@[a].rank()
            < keys@[b].rank() by {
            if b == i && a < i - 1 {
                assert(keys@[a].rank() < keys@[i - 1].rank());
            }
        }
        i = i + 1;
    }
    true
}

/// Checks the keys that a declaration holds.
pub fn check_keys(keys: &Vec<Key>) -> (r: Result<(), ParseError>)
    ensures
        match r {
            Ok(()) => keys_fault(keys@) is None,
            Err(e) => keys_fault(keys@) == Some(e),
        },
{
    if !contains_key(keys, Key::Type) {
        return Err(ParseError::MissingRequiredKey(Key::Type));
    }
    if !contains_key(keys, Key::Name) {
        return Err(ParseError::MissingRequiredKey(Key::Name));
    }
    if !contains_key(keys, Key::License) {
        return Err(ParseError::MissingRequiredKey(Key::License));
    }
    if !keys_are_ordered(keys) {
        return Err(ParseError::KeysNotOrdered);
    }
    Ok(())
}

/// The prefix of an alias that is given as `alias_rtnl_link`.
pub const RTNL_LINK_PREFIX: &'static str = "rtnl-link-";

/// What a declaration says of a module.
#[derive(Debug)]
pub struct ModuleInfo<'a> {
    /// The type that implements the module.
    pub type_: String,
    /// The module's license.
    pub license: String,
    /// The module's name.
    pub name: String,
    /// The module's author.
    pub author: Option<String>,
    /// What the module is.
    pub description: Option<String>,
    /// Another name for the module.
    pub alias: Option<String>,
    /// The module's parameters, still as tokens.
    pub params: Option<Group<'a>>,
}

/// The mathematical value of a [`ModuleInfo`].
pub struct ModuleInfoView {
    /// The type that implements the module.
    pub type_: Seq<char>,
    /// The module's license.
    pub license: Seq<char>,
    /// The module's name.
    pub name: Seq<char>,
    /// The module's author.
    pub author: Option<Seq<char>>,
    /// What the module is.
    pub description: Option<Seq<char>>,
    /// Another name for the module.
    pub alias: Option<Seq<char>>,
    /// The module's parameters.
    pub params: Option<(Delimiter, Seq<TokenView>)>,
}

/// The value of a text that may be missing.
pub open spec fn text_view(text: Option<String>) -> Option<Seq<char>> {
    match text {
        Some(text) => Some(text@),
        None => None,
    }
}

impl<'a> View for ModuleInfo<'a> {
    type V = ModuleInfoView;

    open spec fn view(&self) -> ModuleInfoView {
        ModuleInfoView {
            type_: self.type_@,
            license: self.license@,
            name: self.name@,
            author: text_view(self.author),
            description: text_view(self.description),
            alias: text_view(self.alias),
            params: match self.params {
                Some(group) => Some(group@),
                None => None,
            },
        }
    }
}

impl ModuleInfoView {
    /// What is known of a module before its declaration is read.
    pub open spec fn empty() -> ModuleInfoView {
        ModuleInfoView {
            type_: Seq::empty(),
            license: Seq::empty(),
            name: Seq::empty(),
            author: None,
            description: None,
            alias: None,
            params: None,
        }
    }

    /// What is known once the value `token` of the entry `key` is read.
    pub open spec fn with_value(self, key: Key, token: Option<TokenView>) -> Result<
        ModuleInfoView,
        ParseError,
    > {
        match key {
            Key::Type => match expected_ident(token) {
                Ok(text) => Ok(ModuleInfoView { type_: text, ..self }),
                Err(e) => Err(e),
            },
            Key::Name => match expected_byte_string(token) {
                Ok(text) => Ok(ModuleInfoView { name: text, ..self }),
                Err(e) => Err(e),
            },
            Key::Author => match expected_byte_string(token) {
                Ok(text) => Ok(ModuleInfoView { author: Some(text), ..self }),
                Err(e) => Err(e),
            },
            Key::Description => match expected_byte_string(token) {
                Ok(text) => Ok(ModuleInfoView { description: Some(text), ..self }),
                Err(e) => Err(e),
            },
            Key::License => match expected_byte_string(token) {
                Ok(text) => Ok(ModuleInfoView { license: text, ..self }),
                Err(e) => Err(e),
            },
            Key::Alias => match expected_byte_string(token) {
                Ok(text) => Ok(ModuleInfoView { alias: Some(text), ..self }),
                Err(e) => Err(e),
            },
            Key::AliasRtnlLink => match expected_byte_string(token) {
                Ok(text) => Ok(ModuleInfoView { alias: Some(RTNL_LINK_PREFIX@ + text), ..self }),
                Err(e) => Err(e),
            },
            Key::Params => match expected_group(token) {
                Ok(group) => Ok(ModuleInfoView { params: Some(group), ..self }),
                Err(e) => Err(e),
            },
        }
    }

    /// What is made of the entries `tokens`, where the entries before them
    /// had the keys `seen` and have led to `self`.
    ///
    /// An entry is a key, a colon, the key's value and a comma. A key that
    /// has stood before is refused before anything else of its entry is
    /// looked at, and a key that is not known behind its colon. Behind the
    /// last entry the keys are checked as a whole.
    pub open spec fn parse_entries(self, tokens: Seq<TokenView>, seen: Seq<Key>) -> Result<
        ModuleInfoView,
        ParseError,
    >
        decreases tokens.len(),
    {
        if tokens.len() == 0 {
            match keys_fault(seen) {
                Some(e) => Err(e),
                None => Ok(self),
            }
        } else {
            match tokens[0] {
                TokenView::Ident(name) => {
                    if Key::of(name) matches Some(key) && seen.contains(key) {
                        Err(ParseError::DuplicatedKey(Key::of(name)->0))
                    } else {
                        match expected_this_punct(nth(tokens, 1), ':') {
                            Err(e) => Err(e),
                            Ok(()) => match Key::of(name) {
                                None => Err(ParseError::UnknownKey),
                                Some(key) => match self.with_value(key, nth(tokens, 2)) {
                                    Err(e) => Err(e),
                                    Ok(next) => match expected_this_punct(nth(tokens, 3), ',') {
                                        Err(e) => Err(e),
                                        Ok(()) => next.parse_entries(
                                            tokens.skip(4),
                                            seen.push(key),
                                        ),
                                    },
                                },
                            },
                        }
                    }
                },
                _ => Err(ParseError::ExpectedIdentOrEnd),
            }
        }
    }

    /// What is made of a whole declaration.
    pub open spec fn parse(tokens: Seq<TokenView>) -> Result<ModuleInfoView, ParseError> {
        ModuleInfoView::empty().parse_entries(tokens, Seq::empty())
    }
}

impl<'a> ModuleInfo<'a> {
    /// What is known of a module before its declaration is read.
    pub fn new() -> (info: ModuleInfo<'a>)
        ensures
            info@ == ModuleInfoView::empty(),
    {
        ModuleInfo {
            type_: String::new(),
            license: String::new(),
            name: String::new(),
            author: None,
            description: None,
            alias: None,
            params: None,
        }
    }

    /// Reads the value of the entry `key` into `self`.
    fn read_value(&mut self, key: Key, it: &mut IntoIter<'a>) -> (r: Result<(), ParseError>)
        ensures
            final(it).remaining() == rest(old(it).remaining()),
            match r {
                Ok(()) => old(self)@.with_value(key, first(old(it).remaining())) == Ok::<
                    ModuleInfoView,
                    ParseError,
                >(final(self)@),
                Err(e) => old(self)@.with_value(key, first(old(it).remaining())) == Err::<
                    ModuleInfoView,
                    ParseError,
                >(e),
            },
    {
        match key {
            Key::Type => match expect_ident(it) {
                Ok(text) => {
                    self.type_ = text;
                    Ok(())
                },
                Err(e) => Err(e),
            },
            Key::Name => match expect_byte_string(it) {
                Ok(text) => {
                    self.name = text;
                    Ok(())
                },
                Err(e) => Err(e),
            },
            Key::Author => match expect_byte_string(it) {
                Ok(text) => {
                    self.author = Some(text);
                    Ok(())
                },
                Err(e) => Err(e),
            },
            Key::Description => match expect_byte_string(it) {
                Ok(text) => {
                    self.description = Some(text);
                    Ok(())
                },
                Err(e) => Err(e),
            },
            Key::License => match expect_byte_string(it) {
                Ok(text) => {
                    self.license = text;
                    Ok(())
                },
                Err(e) => Err(e),
            },
            Key::Alias => match expect_byte_string(it) {
                Ok(text) => {
                    self.alias = Some(text);
                    Ok(())
                },
                Err(e) => Err(e),
            },
            Key::AliasRtnlLink => match expect_byte_string(it) {
                Ok(text) => {
                    self.alias = Some(String::from_str(RTNL_LINK_PREFIX).concat(text.as_str()));
                    Ok(())
                },
                Err(e) => Err(e),
            },
            Key::Params => match expect_group(it) {
                Ok(group) => {
                    self.params = Some(group);
                    Ok(())
                },
                Err(e) => Err(e),
            },
        }
    }

    /// Reads the entries of a declaration, up to the first fault.
    fn read_entries(it: &mut IntoIter<'a>) -> (r: Result<ModuleInfo<'a>, ParseError>)
        ensures
            match r {
                Ok(info) => ModuleInfoView::parse(old(it).remaining()) == Ok::<
                    ModuleInfoView,
                    ParseError,
                >(info@) && final(it).remaining().len() == 0,
                Err(e) => ModuleInfoView::parse(old(it).remaining()) == Err::<
                    ModuleInfoView,
                    ParseError,
                >(e),
            },
    {
        let mut info = ModuleInfo::new();
        let mut seen_keys: Vec<Key> = Vec::new();
        let ghost whole = it.remaining();
        loop
            invariant
                ModuleInfoView::parse(whole) == info@.parse_entries(it.remaining(), seen_keys@),
                whole == old(it).remaining(),
            ensures
                it.remaining().len() == 0,
            decreases it.remaining().len(),
        {
            let ghost tokens = it.remaining();
            let name = match it.next() {
                Some(TokenTree::Ident(ident)) => ident,
                Some(_) => {
                    return Err(ParseError::ExpectedIdentOrEnd);
                },
                None => {
                    break ;
                },
            };
            let key = Key::from_name(name.as_str());
            if let Some(key) = key {
                if contains_key(&seen_keys, key) {
                    return Err(ParseError::DuplicatedKey(key));
                }
            }
            match expect_this_punct(it, ':') {
                Ok(()) => {},
                Err(e) => {
                    return Err(e);
                },
            }
            let key = match key {
                Some(key) => key,
                None => {
                    return Err(ParseError::UnknownKey);
                },
            };
            match info.read_value(key, it) {
                Ok(()) => {},
                Err(e) => {
                    return Err(e);
                },
            }
            match expect_this_punct(it, ',') {
                Ok(()) => {},
                Err(e) => {
                    return Err(e);
                },
            }
            seen_keys.push(key);
            assert(it.remaining() =~= tokens.skip(4));
        }
        match check_keys(&seen_keys) {
            Ok(()) => Ok(info),
            Err(e) => Err(e),
        }
    }

    /// Reads a declaration. Where it succeeds, every token is taken.
    /// A fault ends the reading: no token is left behind it.
    pub fn parse(it: &mut IntoIter<'a>) -> (r: Result<ModuleInfo<'a>, ParseError>)
        ensures
            match r {
                Ok(info) => ModuleInfoView::parse(old(it).remaining()) == Ok::<
                    ModuleInfoView,
                    ParseError,
                >(info@) && final(it).remaining().len() == 0,
                Err(e) => ModuleInfoView::parse(old(it).remaining()) == Err::<
                    ModuleInfoView,
                    ParseError,
                >(e),
            },
            r is Err ==> final(it).remaining() == Seq::<TokenView>::empty(),
    {
        let r = ModuleInfo::read_entries(it);
        if r.is_err() {
            it.exhaust();
        }
        r
    }
}

} // verus!
