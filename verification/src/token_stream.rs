//! Token trees, as a declaration of module metadata is made of them.
//!
//! A token is an identifier, a literal, a punctuation character, or a group:
//! a delimited run of tokens. A declaration is read through an iterator that
//! hands out one token after the other and never goes back.

use vstd::prelude::*;

verus! {

/// How a group of tokens is delimited.
#[derive(Clone, Copy, Debug, PartialEq, Eq, Structural)]
pub enum Delimiter {
    /// `( ... )`
    Parenthesis,
    /// `{ ... }`
    Brace,
    /// `[ ... ]`
    Bracket,
    /// No delimiter that can be seen.
    Invisible,
}

/// One token, or a delimited run of tokens.
#[derive(Debug)]
pub enum TokenTree {
    /// An identifier, as its text.
    Ident(String),
    /// A literal, as its text in the source, quotes and prefix included.
    Literal(String),
    /// A punctuation character.
    Punct(char),
    /// A delimited run of tokens.
    Group(Delimiter, Vec<TokenTree>),
}

/// The mathematical value of a [`TokenTree`].
pub enum TokenView {
    /// An identifier.
    Ident(Seq<char>),
    /// A literal.
    Literal(Seq<char>),
    /// A punctuation character.
    Punct(char),
    /// A delimited run of tokens.
    Group(Delimiter, Seq<TokenView>),
}

/// The value of a token.
pub open spec fn token_view(token: TokenTree) -> TokenView
    decreases token,
{
    match token {
        TokenTree::Ident(text) => TokenView::Ident(text@),
        TokenTree::Literal(text) => TokenView::Literal(text@),
        TokenTree::Punct(c) => TokenView::Punct(c),
        TokenTree::Group(delimiter, stream) => TokenView::Group(
            delimiter,
            Seq::new(
                stream.len() as nat,
                |i: int|
                    if 0 <= i < stream.len() {
                        token_view(stream[i])
                    } else {
                        TokenView::Punct(' ')
                    },
            ),
        ),
    }
}

impl View for TokenTree {
    type V = TokenView;

    open spec fn view(&self) -> TokenView {
        token_view(*self)
    }
}

/// The values of a run of tokens.
pub open spec fn views(tokens: Seq<TokenTree>) -> Seq<TokenView> {
    Seq::new(tokens.len(), |i: int| tokens[i]@)
}

/// The value of a group is its delimiter and the values of its tokens.
pub proof fn lemma_group_view(delimiter: Delimiter, stream: Vec<TokenTree>)
    ensures
        TokenTree::Group(delimiter, stream)@ == TokenView::Group(delimiter, views(stream@)),
{
    let group = TokenTree::Group(delimiter, stream);
    let inner = match group@ {
        TokenView::Group(_, inner) => inner,
        _ => Seq::empty(),
    };
    assert(inner.len() == stream@.len());
    assert forall|i: int| 0 <= i < inner.len() implies inner[i] == views(stream@)[i] by {
        assert(stream[i] == stream@[i]);
    }
    assert(inner =~= views(stream@));
}

/// An iterator over a run of tokens.
#[derive(Debug)]
pub struct IntoIter<'a> {
    tokens: &'a [TokenTree],
    pos: usize,
}

impl<'a> IntoIter<'a> {
    #[verifier::type_invariant]
    spec fn well_formed(self) -> bool {
        self.pos <= self.tokens@.len()
    }

    /// The tokens that the iterator has not handed out yet.
    pub closed spec fn remaining(&self) -> Seq<TokenView> {
        views(self.tokens@).skip(self.pos as int)
    }

    /// An iterator over `tokens`, from the first.
    pub fn new(tokens: &'a [TokenTree]) -> (it: IntoIter<'a>)
        ensures
            it.remaining() == views(tokens@),
    {
        assert(views(tokens@).skip(0) =~= views(tokens@));
        IntoIter { tokens, pos: 0 }
    }

    /// Gives up the tokens that are left: the iterator hands out no more.
    pub fn exhaust(&mut self)
        ensures
            final(self).remaining() == Seq::<TokenView>::empty(),
    {
        self.pos = self.tokens.len();
        assert(final(self).remaining() =~= Seq::<TokenView>::empty());
    }

    /// Hands out the next token, if there is one.
    pub fn next(&mut self) -> (token: Option<&'a TokenTree>)
        ensures
            match token {
                Some(token) => old(self).remaining().len() > 0 && token@ == old(
                    self,
                ).remaining()[0] && final(self).remaining() == old(self).remaining().skip(1),
                None => old(self).remaining().len() == 0 && final(self).remaining() == old(
                    self,
                ).remaining(),
            },
    {
        proof {
            use_type_invariant(&*self);
        }
        if self.pos < self.tokens.len() {
            let token = &self.tokens[self.pos];
            self.pos = self.pos + 1;
            assert(final(self).remaining() =~= old(self).remaining().skip(1));
            Some(token)
        } else {
            None
        }
    }
}

} // verus!
