//! Tokens and token sequences, and their mathematical views.

use vstd::prelude::*;

verus! {

/// The bracket kind of a delimited group.
#[derive(Clone, Copy, Debug, PartialEq, Eq, Structural)]
pub enum Delimiter {
    /// `( ... )`
    Parenthesis,
    /// `{ ... }`
    Brace,
    /// `[ ... ]`
    Bracket,
    /// A group without visible brackets.
    Invisible,
}

/// Whether a punctuation mark is directly followed by another one.
#[derive(Clone, Copy, Debug, PartialEq, Eq, Structural)]
pub enum Spacing {
    Alone,
    Joint,
}

/// Where a token comes from. A span is carried along and never inspected.
#[derive(Clone, Copy, Debug, PartialEq, Eq, Structural)]
pub enum Span {
    /// The place where the attribute was written.
    CallSite,
    /// Like `CallSite`, with the hygiene of a declarative macro.
    MixedSite,
    /// A position in the annotated source, as a handle chosen by the caller.
    Source(u64),
}

/// An atomic lexical unit.
#[derive(Debug, PartialEq, Eq)]
pub enum Token {
    Ident { name: String, span: Span },
    Punct { ch: char, spacing: Spacing, span: Span },
    Literal { text: String, span: Span },
    Group { delimiter: Delimiter, stream: Vec<Token>, span: Span },
}

/// What a token is, with text as character sequences and groups as sequences.
pub enum TokenView {
    Ident { name: Seq<char>, span: Span },
    Punct { ch: char, spacing: Spacing, span: Span },
    Literal { text: Seq<char>, span: Span },
    Group { delimiter: Delimiter, stream: Seq<TokenView>, span: Span },
}

impl TokenView {
    /// The span that the token carries.
    pub open spec fn span(self) -> Span {
        match self {
            TokenView::Ident { span, .. } => span,
            TokenView::Punct { span, .. } => span,
            TokenView::Literal { span, .. } => span,
            TokenView::Group { span, .. } => span,
        }
    }

    /// Whether the token is the punctuation mark `c`, with whatever spacing.
    pub open spec fn is_punct(self, c: char) -> bool {
        self matches TokenView::Punct { ch, .. } && ch == c
    }

    /// Whether the token is the identifier `text`.
    pub open spec fn is_ident(self, text: Seq<char>) -> bool {
        self matches TokenView::Ident { name, .. } && name == text
    }

    /// Whether the token is a group with delimiter `d`.
    pub open spec fn is_group(self, d: Delimiter) -> bool {
        self matches TokenView::Group { delimiter, .. } && delimiter == d
    }
}

/// The view of one token.
pub open spec fn token_view(t: Token) -> TokenView
    decreases t,
{
    match t {
        Token::Ident { name, span } => TokenView::Ident { name: name@, span },
        Token::Punct { ch, spacing, span } => TokenView::Punct { ch, spacing, span },
        Token::Literal { text, span } => TokenView::Literal { text: text@, span },
        Token::Group { delimiter, stream, span } => TokenView::Group {
            delimiter,
            stream: stream_view(stream@),
            span,
        },
    }
}

/// The view of a token sequence: the views of its tokens, in order.
pub open spec fn stream_view(s: Seq<Token>) -> Seq<TokenView>
    decreases s,
{
    Seq::new(
        s.len(),
        |i: int|
            if 0 <= i < s.len() {
                token_view(s[i])
            } else {
                arbitrary()
            },
    )
}

impl View for Token {
    type V = TokenView;

    open spec fn view(&self) -> TokenView {
        token_view(*self)
    }
}

impl Token {
    /// An identifier with the given text.
    pub fn ident(name: &str, span: Span) -> (t: Token)
        ensures
            t@ == (TokenView::Ident { name: name@, span }),
    {
        Token::Ident { name: String::from_str(name), span }
    }

    /// A punctuation mark.
    pub fn punct(ch: char, spacing: Spacing, span: Span) -> (t: Token)
        ensures
            t@ == (TokenView::Punct { ch, spacing, span }),
    {
        Token::Punct { ch, spacing, span }
    }

    /// A literal, given as it is written in source.
    pub fn literal(text: &str, span: Span) -> (t: Token)
        ensures
            t@ == (TokenView::Literal { text: text@, span }),
    {
        Token::Literal { text: String::from_str(text), span }
    }

    /// A delimited group around `stream`.
    pub fn group(delimiter: Delimiter, stream: Vec<Token>, span: Span) -> (t: Token)
        ensures
            t@ == (TokenView::Group { delimiter, stream: stream_view(stream@), span }),
    {
        Token::Group { delimiter, stream, span }
    }
}

impl Clone for Token {
    /// A deep copy: it has the same view as the token copied.
    fn clone(&self) -> (res: Token)
        ensures
            res@ == self@,
        decreases self,
    {
        match self {
            Token::Ident { name, span } => Token::Ident { name: name.clone(), span: *span },
            Token::Punct { ch, spacing, span } => Token::Punct {
                ch: *ch,
                spacing: *spacing,
                span: *span,
            },
            Token::Literal { text, span } => Token::Literal { text: text.clone(), span: *span },
            Token::Group { delimiter, stream, span } => Token::Group {
                delimiter: *delimiter,
                stream: clone_stream(stream),
                span: *span,
            },
        }
    }
}

/// A deep copy of a token sequence.
pub fn clone_stream(s: &Vec<Token>) -> (res: Vec<Token>)
    ensures
        stream_view(res@) == stream_view(s@),
    decreases s,
{
    let mut out: Vec<Token> = Vec::new();
    let mut i: usize = 0;
    while i < s.len()
        invariant
            i <= s.len(),
            out@.len() == i,
            forall|j: int| 0 <= j < i ==> token_view(#[trigger] out@[j]) == token_view(s@[j]),
        decreases s.len() - i,
    {
        out.push(s[i].clone());
        i += 1;
    }
    out
}

/// Appends `t` to `out`.
pub fn push_token(out: &mut Vec<Token>, t: Token)
    ensures
        stream_view(final(out)@) == stream_view(old(out)@).push(t@),
{
    proof {
        lemma_stream_view_push(out@, t);
    }
    out.push(t);
}

/// A deep copy of the tokens of `s` from position `from` up to, not including, `to`.
pub(crate) fn clone_range(s: &Vec<Token>, from: usize, to: usize) -> (res: Vec<Token>)
    requires
        from <= to <= s.len(),
    ensures
        stream_view(res@) == stream_view(s@).subrange(from as int, to as int),
{
    let mut out: Vec<Token> = Vec::new();
    let mut i: usize = from;
    while i < to
        invariant
            from <= i <= to <= s.len(),
            out@.len() == i - from,
            forall|j: int|
                0 <= j < i - from ==> token_view(#[trigger] out@[j]) == token_view(s@[from + j]),
        decreases to - i,
    {
        out.push(s[i].clone());
        i += 1;
    }
    out
}

/// Appends a deep copy of `src` to `out`.
pub fn extend_cloned(out: &mut Vec<Token>, src: &Vec<Token>)
    ensures
        stream_view(final(out)@) == stream_view(old(out)@) + stream_view(src@),
{
    let mut copy = clone_stream(src);
    proof {
        lemma_stream_view_concat(out@, copy@);
    }
    out.append(&mut copy);
}

/// The view of a concatenation is the concatenation of the views.
pub proof fn lemma_stream_view_concat(a: Seq<Token>, b: Seq<Token>)
    ensures
        stream_view(a + b) == stream_view(a) + stream_view(b),
{
}

/// The view of a sequence with one more token at its end.
pub proof fn lemma_stream_view_push(a: Seq<Token>, t: Token)
    ensures
        stream_view(a.push(t)) == stream_view(a).push(t@),
{
}

} // verus!
