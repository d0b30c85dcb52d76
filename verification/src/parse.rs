//! Locating a `macro_rules!` definition in an annotated item.

use crate::token::{clone_range, clone_stream, stream_view, Delimiter, Spacing, Span, Token, TokenView};
use vstd::prelude::*;

verus! {

/// A macro definition found in a token sequence. The arms are kept as they
/// were written and never looked into.
#[derive(Clone, Debug, PartialEq, Eq)]
pub struct MacroDefinition {
    /// The leading attributes: `#` and a bracket group, any number of times.
    pub attrs: Vec<Token>,
    /// The span of the `macro_rules` keyword.
    pub keyword_span: Span,
    /// The spacing of the `!` after the keyword.
    pub bang_spacing: Spacing,
    /// The span of the `!` after the keyword.
    pub bang_span: Span,
    /// The macro's name.
    pub name: String,
    /// The span of the macro's name.
    pub name_span: Span,
    /// The tokens between the braces of the body.
    pub arms: Vec<Token>,
    /// What follows the definition in the annotated item.
    pub rest: Vec<Token>,
}

/// The view of a [`MacroDefinition`].
pub struct MacroDefinitionView {
    pub attrs: Seq<TokenView>,
    pub keyword_span: Span,
    pub bang_spacing: Spacing,
    pub bang_span: Span,
    pub name: Seq<char>,
    pub name_span: Span,
    pub arms: Seq<TokenView>,
    pub rest: Seq<TokenView>,
}

impl View for MacroDefinition {
    type V = MacroDefinitionView;

    open spec fn view(&self) -> MacroDefinitionView {
        MacroDefinitionView {
            attrs: stream_view(self.attrs@),
            keyword_span: self.keyword_span,
            bang_spacing: self.bang_spacing,
            bang_span: self.bang_span,
            name: self.name@,
            name_span: self.name_span,
            arms: stream_view(self.arms@),
            rest: stream_view(self.rest@),
        }
    }
}

/// The result of parsing an annotated item.
#[derive(Clone, Debug, PartialEq, Eq)]
pub enum ParseOutcome {
    /// The item starts with a macro definition.
    Parsed(MacroDefinition),
    /// The item is not a macro definition.
    Failed,
}

impl View for ParseOutcome {
    type V = Option<MacroDefinitionView>;

    open spec fn view(&self) -> Option<MacroDefinitionView> {
        match self {
            ParseOutcome::Parsed(def) => Some(def@),
            ParseOutcome::Failed => None,
        }
    }
}

/// Whether `s` starts with an attribute: `#` and then a bracket group.
pub open spec fn starts_with_attr(s: Seq<TokenView>) -> bool {
    s.len() >= 2 && s[0].is_punct('#') && s[1].is_group(Delimiter::Bracket)
}

/// The number of tokens that the leading attributes of `s` take up.
pub open spec fn leading_attrs_len(s: Seq<TokenView>) -> nat
    decreases s.len(),
{
    if starts_with_attr(s) {
        2 + leading_attrs_len(s.skip(2))
    } else {
        0
    }
}

/// Whether `t` is the keyword that starts a macro definition.
pub open spec fn is_keyword(t: TokenView) -> bool {
    t.is_ident("macro_rules"@)
}

/// Whether `s` holds, from position `k` on, the keyword, a `!`, a name and a
/// brace group, in this order.
pub open spec fn definition_at(s: Seq<TokenView>, k: int) -> bool {
    &&& 0 <= k
    &&& k + 4 <= s.len()
    &&& is_keyword(s[k])
    &&& s[k + 1].is_punct('!')
    &&& s[k + 2] is Ident
    &&& s[k + 3].is_group(Delimiter::Brace)
}

/// The macro definition that `s` starts with, if it starts with one: any
/// number of attributes, then the keyword, a `!`, a name and a brace group.
pub open spec fn parse_definition(s: Seq<TokenView>) -> Option<MacroDefinitionView> {
    let k = leading_attrs_len(s) as int;
    if definition_at(s, k) {
        Some(
            MacroDefinitionView {
                attrs: s.subrange(0, k),
                keyword_span: s[k].span(),
                bang_spacing: s[k + 1]->Punct_spacing,
                bang_span: s[k + 1].span(),
                name: s[k + 2]->Ident_name,
                name_span: s[k + 2].span(),
                arms: s[k + 3]->Group_stream,
                rest: s.skip(k + 4),
            },
        )
    } else {
        None
    }
}

fn is_punct(t: &Token, c: char) -> (b: bool)
    ensures
        b == t@.is_punct(c),
{
    match t {
        Token::Punct { ch, .. } => *ch == c,
        _ => false,
    }
}

fn is_group(t: &Token, d: Delimiter) -> (b: bool)
    ensures
        b == t@.is_group(d),
{
    match t {
        Token::Group { delimiter, .. } => *delimiter == d,
        _ => false,
    }
}

/// Parses an annotated item: leading attributes, then `macro_rules`, `!`, a
/// name and a brace group. Whatever follows is kept as the rest.
pub fn parse(item: &Vec<Token>) -> (outcome: ParseOutcome)
    ensures
        outcome@ == parse_definition(stream_view(item@)),
{
    let ghost s = stream_view(item@);
    let n: usize = item.len();
    let mut k: usize = 0;
    assert(s.skip(0) =~= s);
    while n - k >= 2 && is_punct(&item[k], '#') && is_group(&item[k + 1], Delimiter::Bracket)
        invariant
            n == item.len(),
            s == stream_view(item@),
            k <= n,
            leading_attrs_len(s) == k + leading_attrs_len(s.skip(k as int)),
        decreases n - k,
    {
        assert(starts_with_attr(s.skip(k as int)));
        assert(s.skip(k as int).skip(2) =~= s.skip(k + 2));
        k += 2;
    }
    assert(!starts_with_attr(s.skip(k as int)));
    assert(leading_attrs_len(s) == k);
    if n - k < 4 {
        return ParseOutcome::Failed;
    }
    let keyword_span = match &item[k] {
        Token::Ident { name, span } => {
            if *name == String::from_str("macro_rules") {
                *span
            } else {
                return ParseOutcome::Failed;
            }
        },
        _ => {
            return ParseOutcome::Failed;
        },
    };
    let (bang_spacing, bang_span) = match &item[k + 1] {
        Token::Punct { ch, spacing, span } => {
            if *ch == '!' {
                (*spacing, *span)
            } else {
                return ParseOutcome::Failed;
            }
        },
        _ => {
            return ParseOutcome::Failed;
        },
    };
    let (name, name_span) = match &item[k + 2] {
        Token::Ident { name, span } => (name.clone(), *span),
        _ => {
            return ParseOutcome::Failed;
        },
    };
    let arms = match &item[k + 3] {
        Token::Group { delimiter, stream, .. } => {
            if *delimiter == Delimiter::Brace {
                clone_stream(stream)
            } else {
                return ParseOutcome::Failed;
            }
        },
        _ => {
            return ParseOutcome::Failed;
        },
    };
    let attrs = clone_range(item, 0, k);
    let rest = clone_range(item, k + 4, n);
    let def = MacroDefinition {
        attrs,
        keyword_span,
        bang_spacing,
        bang_span,
        name,
        name_span,
        arms,
        rest,
    };
    assert(def@.rest =~= s.skip(k + 4));
    ParseOutcome::Parsed(def)
}

} // verus!
