//! Rewriting an annotated macro definition into a scoped one.

use crate::fingerprint::{fingerprint, internal_name, make_internal_name, xxh3_128_digest};
use crate::parse::{parse, parse_definition, MacroDefinition, MacroDefinitionView, ParseOutcome};
use crate::token::{
    clone_stream, extend_cloned, push_token, stream_view, token_view, Delimiter, Spacing, Span,
    Token, TokenView,
};
use vstd::prelude::*;

verus! {

/// The literal that carries the diagnostic of a misplaced annotation.
pub const DIAGNOSTIC: &'static str = "\"`#[macro_pub]` must be used on a `macro_rules!` macro\"";

/// An identifier written by the rewriter, at the call site.
pub open spec fn word(name: Seq<char>) -> TokenView {
    TokenView::Ident { name, span: Span::CallSite }
}

/// An identifier written by the rewriter, with macro hygiene.
pub open spec fn hygienic_word(name: Seq<char>) -> TokenView {
    TokenView::Ident { name, span: Span::MixedSite }
}

/// A group written by the rewriter.
pub open spec fn enclosed(delimiter: Delimiter, stream: Seq<TokenView>) -> TokenView {
    TokenView::Group { delimiter, stream, span: Span::CallSite }
}

/// A punctuation mark written by the rewriter, standing alone.
pub open spec fn mark(ch: char) -> TokenView {
    TokenView::Punct { ch, spacing: Spacing::Alone, span: Span::CallSite }
}

/// The attribute `#[inner]`.
pub open spec fn attribute(inner: Seq<TokenView>) -> Seq<TokenView> {
    seq![mark('#'), enclosed(Delimiter::Bracket, inner)]
}

/// The tokens of `name(arg)`.
pub open spec fn applied(name: Seq<char>, arg: Seq<TokenView>) -> Seq<TokenView> {
    seq![word(name), enclosed(Delimiter::Parenthesis, arg)]
}

/// `compile_error! { "..." }`: what is put behind an item that is no macro definition.
pub open spec fn error_marker() -> Seq<TokenView> {
    seq![
        word("compile_error"@),
        mark('!'),
        enclosed(
            Delimiter::Brace,
            seq![TokenView::Literal { text: DIAGNOSTIC@, span: Span::CallSite }],
        ),
    ]
}

/// `#[cfg(doc)] #[rustc_macro_transparency = "semitransparent"]`.
pub open spec fn doc_only_attrs() -> Seq<TokenView> {
    attribute(applied("cfg"@, seq![word("doc"@)])) + attribute(
        seq![
            word("rustc_macro_transparency"@),
            mark('='),
            TokenView::Literal { text: "\"semitransparent\""@, span: Span::CallSite },
        ],
    )
}

/// `#[cfg(not(doc))]`.
pub open spec fn not_doc_attr() -> Seq<TokenView> {
    attribute(applied("cfg"@, applied("not"@, seq![word("doc"@)])))
}

/// `#[macro_export] #[doc(hidden)]`.
pub open spec fn export_attrs() -> Seq<TokenView> {
    attribute(seq![word("macro_export"@)]) + attribute(applied("doc"@, seq![word("hidden"@)]))
}

/// The visibility that the attribute's argument asks for: `pub` where there is
/// none, else `pub(argument)`.
pub open spec fn visibility(attr: Seq<TokenView>) -> Seq<TokenView> {
    if attr.len() == 0 {
        seq![word("pub"@)]
    } else {
        seq![word("pub"@), enclosed(Delimiter::Parenthesis, attr)]
    }
}

/// A token of the arms as the alternate syntax wants it: `;` becomes `,` with
/// the same spacing, and every other token stays as it is.
pub open spec fn separator_to_comma(t: TokenView) -> TokenView {
    match t {
        TokenView::Punct { ch, spacing, span } => if ch == ';' {
            TokenView::Punct { ch: ',', spacing, span: Span::CallSite }
        } else {
            t
        },
        _ => t,
    }
}

/// The arms with each top-level `;` turned into `,`. Groups are not entered.
pub open spec fn comma_separated(arms: Seq<TokenView>) -> Seq<TokenView> {
    arms.map_values(|t: TokenView| separator_to_comma(t))
}

/// `macro_rules! declared { arms }`, with the keyword, the `!` and the name's
/// span as they were written.
pub open spec fn declaration(def: MacroDefinitionView, declared: Seq<char>) -> Seq<TokenView> {
    seq![
        TokenView::Ident { name: "macro_rules"@, span: def.keyword_span },
        TokenView::Punct { ch: '!', spacing: def.bang_spacing, span: def.bang_span },
        TokenView::Ident { name: declared, span: def.name_span },
        enclosed(Delimiter::Brace, def.arms),
    ]
}

/// `macro name { arms }` in the alternate syntax, the arms separated by commas.
pub open spec fn alternate_declaration(def: MacroDefinitionView) -> Seq<TokenView> {
    seq![
        hygienic_word("macro"@),
        TokenView::Ident { name: def.name, span: def.name_span },
        enclosed(Delimiter::Brace, comma_separated(def.arms)),
    ]
}

/// `use declared as name;`.
pub open spec fn reexport(def: MacroDefinitionView, declared: Seq<char>) -> Seq<TokenView> {
    seq![
        hygienic_word("use"@),
        TokenView::Ident { name: declared, span: def.name_span },
        hygienic_word("as"@),
        TokenView::Ident { name: def.name, span: def.name_span },
        mark(';'),
    ]
}

/// Whether the macro is exported to the whole world: it is where the
/// attribute has no argument.
pub open spec fn is_exported(attr: Seq<TokenView>) -> bool {
    attr.len() == 0
}

/// The name under which the macro's arms are declared: the internal name for
/// an exported macro, the macro's own name for a restricted one.
pub open spec fn declared_name(
    def: MacroDefinitionView,
    attr: Seq<TokenView>,
    fingerprint: u128,
) -> Seq<char> {
    if is_exported(attr) {
        internal_name(fingerprint, def.name)
    } else {
        def.name
    }
}

/// The documentation-only variant of an exported macro, and the condition
/// that switches the export off while documentation is built.
pub open spec fn documented_variant(
    def: MacroDefinitionView,
    attr: Seq<TokenView>,
) -> Seq<TokenView> {
    doc_only_attrs() + visibility(attr) + alternate_declaration(def) + def.attrs + not_doc_attr()
}

/// What replaces a macro definition.
pub open spec fn expansion(
    def: MacroDefinitionView,
    attr: Seq<TokenView>,
    fingerprint: u128,
    alternate_syntax: bool,
) -> Seq<TokenView> {
    let exported = is_exported(attr);
    let documented = alternate_syntax && exported;
    let declared = declared_name(def, attr, fingerprint);
    def.attrs + (if documented {
        documented_variant(def, attr)
    } else {
        Seq::empty()
    }) + (if exported {
        export_attrs()
    } else {
        Seq::empty()
    }) + declaration(def, declared) + (if documented {
        not_doc_attr()
    } else {
        Seq::empty()
    }) + visibility(attr) + reexport(def, declared) + def.rest
}

/// What replaces an annotated item: the expansion of the macro definition
/// that it starts with, or the item itself followed by the error marker.
pub open spec fn rewritten(
    attr: Seq<TokenView>,
    item: Seq<TokenView>,
    fingerprint: u128,
    alternate_syntax: bool,
) -> Seq<TokenView> {
    match parse_definition(item) {
        Some(def) => expansion(def, attr, fingerprint, alternate_syntax),
        None => item + error_marker(),
    }
}

fn push_attribute(out: &mut Vec<Token>, inner: Vec<Token>)
    ensures
        stream_view(final(out)@) == stream_view(old(out)@) + attribute(stream_view(inner@)),
{
    push_token(out, Token::punct('#', Spacing::Alone, Span::CallSite));
    push_token(out, Token::group(Delimiter::Bracket, inner, Span::CallSite));
}

fn push_applied(out: &mut Vec<Token>, name: &str, arg: Vec<Token>)
    ensures
        stream_view(final(out)@) == stream_view(old(out)@) + applied(name@, stream_view(arg@)),
{
    push_token(out, Token::ident(name, Span::CallSite));
    push_token(out, Token::group(Delimiter::Parenthesis, arg, Span::CallSite));
}

fn one_word(name: &str) -> (v: Vec<Token>)
    ensures
        stream_view(v@) == seq![word(name@)],
{
    let mut v: Vec<Token> = Vec::new();
    push_token(&mut v, Token::ident(name, Span::CallSite));
    v
}

fn push_error_marker(out: &mut Vec<Token>)
    ensures
        stream_view(final(out)@) == stream_view(old(out)@) + error_marker(),
{
    let mut message: Vec<Token> = Vec::new();
    push_token(&mut message, Token::literal(DIAGNOSTIC, Span::CallSite));
    assert(stream_view(message@) =~= seq![
        TokenView::Literal { text: DIAGNOSTIC@, span: Span::CallSite },
    ]);
    push_token(out, Token::ident("compile_error", Span::CallSite));
    push_token(out, Token::punct('!', Spacing::Alone, Span::CallSite));
    push_token(out, Token::group(Delimiter::Brace, message, Span::CallSite));
}

fn push_doc_only_attrs(out: &mut Vec<Token>)
    ensures
        stream_view(final(out)@) == stream_view(old(out)@) + doc_only_attrs(),
{
    let mut cfg: Vec<Token> = Vec::new();
    push_applied(&mut cfg, "cfg", one_word("doc"));
    push_attribute(out, cfg);
    let mut transparency: Vec<Token> = Vec::new();
    push_token(&mut transparency, Token::ident("rustc_macro_transparency", Span::CallSite));
    push_token(&mut transparency, Token::punct('=', Spacing::Alone, Span::CallSite));
    push_token(&mut transparency, Token::literal("\"semitransparent\"", Span::CallSite));
    assert(stream_view(transparency@) =~= seq![
        word("rustc_macro_transparency"@),
        mark('='),
        TokenView::Literal { text: "\"semitransparent\""@, span: Span::CallSite },
    ]);
    push_attribute(out, transparency);
}

fn push_not_doc_attr(out: &mut Vec<Token>)
    ensures
        stream_view(final(out)@) == stream_view(old(out)@) + not_doc_attr(),
{
    let mut not: Vec<Token> = Vec::new();
    push_applied(&mut not, "not", one_word("doc"));
    let mut cfg: Vec<Token> = Vec::new();
    push_applied(&mut cfg, "cfg", not);
    push_attribute(out, cfg);
}

fn push_export_attrs(out: &mut Vec<Token>)
    ensures
        stream_view(final(out)@) == stream_view(old(out)@) + export_attrs(),
{
    push_attribute(out, one_word("macro_export"));
    let mut doc: Vec<Token> = Vec::new();
    push_applied(&mut doc, "doc", one_word("hidden"));
    push_attribute(out, doc);
}

fn push_visibility(out: &mut Vec<Token>, attr: &Vec<Token>)
    ensures
        stream_view(final(out)@) == stream_view(old(out)@) + visibility(stream_view(attr@)),
{
    push_token(out, Token::ident("pub", Span::CallSite));
    if attr.len() != 0 {
        push_token(out, Token::group(Delimiter::Parenthesis, clone_stream(attr), Span::CallSite));
    }
}

/// Rewrites the arm separators of the legacy syntax into those of the
/// alternate syntax: each top-level `;` becomes `,`, nothing else changes.
pub fn separators_to_commas(arms: &Vec<Token>) -> (out: Vec<Token>)
    ensures
        stream_view(out@) == comma_separated(stream_view(arms@)),
{
    let mut out: Vec<Token> = Vec::new();
    let mut i: usize = 0;
    while i < arms.len()
        invariant
            i <= arms.len(),
            out@.len() == i,
            forall|j: int|
                0 <= j < i ==> token_view(#[trigger] out@[j]) == separator_to_comma(
                    token_view(arms@[j]),
                ),
        decreases arms.len() - i,
    {
        let t = match &arms[i] {
            Token::Punct { ch, spacing, span } => {
                if *ch == ';' {
                    Token::punct(',', *spacing, Span::CallSite)
                } else {
                    arms[i].clone()
                }
            },
            other => other.clone(),
        };
        out.push(t);
        i += 1;
    }
    out
}

fn push_declaration(out: &mut Vec<Token>, def: &MacroDefinition, declared: &str)
    ensures
        stream_view(final(out)@) == stream_view(old(out)@) + declaration(def@, declared@),
{
    push_token(out, Token::ident("macro_rules", def.keyword_span));
    push_token(out, Token::punct('!', def.bang_spacing, def.bang_span));
    push_token(out, Token::ident(declared, def.name_span));
    push_token(out, Token::group(Delimiter::Brace, clone_stream(&def.arms), Span::CallSite));
}

fn push_alternate_declaration(out: &mut Vec<Token>, def: &MacroDefinition)
    ensures
        stream_view(final(out)@) == stream_view(old(out)@) + alternate_declaration(def@),
{
    push_token(out, Token::ident("macro", Span::MixedSite));
    push_token(out, Token::ident(def.name.as_str(), def.name_span));
    push_token(
        out,
        Token::group(Delimiter::Brace, separators_to_commas(&def.arms), Span::CallSite),
    );
}

fn push_reexport(out: &mut Vec<Token>, def: &MacroDefinition, declared: &str)
    ensures
        stream_view(final(out)@) == stream_view(old(out)@) + reexport(def@, declared@),
{
    push_token(out, Token::ident("use", Span::MixedSite));
    push_token(out, Token::ident(declared, def.name_span));
    push_token(out, Token::ident("as", Span::MixedSite));
    push_token(out, Token::ident(def.name.as_str(), def.name_span));
    push_token(out, Token::punct(';', Spacing::Alone, Span::CallSite));
}

/// Generates what replaces the macro definition `def`, annotated with the
/// argument `attr`.
pub fn generate(
    def: &MacroDefinition,
    attr: &Vec<Token>,
    fingerprint: u128,
    alternate_syntax: bool,
) -> (out: Vec<Token>)
    ensures
        stream_view(out@) == expansion(def@, stream_view(attr@), fingerprint, alternate_syntax),
{
    let exported = attr.len() == 0;
    let documented = alternate_syntax && exported;
    let declared = if exported {
        make_internal_name(fingerprint, def.name.as_str())
    } else {
        def.name.clone()
    };
    let mut out = clone_stream(&def.attrs);
    if documented {
        push_doc_only_attrs(&mut out);
        push_visibility(&mut out, attr);
        push_alternate_declaration(&mut out, def);
        extend_cloned(&mut out, &def.attrs);
        push_not_doc_attr(&mut out);
    }
    if exported {
        push_export_attrs(&mut out);
    }
    push_declaration(&mut out, def, declared.as_str());
    if documented {
        push_not_doc_attr(&mut out);
    }
    push_visibility(&mut out, attr);
    push_reexport(&mut out, def, declared.as_str());
    extend_cloned(&mut out, &def.rest);
    out
}

/// Rewrites the annotated `item`, given the fingerprint of its serialized form.
/// `attr` is the attribute's argument; `alternate_syntax` says whether the
/// compiler takes the alternate declaration syntax.
pub fn rewrite(
    attr: &Vec<Token>,
    item: Vec<Token>,
    fingerprint: u128,
    alternate_syntax: bool,
) -> (out: Vec<Token>)
    ensures
        stream_view(out@) == rewritten(
            stream_view(attr@),
            stream_view(item@),
            fingerprint,
            alternate_syntax,
        ),
{
    match parse(&item) {
        ParseOutcome::Parsed(def) => generate(&def, attr, fingerprint, alternate_syntax),
        ParseOutcome::Failed => {
            let mut out = item;
            push_error_marker(&mut out);
            out
        },
    }
}

/// Rewrites a macro definition annotated with `#[macro_pub]` so that it obeys
/// the visibility rules of items. `attr` is the attribute's argument, `item`
/// the annotated item, and `serialized` the item written out as text, from
/// which its fingerprint is taken.
pub fn macro_pub(
    attr: Vec<Token>,
    item: Vec<Token>,
    serialized: &[u8],
    has_simple_decl_macro: bool,
) -> (out: Vec<Token>)
    ensures
        stream_view(out@) == rewritten(
            stream_view(attr@),
            stream_view(item@),
            xxh3_128_digest(serialized@),
            has_simple_decl_macro,
        ),
{
    let hash = fingerprint(serialized);
    rewrite(&attr, item, hash, has_simple_decl_macro)
}

} // verus!
