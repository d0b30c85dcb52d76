//! What holds of every rewrite, proved from the definitions.

use crate::fingerprint::{internal_name, lemma_internal_name_injective, xxh3_128_digest};
use crate::parse::{
    definition_at, is_keyword, leading_attrs_len, parse_definition, starts_with_attr,
    MacroDefinitionView,
};
use crate::rewrite::{
    alternate_declaration, comma_separated, declaration, declared_name, doc_only_attrs,
    documented_variant, enclosed, error_marker, expansion, export_attrs, is_exported,
    not_doc_attr, reexport, rewritten, visibility,
};
use crate::token::{Delimiter, Span, TokenView};
use vstd::prelude::*;

verus! {

/// Rewriting is a function of what it is given. Two runs on the same
/// argument, the same item, the same serialized form and the same capability
/// flag give the same tokens.
pub proof fn theorem_rewriting_is_deterministic(
    attr: Seq<TokenView>,
    item: Seq<TokenView>,
    serialized: Seq<u8>,
    alternate_syntax: bool,
    first: Seq<TokenView>,
    second: Seq<TokenView>,
)
    requires
        first == rewritten(attr, item, xxh3_128_digest(serialized), alternate_syntax),
        second == rewritten(attr, item, xxh3_128_digest(serialized), alternate_syntax),
    ensures
        first == second,
{
}

/// Items that are written out alike have the same fingerprint, and a macro
/// in them gets the same internal name.
pub proof fn theorem_fingerprint_is_stable(first: Seq<u8>, second: Seq<u8>, name: Seq<char>)
    requires
        first == second,
    ensures
        xxh3_128_digest(first) == xxh3_128_digest(second),
        internal_name(xxh3_128_digest(first), name) == internal_name(
            xxh3_128_digest(second),
            name,
        ),
{
}

/// Two macros get the same internal name only where their fingerprints and
/// their own names are the same.
pub proof fn theorem_internal_names_differ(
    first: u128,
    first_name: Seq<char>,
    second: u128,
    second_name: Seq<char>,
)
    requires
        first != second || first_name != second_name,
    ensures
        internal_name(first, first_name) != internal_name(second, second_name),
{
    if internal_name(first, first_name) == internal_name(second, second_name) {
        lemma_internal_name_injective(first, first_name, second, second_name);
    }
}

/// The macro stays nameable by its own name. Whatever the visibility and
/// whatever syntax the compiler takes, the expansion holds the declaration of
/// the arms under the declared name, and ends with the requested visibility,
/// a `use` of the declared name as the macro's own name, and the rest of the
/// item.
pub proof fn theorem_name_is_preserved(
    def: MacroDefinitionView,
    attr: Seq<TokenView>,
    fingerprint: u128,
    alternate_syntax: bool,
)
    ensures
        ({
            let declared = declared_name(def, attr, fingerprint);
            let all = expansion(def, attr, fingerprint, alternate_syntax);
            &&& (visibility(attr) + reexport(def, declared) + def.rest).is_suffix_of(all)
            &&& reexport(def, declared)[1] == declaration(def, declared)[2]
            &&& reexport(def, declared)[3] == (TokenView::Ident {
                name: def.name,
                span: def.name_span,
            })
            &&& exists|i: int|
                0 <= i && i + 4 <= all.len() && #[trigger] all.subrange(i, i + 4) == declaration(
                    def,
                    declared,
                )
        }),
{
    let declared = declared_name(def, attr, fingerprint);
    let all = expansion(def, attr, fingerprint, alternate_syntax);
    let tail = visibility(attr) + reexport(def, declared) + def.rest;
    let documented = alternate_syntax && is_exported(attr);
    let before = def.attrs + (if documented {
        documented_variant(def, attr)
    } else {
        Seq::empty()
    }) + (if is_exported(attr) {
        export_attrs()
    } else {
        Seq::empty()
    });
    let gate = if documented {
        not_doc_attr()
    } else {
        Seq::empty()
    };
    assert(all =~= before + declaration(def, declared) + gate + tail);
    assert(tail =~= all.subrange(all.len() - tail.len(), all.len() as int));
    let i = before.len() as int;
    assert(all.subrange(i, i + 4) =~= declaration(def, declared));
}

/// The name that the rewritten item binds is the very name token of the
/// item. Where an item parses, what replaces it ends with the `use` of the
/// declared name as that token, and then the tokens that followed the
/// definition.
pub proof fn theorem_item_name_is_reexported(
    attr: Seq<TokenView>,
    item: Seq<TokenView>,
    fingerprint: u128,
    alternate_syntax: bool,
)
    requires
        parse_definition(item) is Some,
    ensures
        ({
            let def = parse_definition(item)->0;
            let k = leading_attrs_len(item) as int;
            let all = rewritten(attr, item, fingerprint, alternate_syntax);
            let end = all.len() - def.rest.len();
            &&& end >= 5
            &&& all.subrange(end - 5, end) == reexport(
                def,
                declared_name(def, attr, fingerprint),
            )
            &&& all[end - 2] == item[k + 2]
            &&& all.skip(end) == item.skip(k + 4)
        }),
{
    let def = parse_definition(item)->0;
    let declared = declared_name(def, attr, fingerprint);
    let all = rewritten(attr, item, fingerprint, alternate_syntax);
    let end = all.len() - def.rest.len();
    theorem_name_is_preserved(def, attr, fingerprint, alternate_syntax);
    let tail = visibility(attr) + reexport(def, declared) + def.rest;
    assert(tail.is_suffix_of(all));
    assert(all.subrange(end - 5, end) =~= reexport(def, declared));
    assert(all.skip(end) =~= def.rest);
}

/// In the arms of the alternate syntax every top-level `;` stands as `,`,
/// with the spacing it had, and every other token stands as it was, a group
/// with all that is in it.
pub proof fn theorem_separators_become_commas(arms: Seq<TokenView>)
    ensures
        comma_separated(arms).len() == arms.len(),
        forall|i: int|
            0 <= i < arms.len() ==> #[trigger] comma_separated(arms)[i] == (if arms[i].is_punct(
                ';',
            ) {
                TokenView::Punct {
                    ch: ',',
                    spacing: arms[i]->Punct_spacing,
                    span: Span::CallSite,
                }
            } else {
                arms[i]
            }),
{
}

/// Only the declaration in the alternate syntax has its separators
/// rewritten. The expansion of an exported macro holds it where the compiler
/// takes that syntax, and in every expansion the legacy declaration keeps
/// the arms as they were written.
pub proof fn theorem_arms_are_kept(
    def: MacroDefinitionView,
    attr: Seq<TokenView>,
    fingerprint: u128,
    alternate_syntax: bool,
)
    ensures
        alternate_declaration(def)[2] == enclosed(Delimiter::Brace, comma_separated(def.arms)),
        declaration(def, declared_name(def, attr, fingerprint))[3] == enclosed(
            Delimiter::Brace,
            def.arms,
        ),
        alternate_syntax && is_exported(attr) ==> exists|i: int|
            0 <= i && i + 3 <= expansion(def, attr, fingerprint, alternate_syntax).len()
                && #[trigger] expansion(def, attr, fingerprint, alternate_syntax).subrange(
                i,
                i + 3,
            ) == alternate_declaration(def),
{
    if alternate_syntax && is_exported(attr) {
        let all = expansion(def, attr, fingerprint, alternate_syntax);
        let i = (def.attrs + doc_only_attrs() + visibility(attr)).len() as int;
        assert(all.subrange(i, i + 3) =~= alternate_declaration(def));
    }
}

/// Parsing fails closed. Where, behind the leading attributes, the keyword
/// is missing, or no `!` follows it, or no name follows that, or no brace
/// group follows the name, the item comes back with the error marker behind
/// it and nothing is generated.
pub proof fn theorem_parsing_fails_closed(
    attr: Seq<TokenView>,
    item: Seq<TokenView>,
    fingerprint: u128,
    alternate_syntax: bool,
)
    requires
        ({
            let k = leading_attrs_len(item) as int;
            ||| item.len() <= k || !is_keyword(item[k])
            ||| item.len() <= k + 1 || !item[k + 1].is_punct('!')
            ||| item.len() <= k + 2 || !(item[k + 2] is Ident)
            ||| item.len() <= k + 3 || !item[k + 3].is_group(Delimiter::Brace)
        }),
    ensures
        parse_definition(item) is None,
        rewritten(attr, item, fingerprint, alternate_syntax) == item + error_marker(),
{
}

/// Parsing succeeds exactly where, behind the leading attributes, the
/// keyword, a `!`, a name and a brace group stand in this order; the item is
/// then replaced by the expansion of the definition.
pub proof fn theorem_parsing_succeeds(
    attr: Seq<TokenView>,
    item: Seq<TokenView>,
    fingerprint: u128,
    alternate_syntax: bool,
)
    ensures
        parse_definition(item) is Some <==> definition_at(item, leading_attrs_len(item) as int),
        parse_definition(item) is Some ==> rewritten(attr, item, fingerprint, alternate_syntax)
            == expansion(parse_definition(item)->0, attr, fingerprint, alternate_syntax),
{
}

/// A parsed definition accounts for every token of the item: its attributes,
/// then the keyword, the `!`, the name and the body, then the rest. The
/// attributes are pairs of `#` and a bracket group.
pub proof fn theorem_parse_partitions_item(item: Seq<TokenView>)
    requires
        parse_definition(item) is Some,
    ensures
        ({
            let def = parse_definition(item)->0;
            let k = def.attrs.len() as int;
            &&& k == leading_attrs_len(item)
            &&& definition_at(item, k)
            &&& item == def.attrs + item.subrange(k, k + 4) + def.rest
            &&& k % 2 == 0
            &&& forall|j: int|
                0 <= j < k && j % 2 == 0 ==> (#[trigger] def.attrs[j]).is_punct('#') && def.attrs[j
                    + 1].is_group(Delimiter::Bracket)
        }),
{
    let def = parse_definition(item)->0;
    let k = leading_attrs_len(item) as int;
    assert(def.attrs.len() == k);
    assert(item =~= def.attrs + item.subrange(k, k + 4) + def.rest);
    lemma_leading_attrs(item);
    assert forall|j: int| 0 <= j < k && j % 2 == 0 implies (#[trigger] def.attrs[j]).is_punct('#')
        && def.attrs[j + 1].is_group(Delimiter::Bracket) by {
        assert(def.attrs[j] == item[j]);
        assert(def.attrs[j + 1] == item[j + 1]);
    }
}

/// The leading attributes take up an even number of tokens, within the
/// sequence, and each pair of them is `#` and a bracket group.
pub proof fn lemma_leading_attrs(s: Seq<TokenView>)
    ensures
        leading_attrs_len(s) <= s.len(),
        leading_attrs_len(s) % 2 == 0,
        forall|j: int|
            0 <= j < leading_attrs_len(s) && j % 2 == 0 ==> (#[trigger] s[j]).is_punct('#') && s[j
                + 1].is_group(Delimiter::Bracket),
    decreases s.len(),
{
    if starts_with_attr(s) {
        let t = s.skip(2);
        lemma_leading_attrs(t);
        assert forall|j: int| 0 <= j < leading_attrs_len(s) && j % 2 == 0 implies (#[trigger] s[j]).is_punct(
            '#',
        ) && s[j + 1].is_group(Delimiter::Bracket) by {
            if j >= 2 {
                assert(t[j - 2] == s[j]);
                assert(t[j - 2 + 1] == s[j + 1]);
            }
        }
    }
}

} // verus!
