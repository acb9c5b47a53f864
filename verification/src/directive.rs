use crate::case_type::{lemma_named_of_name, CaseType, CaseTypeError};
use crate::definition::{tokens_of, DirectiveToken, TokenModel};
use std::str::FromStr;
use vstd::prelude::*;

verus! {

/// The style that one token names: that of its identifier, where the
/// identifier is the canonical name of a style. A token without an
/// identifier names none.
pub open spec fn style_of_token(token: TokenModel) -> Option<CaseType> {
    match token {
        TokenModel::Ident(text) => CaseType::named(text),
        TokenModel::Other(_) => None,
    }
}

/// The style that a list of directive tokens selects: the one named by the
/// last token that names a style. Tokens that name none are passed over.
pub open spec fn selected_style(tokens: Seq<TokenModel>) -> Option<CaseType>
    decreases tokens.len(),
{
    if tokens.len() == 0 {
        None
    } else if style_of_token(tokens.last()) is Some {
        style_of_token(tokens.last())
    } else {
        selected_style(tokens.drop_last())
    }
}

/// The directive in force for a member: its own where it has one, else that
/// of the type, else none.
pub open spec fn directive_in_force(type_level: Option<CaseType>, member: Option<CaseType>) -> Option<
    CaseType,
> {
    if member is Some {
        member
    } else {
        type_level
    }
}

/// The style that applies to a member: the directive in force, or `Noop`
/// where there is none.
pub open spec fn resolved_style(type_level: Option<CaseType>, member: Option<CaseType>) -> CaseType {
    match directive_in_force(type_level, member) {
        Some(style) => style,
        None => CaseType::Noop,
    }
}

impl CaseType {
    /// The style that one token names. A token that names none comes back
    /// as `NotACase`, with the text that it carries.
    pub fn from_directive(token: DirectiveToken) -> (parsed: Result<Self, CaseTypeError>)
        ensures
            match parsed {
                Ok(style) => style_of_token(token@) == Some(style),
                Err(CaseTypeError::NotACase(text)) => style_of_token(token@) is None && text@
                    == token@.text(),
                Err(CaseTypeError::UnknownError) => false,
            },
    {
        match token {
            DirectiveToken::Ident(text) => CaseType::from_str(text.as_str()),
            DirectiveToken::Other(text) => Err(CaseTypeError::NotACase(text)),
        }
    }

    /// Scans the directive tokens attached to one item and returns the style
    /// they select. Where several tokens name a style the last one wins;
    /// tokens that name none are ignored.
    pub fn from_attributes(attrs: Vec<DirectiveToken>) -> (selected: Option<Self>)
        ensures
            selected == selected_style(tokens_of(attrs@)),
    {
        let mut case_type: Option<CaseType> = None;
        let ghost tokens = tokens_of(attrs@);
        for attr in it: attrs
            invariant
                it.seq().len() == tokens.len(),
                forall|i: int| 0 <= i < it.seq().len() ==> it.seq()[i]@ == tokens[i],
                case_type == selected_style(tokens.take(it.index())),
        {
            proof {
                let after = tokens.take(it.index() + 1);
                assert(after.last() == attr@);
                assert(after.drop_last() =~= tokens.take(it.index()));
            }
            if let Ok(ct) = CaseType::from_directive(attr) {
                case_type = Some(ct);
            }
        }
        proof {
            assert(tokens.take(tokens.len() as int) =~= tokens);
        }
        case_type
    }
}

/// The directive in force for a member; see `directive_in_force`.
pub fn resolve_directive(type_level: Option<CaseType>, member: Option<CaseType>) -> (directive: Option<
    CaseType,
>)
    ensures
        directive == directive_in_force(type_level, member),
{
    match member {
        Some(style) => Some(style),
        None => type_level,
    }
}

/// The style that applies to a member; see `resolved_style`.
pub fn resolve_style(type_level: Option<CaseType>, member: Option<CaseType>) -> (style: CaseType)
    ensures
        style == resolved_style(type_level, member),
{
    match resolve_directive(type_level, member) {
        Some(style) => style,
        None => CaseType::Noop,
    }
}

/// Tokens attached after the last one that names a style change nothing, and
/// neither does anything attached before it: where token `at` names a style
/// and no later token does, that style is selected.
pub proof fn lemma_last_directive_wins(tokens: Seq<TokenModel>, at: int)
    requires
        0 <= at < tokens.len(),
        style_of_token(tokens[at]) is Some,
        forall|later: int| at < later < tokens.len() ==> style_of_token(tokens[later]) is None,
    ensures
        selected_style(tokens) == style_of_token(tokens[at]),
    decreases tokens.len(),
{
    if at < tokens.len() - 1 {
        let rest = tokens.drop_last();
        assert(rest[at] == tokens[at]);
        assert forall|later: int| at < later < rest.len() implies style_of_token(rest[later]) is None by {
            assert(rest[later] == tokens[later]);
        }
        lemma_last_directive_wins(rest, at);
    }
}

/// Tokens that name no style select none, and only they do.
pub proof fn lemma_no_directive(tokens: Seq<TokenModel>)
    ensures
        selected_style(tokens) is None <==> forall|at: int|
            0 <= at < tokens.len() ==> style_of_token(#[trigger] tokens[at]) is None,
    decreases tokens.len(),
{
    if tokens.len() > 0 {
        let rest = tokens.drop_last();
        lemma_no_directive(rest);
        if selected_style(tokens) is None {
            assert forall|at: int| 0 <= at < tokens.len() implies style_of_token(
                #[trigger] tokens[at],
            ) is None by {
                if at < rest.len() {
                    assert(rest[at] == tokens[at]);
                }
            }
        } else if style_of_token(tokens.last()) is None {
            let at = choose|at: int| 0 <= at < rest.len() && style_of_token(#[trigger] rest[at]) is Some;
            assert(tokens[at] == rest[at]);
        }
    }
}

/// Of two directives on one item that both name a style, the second decides.
pub proof fn lemma_second_directive_wins(first: CaseType, second: CaseType)
    ensures
        selected_style(seq![TokenModel::Ident(first.name()), TokenModel::Ident(second.name())])
            == Some(second),
{
    let tokens = seq![TokenModel::Ident(first.name()), TokenModel::Ident(second.name())];
    lemma_named_of_name(second);
    assert(tokens.last() == TokenModel::Ident(second.name()));
}

/// A member's own directive overrides that of its type, and a member
/// without one takes the type's.
pub proof fn lemma_member_directive_overrides(type_level: CaseType, member: CaseType)
    ensures
        resolved_style(Some(type_level), Some(member)) == member,
        resolved_style(None, Some(member)) == member,
        resolved_style(Some(type_level), None) == type_level,
        resolved_style(None, None) == CaseType::Noop,
{
}

} // verus!
