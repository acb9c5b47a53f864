use crate::case_type::CaseType;
use crate::directive::{directive_in_force, resolved_style};
use convert_case::pattern::noop;
use convert_case::Case;
use convert_case::Casing;
use vstd::prelude::*;

verus! {

/// What `convert_case` makes of an identifier in a style: the words it finds
/// in `name`, each cased by the style's pattern, joined by the style's
/// delimiter.
pub uninterp spec fn cased(name: Seq<char>, style: CaseType) -> Seq<char>;

/// `convert_case::Casing::to_case` on `name`, with the `convert_case::Case` of
/// the same name as `style`; for `Noop`, with a custom case of no boundaries,
/// the pattern `noop` and an empty delimiter. The call returns for every
/// string and its result depends on the two arguments alone; nothing more is
/// claimed of it, and it is known here only as `cased`. In particular `Noop`
/// is not claimed to give the name back: `to_case` splits on its default
/// boundaries whatever the case says, so a delimiter inside the name is lost.
#[verifier::external_body]
fn to_case(name: &str, style: CaseType) -> (rendered: String)
    ensures
        rendered@ == cased(name@, style),
{
    name.to_case(match style {
        CaseType::Snake => Case::Snake, CaseType::Constant => Case::Constant,
        CaseType::UpperSnake => Case::UpperSnake, CaseType::Ada => Case::Ada,
        CaseType::Kebab => Case::Kebab, CaseType::Cobol => Case::Cobol,
        CaseType::UpperKebab => Case::UpperKebab, CaseType::Train => Case::Train,
        CaseType::Flat => Case::Flat, CaseType::UpperFlat => Case::UpperFlat,
        CaseType::Pascal => Case::Pascal, CaseType::UpperCamel => Case::UpperCamel,
        CaseType::Camel => Case::Camel, CaseType::Lower => Case::Lower,
        CaseType::Upper => Case::Upper, CaseType::Title => Case::Title,
        CaseType::Sentence => Case::Sentence, CaseType::Alternating => Case::Alternating,
        CaseType::Toggle => Case::Toggle,
        CaseType::Noop => Case::Custom { boundaries: &[], pattern: noop, delim: "" },
    })
}

/// How an identifier is rendered in a style: as it is written under
/// `Noop`, which asks for no transformation, and as `convert_case` cases it
/// under any other style.
pub open spec fn rendered_in(name: Seq<char>, style: CaseType) -> Seq<char> {
    if style == CaseType::Noop {
        name
    } else {
        cased(name, style)
    }
}

/// How a member's name is rendered under the directive in force for it: in
/// the style of the directive, or as it is written where there is none.
pub open spec fn rendered_name(name: Seq<char>, directive: Option<CaseType>) -> Seq<char> {
    match directive {
        Some(style) => rendered_in(name, style),
        None => name,
    }
}

/// Renders an identifier in a style. Under `Noop` the identifier comes back
/// unchanged, whatever it holds, and the renderer is not asked; any other
/// style is handed to the renderer.
pub fn render(name: &str, style: CaseType) -> (rendered: String)
    ensures
        rendered@ == rendered_in(name@, style),
{
    match style {
        CaseType::Noop => name.to_owned(),
        _ => to_case(name, style),
    }
}

/// Renders a member's name under the directive in force for it. Without a
/// directive the name is returned as it is.
pub fn render_member(name: &str, directive: Option<CaseType>) -> (rendered: String)
    ensures
        rendered@ == rendered_name(name@, directive),
{
    match directive {
        Some(style) => render(name, style),
        None => name.to_owned(),
    }
}

/// Rendering under `Noop` gives every identifier back unchanged.
pub proof fn lemma_noop_leaves_name(name: Seq<char>)
    ensures
        rendered_in(name, CaseType::Noop) == name,
        rendered_name(name, Some(CaseType::Noop)) == name,
{
}

/// A name under the directive in force is rendered as it is in the style
/// resolved for the member; in particular, a name without any directive is
/// rendered as it is under the style resolved for it, which is `Noop`.
pub proof fn lemma_rendered_name_in_resolved_style(
    name: Seq<char>,
    type_level: Option<CaseType>,
    member: Option<CaseType>,
)
    ensures
        rendered_name(name, directive_in_force(type_level, member)) == rendered_in(
            name,
            resolved_style(type_level, member),
        ),
        rendered_name(name, None) == rendered_in(name, resolved_style(None, None)),
{
}

} // verus!
