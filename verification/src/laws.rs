use crate::case_type::CaseType;
use crate::definition::{TypeKind, TypeModel};
use crate::directive::{lemma_no_directive, resolved_style, selected_style, style_of_token};
use crate::display::{display_outcome, rendered_mapping_of};
use crate::error::Failure;
use crate::listing::{
    is_first_payload_member, lemma_first_payload_member_unique, listing_outcome, member_list_outcome,
    member_names,
};
use crate::render::{cased, rendered_in};
use vstd::prelude::*;

verus! {

/// Every member is rendered in the style resolved for it: its own directive
/// where it has one, else that of the type, else `Noop`.
pub proof fn lemma_mapping_renders_resolved_style(def: TypeModel, at: int)
    requires
        0 <= at < def.members.len(),
    ensures
        rendered_mapping_of(def)[at].rendered == rendered_in(
            def.members[at].name,
            resolved_style(selected_style(def.directives), selected_style(def.members[at].directives)),
        ),
{
}

/// A member is rendered in the style of its own directive where it has one,
/// and in the style of the type's directive where it has none. Under `Noop`
/// that is the name itself, under any other style what the renderer makes
/// of the name.
pub proof fn lemma_mapping_follows_override(def: TypeModel, at: int)
    requires
        0 <= at < def.members.len(),
    ensures
        selected_style(def.members[at].directives) matches Some(own) ==> {
            &&& resolved_style(selected_style(def.directives), Some(own)) == own
            &&& rendered_mapping_of(def)[at].rendered == rendered_in(def.members[at].name, own)
            &&& own != CaseType::Noop ==> rendered_mapping_of(def)[at].rendered == cased(
                def.members[at].name,
                own,
            )
            &&& own == CaseType::Noop ==> rendered_mapping_of(def)[at].rendered == def.members[at].name
        },
        selected_style(def.members[at].directives) is None ==> (selected_style(
            def.directives,
        ) matches Some(inherited) ==> {
            &&& resolved_style(Some(inherited), None) == inherited
            &&& rendered_mapping_of(def)[at].rendered == rendered_in(def.members[at].name, inherited)
        }),
{
}

/// Where neither the type nor the member has a token that names a style,
/// the style that applies to the member is `Noop`, and the member is
/// rendered as its name is written, which is its rendering under `Noop`.
pub proof fn lemma_no_directives_leave_name(def: TypeModel, at: int)
    requires
        0 <= at < def.members.len(),
        forall|i: int| 0 <= i < def.directives.len() ==> style_of_token(#[trigger] def.directives[i]) is None,
        forall|i: int|
            0 <= i < def.members[at].directives.len() ==> style_of_token(
                #[trigger] def.members[at].directives[i],
            ) is None,
    ensures
        resolved_style(selected_style(def.directives), selected_style(def.members[at].directives))
            == CaseType::Noop,
        rendered_mapping_of(def)[at].rendered == def.members[at].name,
        rendered_mapping_of(def)[at].rendered == rendered_in(def.members[at].name, CaseType::Noop),
{
    lemma_no_directive(def.directives);
    lemma_no_directive(def.members[at].directives);
}

/// The rendered mapping has one entry per member, in declaration order,
/// under the member's name: none is left out, and where the members' names
/// differ no name stands twice.
pub proof fn lemma_mapping_exhaustive(def: TypeModel)
    ensures
        rendered_mapping_of(def).len() == def.members.len(),
        forall|i: int|
            0 <= i < def.members.len() ==> (#[trigger] rendered_mapping_of(def)[i]).member
                == def.members[i].name,
        def.has_distinct_member_names() ==> forall|i: int, j: int|
            0 <= i < j < def.members.len() ==> (#[trigger] rendered_mapping_of(def)[i]).member != (
            #[trigger] rendered_mapping_of(def)[j]).member,
{
}

/// The member listing of an enum of plain tags has one entry per member, in
/// declaration order: none is left out, and where the members' names differ
/// no name stands twice.
pub proof fn lemma_listing_exhaustive(def: TypeModel)
    requires
        def.kind == TypeKind::Enum,
        def.all_members_unit(),
    ensures
        listing_outcome(def) == Ok::<Seq<Seq<char>>, Failure>(member_names(def)),
        member_names(def).len() == def.members.len(),
        forall|i: int| 0 <= i < def.members.len() ==> #[trigger] member_names(def)[i] == def.members[i].name,
        def.has_distinct_member_names() ==> member_names(def).no_duplicates(),
{
}

/// For an enum with a member that carries a payload, the member listing
/// fails and names the first such member, while the display generator
/// succeeds and has an entry for that member like for any other.
pub proof fn lemma_payload_member(def: TypeModel, at: int)
    requires
        def.kind == TypeKind::Enum,
        is_first_payload_member(def, at),
    ensures
        listing_outcome(def) == Err::<Seq<Seq<char>>, Failure>(
            Failure::NonUnitMember { name: def.members[at].name, index: at },
        ),
        member_list_outcome(def) == Err::<Seq<char>, Failure>(
            Failure::NonUnitMember { name: def.members[at].name, index: at },
        ),
        display_outcome(def) is Ok,
        rendered_mapping_of(def).len() == def.members.len(),
        rendered_mapping_of(def)[at].member == def.members[at].name,
{
    lemma_first_payload_member_unique(def, at);
}

} // verus!
