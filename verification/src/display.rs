use crate::case_type::CaseType;
use crate::definition::{
    MemberDefinition, MemberModel, PayloadKind, TypeDefinition, TypeKind, TypeModel,
};
use crate::directive::{directive_in_force, resolve_directive, selected_style};
use crate::error::{Failure, GenerationError, Generator};
use crate::render::{render_member, rendered_name};
use crate::text::{quote_string, string_literal};
use vstd::prelude::*;

verus! {

/// One line of the rendered mapping: a member, by its name and payload
/// kind, and the string that stands for it.
#[derive(Debug, Clone, PartialEq, Eq)]
pub struct RenderedEntry {
    pub member: String,
    pub payload: PayloadKind,
    pub rendered: String,
}

/// The mathematical content of a `RenderedEntry`.
pub ghost struct EntryModel {
    pub member: Seq<char>,
    pub payload: PayloadKind,
    pub rendered: Seq<char>,
}

impl View for RenderedEntry {
    type V = EntryModel;

    open spec fn view(&self) -> EntryModel {
        EntryModel { member: self.member@, payload: self.payload, rendered: self.rendered@ }
    }
}

/// The entries of a mapping, each as its content.
pub open spec fn entries_of(mapping: Seq<RenderedEntry>) -> Seq<EntryModel> {
    Seq::new(mapping.len(), |i: int| mapping[i]@)
}

/// The entry of one member under a type-level directive: the member's name
/// and payload kind, and the name rendered under the directive in force for
/// the member.
pub open spec fn member_entry(type_level: Option<CaseType>, member: MemberModel) -> EntryModel {
    EntryModel {
        member: member.name,
        payload: member.payload,
        rendered: rendered_name(
            member.name,
            directive_in_force(type_level, selected_style(member.directives)),
        ),
    }
}

/// The rendered mapping of a type: one entry per member, in declaration order.
pub open spec fn rendered_mapping_of(def: TypeModel) -> Seq<EntryModel> {
    Seq::new(
        def.members.len(),
        |i: int| member_entry(selected_style(def.directives), def.members[i]),
    )
}

/// Resolves and renders every member of an enumerated type, whatever its
/// payload. Fails only for a type that is not an enum.
pub fn rendered_mapping(input: TypeDefinition) -> (outcome: Result<Vec<RenderedEntry>, GenerationError>)
    ensures
        match outcome {
            Ok(mapping) => input@.kind == TypeKind::Enum && entries_of(mapping@) == rendered_mapping_of(
                input@,
            ),
            Err(error) => input@.kind != TypeKind::Enum && error@ == (Failure::NotAnEnum {
                generator: Generator::Display,
            }),
        },
{
    let ghost def = input@;
    let TypeDefinition { name: _, kind, directives, members } = input;
    let transform = CaseType::from_attributes(directives);
    match kind {
        TypeKind::Enum => {},
        _ => {
            return Err(GenerationError::NotAnEnum { generator: Generator::Display });
        },
    }
    let mut enum_items: Vec<RenderedEntry> = Vec::new();
    for variant in it: members
        invariant
            it.seq().len() == def.members.len(),
            forall|i: int| 0 <= i < it.seq().len() ==> it.seq()[i]@ == def.members[i],
            transform == selected_style(def.directives),
            enum_items@.len() == it.index(),
            forall|i: int|
                0 <= i < it.index() ==> (#[trigger] enum_items@[i])@ == member_entry(
                    transform,
                    def.members[i],
                ),
    {
        let MemberDefinition { name: variant_ident, directives: variant_attrs, payload } = variant;
        let variant_transform = CaseType::from_attributes(variant_attrs);
        let val = render_member(variant_ident.as_str(), resolve_directive(transform, variant_transform));
        enum_items.push(RenderedEntry { member: variant_ident, payload, rendered: val });
    }
    assert(entries_of(enum_items@) =~= rendered_mapping_of(def));
    Ok(enum_items)
}

/// The text before the type's name in the generated `Display` impl.
pub const DISPLAY_OPENING: &'static str = "#[automatically_derived]\nimpl ::std::fmt::Display for ";

/// The text between the type's name and the first arm.
pub const DISPLAY_MATCH: &'static str =
    " {\n    fn fmt(&self, f: &mut ::std::fmt::Formatter<'_>) -> ::std::fmt::Result {\n        match self {\n";

/// The text after the last arm.
pub const DISPLAY_CLOSING: &'static str = "        }\n    }\n}\n";

/// What follows a member's path in a pattern that matches the member
/// whatever it carries.
pub open spec fn payload_pattern(payload: PayloadKind) -> Seq<char> {
    match payload {
        PayloadKind::Unit => Seq::empty(),
        PayloadKind::Positional => "(..)"@,
        PayloadKind::Named => " { .. }"@,
    }
}

/// The arm of the generated `match` for one entry: a pattern for the member,
/// and a `write!` of its rendered string as a literal.
pub open spec fn display_arm(owner: Seq<char>, entry: EntryModel) -> Seq<char> {
    "            "@ + owner + "::"@ + entry.member + payload_pattern(entry.payload)
        + " => write!(f, "@ + string_literal(entry.rendered) + "),\n"@
}

/// The arms for a mapping, one per entry, in order.
pub open spec fn display_arms(owner: Seq<char>, mapping: Seq<EntryModel>) -> Seq<char>
    decreases mapping.len(),
{
    if mapping.len() == 0 {
        Seq::empty()
    } else {
        display_arms(owner, mapping.drop_last()) + display_arm(owner, mapping.last())
    }
}

/// The source text of the `Display` impl for a type with the given mapping:
/// a `match` on the value with one arm per entry, so that no string is
/// computed when the value is displayed.
pub open spec fn display_impl_text(owner: Seq<char>, mapping: Seq<EntryModel>) -> Seq<char> {
    DISPLAY_OPENING@ + owner + DISPLAY_MATCH@ + display_arms(owner, mapping)
        + DISPLAY_CLOSING@
}

/// What follows a member's path in its pattern; see `payload_pattern`.
fn payload_suffix(payload: PayloadKind) -> (suffix: &'static str)
    ensures
        suffix@ == payload_pattern(payload),
{
    match payload {
        PayloadKind::Unit => {
            proof {
                reveal_strlit("");
                assert(""@ =~= Seq::<char>::empty());
            }
            ""
        },
        PayloadKind::Positional => "(..)",
        PayloadKind::Named => " { .. }",
    }
}

/// Writes the arm of the generated `match` for one entry.
fn display_arm_source(owner: &str, entry: &RenderedEntry) -> (arm: String)
    ensures
        arm@ == display_arm(owner@, entry@),
{
    let literal = quote_string(entry.rendered.as_str());
    let mut arm = "            ".to_owned();
    arm.append(owner);
    arm.append("::");
    arm.append(entry.member.as_str());
    arm.append(payload_suffix(entry.payload));
    arm.append(" => write!(f, ");
    arm.append(literal.as_str());
    arm.append("),\n");
    arm
}

/// Writes the source text of the `Display` impl for a type from its
/// rendered mapping.
pub fn display_impl_source(owner: &str, mapping: &Vec<RenderedEntry>) -> (source: String)
    ensures
        source@ == display_impl_text(owner@, entries_of(mapping@)),
{
    let ghost entries = entries_of(mapping@);
    let mut arms = String::new();
    for i in 0..mapping.len()
        invariant
            entries == entries_of(mapping@),
            arms@ == display_arms(owner@, entries.take(i as int)),
    {
        proof {
            let after = entries.take(i + 1);
            assert(after.last() == mapping@[i as int]@);
            assert(after.drop_last() =~= entries.take(i as int));
        }
        let arm = display_arm_source(owner, &mapping[i]);
        arms.append(arm.as_str());
    }
    proof {
        assert(entries.take(mapping.len() as int) =~= entries);
    }
    let mut out = DISPLAY_OPENING.to_owned();
    out.append(owner);
    out.append(DISPLAY_MATCH);
    out.append(arms.as_str());
    out.append(DISPLAY_CLOSING);
    out
}

/// What the display generator gives for a type: the source text of its
/// `Display` impl, or the reason why there is none.
pub open spec fn display_outcome(def: TypeModel) -> Result<Seq<char>, Failure> {
    if def.kind == TypeKind::Enum {
        Ok(display_impl_text(def.name, rendered_mapping_of(def)))
    } else {
        Err(Failure::NotAnEnum { generator: Generator::Display })
    }
}

/// Generates the `Display` impl of an enumerated type: every member is
/// rendered once, here, in the style resolved for it, and the generated
/// code only looks the string up.
pub fn derive_enum_display(input: TypeDefinition) -> (outcome: Result<String, GenerationError>)
    ensures
        match outcome {
            Ok(source) => display_outcome(input@) == Ok::<Seq<char>, Failure>(source@),
            Err(error) => display_outcome(input@) == Err::<Seq<char>, Failure>(error@),
        },
{
    let ident = input.name.clone();
    match rendered_mapping(input) {
        Ok(mapping) => Ok(display_impl_source(ident.as_str(), &mapping)),
        Err(error) => Err(error),
    }
}

} // verus!
