use crate::definition::{MemberDefinition, PayloadKind, TypeDefinition, TypeKind, TypeModel};
use crate::definition::texts_of;
use crate::error::{Failure, GenerationError, Generator};
use vstd::prelude::*;

verus! {

/// The names of the members, in declaration order.
pub open spec fn member_names(def: TypeModel) -> Seq<Seq<char>> {
    Seq::new(def.members.len(), |i: int| def.members[i].name)
}

/// Whether `at` is the place of the first member that carries a payload.
pub open spec fn is_first_payload_member(def: TypeModel, at: int) -> bool {
    &&& 0 <= at < def.members.len()
    &&& def.members[at].payload != PayloadKind::Unit
    &&& forall|before: int| 0 <= before < at ==> def.members[before].payload == PayloadKind::Unit
}

/// The place of the first member that carries a payload, where there is one.
pub open spec fn first_payload_member(def: TypeModel) -> int {
    choose|at: int| is_first_payload_member(def, at)
}

/// What the member-list generator finds for a type: the names of all its
/// members in declaration order where it is an enum of plain tags; else the
/// failure, which names the first member that carries a payload.
pub open spec fn listing_outcome(def: TypeModel) -> Result<Seq<Seq<char>>, Failure> {
    if def.kind != TypeKind::Enum {
        Err(Failure::NotAnEnum { generator: Generator::MemberList })
    } else if def.all_members_unit() {
        Ok(member_names(def))
    } else {
        Err(
            Failure::NonUnitMember {
                name: def.members[first_payload_member(def)].name,
                index: first_payload_member(def),
            },
        )
    }
}

/// There is at most one first member with a payload.
pub proof fn lemma_first_payload_member_unique(def: TypeModel, at: int)
    requires
        is_first_payload_member(def, at),
    ensures
        first_payload_member(def) == at,
        !def.all_members_unit(),
{
    let chosen = first_payload_member(def);
    assert(is_first_payload_member(def, chosen));
    if chosen < at {
        assert(def.members[chosen].payload == PayloadKind::Unit);
    }
    if at < chosen {
        assert(def.members[at].payload == PayloadKind::Unit);
    }
}

/// Lists the members of an enumerated type in declaration order. Every
/// member must be a plain tag: the first one that carries a payload ends the
/// generation, and nothing is listed.
pub fn member_listing(input: TypeDefinition) -> (outcome: Result<Vec<String>, GenerationError>)
    ensures
        match outcome {
            Ok(listing) => listing_outcome(input@) == Ok::<Seq<Seq<char>>, Failure>(texts_of(listing@)),
            Err(error) => listing_outcome(input@) == Err::<Seq<Seq<char>>, Failure>(error@),
        },
{
    let ghost def = input@;
    let TypeDefinition { name: _, kind, directives: _, members } = input;
    match kind {
        TypeKind::Enum => {},
        _ => {
            return Err(GenerationError::NotAnEnum { generator: Generator::MemberList });
        },
    }
    let mut enum_items: Vec<String> = Vec::new();
    for variant in it: members
        invariant
            def == input@,
            def.kind == TypeKind::Enum,
            it.seq().len() == def.members.len(),
            forall|i: int| 0 <= i < it.seq().len() ==> it.seq()[i]@ == def.members[i],
            enum_items@.len() == it.index(),
            forall|i: int| 0 <= i < it.index() ==> def.members[i].payload == PayloadKind::Unit,
            forall|i: int| 0 <= i < it.index() ==> (#[trigger] enum_items@[i])@ == def.members[i].name,
    {
        let index = enum_items.len();
        let MemberDefinition { name: variant_ident, directives: _, payload } = variant;
        match payload {
            PayloadKind::Unit => {},
            _ => {
                proof {
                    lemma_first_payload_member_unique(def, index as int);
                }
                return Err(GenerationError::NonUnitMember { name: variant_ident, index });
            },
        }
        enum_items.push(variant_ident);
    }
    assert(texts_of(enum_items@) =~= member_names(def));
    Ok(enum_items)
}

/// The text before the type's name in the generated listing.
pub const LISTING_OPENING: &'static str = "#[automatically_derived]\nimpl ";

/// The text between the type's name and the first member.
pub const LISTING_VEC: &'static str = " {\n    fn all_variants() -> Vec<Self> {\n        vec![\n";

/// The text after the last member.
pub const LISTING_CLOSING: &'static str = "        ]\n    }\n}\n";

/// The line of the generated listing for one member: its path.
pub open spec fn listing_item(owner: Seq<char>, member: Seq<char>) -> Seq<char> {
    "            "@ + owner + "::"@ + member + ",\n"@
}

/// The lines for a listing, one per member, in order.
pub open spec fn listing_items(owner: Seq<char>, listing: Seq<Seq<char>>) -> Seq<char>
    decreases listing.len(),
{
    if listing.len() == 0 {
        Seq::empty()
    } else {
        listing_items(owner, listing.drop_last()) + listing_item(owner, listing.last())
    }
}

/// The source text of the `all_variants` function for a type with the given
/// members: it returns a vector with one value per member, in order.
pub open spec fn all_variants_impl_text(owner: Seq<char>, listing: Seq<Seq<char>>) -> Seq<char> {
    LISTING_OPENING@ + owner + LISTING_VEC@ + listing_items(owner, listing) + LISTING_CLOSING@
}

/// Writes the source text of the `all_variants` function for a type from
/// the names of its members.
pub fn all_variants_impl_source(owner: &str, listing: &Vec<String>) -> (source: String)
    ensures
        source@ == all_variants_impl_text(owner@, texts_of(listing@)),
{
    let ghost names = texts_of(listing@);
    let mut items = String::new();
    for i in 0..listing.len()
        invariant
            names == texts_of(listing@),
            items@ == listing_items(owner@, names.take(i as int)),
    {
        proof {
            let after = names.take(i + 1);
            assert(after.last() == listing@[i as int]@);
            assert(after.drop_last() =~= names.take(i as int));
        }
        let mut item = "            ".to_owned();
        item.append(owner);
        item.append("::");
        item.append(listing[i].as_str());
        item.append(",\n");
        items.append(item.as_str());
    }
    proof {
        assert(names.take(listing.len() as int) =~= names);
    }
    let mut out = LISTING_OPENING.to_owned();
    out.append(owner);
    out.append(LISTING_VEC);
    out.append(items.as_str());
    out.append(LISTING_CLOSING);
    out
}

/// What the member-list generator gives for a type: the source text of its
/// `all_variants` function, or the reason why there is none.
pub open spec fn member_list_outcome(def: TypeModel) -> Result<Seq<char>, Failure> {
    match listing_outcome(def) {
        Ok(listing) => Ok(all_variants_impl_text(def.name, listing)),
        Err(failure) => Err(failure),
    }
}

/// Generates the `all_variants` function of an enumerated type whose members
/// are all plain tags.
pub fn derive_enum_vec(input: TypeDefinition) -> (outcome: Result<String, GenerationError>)
    ensures
        match outcome {
            Ok(source) => member_list_outcome(input@) == Ok::<Seq<char>, Failure>(source@),
            Err(error) => member_list_outcome(input@) == Err::<Seq<char>, Failure>(error@),
        },
{
    let ident = input.name.clone();
    match member_listing(input) {
        Ok(listing) => Ok(all_variants_impl_source(ident.as_str(), &listing)),
        Err(error) => Err(error),
    }
}

} // verus!
