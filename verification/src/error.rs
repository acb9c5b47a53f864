use vstd::prelude::*;

verus! {

/// The two generators.
#[derive(Debug, Clone, Copy, PartialEq, Eq, Structural)]
pub enum Generator {
    /// Generates the textual representation of each member.
    Display,
    /// Generates the listing of all members.
    MemberList,
}

/// Why nothing was generated for a type. Either error ends the generation
/// for that type; no partial output exists.
#[derive(Debug, Clone, PartialEq, Eq)]
pub enum GenerationError {
    /// The type is not an enumerated type. To be reported at the type.
    NotAnEnum { generator: Generator },
    /// The member listing was asked for, and the member at `index` carries a
    /// payload. To be reported at that member.
    NonUnitMember { name: String, index: usize },
}

/// The mathematical content of a `GenerationError`.
pub ghost enum Failure {
    NotAnEnum { generator: Generator },
    NonUnitMember { name: Seq<char>, index: int },
}

impl View for GenerationError {
    type V = Failure;

    open spec fn view(&self) -> Failure {
        match self {
            GenerationError::NotAnEnum { generator } => Failure::NotAnEnum { generator: *generator },
            GenerationError::NonUnitMember { name, index } => Failure::NonUnitMember {
                name: name@,
                index: *index as int,
            },
        }
    }
}

impl Failure {
    /// The text shown to the user for a failure.
    pub open spec fn message(self) -> Seq<char> {
        match self {
            Failure::NotAnEnum { generator: Generator::Display } => "Must be a enum."@,
            Failure::NotAnEnum { generator: Generator::MemberList } => "Must be of type 'enum'."@,
            Failure::NonUnitMember { .. } => "Must be a unit type i.e. no EnumItemTuple | EnumItemStruct.\n enum Foo { Bar, Baz }"@,
        }
    }
}

impl GenerationError {
    /// The text to show to the user.
    pub fn message(&self) -> (text: &'static str)
        ensures
            text@ == self@.message(),
    {
        match self {
            GenerationError::NotAnEnum { generator: Generator::Display } => "Must be a enum.",
            GenerationError::NotAnEnum { generator: Generator::MemberList } => "Must be of type 'enum'.",
            GenerationError::NonUnitMember { .. } => "Must be a unit type i.e. no EnumItemTuple | EnumItemStruct.\n enum Foo { Bar, Baz }",
        }
    }
}

} // verus!
