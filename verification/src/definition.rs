use vstd::prelude::*;

verus! {

/// What kind of type a definition describes.
#[derive(Debug, Clone, Copy, PartialEq, Eq, Structural)]
pub enum TypeKind {
    Enum,
    Struct,
    Union,
}

/// What a member carries besides its name.
#[derive(Debug, Clone, Copy, PartialEq, Eq, Structural)]
pub enum PayloadKind {
    /// A plain tag: `Bar`.
    Unit,
    /// Unnamed fields: `Bar(..)`.
    Positional,
    /// Named fields: `Bar { .. }`.
    Named,
}

/// One attribute attached to a type or to a member, as far as it can be a
/// directive.
#[derive(Debug, Clone, PartialEq, Eq)]
pub enum DirectiveToken {
    /// The attribute's path is a single identifier; this is its text. It is
    /// a directive where the text is the canonical name of a style.
    Ident(String),
    /// The attribute's path is no single identifier, so it is no directive,
    /// whatever it holds. The text describes the attribute to the user.
    Other(String),
}

/// One member of an enumerated type: its identifier as written, the
/// directive tokens attached to it in attachment order, and its payload kind.
#[derive(Debug, Clone, PartialEq, Eq)]
pub struct MemberDefinition {
    pub name: String,
    pub directives: Vec<DirectiveToken>,
    pub payload: PayloadKind,
}

/// A type handed to the generators: its name, its kind, the directive tokens
/// attached to the type itself, and its members in declaration order.
#[derive(Debug, Clone, PartialEq, Eq)]
pub struct TypeDefinition {
    pub name: String,
    pub kind: TypeKind,
    pub directives: Vec<DirectiveToken>,
    pub members: Vec<MemberDefinition>,
}

/// The mathematical content of a `DirectiveToken`.
pub ghost enum TokenModel {
    Ident(Seq<char>),
    Other(Seq<char>),
}

impl View for DirectiveToken {
    type V = TokenModel;

    open spec fn view(&self) -> TokenModel {
        match self {
            DirectiveToken::Ident(text) => TokenModel::Ident(text@),
            DirectiveToken::Other(text) => TokenModel::Other(text@),
        }
    }
}

impl TokenModel {
    /// The text that the token carries.
    pub open spec fn text(self) -> Seq<char> {
        match self {
            TokenModel::Ident(text) => text,
            TokenModel::Other(text) => text,
        }
    }
}

/// The tokens of a list, each as its content.
pub open spec fn tokens_of(tokens: Seq<DirectiveToken>) -> Seq<TokenModel> {
    Seq::new(tokens.len(), |i: int| tokens[i]@)
}

/// The mathematical content of a `MemberDefinition`.
pub ghost struct MemberModel {
    pub name: Seq<char>,
    pub directives: Seq<TokenModel>,
    pub payload: PayloadKind,
}

/// The mathematical content of a `TypeDefinition`.
pub ghost struct TypeModel {
    pub name: Seq<char>,
    pub kind: TypeKind,
    pub directives: Seq<TokenModel>,
    pub members: Seq<MemberModel>,
}

/// The strings of a list, each as its characters.
pub open spec fn texts_of(strings: Seq<String>) -> Seq<Seq<char>> {
    Seq::new(strings.len(), |i: int| strings[i]@)
}

impl View for MemberDefinition {
    type V = MemberModel;

    open spec fn view(&self) -> MemberModel {
        MemberModel {
            name: self.name@,
            directives: tokens_of(self.directives@),
            payload: self.payload,
        }
    }
}

impl View for TypeDefinition {
    type V = TypeModel;

    open spec fn view(&self) -> TypeModel {
        TypeModel {
            name: self.name@,
            kind: self.kind,
            directives: tokens_of(self.directives@),
            members: Seq::new(self.members@.len(), |i: int| self.members@[i]@),
        }
    }
}

impl TypeModel {
    /// No two members share a name.
    pub open spec fn has_distinct_member_names(self) -> bool {
        forall|i: int, j: int|
            0 <= i < j < self.members.len() ==> self.members[i].name != self.members[j].name
    }

    /// Whether every member is a plain tag.
    pub open spec fn all_members_unit(self) -> bool {
        forall|i: int| 0 <= i < self.members.len() ==> self.members[i].payload == PayloadKind::Unit
    }
}

} // verus!
