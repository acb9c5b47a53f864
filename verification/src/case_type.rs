use crate::text::str_eq;
use vstd::prelude::*;

verus! {

/// A naming style for a multi-word identifier.
///
/// | pattern | underscore `_` | hyphen `-` | empty string | space |
/// | ---: | --- | --- | --- | --- |
/// | lowercase | `Snake` | `Kebab` | `Flat` | `Lower` |
/// | uppercase | `Constant` | `Cobol` | `UpperFlat` | `Upper` |
/// | capital | `Ada` | `Train` | `Pascal` | `Title` |
/// | camel | | | `Camel` | |
///
/// `UpperSnake`, `UpperKebab` and `UpperCamel` are second names of `Constant`,
/// `Cobol` and `Pascal`. `Noop` is the style that asks for no transformation;
/// its canonical name is `None`.
#[derive(Debug, Clone, Copy, PartialEq, Eq, Structural)]
pub enum CaseType {
    Snake,
    Constant,
    UpperSnake,
    Ada,
    Kebab,
    Cobol,
    UpperKebab,
    Train,
    Flat,
    UpperFlat,
    Pascal,
    UpperCamel,
    Camel,
    Lower,
    Upper,
    Title,
    Sentence,
    Alternating,
    Toggle,
    Noop,
}

/// Why a string is not a style.
#[derive(Debug)]
pub enum CaseTypeError {
    /// The string is none of the canonical names; it is carried along.
    NotACase(String),
    UnknownError,
}

impl CaseType {
    /// The canonical name of a style: the exact text of a directive that
    /// selects it.
    pub open spec fn name(self) -> Seq<char> {
        match self {
            CaseType::Snake => "Snake"@,
            CaseType::Constant => "Constant"@,
            CaseType::UpperSnake => "UpperSnake"@,
            CaseType::Ada => "Ada"@,
            CaseType::Kebab => "Kebab"@,
            CaseType::Cobol => "Cobol"@,
            CaseType::UpperKebab => "UpperKebab"@,
            CaseType::Train => "Train"@,
            CaseType::Flat => "Flat"@,
            CaseType::UpperFlat => "UpperFlat"@,
            CaseType::Pascal => "Pascal"@,
            CaseType::UpperCamel => "UpperCamel"@,
            CaseType::Camel => "Camel"@,
            CaseType::Lower => "Lower"@,
            CaseType::Upper => "Upper"@,
            CaseType::Title => "Title"@,
            CaseType::Sentence => "Sentence"@,
            CaseType::Alternating => "Alternating"@,
            CaseType::Toggle => "Toggle"@,
            CaseType::Noop => "None"@,
        }
    }

    /// Every style once, in the fixed enumeration order.
    pub open spec fn all() -> Seq<CaseType> {
        seq![
            CaseType::Snake,
            CaseType::Constant,
            CaseType::UpperSnake,
            CaseType::Ada,
            CaseType::Kebab,
            CaseType::Cobol,
            CaseType::UpperKebab,
            CaseType::Train,
            CaseType::Flat,
            CaseType::UpperFlat,
            CaseType::Pascal,
            CaseType::UpperCamel,
            CaseType::Camel,
            CaseType::Lower,
            CaseType::Upper,
            CaseType::Title,
            CaseType::Sentence,
            CaseType::Alternating,
            CaseType::Toggle,
            CaseType::Noop,
        ]
    }

    /// The place of a style in the enumeration order.
    pub open spec fn position(self) -> int {
        match self {
            CaseType::Snake => 0,
            CaseType::Constant => 1,
            CaseType::UpperSnake => 2,
            CaseType::Ada => 3,
            CaseType::Kebab => 4,
            CaseType::Cobol => 5,
            CaseType::UpperKebab => 6,
            CaseType::Train => 7,
            CaseType::Flat => 8,
            CaseType::UpperFlat => 9,
            CaseType::Pascal => 10,
            CaseType::UpperCamel => 11,
            CaseType::Camel => 12,
            CaseType::Lower => 13,
            CaseType::Upper => 14,
            CaseType::Title => 15,
            CaseType::Sentence => 16,
            CaseType::Alternating => 17,
            CaseType::Toggle => 18,
            CaseType::Noop => 19,
        }
    }

    /// The style that a string names: the one whose canonical name it is,
    /// letter for letter, if there is one.
    pub open spec fn named(text: Seq<char>) -> Option<CaseType> {
        if exists|style: CaseType| style.name() == text {
            Some(choose|style: CaseType| style.name() == text)
        } else {
            None
        }
    }

    /// All styles, in the fixed enumeration order.
    pub fn all_cases() -> (cases: [CaseType; 20])
        ensures
            cases@ == CaseType::all(),
    {
        [
            CaseType::Snake,
            CaseType::Constant,
            CaseType::UpperSnake,
            CaseType::Ada,
            CaseType::Kebab,
            CaseType::Cobol,
            CaseType::UpperKebab,
            CaseType::Train,
            CaseType::Flat,
            CaseType::UpperFlat,
            CaseType::Pascal,
            CaseType::UpperCamel,
            CaseType::Camel,
            CaseType::Lower,
            CaseType::Upper,
            CaseType::Title,
            CaseType::Sentence,
            CaseType::Alternating,
            CaseType::Toggle,
            CaseType::Noop,
        ]
    }

    /// The canonical name of the style.
    pub fn as_str(&self) -> (text: &'static str)
        ensures
            text@ == self.name(),
    {
        match self {
            CaseType::Snake => "Snake",
            CaseType::Constant => "Constant",
            CaseType::UpperSnake => "UpperSnake",
            CaseType::Ada => "Ada",
            CaseType::Kebab => "Kebab",
            CaseType::Cobol => "Cobol",
            CaseType::UpperKebab => "UpperKebab",
            CaseType::Train => "Train",
            CaseType::Flat => "Flat",
            CaseType::UpperFlat => "UpperFlat",
            CaseType::Pascal => "Pascal",
            CaseType::UpperCamel => "UpperCamel",
            CaseType::Camel => "Camel",
            CaseType::Lower => "Lower",
            CaseType::Upper => "Upper",
            CaseType::Title => "Title",
            CaseType::Sentence => "Sentence",
            CaseType::Alternating => "Alternating",
            CaseType::Toggle => "Toggle",
            CaseType::Noop => "None",
        }
    }
}

impl Default for CaseType {
    /// The style of an item without a directive: `Noop`.
    fn default() -> (style: Self)
        ensures
            style == CaseType::Noop,
    {
        CaseType::Noop
    }
}

impl AsRef<str> for CaseType {
    fn as_ref(&self) -> (text: &str)
        ensures
            text@ == self.name(),
    {
        self.as_str()
    }
}

impl CaseTypeError {
    /// The text of the error.
    pub open spec fn message_text(self) -> Seq<char> {
        match self {
            CaseTypeError::NotACase(case) => "Not a valid case: "@ + case@,
            CaseTypeError::UnknownError => "Unknown error: Your guess is as good as mine"@,
        }
    }

    /// The text of the error, for display.
    pub fn message(&self) -> (text: String)
        ensures
            text@ == self.message_text(),
    {
        match self {
            CaseTypeError::NotACase(case) => {
                let mut text = "Not a valid case: ".to_owned();
                text.append(case.as_str());
                text
            },
            CaseTypeError::UnknownError => "Unknown error: Your guess is as good as mine".to_owned(),
        }
    }
}

impl std::str::FromStr for CaseType {
    type Err = CaseTypeError;

    /// Looks a style up by its canonical name. The match is exact and
    /// case-sensitive; any other string comes back in `NotACase`.
    fn from_str(s: &str) -> (parsed: Result<Self, Self::Err>)
        ensures
            match parsed {
                Ok(style) => CaseType::named(s@) == Some(style),
                Err(CaseTypeError::NotACase(text)) => CaseType::named(s@) is None && text@ == s@,
                Err(CaseTypeError::UnknownError) => false,
            },
    {
        let cases = CaseType::all_cases();
        let mut i: usize = 0;
        while i < 20
            invariant
                i <= 20,
                cases@ == CaseType::all(),
                forall|j: int| 0 <= j < i ==> CaseType::all()[j].name() != s@,
            decreases 20 - i,
        {
            let candidate = cases[i];
            if str_eq(candidate.as_str(), s) {
                proof {
                    lemma_named_of_name(candidate);
                }
                return Ok(candidate);
            }
            i += 1;
        }
        proof {
            assert forall|style: CaseType| style.name() != s@ by {
                lemma_all_cases_complete(style);
            }
        }
        Err(CaseTypeError::NotACase(s.to_owned()))
    }
}

/// A canonical name names its own style, and no other: looking up the name
/// of a style gives that style back.
pub proof fn lemma_named_of_name(style: CaseType)
    ensures
        CaseType::named(style.name()) == Some(style),
{
    let found = choose|other: CaseType| other.name() == style.name();
    lemma_name_injective(found, style);
}

/// A string names a style exactly when it is that style's canonical name;
/// a string that is no style's canonical name names none.
pub proof fn lemma_named_exact(text: Seq<char>, style: CaseType)
    ensures
        CaseType::named(text) == Some(style) <==> style.name() == text,
        CaseType::named(text) is None <==> forall|other: CaseType| other.name() != text,
{
    if style.name() == text {
        lemma_named_of_name(style);
    }
}

/// Every style stands in the enumeration, at its position.
pub proof fn lemma_all_cases_complete(style: CaseType)
    ensures
        0 <= style.position() < CaseType::all().len(),
        CaseType::all().len() == 20,
        CaseType::all()[style.position()] == style,
        CaseType::all().contains(style),
{
}

/// No style stands twice in the enumeration.
pub proof fn lemma_all_cases_distinct()
    ensures
        CaseType::all().no_duplicates(),
{
    assert forall|i: int, j: int|
        0 <= i < CaseType::all().len() && 0 <= j < CaseType::all().len() && i != j implies CaseType::all()[i]
        != CaseType::all()[j] by {
        assert(CaseType::all()[i].position() == i);
        assert(CaseType::all()[j].position() == j);
    }
}

/// Two styles with the same canonical name are the same style.
pub proof fn lemma_name_injective(a: CaseType, b: CaseType)
    requires
        a.name() == b.name(),
    ensures
        a == b,
{
    lemma_name_shape(a);
    lemma_name_shape(b);
}

/// What tells the canonical names apart: the length, the first two letters
/// and, of the long names, the sixth.
proof fn lemma_name_shape(style: CaseType)
    ensures
        style.name().len() == name_len(style),
        style.name()[0] == name_letter(style, 0),
        style.name()[1] == name_letter(style, 1),
        name_len(style) > 5 ==> style.name()[5] == name_letter(style, 5),
{
    reveal_strlit("Snake");
    reveal_strlit("Constant");
    reveal_strlit("UpperSnake");
    reveal_strlit("Ada");
    reveal_strlit("Kebab");
    reveal_strlit("Cobol");
    reveal_strlit("UpperKebab");
    reveal_strlit("Train");
    reveal_strlit("Flat");
    reveal_strlit("UpperFlat");
    reveal_strlit("Pascal");
    reveal_strlit("UpperCamel");
    reveal_strlit("Camel");
    reveal_strlit("Lower");
    reveal_strlit("Upper");
    reveal_strlit("Title");
    reveal_strlit("Sentence");
    reveal_strlit("Alternating");
    reveal_strlit("Toggle");
    reveal_strlit("None");
}

spec fn name_len(style: CaseType) -> nat {
    match style {
        CaseType::Ada => 3,
        CaseType::Flat | CaseType::Noop => 4,
        CaseType::Snake | CaseType::Kebab | CaseType::Cobol | CaseType::Train | CaseType::Camel
        | CaseType::Lower | CaseType::Upper | CaseType::Title => 5,
        CaseType::Pascal | CaseType::Toggle => 6,
        CaseType::Constant | CaseType::Sentence => 8,
        CaseType::UpperFlat => 9,
        CaseType::UpperSnake | CaseType::UpperKebab | CaseType::UpperCamel => 10,
        CaseType::Alternating => 11,
    }
}

spec fn name_letter(style: CaseType, at: int) -> char {
    match style {
        CaseType::Snake => if at == 0 { 'S' } else { 'n' },
        CaseType::Constant => if at == 0 { 'C' } else if at == 1 { 'o' } else { 'a' },
        CaseType::UpperSnake => if at == 0 { 'U' } else if at == 1 { 'p' } else { 'S' },
        CaseType::Ada => if at == 0 { 'A' } else { 'd' },
        CaseType::Kebab => if at == 0 { 'K' } else { 'e' },
        CaseType::Cobol => if at == 0 { 'C' } else { 'o' },
        CaseType::UpperKebab => if at == 0 { 'U' } else if at == 1 { 'p' } else { 'K' },
        CaseType::Train => if at == 0 { 'T' } else { 'r' },
        CaseType::Flat => if at == 0 { 'F' } else { 'l' },
        CaseType::UpperFlat => if at == 0 { 'U' } else if at == 1 { 'p' } else { 'F' },
        CaseType::Pascal => if at == 0 { 'P' } else if at == 1 { 'a' } else { 'l' },
        CaseType::UpperCamel => if at == 0 { 'U' } else if at == 1 { 'p' } else { 'C' },
        CaseType::Camel => if at == 0 { 'C' } else { 'a' },
        CaseType::Lower => if at == 0 { 'L' } else { 'o' },
        CaseType::Upper => if at == 0 { 'U' } else { 'p' },
        CaseType::Title => if at == 0 { 'T' } else { 'i' },
        CaseType::Sentence => if at == 0 { 'S' } else if at == 1 { 'e' } else { 'n' },
        CaseType::Alternating => if at == 0 { 'A' } else if at == 1 { 'l' } else { 'n' },
        CaseType::Toggle => if at == 0 { 'T' } else if at == 1 { 'o' } else { 'e' },
        CaseType::Noop => if at == 0 { 'N' } else { 'o' },
    }
}

} // verus!
