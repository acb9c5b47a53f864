use convert_case::{Case, Casing};
use std::str::FromStr;
use viking_macros_enum::case_type::{CaseType, CaseTypeError};
use viking_macros_enum::render::render;

#[test]
fn all_cases_lists_twenty_styles_in_order() {
    let cases = CaseType::all_cases();
    assert_eq!(cases.len(), 20);
    assert_eq!(
        cases.to_vec(),
        vec![
            CaseType::Snake,
            CaseType::Constant,
            CaseType::UpperSnake,
            CaseType::Ada,
            CaseType::Kebab,
            CaseType::Cobol,
            CaseType::UpperKebab,
            CaseType::Train,
            CaseType::Flat,
            CaseType::UpperFlat,
            CaseType::Pascal,
            CaseType::UpperCamel,
            CaseType::Camel,
            CaseType::Lower,
            CaseType::Upper,
            CaseType::Title,
            CaseType::Sentence,
            CaseType::Alternating,
            CaseType::Toggle,
            CaseType::Noop,
        ]
    );
}

#[test]
fn all_cases_has_no_duplicates() {
    let cases = CaseType::all_cases();
    for i in 0..cases.len() {
        for j in 0..cases.len() {
            if i != j {
                assert_ne!(cases[i], cases[j]);
                assert_ne!(cases[i].as_str(), cases[j].as_str());
            }
        }
    }
}

#[test]
fn as_str_gives_canonical_names() {
    let names: Vec<&str> = CaseType::all_cases().iter().map(|c| c.as_str()).collect();
    assert_eq!(
        names,
        vec![
            "Snake",
            "Constant",
            "UpperSnake",
            "Ada",
            "Kebab",
            "Cobol",
            "UpperKebab",
            "Train",
            "Flat",
            "UpperFlat",
            "Pascal",
            "UpperCamel",
            "Camel",
            "Lower",
            "Upper",
            "Title",
            "Sentence",
            "Alternating",
            "Toggle",
            "None",
        ]
    );
}

#[test]
fn from_str_round_trips_every_style() {
    for style in CaseType::all_cases() {
        assert_eq!(CaseType::from_str(style.as_str()).unwrap(), style);
    }
}

#[test]
fn from_str_finds_the_sentinel_under_its_canonical_name() {
    assert_eq!(CaseType::from_str("None").unwrap(), CaseType::Noop);
    assert_eq!(CaseType::Noop.as_str(), "None");
}

#[test]
fn from_str_rejects_anything_else() {
    for text in ["", "snake", "SNAKE", "Snake ", " Snake", "Snak", "Snakes", "Noop", "none", "Custom", "Random", "Upper Snake", "Upper_Snake"] {
        match CaseType::from_str(text) {
            Err(CaseTypeError::NotACase(carried)) => assert_eq!(carried, text),
            other => panic!("{:?} for {:?}", other, text),
        }
    }
}

#[test]
fn as_ref_is_the_canonical_name() {
    let style = CaseType::UpperKebab;
    let text: &str = style.as_ref();
    assert_eq!(text, "UpperKebab");
}

#[test]
fn default_style_is_the_sentinel() {
    assert_eq!(CaseType::default(), CaseType::Noop);
}

#[test]
fn case_type_error_messages() {
    assert_eq!(
        CaseTypeError::NotACase("Shouty".to_string()).message(),
        "Not a valid case: Shouty"
    );
    assert_eq!(CaseTypeError::NotACase(String::new()).message(), "Not a valid case: ");
    assert_eq!(
        CaseTypeError::UnknownError.message(),
        "Unknown error: Your guess is as good as mine"
    );
}

#[test]
fn render_in_every_style() {
    let expected = [
        (CaseType::Snake, "my_variable_name"),
        (CaseType::Constant, "MY_VARIABLE_NAME"),
        (CaseType::UpperSnake, "MY_VARIABLE_NAME"),
        (CaseType::Ada, "My_Variable_Name"),
        (CaseType::Kebab, "my-variable-name"),
        (CaseType::Cobol, "MY-VARIABLE-NAME"),
        (CaseType::UpperKebab, "MY-VARIABLE-NAME"),
        (CaseType::Train, "My-Variable-Name"),
        (CaseType::Flat, "myvariablename"),
        (CaseType::UpperFlat, "MYVARIABLENAME"),
        (CaseType::Pascal, "MyVariableName"),
        (CaseType::UpperCamel, "MyVariableName"),
        (CaseType::Camel, "myVariableName"),
        (CaseType::Lower, "my variable name"),
        (CaseType::Upper, "MY VARIABLE NAME"),
        (CaseType::Title, "My Variable Name"),
        (CaseType::Sentence, "My variable name"),
        (CaseType::Alternating, "mY vArIaBlE nAmE"),
        (CaseType::Toggle, "mY vARIABLE nAME"),
        (CaseType::Noop, "MyVariableName"),
    ];
    for (style, rendered) in expected {
        assert_eq!(render("MyVariableName", style), rendered, "{:?}", style);
    }
}

#[test]
fn render_does_not_hand_the_name_back() {
    assert_eq!(render("YesNo", CaseType::Upper), "YES NO");
    assert_ne!(render("YesNo", CaseType::Upper), "YesNo");
    assert_eq!(render("NoYes", CaseType::Ada), "No_Yes");
}

#[test]
fn render_of_an_empty_name_is_empty() {
    for style in CaseType::all_cases() {
        assert_eq!(render("", style), "");
    }
}

#[test]
fn render_splits_on_digits_and_acronyms() {
    assert_eq!(render("HTTPRequest2Go", CaseType::Snake), "http_request_2_go");
    assert_eq!(render("XMLHttpRequest", CaseType::Kebab), "xml-http-request");
}

#[test]
fn render_agrees_with_the_case_of_the_same_name() {
    let pairs = [
        (CaseType::Snake, Case::Snake),
        (CaseType::Constant, Case::Constant),
        (CaseType::UpperSnake, Case::UpperSnake),
        (CaseType::Ada, Case::Ada),
        (CaseType::Kebab, Case::Kebab),
        (CaseType::Cobol, Case::Cobol),
        (CaseType::UpperKebab, Case::UpperKebab),
        (CaseType::Train, Case::Train),
        (CaseType::Flat, Case::Flat),
        (CaseType::UpperFlat, Case::UpperFlat),
        (CaseType::Pascal, Case::Pascal),
        (CaseType::UpperCamel, Case::UpperCamel),
        (CaseType::Camel, Case::Camel),
        (CaseType::Lower, Case::Lower),
        (CaseType::Upper, Case::Upper),
        (CaseType::Title, Case::Title),
        (CaseType::Sentence, Case::Sentence),
        (CaseType::Alternating, Case::Alternating),
        (CaseType::Toggle, Case::Toggle),
    ];
    for name in ["YesNo", "ToTALLyRandDOmCaSe", "With_Underscore", "kebab-case name", "X", ""] {
        for (style, case) in pairs {
            assert_eq!(render(name, style), name.to_case(case), "{:?} {:?}", name, style);
        }
    }
}

#[test]
fn render_under_the_sentinel_gives_the_name_back() {
    for name in ["YesNo", "ToTALLyRandDOmCaSe", "With_Underscore", "kebab-case name", "A_b", "X", "", "a1B2"] {
        assert_eq!(render(name, CaseType::Noop), name);
    }
}
