use android_xdl::case::RenameRule;

#[test]
fn pascal_case_joins_capitalised_segments() {
    assert_eq!(RenameRule::PascalCase.apply_to_field("get_user_name"), "GetUserName");
}

#[test]
fn camel_case_lowers_the_first_character_only() {
    assert_eq!(RenameRule::CamelCase.apply_to_field("get_user_name"), "getUserName");
}

#[test]
fn screaming_snake_case_keeps_the_underscores() {
    assert_eq!(RenameRule::ScreamingSnakeCase.apply_to_field("get_user_name"), "GET_USER_NAME");
}

#[test]
fn lower_case_lowers_every_character() {
    assert_eq!(RenameRule::LowerCase.apply_to_field("GetUser"), "getuser");
}

#[test]
fn upper_case_raises_every_character() {
    assert_eq!(RenameRule::UpperCase.apply_to_field("get_User9"), "GET_USER9");
}

#[test]
fn unset_and_snake_case_keep_the_name() {
    assert_eq!(RenameRule::Unset.apply_to_field("get_user_Name"), "get_user_Name");
    assert_eq!(RenameRule::SnakeCase.apply_to_field("get_user_Name"), "get_user_Name");
}

#[test]
fn pascal_case_keeps_the_rest_of_a_segment() {
    assert_eq!(RenameRule::PascalCase.apply_to_field("getUSER_nAME"), "GetUSERNAME");
    assert_eq!(RenameRule::PascalCase.apply_to_field("__a__b_"), "AB");
    assert_eq!(RenameRule::PascalCase.apply_to_field(""), "");
}

#[test]
fn camel_case_of_nothing_is_nothing() {
    assert_eq!(RenameRule::CamelCase.apply_to_field(""), "");
    assert_eq!(RenameRule::CamelCase.apply_to_field("___"), "");
    assert_eq!(RenameRule::CamelCase.apply_to_field("x"), "x");
}

#[test]
fn case_rules_leave_other_alphabets_alone() {
    assert_eq!(RenameRule::UpperCase.apply_to_field("é_a"), "é_A");
    assert_eq!(RenameRule::LowerCase.apply_to_field("É_A"), "É_a");
    assert_eq!(RenameRule::CamelCase.apply_to_field("É_a"), "ÉA");
    assert_eq!(RenameRule::PascalCase.apply_to_field("é_a"), "éA");
}

#[test]
fn from_str_reads_the_six_names() {
    assert!(matches!(RenameRule::from_str("lowercase"), Ok(RenameRule::LowerCase)));
    assert!(matches!(RenameRule::from_str("UPPERCASE"), Ok(RenameRule::UpperCase)));
    assert!(matches!(RenameRule::from_str("PascalCase"), Ok(RenameRule::PascalCase)));
    assert!(matches!(RenameRule::from_str("camelCase"), Ok(RenameRule::CamelCase)));
    assert!(matches!(RenameRule::from_str("snake_case"), Ok(RenameRule::SnakeCase)));
    assert!(matches!(
        RenameRule::from_str("SCREAMING_SNAKE_CASE"),
        Ok(RenameRule::ScreamingSnakeCase)
    ));
}

#[test]
fn from_str_refuses_any_other_name() {
    match RenameRule::from_str("kebab-case") {
        Ok(_) => panic!("kebab-case is no rule"),
        Err(e) => {
            assert_eq!(e.unknown(), "kebab-case");
            assert_eq!(
                e.message(),
                "unknown rename rule `rename = \"kebab-case\"`, expected one of \"lowercase\", \"UPPERCASE\", \"PascalCase\", \"camelCase\", \"snake_case\", \"SCREAMING_SNAKE_CASE\""
            );
        }
    }
    assert!(RenameRule::from_str("").is_err());
    assert!(RenameRule::from_str("Lowercase").is_err());
}

#[test]
fn unknown_rule_message_escapes_the_name() {
    match RenameRule::from_str("a\"b") {
        Ok(_) => panic!("not a rule"),
        Err(e) => assert!(e.message().starts_with("unknown rename rule `rename = \"a\\\"b\"`")),
    }
}

#[test]
fn or_prefers_the_first_rule_unless_unset() {
    assert_eq!(RenameRule::Unset.or(RenameRule::PascalCase), RenameRule::PascalCase);
    assert_eq!(RenameRule::CamelCase.or(RenameRule::PascalCase), RenameRule::CamelCase);
    assert_eq!(RenameRule::SnakeCase.or(RenameRule::PascalCase), RenameRule::SnakeCase);
    assert_eq!(RenameRule::Unset.or(RenameRule::Unset), RenameRule::Unset);
    assert_eq!(RenameRule::default(), RenameRule::Unset);
}
