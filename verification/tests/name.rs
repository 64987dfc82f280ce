use corvopay::domain::value_objects::customer::name::Name;

const NAME_VALIDO: &str = "João Silva";

#[test]
fn should_create_name_with_valid_input() {
    let result = Name::new(NAME_VALIDO);
    assert!(result.is_ok());
}

#[test]
fn should_create_name_with_exactly_minimum_length() {
    let result = Name::new("Ana"); // 3 chars
    assert!(result.is_ok());
}

#[test]
fn should_create_name_with_exactly_maximum_length() {
    let name = "a".repeat(120);
    let result = Name::new(&name);
    assert!(result.is_ok());
}

#[test]
fn name_should_trim_whitespace_before_validating() {
    let result = Name::new("  João Silva  ");
    assert!(result.is_ok());
}

#[test]
fn should_preserve_trimmed_value_via_as_str() {
    let name = Name::new("  João Silva  ").unwrap();
    assert_eq!(name.as_str(), "João Silva");
}

#[test]
fn name_should_return_correct_value_via_as_str() {
    let name = Name::new(NAME_VALIDO).unwrap();
    assert_eq!(name.as_str(), NAME_VALIDO);
}

#[test]
fn should_fail_when_name_is_empty() {
    let result = Name::new("");
    assert!(result.is_err());
}

#[test]
fn should_fail_when_name_is_only_whitespace() {
    let result = Name::new("   ");
    assert!(result.is_err());
}

#[test]
fn should_fail_when_name_is_below_minimum_length() {
    let result = Name::new("Jo"); // 2 chars
    assert!(result.is_err());
}

#[test]
fn should_fail_when_name_exceeds_maximum_length() {
    let name = "a".repeat(121);
    let result = Name::new(&name);
    assert!(result.is_err());
}

#[test]
fn should_fail_when_name_has_two_chars_after_trim() {
    let result = Name::new("  Jo  "); // trim → "Jo" = 2 chars
    assert!(result.is_err());
}

#[test]
fn should_accept_name_with_exactly_three_chars_after_trim() {
    let result = Name::new("  Ana  "); // trim → "Ana" = 3 chars
    assert!(result.is_ok());
}

#[test]
fn should_accept_name_with_special_characters() {
    let result = Name::new("Ângela Conceição");
    assert!(result.is_ok());
}

#[test]
fn should_accept_name_with_hyphens() {
    let result = Name::new("Ana-Clara");
    assert!(result.is_ok());
}

#[test]
fn should_measure_length_after_trim_not_before() {
    // "  a  " tem 5 chars brutos mas 1 após trim → deve falhar
    let result = Name::new("  a  ");
    assert!(result.is_err());
}
