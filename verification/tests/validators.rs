use oobe::validate::{
    get_default_username, vaildation_fullname, validate_hostname, validate_username, Blocklist,
    FullnameError, HostnameError, UsernameError,
};

fn blocklist() -> Blocklist {
    Blocklist::new(vec![
        String::from("root"),
        String::from("daemon"),
        String::from("bin"),
        String::from("nobody"),
    ])
}

#[test]
fn hostname_accepts_ordinary_names() {
    assert_eq!(validate_hostname("aosc"), Ok(()));
    assert_eq!(validate_hostname("my-host.example.org"), Ok(()));
    assert_eq!(validate_hostname("A1.b2-c3"), Ok(()));
    assert_eq!(validate_hostname("x"), Ok(()));
}

#[test]
fn hostname_accepts_the_empty_string() {
    // The required-field check is a separate prompt concern; the validator
    // itself classifies the empty string as legal.
    assert_eq!(validate_hostname(""), Ok(()));
}

#[test]
fn hostname_rejects_leading_dash() {
    assert_eq!(validate_hostname("-abc"), Err(HostnameError::IllegalStart('-')));
}

#[test]
fn hostname_rejects_trailing_dash() {
    assert_eq!(validate_hostname("abc-"), Err(HostnameError::IllegalEnd('-')));
}

#[test]
fn hostname_rejects_leading_and_trailing_dot() {
    assert_eq!(validate_hostname(".abc"), Err(HostnameError::IllegalStart('.')));
    assert_eq!(validate_hostname("abc."), Err(HostnameError::IllegalEnd('.')));
}

#[test]
fn hostname_rejects_double_dot() {
    assert_eq!(validate_hostname("abc..def"), Err(HostnameError::DoubleDot));
}

#[test]
fn hostname_rejects_sixty_five_letters() {
    let long = "a".repeat(65);
    assert_eq!(validate_hostname(&long), Err(HostnameError::TooLong));
    let just_fits = "a".repeat(64);
    assert_eq!(validate_hostname(&just_fits), Ok(()));
}

#[test]
fn hostname_rejects_underscore() {
    assert_eq!(validate_hostname("abc_def"), Err(HostnameError::IllegalChar('_')));
}

#[test]
fn hostname_reports_first_illegal_character() {
    assert_eq!(validate_hostname("ab!c_d"), Err(HostnameError::IllegalChar('!')));
}

#[test]
fn hostname_double_dot_takes_precedence_over_illegal_char() {
    assert_eq!(validate_hostname("a_b..c"), Err(HostnameError::DoubleDot));
}

#[test]
fn username_accepts_lowercase_and_digits() {
    let bl = blocklist();
    assert_eq!(validate_username(&bl, "jane"), Ok(()));
    assert_eq!(validate_username(&bl, "jane2doe"), Ok(()));
    assert_eq!(validate_username(&bl, "j2"), Ok(()));
}

#[test]
fn username_rejects_leading_digit() {
    let bl = blocklist();
    assert_eq!(validate_username(&bl, "9user"), Err(UsernameError::StartsWithDigit));
}

#[test]
fn username_rejects_reserved_names() {
    let bl = blocklist();
    assert_eq!(validate_username(&bl, "root"), Err(UsernameError::ReservedName));
    assert_eq!(validate_username(&bl, "nobody"), Err(UsernameError::ReservedName));
}

#[test]
fn username_rejects_uppercase() {
    let bl = blocklist();
    assert_eq!(validate_username(&bl, "User"), Err(UsernameError::IllegalChar('U')));
}

#[test]
fn username_reports_first_illegal_character() {
    let bl = blocklist();
    assert_eq!(validate_username(&bl, "ja.n-e"), Err(UsernameError::IllegalChar('.')));
}

#[test]
fn blocklist_membership() {
    let bl = blocklist();
    assert!(bl.is_blocked("root"));
    assert!(!bl.is_blocked("jane"));
    assert!(!bl.is_blocked(""));
}

#[test]
fn fullname_rejects_colon() {
    assert_eq!(vaildation_fullname("John:Doe"), Err(FullnameError::ContainsColon));
}

#[test]
fn fullname_accepts_plain_names() {
    assert_eq!(vaildation_fullname("John Doe"), Ok(()));
    assert_eq!(vaildation_fullname(""), Ok(()));
}

#[test]
fn default_username_keeps_inner_digits() {
    assert_eq!(get_default_username("Jane2Doe"), "jane2doe");
}

#[test]
fn default_username_drops_leading_digits() {
    assert_eq!(get_default_username("123Jane"), "jane");
}

#[test]
fn default_username_drops_other_characters() {
    assert_eq!(get_default_username("Mary Anne"), "maryanne");
    assert_eq!(get_default_username("J. R. R. Tolkien"), "jrrtolkien");
    assert_eq!(get_default_username("!!"), "");
    assert_eq!(get_default_username(""), "");
}

#[test]
fn default_username_digits_kept_after_first_letter() {
    assert_eq!(get_default_username("12a34"), "a34");
}
