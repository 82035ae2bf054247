use word_condenser::profile::{
    check_profile_name, choose_profile, read_profile_from_cli, CliProfile, CliValue, ProfileChoice,
    ProfileNameError, PROFILE_OPTION,
};

fn text(name: &str) -> Option<CliValue<String>> {
    Some(CliValue::Text(name.to_string()))
}

#[test]
fn profile_is_read() {
    match read_profile_from_cli(text("alice")) {
        CliProfile::Named(profile) => assert_eq!(profile, "alice"),
        _ => panic!("the profile is lost"),
    }
    match read_profile_from_cli(text("Default")) {
        CliProfile::Named(profile) => assert_eq!(profile, "Default"),
        _ => panic!("the profile is lost"),
    }
    match read_profile_from_cli(text("")) {
        CliProfile::Named(profile) => assert_eq!(profile, ""),
        _ => panic!("the profile is lost"),
    }
}

#[test]
fn no_profile_is_read() {
    assert!(matches!(read_profile_from_cli(None), CliProfile::Unset));
    assert!(matches!(read_profile_from_cli(Some(CliValue::Other)), CliProfile::Unset));
}

#[test]
fn names_are_checked() {
    assert_eq!(check_profile_name("bob"), None);
    assert_eq!(check_profile_name("default"), Some(ProfileNameError::Reserved));
    assert_eq!(check_profile_name("a/b"), Some(ProfileNameError::PathSymbol));
    assert_eq!(check_profile_name("a\\b"), Some(ProfileNameError::PathSymbol));
    assert_eq!(check_profile_name("what?"), Some(ProfileNameError::PathSymbol));
    assert_eq!(check_profile_name("/"), Some(ProfileNameError::PathSymbol));
}

#[test]
fn default_is_rejected_with_its_message() {
    let profile = read_profile_from_cli(text("default"));
    assert!(matches!(profile, CliProfile::Rejected(ProfileNameError::Reserved)));
    match choose_profile(profile) {
        ProfileChoice::Abort { message } => {
            assert_eq!(message, "Error: The name 'default' is not allowed for a profile.")
        }
        _ => panic!("the name is accepted"),
    }
}

#[test]
fn path_symbols_are_rejected_with_their_message() {
    for name in ["a/b", "a\\b", "a?b"] {
        match choose_profile(read_profile_from_cli(text(name))) {
            ProfileChoice::Abort { message } => assert_eq!(
                message,
                "Error: \"/\", \"\\\" and \"?\" are not allowed in profile names."
            ),
            _ => panic!("the name is accepted"),
        }
    }
}

#[test]
fn profile_is_chosen() {
    match choose_profile(read_profile_from_cli(text("alice"))) {
        ProfileChoice::Use(profile) => assert_eq!(profile, "alice"),
        _ => panic!("another profile is chosen"),
    }
    match choose_profile(read_profile_from_cli(None)) {
        ProfileChoice::AskActive { of } => assert_eq!(of, "default"),
        _ => panic!("another profile is chosen"),
    }
}

#[test]
fn profile_is_an_option_of_the_command_line() {
    assert_eq!(PROFILE_OPTION, "profile");
}
