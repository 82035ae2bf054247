//! The profile that the app runs with.

use vstd::prelude::*;

use crate::text::{contains_char, same_text};

verus! {

/// The profile whose file system holds the name of the active profile.
pub const DEFAULT_PROFILE: &'static str = "default";

/// The option of the command line that names a profile.
pub const PROFILE_OPTION: &'static str = "profile";

/// A value on the command line. `T` is the type of texts.
pub enum CliValue<T> {
    /// A text.
    Text(T),
    /// Anything else.
    Other,
}

/// Why a text is not allowed as the name of a profile.
#[derive(Clone, Copy, Debug, PartialEq, Eq, Structural)]
pub enum ProfileNameError {
    /// It is the name of the default profile.
    Reserved,
    /// It has a symbol in it that has a meaning in paths or in addresses of sockets.
    PathSymbol,
}

/// The profile that the command line asks for.
pub enum CliProfile<T> {
    /// None.
    Unset,
    /// A profile.
    Named(T),
    /// One with a name that is not allowed.
    Rejected(ProfileNameError),
}

/// How the app gets at its profile.
pub enum ProfileChoice<T> {
    /// It is this one.
    Use(T),
    /// It is the active profile that the file system of this profile tells.
    AskActive { of: T },
    /// The app ends with this message.
    Abort { message: T },
}

impl View for CliValue<String> {
    type V = CliValue<Seq<char>>;

    open spec fn view(&self) -> Self::V {
        match *self {
            CliValue::Text(text) => CliValue::Text(text@),
            CliValue::Other => CliValue::Other,
        }
    }
}

impl View for CliProfile<String> {
    type V = CliProfile<Seq<char>>;

    open spec fn view(&self) -> Self::V {
        match *self {
            CliProfile::Unset => CliProfile::Unset,
            CliProfile::Named(profile) => CliProfile::Named(profile@),
            CliProfile::Rejected(error) => CliProfile::Rejected(error),
        }
    }
}

impl View for ProfileChoice<String> {
    type V = ProfileChoice<Seq<char>>;

    open spec fn view(&self) -> Self::V {
        match *self {
            ProfileChoice::Use(profile) => ProfileChoice::Use(profile@),
            ProfileChoice::AskActive { of } => ProfileChoice::AskActive { of: of@ },
            ProfileChoice::Abort { message } => ProfileChoice::Abort { message: message@ },
        }
    }
}

/// The view of an optional value on the command line.
pub open spec fn optional_value(value: Option<CliValue<String>>) -> Option<CliValue<Seq<char>>> {
    match value {
        Some(value) => Some(value@),
        None => None,
    }
}

/// Symbols with a meaning in paths or in addresses of sockets.
pub open spec fn has_path_symbol(name: Seq<char>) -> bool {
    name.contains('/') || name.contains('\\') || name.contains('?')
}

/// What is wrong with the name of a profile, if anything.
pub open spec fn name_error(name: Seq<char>) -> Option<ProfileNameError> {
    if name == DEFAULT_PROFILE@ {
        Some(ProfileNameError::Reserved)
    } else if has_path_symbol(name) {
        Some(ProfileNameError::PathSymbol)
    } else {
        None
    }
}

impl ProfileNameError {
    /// What the user is told.
    pub open spec fn text(self) -> Seq<char> {
        match self {
            ProfileNameError::Reserved => {
                "Error: The name 'default' is not allowed for a profile."@
            },
            ProfileNameError::PathSymbol => {
                "Error: \"/\", \"\\\" and \"?\" are not allowed in profile names."@
            },
        }
    }

    /// What the user is told.
    pub fn message(self) -> (message: String)
        ensures
            message@ == self.text(),
    {
        match self {
            ProfileNameError::Reserved => {
                "Error: The name 'default' is not allowed for a profile.".to_string()
            },
            ProfileNameError::PathSymbol => {
                "Error: \"/\", \"\\\" and \"?\" are not allowed in profile names.".to_string()
            },
        }
    }
}

/// Looks for what is wrong with the name of a profile.
pub fn check_profile_name(name: &str) -> (error: Option<ProfileNameError>)
    ensures
        error == name_error(name@),
{
    if same_text(name, DEFAULT_PROFILE) {
        Some(ProfileNameError::Reserved)
    } else if contains_char(name, '/') || contains_char(name, '\\') || contains_char(name, '?') {
        Some(ProfileNameError::PathSymbol)
    } else {
        None
    }
}

impl CliProfile<Seq<char>> {
    /// The profile that the value of the option asks for. A value that is no text asks for none.
    pub open spec fn of_value(value: Option<CliValue<Seq<char>>>) -> Self {
        match value {
            Some(CliValue::Text(name)) => {
                match name_error(name) {
                    Some(error) => CliProfile::Rejected(error),
                    None => CliProfile::Named(name),
                }
            },
            _ => CliProfile::Unset,
        }
    }

    /// What the app does on it.
    pub open spec fn choice(self) -> ProfileChoice<Seq<char>> {
        match self {
            CliProfile::Unset => ProfileChoice::AskActive { of: DEFAULT_PROFILE@ },
            CliProfile::Named(profile) => ProfileChoice::Use(profile),
            CliProfile::Rejected(error) => ProfileChoice::Abort { message: error.text() },
        }
    }
}

/// Reads the profile from the value of `PROFILE_OPTION` on the command line.
pub fn read_profile_from_cli(value: Option<CliValue<String>>) -> (profile: CliProfile<String>)
    ensures
        profile@ == CliProfile::of_value(optional_value(value)),
{
    match value {
        Some(CliValue::Text(name)) => {
            match check_profile_name(name.as_str()) {
                Some(error) => CliProfile::Rejected(error),
                None => CliProfile::Named(name),
            }
        },
        _ => CliProfile::Unset,
    }
}

/// Says how the app gets at its profile: by the command line, or else by the file system.
pub fn choose_profile(profile: CliProfile<String>) -> (choice: ProfileChoice<String>)
    ensures
        choice@ == profile@.choice(),
{
    match profile {
        CliProfile::Unset => ProfileChoice::AskActive { of: DEFAULT_PROFILE.to_string() },
        CliProfile::Named(profile) => ProfileChoice::Use(profile),
        CliProfile::Rejected(error) => ProfileChoice::Abort { message: error.message() },
    }
}

/// A profile that is used because the command line asks for it is the one that was asked for, is
/// not the default one and can stand in a path.
pub proof fn used_profile_can_stand_in_a_path(
    value: Option<CliValue<Seq<char>>>,
    profile: Seq<char>,
)
    requires
        CliProfile::of_value(value).choice() == ProfileChoice::Use(profile),
    ensures
        value == Some(CliValue::Text(profile)),
        profile != DEFAULT_PROFILE@,
        !profile.contains('/'),
        !profile.contains('\\'),
        !profile.contains('?'),
{
}

/// The app ends over its profile exactly if the command line asks for a profile whose name is not
/// allowed.
pub proof fn app_ends_on_names_that_are_not_allowed(value: Option<CliValue<Seq<char>>>)
    ensures
        CliProfile::of_value(value).choice() is Abort <==> (value matches Some(
            CliValue::Text(name),
        ) && (name == DEFAULT_PROFILE@ || has_path_symbol(name))),
{
}

/// A name that can stand in a path and is not that of the default profile is used as it is.
pub proof fn allowed_profile_is_used(name: Seq<char>)
    requires
        name != "default"@,
        forall|i: int|
            0 <= i < name.len() ==> #[trigger] name[i] != '/' && name[i] != '\\' && name[i] != '?',
    ensures
        CliProfile::of_value(Some(CliValue::Text(name))) == CliProfile::Named(name),
        CliProfile::of_value(Some(CliValue::Text(name))).choice() == ProfileChoice::Use(name),
{
}

/// The name of the default profile ends the app, with a message that says so.
pub proof fn default_profile_is_turned_down(name: Seq<char>)
    ensures
        CliProfile::of_value(Some(CliValue::Text(name))).choice() == (ProfileChoice::Abort {
            message: "Error: The name 'default' is not allowed for a profile."@,
        }) <==> name == "default"@,
        CliProfile::of_value(Some(CliValue::Text(name))) == CliProfile::<Seq<char>>::Rejected(
            ProfileNameError::Reserved,
        ) <==> name == "default"@,
{
    messages_differ();
}

/// A symbol of paths or of addresses, wherever it stands in a name, ends the app, with a message
/// that names the symbols; a name without one does not get that message.
pub proof fn path_symbols_are_turned_down(name: Seq<char>)
    ensures
        CliProfile::of_value(Some(CliValue::Text(name))).choice() == (ProfileChoice::Abort {
            message: "Error: \"/\", \"\\\" and \"?\" are not allowed in profile names."@,
        }) <==> exists|i: int|
            0 <= i < name.len() && (#[trigger] name[i] == '/' || name[i] == '\\' || name[i] == '?'),
        CliProfile::of_value(Some(CliValue::Text(name))) == CliProfile::<Seq<char>>::Rejected(
            ProfileNameError::PathSymbol,
        ) <==> exists|i: int|
            0 <= i < name.len() && (#[trigger] name[i] == '/' || name[i] == '\\' || name[i] == '?'),
{
    messages_differ();
    default_has_no_path_symbol();
    if exists|i: int|
        0 <= i < name.len() && (#[trigger] name[i] == '/' || name[i] == '\\' || name[i] == '?') {
        assert(has_path_symbol(name));
    }
}

proof fn messages_differ()
    ensures
        "Error: The name 'default' is not allowed for a profile."@
            != "Error: \"/\", \"\\\" and \"?\" are not allowed in profile names."@,
{
    reveal_strlit("Error: The name 'default' is not allowed for a profile.");
    reveal_strlit("Error: \"/\", \"\\\" and \"?\" are not allowed in profile names.");
    assert("Error: The name 'default' is not allowed for a profile."@[7] == 'T');
    assert("Error: \"/\", \"\\\" and \"?\" are not allowed in profile names."@[7] == '"');
}

proof fn default_has_no_path_symbol()
    ensures
        forall|i: int|
            0 <= i < "default"@.len() ==> #[trigger] "default"@[i] != '/' && "default"@[i] != '\\'
                && "default"@[i] != '?',
{
    reveal_strlit("default");
}

/// The file system is asked for the active profile exactly if the command line gives no text, and
/// then it is the file system of the default profile.
pub proof fn active_profile_is_asked_for_without_a_name(value: Option<CliValue<Seq<char>>>)
    ensures
        CliProfile::of_value(value) is Unset <==> !(value matches Some(CliValue::Text(_))),
        CliProfile::of_value(value).choice() is AskActive <==> (value is None || value->Some_0
            is Other),
        CliProfile::of_value(value).choice() matches ProfileChoice::AskActive { of } ==> of
            == "default"@,
{
}

/// Each reading of the command line has its own way to a profile: a name is used, a name that is
/// not allowed is not, and without a name the default profile's file system is asked.
pub proof fn reading_decides_the_choice(profile: CliProfile<Seq<char>>, name: Seq<char>)
    ensures
        profile.choice() == ProfileChoice::Use(name) <==> profile == CliProfile::Named(name),
        profile.choice() is Abort <==> profile is Rejected,
        profile.choice() == (ProfileChoice::AskActive { of: "default"@ }) <==> profile is Unset,
{
}

/// Reading the command line and choosing by it, one after the other: a name comes out as the
/// profile to use exactly if it is allowed, and without a name the default profile's file system
/// is asked.
pub proof fn named_profile_is_chosen(
    value: Option<CliValue<String>>,
    profile: CliProfile<String>,
    choice: ProfileChoice<String>,
)
    requires
        call_ensures(read_profile_from_cli, (value,), profile),
        call_ensures(choose_profile, (profile,), choice),
    ensures
        value matches Some(CliValue::Text(name)) ==> (if name@ == "default"@ || name@.contains('/')
            || name@.contains('\\') || name@.contains('?') {
            choice is Abort
        } else {
            choice matches ProfileChoice::Use(used) && used@ == name@
        }),
        !(value matches Some(CliValue::Text(_))) ==> (choice matches ProfileChoice::AskActive { of }
            && of@ == "default"@),
{
}

} // verus!
