//! A conductor that runs inside the app.
//!
//! Where the path to the keystore's socket is too long for the system, the conductor is built a
//! second time, over a link with a short path.

use vstd::prelude::*;
use vstd::string::*;
use vstd::utf8::{
    decode_utf8, encode_utf8, encode_utf8_decode_utf8, encode_utf8_valid_utf8, valid_utf8,
};

use crate::errors::AppError;
use crate::text::{contains, contains_text, text_contains_what_it_is_made_of};

verus! {

/// What an error says when the path to the keystore's socket is too long for the system.
pub const SOCKET_PATH_TOO_LONG: &'static str = "path must be shorter than libc::sockaddr_un.sun_path";

/// What a second attempt is made with. `D` is the type of directories, `G` that of configurations,
/// `T` that of texts.
pub struct Given<D, G, T> {
    /// The directory of the keystore.
    pub keystore_dir: D,
    /// The configuration of the conductor.
    pub config: G,
    /// The password of the keystore.
    pub password: T,
}

/// A step of building a conductor. `C` is the type of conductors, `L` that of passphrases in
/// locked memory, `E` that of the errors of other components.
pub enum BuildStep<C, D, G, L, T, E> {
    /// Build the conductor with the builder at hand.
    Build { given: Given<D, G, T> },
    /// Put a link to the keystore's directory where its path is short.
    LinkLair { given: Given<D, G, T> },
    /// Put the bytes of the password into locked memory.
    LockPassword { given: Given<D, G, T> },
    /// Build the conductor once more, with a builder made of this configuration and this
    /// passphrase.
    Rebuild { config: G, passphrase: Option<L> },
    /// The conductor.
    Built { conductor: C },
    /// There is no conductor.
    Failed { error: AppError<T, E> },
}

/// The outcome of a step.
pub enum BuildEvent<C, L, T, E> {
    /// The conductor.
    Built(C),
    /// The conductor could not be built: the error, and how it shows itself in a message.
    BuildFailed { error: E, text: T },
    /// The step is done.
    Done,
    /// The locked memory that holds the bytes.
    Locked(L),
    /// The step failed.
    Failed(E),
}

impl<D, G> View for Given<D, G, String> {
    type V = Given<D, G, Seq<char>>;

    open spec fn view(&self) -> Self::V {
        Given { keystore_dir: self.keystore_dir, config: self.config, password: self.password@ }
    }
}

impl<C, D, G, L, E> View for BuildStep<C, D, G, L, String, E> {
    type V = BuildStep<C, D, G, L, Seq<char>, E>;

    open spec fn view(&self) -> Self::V {
        match *self {
            BuildStep::Build { given } => BuildStep::Build { given: given@ },
            BuildStep::LinkLair { given } => BuildStep::LinkLair { given: given@ },
            BuildStep::LockPassword { given } => BuildStep::LockPassword { given: given@ },
            BuildStep::Rebuild { config, passphrase } => BuildStep::Rebuild { config, passphrase },
            BuildStep::Built { conductor } => BuildStep::Built { conductor },
            BuildStep::Failed { error } => BuildStep::Failed { error: error@ },
        }
    }
}

impl<C, L, E> View for BuildEvent<C, L, String, E> {
    type V = BuildEvent<C, L, Seq<char>, E>;

    open spec fn view(&self) -> Self::V {
        match *self {
            BuildEvent::Built(conductor) => BuildEvent::Built(conductor),
            BuildEvent::BuildFailed { error, text } => {
                BuildEvent::BuildFailed { error, text: text@ }
            },
            BuildEvent::Done => BuildEvent::Done,
            BuildEvent::Locked(passphrase) => BuildEvent::Locked(passphrase),
            BuildEvent::Failed(error) => BuildEvent::Failed(error),
        }
    }
}

/// An error that a shorter path to the keystore can mend.
pub open spec fn is_path_too_long(text: Seq<char>, unix_family: bool) -> bool {
    unix_family && contains_text(text, SOCKET_PATH_TOO_LONG@)
}

/// The view of optional bytes.
pub open spec fn optional_bytes(bytes: Option<Vec<u8>>) -> Option<Seq<u8>> {
    match bytes {
        Some(bytes) => Some(bytes@),
        None => None,
    }
}

impl<C, D, G, L, E> BuildStep<C, D, G, L, Seq<char>, E> {
    /// A conductor that nothing was done for yet.
    pub open spec fn initial(given: Given<D, G, Seq<char>>) -> Self {
        BuildStep::Build { given }
    }

    /// The bytes that this step puts into locked memory: the password's, in UTF-8.
    pub open spec fn locked_bytes(self) -> Option<Seq<u8>> {
        match self {
            BuildStep::LockPassword { given } => Some(encode_utf8(given.password)),
            _ => None,
        }
    }

    /// The step that follows this one on an outcome. An outcome that this step cannot have
    /// changes nothing.
    pub open spec fn next(self, event: BuildEvent<C, L, Seq<char>, E>, unix_family: bool) -> Self {
        match (self, event) {
            (BuildStep::Build { .. }, BuildEvent::Built(conductor)) => {
                BuildStep::Built { conductor }
            },
            (BuildStep::Build { given }, BuildEvent::BuildFailed { error, text }) => {
                if is_path_too_long(text, unix_family) {
                    BuildStep::LinkLair { given }
                } else {
                    BuildStep::Failed { error: AppError::ConductorError(error) }
                }
            },
            (BuildStep::LinkLair { given }, BuildEvent::Done) => BuildStep::LockPassword { given },
            (BuildStep::LinkLair { .. }, BuildEvent::Failed(error)) => {
                BuildStep::Failed { error: AppError::Passed(error) }
            },
            (BuildStep::LockPassword { given }, BuildEvent::Locked(passphrase)) => {
                BuildStep::Rebuild { config: given.config, passphrase: Some(passphrase) }
            },
            (BuildStep::LockPassword { .. }, BuildEvent::Failed(error)) => {
                BuildStep::Failed { error: AppError::IoError(error) }
            },
            (BuildStep::Rebuild { .. }, BuildEvent::Built(conductor)) => {
                BuildStep::Built { conductor }
            },
            (BuildStep::Rebuild { .. }, BuildEvent::BuildFailed { error, .. }) => {
                BuildStep::Failed { error: AppError::ConductorError(error) }
            },
            _ => self,
        }
    }
}

impl<C, D, G, L, E> BuildStep<C, D, G, L, String, E> {
    /// Begins to build a conductor. The directory of the keystore, the configuration and the
    /// password are for a second attempt.
    pub fn start(keystore_dir: D, config: G, password: String) -> (step: Self)
        ensures
            step@ == BuildStep::<C, D, G, L, Seq<char>, E>::initial(
                (Given { keystore_dir, config, password: password@ }),
            ),
    {
        BuildStep::Build { given: Given { keystore_dir, config, password } }
    }

    /// The bytes that this step puts into locked memory.
    pub fn bytes_to_lock(&self) -> (bytes: Option<Vec<u8>>)
        ensures
            optional_bytes(bytes) == self@.locked_bytes(),
    {
        match self {
            BuildStep::LockPassword { given } => Some(given.password.as_str().as_bytes_vec()),
            _ => None,
        }
    }
}

/// Takes the building of a conductor on by one outcome. A path to the keystore that is too long
/// is made short, once; any other error is final.
pub fn try_build_conductor<C, D, G, L, E>(
    step: BuildStep<C, D, G, L, String, E>,
    event: BuildEvent<C, L, String, E>,
    unix_family: bool,
) -> (after: BuildStep<C, D, G, L, String, E>)
    ensures
        after@ == step@.next(event@, unix_family),
{
    match (step, event) {
        (BuildStep::Build { .. }, BuildEvent::Built(conductor)) => BuildStep::Built { conductor },
        (BuildStep::Build { given }, BuildEvent::BuildFailed { error, text }) => {
            if unix_family && contains(text.as_str(), SOCKET_PATH_TOO_LONG) {
                BuildStep::LinkLair { given }
            } else {
                BuildStep::Failed { error: AppError::ConductorError(error) }
            }
        },
        (BuildStep::LinkLair { given }, BuildEvent::Done) => BuildStep::LockPassword { given },
        (BuildStep::LinkLair { .. }, BuildEvent::Failed(error)) => {
            BuildStep::Failed { error: AppError::Passed(error) }
        },
        (BuildStep::LockPassword { given }, BuildEvent::Locked(passphrase)) => {
            BuildStep::Rebuild { config: given.config, passphrase: Some(passphrase) }
        },
        (BuildStep::LockPassword { .. }, BuildEvent::Failed(error)) => {
            BuildStep::Failed { error: AppError::IoError(error) }
        },
        (BuildStep::Rebuild { .. }, BuildEvent::Built(conductor)) => BuildStep::Built { conductor },
        (BuildStep::Rebuild { .. }, BuildEvent::BuildFailed { error, .. }) => {
            BuildStep::Failed { error: AppError::ConductorError(error) }
        },
        (step, _) => step,
    }
}

impl<C, D, G, L, E> BuildStep<C, D, G, L, Seq<char>, E> {
    /// The step after a row of outcomes.
    pub open spec fn run(
        self,
        events: Seq<BuildEvent<C, L, Seq<char>, E>>,
        unix_family: bool,
    ) -> Self
        decreases events.len(),
    {
        if events.len() == 0 {
            self
        } else {
            self.run(events.drop_last(), unix_family).next(events.last(), unix_family)
        }
    }

    /// At some point of a row of outcomes, locking the password gave this passphrase.
    pub open spec fn locked(
        self,
        events: Seq<BuildEvent<C, L, Seq<char>, E>>,
        unix_family: bool,
        passphrase: L,
    ) -> bool
        decreases events.len(),
    {
        events.len() > 0 && {
            ||| self.locked(events.drop_last(), unix_family, passphrase)
            ||| self.run(events.drop_last(), unix_family) is LockPassword && events.last()
                == BuildEvent::<C, L, Seq<char>, E>::Locked(passphrase)
        }
    }

    /// This step works with what was given.
    pub open spec fn works_with(self, asked: Given<D, G, Seq<char>>) -> bool {
        match self {
            BuildStep::Build { given }
            | BuildStep::LinkLair { given }
            | BuildStep::LockPassword { given } => given == asked,
            BuildStep::Rebuild { config, .. } => config == asked.config,
            BuildStep::Built { .. } | BuildStep::Failed { .. } => true,
        }
    }
}

/// A conductor is built over a link only on a system of the Unix family.
pub proof fn only_unix_links_the_keystore<C, D, G, L, E>(
    given: Given<D, G, Seq<char>>,
    events: Seq<BuildEvent<C, L, Seq<char>, E>>,
)
    ensures
        !(BuildStep::<C, D, G, L, Seq<char>, E>::initial(given).run(events, false) is LinkLair),
        !(BuildStep::<C, D, G, L, Seq<char>, E>::initial(given).run(events, false) is LockPassword),
        !(BuildStep::<C, D, G, L, Seq<char>, E>::initial(given).run(events, false) is Rebuild),
    decreases events.len(),
{
    if events.len() > 0 {
        only_unix_links_the_keystore(given, events.drop_last());
    }
}

/// Whatever happens, the link is put to the keystore's directory that was given, the password
/// that was given is locked, and a second conductor is built with the configuration that was
/// given and with the passphrase that locking that password gave.
pub proof fn building_keeps_what_was_given<C, D, G, L, E>(
    given: Given<D, G, Seq<char>>,
    events: Seq<BuildEvent<C, L, Seq<char>, E>>,
    unix_family: bool,
)
    ensures
        BuildStep::<C, D, G, L, Seq<char>, E>::initial(given).run(events, unix_family).works_with(
            given,
        ),
        BuildStep::<C, D, G, L, Seq<char>, E>::initial(given).run(
            events,
            unix_family,
        ) matches BuildStep::Rebuild { passphrase, .. } ==> (passphrase matches Some(locked)
            && BuildStep::<C, D, G, L, Seq<char>, E>::initial(given).locked(
            events,
            unix_family,
            locked,
        )),
    decreases events.len(),
{
    if events.len() > 0 {
        building_keeps_what_was_given::<C, D, G, L, E>(given, events.drop_last(), unix_family);
    }
}

/// A path that is too long is mended in three steps: the keystore's directory is linked, the
/// password's bytes are locked, and the conductor is built again with the configuration and with
/// what came of the locking.
pub proof fn long_path_is_mended<C, D, G, L, E>(
    given: Given<D, G, Seq<char>>,
    error: E,
    text: Seq<char>,
    passphrase: L,
    unix_family: bool,
)
    requires
        is_path_too_long(text, unix_family),
    ensures
        ({
            let failed = BuildEvent::<C, L, Seq<char>, E>::BuildFailed { error, text };
            let link = BuildStep::<C, D, G, L, Seq<char>, E>::initial(given).next(
                failed,
                unix_family,
            );
            let lock = link.next(BuildEvent::Done, unix_family);
            let again = lock.next(BuildEvent::Locked(passphrase), unix_family);
            &&& link == BuildStep::<C, D, G, L, Seq<char>, E>::LinkLair { given }
            &&& lock.locked_bytes() == Some(encode_utf8(given.password))
            &&& again == BuildStep::<C, D, G, L, Seq<char>, E>::Rebuild {
                config: given.config,
                passphrase: Some(passphrase),
            }
        }),
{
}

/// The second attempt is the last one: a conductor that fails twice is not built.
pub proof fn second_failure_is_final<C, D, G, L, E>(
    config: G,
    passphrase: Option<L>,
    error: E,
    text: Seq<char>,
    unix_family: bool,
)
    ensures
        (BuildStep::<C, D, G, L, Seq<char>, E>::Rebuild { config, passphrase }).next(
            (BuildEvent::BuildFailed { error, text }),
            unix_family,
        ) == (BuildStep::<C, D, G, L, Seq<char>, E>::Failed {
            error: AppError::ConductorError(error),
        }),
{
}

/// A conductor is built over a link exactly if it could not be built for the length of a path, on
/// a system of the Unix family; the keystore's directory, the configuration and the password that
/// were given go along.
pub proof fn only_long_paths_are_linked<C, D, G, L, E>(
    step: BuildStep<C, D, G, L, Seq<char>, E>,
    event: BuildEvent<C, L, Seq<char>, E>,
    unix_family: bool,
    given: Given<D, G, Seq<char>>,
)
    ensures
        ({
            let after = step.next(event, unix_family);
            after != step && after == (BuildStep::<C, D, G, L, Seq<char>, E>::LinkLair { given }) <==> {
                &&& unix_family
                &&& step == (BuildStep::<C, D, G, L, Seq<char>, E>::Build { given })
                &&& event matches BuildEvent::BuildFailed { text, .. } && exists|
                    before: Seq<char>,
                    rest: Seq<char>,
                |
                    text == #[trigger] (before
                        + "path must be shorter than libc::sockaddr_un.sun_path"@ + rest)
            }
        }),
{
    if event is BuildFailed {
        text_contains_what_it_is_made_of(event->text, SOCKET_PATH_TOO_LONG@);
    }
}

/// The link comes before the password is locked, and that before the second attempt, which is
/// made of the configuration that was given and of what locking the password gave.
pub proof fn second_attempt_comes_in_order<C, D, G, L, E>(
    step: BuildStep<C, D, G, L, Seq<char>, E>,
    event: BuildEvent<C, L, Seq<char>, E>,
    unix_family: bool,
    given: Given<D, G, Seq<char>>,
    config: G,
    passphrase: Option<L>,
)
    ensures
        ({
            let after = step.next(event, unix_family);
            &&& after != step && after == (BuildStep::<C, D, G, L, Seq<char>, E>::LockPassword {
                given,
            }) <==> step == (BuildStep::<C, D, G, L, Seq<char>, E>::LinkLair { given }) && event
                is Done
            &&& after != step && after == (BuildStep::<C, D, G, L, Seq<char>, E>::Rebuild {
                config,
                passphrase,
            }) <==> (step matches BuildStep::LockPassword { given } && given.config == config) && (
            event matches BuildEvent::Locked(locked) && passphrase == Some(locked))
            &&& after is Build ==> after == step
        }),
{
}

/// A conductor that was built, at the first or at the second attempt, is the one that is handed
/// out; there is no other way to one.
pub proof fn built_conductor_is_handed_out<C, D, G, L, E>(
    step: BuildStep<C, D, G, L, Seq<char>, E>,
    event: BuildEvent<C, L, Seq<char>, E>,
    unix_family: bool,
    conductor: C,
)
    ensures
        ({
            let after = step.next(event, unix_family);
            after != step && after == (BuildStep::<C, D, G, L, Seq<char>, E>::Built { conductor }) <==> (step
                is Build || step is Rebuild) && event == BuildEvent::<C, L, Seq<char>, E>::Built(
                conductor,
            )
        }),
{
}

/// Each failure is reported as its own kind, with the error that came: of the link as it is, of
/// locking as one of the system, of building as one of the conductor. A first attempt fails for
/// good on anything but a path that can be made short.
pub proof fn building_errors_keep_their_kind<C, D, G, L, E>(
    step: BuildStep<C, D, G, L, Seq<char>, E>,
    event: BuildEvent<C, L, Seq<char>, E>,
    unix_family: bool,
    error: AppError<Seq<char>, E>,
)
    ensures
        ({
            let after = step.next(event, unix_family);
            after != step && after == (BuildStep::<C, D, G, L, Seq<char>, E>::Failed { error }) <==> {
                ||| step is LinkLair && (event matches BuildEvent::Failed(cause) && error
                    == AppError::<Seq<char>, E>::Passed(cause))
                ||| step is LockPassword && (event matches BuildEvent::Failed(cause) && error
                    == AppError::<Seq<char>, E>::IoError(cause))
                ||| step is Rebuild && (event matches BuildEvent::BuildFailed { error: cause, .. }
                    && error == AppError::<Seq<char>, E>::ConductorError(cause))
                ||| step is Build && (event matches BuildEvent::BuildFailed { error: cause, text }
                    && error == AppError::<Seq<char>, E>::ConductorError(cause) && !(unix_family
                    && exists|before: Seq<char>, rest: Seq<char>|
                    text == #[trigger] (before
                        + "path must be shorter than libc::sockaddr_un.sun_path"@ + rest)))
            }
        }),
{
    if event is BuildFailed {
        text_contains_what_it_is_made_of(event->text, SOCKET_PATH_TOO_LONG@);
    }
}

/// What is locked is the password, and nothing but the password: bytes that read as it does.
pub proof fn locked_bytes_read_as_the_password<C, D, G, L, E>(
    step: BuildStep<C, D, G, L, Seq<char>, E>,
)
    ensures
        step.locked_bytes() is Some <==> step is LockPassword,
        step matches BuildStep::LockPassword { given } ==> valid_utf8(step.locked_bytes()->Some_0)
            && decode_utf8(step.locked_bytes()->Some_0) == given.password,
{
    broadcast use {encode_utf8_valid_utf8, encode_utf8_decode_utf8};

}

/// The building of a conductor begins with the first attempt, and keeps the directory, the
/// configuration and the password that it is given.
pub proof fn building_begins_with_what_is_given<C, D, G, L, E>(
    keystore_dir: D,
    config: G,
    password: String,
    step: BuildStep<C, D, G, L, String, E>,
)
    requires
        call_ensures(
            BuildStep::<C, D, G, L, String, E>::start,
            (keystore_dir, config, password),
            step,
        ),
    ensures
        step matches BuildStep::Build { given } && given.keystore_dir == keystore_dir
            && given.config == config && given.password@ == password@,
{
}

} // verus!
