//! What can go wrong between the shell and the processes it starts.
//!
//! `T` is the type of texts: `String` in code, `Seq<char>` in contracts. `E` is an error of
//! another component, which is handed on as it came.

use vstd::prelude::*;

verus! {

/// Failures of the keystore.
pub enum LairKeystoreError<T> {
    /// The client of the keystore could not be started.
    SpawnMetaLairClientError(T),
}

/// Failures on the way to a running conductor.
pub enum LaunchHolochainError<T> {
    /// The conductor's binary is not to be found beside the app.
    SidecarBinaryCommandError(T),
    /// The conductor runs, but does not answer.
    CouldNotConnectToConductor(T),
}

/// Failures of the app.
pub enum AppError<T, E> {
    /// The failure of a step that is reported as that step reported it.
    Passed(E),
    /// A failure of the keystore.
    LairKeystoreError(LairKeystoreError<T>),
    /// A failure to launch the conductor.
    LaunchHolochainError(LaunchHolochainError<T>),
    /// The conductor refused a request.
    ConductorApiError(E),
    /// The bundle of the app cannot be read.
    AppBundleError(E),
    /// The conductor could not be built.
    ConductorError(E),
    /// A failure of the file system or of locked memory.
    IoError(E),
}

impl View for LairKeystoreError<String> {
    type V = LairKeystoreError<Seq<char>>;

    open spec fn view(&self) -> Self::V {
        match self {
            LairKeystoreError::SpawnMetaLairClientError(text) => {
                LairKeystoreError::SpawnMetaLairClientError(text@)
            },
        }
    }
}

impl View for LaunchHolochainError<String> {
    type V = LaunchHolochainError<Seq<char>>;

    open spec fn view(&self) -> Self::V {
        match self {
            LaunchHolochainError::SidecarBinaryCommandError(text) => {
                LaunchHolochainError::SidecarBinaryCommandError(text@)
            },
            LaunchHolochainError::CouldNotConnectToConductor(text) => {
                LaunchHolochainError::CouldNotConnectToConductor(text@)
            },
        }
    }
}

impl<E> View for AppError<String, E> {
    type V = AppError<Seq<char>, E>;

    open spec fn view(&self) -> Self::V {
        match self {
            AppError::Passed(error) => AppError::Passed(*error),
            AppError::LairKeystoreError(error) => AppError::LairKeystoreError(error@),
            AppError::LaunchHolochainError(error) => AppError::LaunchHolochainError(error@),
            AppError::ConductorApiError(error) => AppError::ConductorApiError(*error),
            AppError::AppBundleError(error) => AppError::AppBundleError(*error),
            AppError::ConductorError(error) => AppError::ConductorError(*error),
            AppError::IoError(error) => AppError::IoError(*error),
        }
    }
}

} // verus!
