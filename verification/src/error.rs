//! The ways in which the download command fails.

use vstd::prelude::*;

verus! {

/// The configuration cannot be used to bootstrap a node.
#[derive(Clone, Copy, Debug, PartialEq, Eq)]
pub enum ConfigError {
    /// No trusted peer is known, yet only trusted peers may be connected to:
    /// such a node could never find a peer.
    NoTrustedPeers,
}

/// A response from a peer does not have the shape that the request calls for.
#[derive(Clone, Copy, Debug, PartialEq, Eq)]
pub enum ValidationError {
    /// `expected` entries were asked for and `actual` came back.
    CountMismatch { expected: usize, actual: usize },
}

/// The node could not be brought up. `E` is the caller's own error type.
#[derive(Debug, PartialEq, Eq)]
pub enum LaunchError<E> {
    /// The merged peer configuration was refused.
    Config(ConfigError),
    /// The node's secret key could not be loaded or stored.
    Identity(E),
    /// The network could not be started.
    Network(E),
}

/// The node does not serve the command.
#[derive(Debug, PartialEq, Eq)]
pub enum NetworkError<E> {
    /// The network could not be started.
    Bootstrap(E),
    /// The running node handed out no fetch client.
    ClientUnavailable(E),
}

/// A request kept failing until its retry budget was spent.
#[derive(Debug, PartialEq, Eq)]
pub enum FetchError<E> {
    /// Every execution that the budget allowed has failed, the last of them
    /// with this error.
    Exhausted(E),
}

/// Why the download command ended without a result.
#[derive(Debug, PartialEq, Eq)]
pub enum CommandError<E> {
    /// The peer configuration was refused before the node was brought up.
    Config(ConfigError),
    /// The node's secret key could not be loaded or stored.
    Identity(E),
    /// The node could not be brought up or handed out no fetch client.
    Network(NetworkError<E>),
    /// A request failed for good.
    Fetch(FetchError<E>),
    /// A peer answered with the wrong number of entries.
    Validation(ValidationError),
    /// The caller reported an event that the command was not waiting for.
    OutOfTurn,
}

impl<E> LaunchError<E> {
    /// The failure of the command that a failure of the launch amounts to.
    pub open spec fn spec_into_command_error(self) -> CommandError<E> {
        match self {
            LaunchError::Config(error) => CommandError::Config(error),
            LaunchError::Identity(error) => CommandError::Identity(error),
            LaunchError::Network(error) => CommandError::Network(NetworkError::Bootstrap(error)),
        }
    }

    /// The failure of the command that a failure of the launch amounts to.
    #[verifier::when_used_as_spec(spec_into_command_error)]
    pub fn into_command_error(self) -> (error: CommandError<E>)
        ensures
            error == self.spec_into_command_error(),
    {
        match self {
            LaunchError::Config(error) => CommandError::Config(error),
            LaunchError::Identity(error) => CommandError::Identity(error),
            LaunchError::Network(error) => CommandError::Network(NetworkError::Bootstrap(error)),
        }
    }
}

} // verus!
