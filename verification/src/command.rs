//! The command as the user gives it, and its first decisions.

use crate::error::ConfigError;
use crate::ident::BlockIdentifier;
use crate::peers::addresses;
use crate::peers::PeerConfig;
use crate::retry::RetryPolicy;
use crate::session::Job;
use crate::session::Session;
use crate::session::SessionModel;
use std::sync::Arc;
use vstd::prelude::*;

verus! {

/// The files that the data directory of a chain offers by default. `P` is the
/// type of a file path.
#[derive(Clone, Debug)]
pub struct DataDir<P> {
    /// The path of the configuration file.
    pub config: P,
    /// The path of the file that holds the node's secret key.
    pub p2p_secret: P,
}

/// What a download needs to know, whichever item it is after. `C` is the
/// chain specification, `P` the type of a file path.
#[derive(Clone, Debug)]
pub struct DownloadArgs<C, P> {
    /// The number of retries per request.
    pub retries: usize,
    /// The records of the peers that the user trusts.
    pub trusted_peers: Vec<String>,
    /// Whether to connect to trusted peers only.
    pub trusted_only: bool,
    /// The path of the secret key file, where the user names one.
    pub p2p_secret_key: Option<P>,
    /// The path of the configuration file, where the user names one.
    pub config: Option<P>,
    /// The chain that the node runs on.
    pub chain: Arc<C>,
}

/// Everything that is decided before the node is brought up. `N` is the type
/// of a boot node's record.
#[derive(Debug)]
pub struct NetworkPlan<'a, P, N> {
    /// The peers to trust, and whether to connect to no others.
    pub peers: PeerConfig,
    /// Where the node's secret key is loaded from, or stored if there is none.
    pub secret_key_path: &'a P,
    /// The peers that seed the discovery.
    pub boot_nodes: Vec<N>,
}

/// The path that the user named, or else the default.
pub open spec fn chosen_path<P>(named: Option<P>, default: P) -> P {
    match named {
        Some(path) => path,
        None => default,
    }
}

impl<C, P> DownloadArgs<C, P> {
    /// The path that the stored configuration is read from: the one that the
    /// user named, or else the data directory's.
    pub fn config_path<'a>(&'a self, data_dir: &'a DataDir<P>) -> (path: &'a P)
        ensures
            *path == chosen_path(self.config, data_dir.config),
    {
        match &self.config {
            Some(path) => path,
            None => &data_dir.config,
        }
    }

    /// Plans the launch of the node.
    ///
    /// The peers named by the user are added to the stored ones and the
    /// restriction to trusted peers is taken from the user. The launch is
    /// refused exactly where that leaves a node which may connect to trusted
    /// peers only and knows none. The secret key is the file that the user
    /// named, or else the data directory's; a chain without boot nodes
    /// starts its discovery from none.
    pub fn launch_network<'a, N>(
        &'a self,
        stored: PeerConfig,
        data_dir: &'a DataDir<P>,
        boot_nodes: Option<Vec<N>>,
    ) -> (plan: Result<NetworkPlan<'a, P, N>, ConfigError>)
        ensures
            match plan {
                Ok(plan) => {
                    &&& plan.peers.well_formed()
                    &&& plan.peers@ == stored@.merged(
                        addresses(self.trusted_peers@),
                        self.trusted_only,
                    )
                    &&& plan.peers@.bootstrappable()
                    &&& *plan.secret_key_path == chosen_path(
                        self.p2p_secret_key,
                        data_dir.p2p_secret,
                    )
                    &&& plan.boot_nodes@ == match boot_nodes {
                        Some(nodes) => nodes@,
                        None => Seq::<N>::empty(),
                    }
                },
                Err(error) => {
                    &&& error == ConfigError::NoTrustedPeers
                    &&& !stored@.merged(
                        addresses(self.trusted_peers@),
                        self.trusted_only,
                    ).bootstrappable()
                },
            },
    {
        let peers = match stored.merge(&self.trusted_peers, self.trusted_only) {
            Ok(peers) => peers,
            Err(error) => {
                return Err(error);
            },
        };
        let secret_key_path = match &self.p2p_secret_key {
            Some(path) => path,
            None => &data_dir.p2p_secret,
        };
        let boot_nodes = match boot_nodes {
            Some(nodes) => nodes,
            None => Vec::new(),
        };
        Ok(NetworkPlan { peers, secret_key_path, boot_nodes })
    }

    /// The retry policy of each request: as many executions as retries are
    /// configured, and one where none is.
    pub fn backoff(&self) -> (policy: RetryPolicy)
        ensures
            policy.well_formed(),
            policy.limit() == RetryPolicy::attempts_for(self.retries as nat),
    {
        RetryPolicy::new(self.retries)
    }
}

/// The tools of the command. `R` and `B` are the commands of the two tools
/// that run by themselves.
#[derive(Debug)]
pub enum Subcommands<C, P, R, B> {
    /// Download a block header.
    Header { args: DownloadArgs<C, P>, id: BlockIdentifier },
    /// Download a block body.
    Body { args: DownloadArgs<C, P>, id: BlockIdentifier },
    /// The connection debugging tool.
    Rlpx(R),
    /// The boot node.
    Bootnode(B),
}

/// The command.
#[derive(Debug)]
pub struct Command<C, P, R, B> {
    pub command: Subcommands<C, P, R, B>,
}

/// How a command is carried out.
#[derive(Debug)]
pub enum Execution<C, P, R, B> {
    /// Bring up the node as `args` say and report the outcome to `session`,
    /// which leads through the download from there.
    Download { args: DownloadArgs<C, P>, session: Session },
    /// Run the connection debugging tool.
    Rlpx(R),
    /// Run the boot node.
    Bootnode(B),
}

impl<C, P, R, B> Command<C, P, R, B> {
    /// Begins to carry out the command.
    ///
    /// A download gets a session that waits for the node to come up, with the
    /// retry policy that its arguments configure. The other tools are left to
    /// themselves.
    pub fn execute(self) -> (run: Execution<C, P, R, B>)
        ensures
            match self.command {
                Subcommands::Header { args, id } => {
                    &&& run matches Execution::Download { args: kept, session }
                    &&& kept == args
                    &&& session.well_formed()
                    &&& session@ == SessionModel::start(
                        Job::Header(id),
                        RetryPolicy::attempts_for(args.retries as nat),
                    )
                },
                Subcommands::Body { args, id } => {
                    &&& run matches Execution::Download { args: kept, session }
                    &&& kept == args
                    &&& session.well_formed()
                    &&& session@ == SessionModel::start(
                        Job::Body(id),
                        RetryPolicy::attempts_for(args.retries as nat),
                    )
                },
                Subcommands::Rlpx(tool) => run == Execution::<C, P, R, B>::Rlpx(tool),
                Subcommands::Bootnode(tool) => run == Execution::<C, P, R, B>::Bootnode(tool),
            },
    {
        match self.command {
            Subcommands::Header { args, id } => {
                let session = Session::start(Job::Header(id), args.backoff());
                Execution::Download { args, session }
            },
            Subcommands::Body { args, id } => {
                let session = Session::start(Job::Body(id), args.backoff());
                Execution::Download { args, session }
            },
            Subcommands::Rlpx(tool) => Execution::Rlpx(tool),
            Subcommands::Bootnode(tool) => Execution::Bootnode(tool),
        }
    }

    /// The chain that the command runs on, where it runs on one.
    pub fn chain_spec(&self) -> (chain: Option<&Arc<C>>)
        ensures
            chain == match self.command {
                Subcommands::Header { args, .. } => Some(&args.chain),
                Subcommands::Body { args, .. } => Some(&args.chain),
                Subcommands::Rlpx(_) => None,
                Subcommands::Bootnode(_) => None,
            },
    {
        match &self.command {
            Subcommands::Header { args, .. } => Some(&args.chain),
            Subcommands::Body { args, .. } => Some(&args.chain),
            Subcommands::Rlpx(_) => None,
            Subcommands::Bootnode(_) => None,
        }
    }
}

} // verus!
