//! The supervisor's decisions: where each file of the working directory
//! lies, what starting the node writes and runs, and which lifecycle
//! requests may act on the child process.
use vstd::prelude::*;
use crate::config::Config;
use crate::defined;
use crate::error::Error;
use crate::text::{join_path, path_under};

verus! {

/// The working directory of one node, by its path.
pub struct WorkDir {
    pub root: String,
}

impl WorkDir {
    pub fn new(root: &str) -> (r: Self)
        ensures
            r.root@ == root@,
    {
        WorkDir { root: String::from_str(root) }
    }

    pub fn get_binary_path(&self) -> (r: String)
        ensures
            r@ == path_under(self.root@, defined::TENDERMINT_BIN_FILE@),
    {
        join_path(self.root.as_str(), defined::TENDERMINT_BIN_FILE)
    }

    pub fn get_config_dir(&self) -> (r: String)
        ensures
            r@ == path_under(self.root@, defined::CONFIG_DIR@),
    {
        join_path(self.root.as_str(), defined::CONFIG_DIR)
    }

    pub fn get_config_path(&self) -> (r: String)
        ensures
            r@ == path_under(self.root@, defined::CONFIG_FILE@),
    {
        join_path(self.root.as_str(), defined::CONFIG_FILE)
    }

    pub fn get_node_key_path(&self) -> (r: String)
        ensures
            r@ == path_under(self.root@, defined::NODE_KEY_FILE@),
    {
        join_path(self.root.as_str(), defined::NODE_KEY_FILE)
    }

    pub fn get_validator_key_path(&self) -> (r: String)
        ensures
            r@ == path_under(self.root@, defined::VALIDATOR_KEY_FILE@),
    {
        join_path(self.root.as_str(), defined::VALIDATOR_KEY_FILE)
    }

    pub fn get_socket_dir(&self) -> (r: String)
        ensures
            r@ == path_under(self.root@, defined::SOCKET_DIR@),
    {
        join_path(self.root.as_str(), defined::SOCKET_DIR)
    }

    pub fn get_p2p_dir(&self) -> (r: String)
        ensures
            r@ == path_under(self.root@, defined::P2P_DIR@),
    {
        join_path(self.root.as_str(), defined::P2P_DIR)
    }

    pub fn get_app_path(&self) -> (r: String)
        ensures
            r@ == path_under(self.root@, defined::APP_UNIX_SOCKET_FILE@),
    {
        join_path(self.root.as_str(), defined::APP_UNIX_SOCKET_FILE)
    }

    pub fn get_data_dir(&self) -> (r: String)
        ensures
            r@ == path_under(self.root@, defined::DATA_DIR@),
    {
        join_path(self.root.as_str(), defined::DATA_DIR)
    }
}

/// What starting a node writes and runs, in this order: the database
/// directory when the configuration names none, the configuration, the node
/// key, the validator key, the genesis document and the signing state; then
/// the command.
pub struct StartPlan {
    pub create_data_dir: Option<String>,
    pub config_file: String,
    pub node_key_file: String,
    pub validator_key_file: String,
    pub genesis_file: String,
    pub validator_state_file: String,
    /// The binary followed by its arguments.
    pub command: Vec<String>,
}

/// `p` is the plan for starting the node of `config` in `root`.
pub open spec fn start_planned(root: Seq<char>, config: Config, p: StartPlan) -> bool {
    &&& match p.create_data_dir {
        Some(d) => config.data_dir@.len() == 0 && d@ == path_under(root, defined::DATA_DIR@),
        None => config.data_dir@.len() != 0,
    }
    &&& p.config_file@ == path_under(root, defined::CONFIG_FILE@)
    &&& p.node_key_file@ == path_under(root, defined::NODE_KEY_FILE@)
    &&& p.validator_key_file@ == path_under(root, defined::VALIDATOR_KEY_FILE@)
    &&& p.genesis_file@ == path_under(root, defined::GENESIS_FILE@)
    &&& p.validator_state_file@ == path_under(root, defined::VALIDATOR_STATE_FILE@)
    &&& p.command@.len() == 4
    &&& p.command@[0]@ == path_under(root, defined::TENDERMINT_BIN_FILE@)
    &&& p.command@[1]@ == "--home"@
    &&& p.command@[2]@ == root
    &&& p.command@[3]@ == "node"@
}

impl WorkDir {
    /// The files that starting the node of `config` writes, and the command
    /// that runs it.
    pub fn plan_start(&self, config: &Config) -> (r: StartPlan)
        ensures
            start_planned(self.root@, *config, r),
    {
        let root = self.root.as_str();
        let create_data_dir = if config.data_dir.as_str().is_empty() {
            Some(self.get_data_dir())
        } else {
            None
        };
        let mut command: Vec<String> = Vec::new();
        command.push(self.get_binary_path());
        command.push(String::from_str("--home"));
        command.push(String::from_str(root));
        command.push(String::from_str("node"));
        StartPlan {
            create_data_dir,
            config_file: self.get_config_path(),
            node_key_file: self.get_node_key_path(),
            validator_key_file: self.get_validator_key_path(),
            genesis_file: join_path(root, defined::GENESIS_FILE),
            validator_state_file: join_path(root, defined::VALIDATOR_STATE_FILE),
            command,
        }
    }
}

/// A request made of the supervisor.
#[derive(Debug, Clone, Copy, PartialEq, Eq, Structural)]
pub enum Request {
    Start,
    Stop,
    Kill,
    Wait,
    Cleanup,
}

/// What the supervisor does to the outside world for a request.
#[derive(Debug, Clone, Copy, PartialEq, Eq, Structural)]
pub enum Action {
    /// Write the files of the start plan, then spawn the node.
    WriteAndSpawn,
    /// Ask the child to shut down, without waiting.
    Terminate,
    /// End the child at once.
    Kill,
    /// Block until the child has exited.
    Wait,
    /// Release the child, terminating and awaiting it when there is one,
    /// then remove the working directory.
    Release { terminate_child: bool },
}

/// Whether the supervisor holds a child process.
pub struct Lifecycle {
    pub child: bool,
}

/// The outcome of `request` for a supervisor in state `before`: the action
/// and the state after.
pub open spec fn decided(before: Lifecycle, request: Request, r: Result<Action, Error>, after: Lifecycle) -> bool {
    match request {
        Request::Start => r == Ok::<Action, Error>(Action::WriteAndSpawn) && after.child == before.child,
        Request::Stop => after.child == before.child && r == if before.child {
            Ok::<Action, Error>(Action::Terminate)
        } else {
            Err(Error::NoTendermintStart)
        },
        Request::Kill => after.child == before.child && r == if before.child {
            Ok::<Action, Error>(Action::Kill)
        } else {
            Err(Error::NoTendermintStart)
        },
        Request::Wait => after.child == before.child && r == if before.child {
            Ok::<Action, Error>(Action::Wait)
        } else {
            Err(Error::NoTendermintStart)
        },
        Request::Cleanup => !after.child && r == Ok::<Action, Error>(
            Action::Release { terminate_child: before.child },
        ),
    }
}

impl Lifecycle {
    /// A freshly prepared supervisor: no child yet.
    pub fn new() -> (r: Self)
        ensures
            !r.child,
    {
        Lifecycle { child: false }
    }

    /// Decides what `request` does; stop, kill and wait need a started child.
    pub fn decide(&mut self, request: Request) -> (r: Result<Action, Error>)
        ensures
            decided(*old(self), request, r, *final(self)),
    {
        match request {
            Request::Start => Ok(Action::WriteAndSpawn),
            Request::Stop => if self.child {
                Ok(Action::Terminate)
            } else {
                Err(Error::NoTendermintStart)
            },
            Request::Kill => if self.child {
                Ok(Action::Kill)
            } else {
                Err(Error::NoTendermintStart)
            },
            Request::Wait => if self.child {
                Ok(Action::Wait)
            } else {
                Err(Error::NoTendermintStart)
            },
            Request::Cleanup => {
                let terminate_child = self.child;
                self.child = false;
                Ok(Action::Release { terminate_child })
            },
        }
    }

    /// Records that the node was spawned.
    pub fn spawned(&mut self)
        ensures
            final(self).child,
    {
        self.child = true;
    }
}

/// Before a start, stopping, killing and waiting fail with the not-started
/// error, and change nothing.
pub proof fn lemma_control_before_start(request: Request, r: Result<Action, Error>, after: Lifecycle)
    requires
        request == Request::Stop || request == Request::Kill || request == Request::Wait,
        decided(Lifecycle { child: false }, request, r, after),
    ensures
        r == Err::<Action, Error>(Error::NoTendermintStart),
        !after.child,
{
}

} // verus!
