use embedded_td::model::ValidatorState;
use embedded_td::{Action, Config, Error, Lifecycle, Request, WorkDir};

#[test]
fn stop_kill_and_wait_before_start_are_refused() {
    for r in [Request::Stop, Request::Kill, Request::Wait] {
        let mut l = Lifecycle::new();
        assert_eq!(l.decide(r), Err(Error::NoTendermintStart));
        assert!(!l.child);
    }
}

#[test]
fn a_started_child_can_be_stopped_killed_and_awaited() {
    let mut l = Lifecycle::new();
    assert_eq!(l.decide(Request::Start), Ok(Action::WriteAndSpawn));
    assert!(!l.child);
    l.spawned();
    assert_eq!(l.decide(Request::Stop), Ok(Action::Terminate));
    assert_eq!(l.decide(Request::Wait), Ok(Action::Wait));
    assert_eq!(l.decide(Request::Kill), Ok(Action::Kill));
    assert_eq!(l.decide(Request::Cleanup), Ok(Action::Release { terminate_child: true }));
    assert_eq!(l.decide(Request::Stop), Err(Error::NoTendermintStart));
    assert_eq!(l.decide(Request::Cleanup), Ok(Action::Release { terminate_child: false }));
}

#[test]
fn start_plan_lists_the_files_and_command() {
    let w = WorkDir::new("/tmp/td");
    let p = w.plan_start(&Config::default());
    assert_eq!(p.create_data_dir.as_deref(), Some("/tmp/td/data"));
    assert_eq!(p.config_file, "/tmp/td/config/config.toml");
    assert_eq!(p.node_key_file, "/tmp/td/config/node_key.json");
    assert_eq!(p.validator_key_file, "/tmp/td/config/priv_validator_key.json");
    assert_eq!(p.genesis_file, "/tmp/td/genesis.json");
    assert_eq!(p.validator_state_file, "/tmp/td/priv_validator_state.json");
    assert_eq!(p.command, vec!["/tmp/td/tendermint", "--home", "/tmp/td", "node"]);
    let p = w.plan_start(&Config::new("/elsewhere"));
    assert!(p.create_data_dir.is_none());
}

#[test]
fn work_dir_paths() {
    let w = WorkDir::new("/r");
    assert_eq!(w.get_binary_path(), "/r/tendermint");
    assert_eq!(w.get_config_dir(), "/r/config");
    assert_eq!(w.get_socket_dir(), "/r/sockets");
    assert_eq!(w.get_p2p_dir(), "/r/p2p");
    assert_eq!(w.get_app_path(), "/r/sockets/app");
}

#[test]
fn initial_validator_state_has_signed_nothing() {
    let s = ValidatorState::default().into_model();
    assert_eq!(s.height, "0");
    assert_eq!(s.round, 0);
    assert_eq!(s.step, 0);
    assert!(s.signature.is_none());
    assert!(s.signbytes.is_none());
}
