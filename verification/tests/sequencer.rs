use std::time::Duration;

use base_sequencer::sequencer::SequencerArgs;
use url::Url;

/// The settings that the command line gives when no flag is passed.
fn default_args() -> SequencerArgs {
    SequencerArgs {
        stopped: false,
        max_safe_lag: 0,
        l1_confs: 4,
        recover: false,
        conductor_rpc: None,
        conductor_rpc_timeout: Duration::from_secs(1),
        conductor_commit_backoff_ms: Duration::from_millis(50),
        without_backoff: false,
    }
}

#[test]
fn config_conductor_commit_backoff_default_backoff() {
    let args = default_args();
    assert_eq!(args.config().conductor_commit_backoff, Some(Duration::from_millis(50)));
}

#[test]
fn config_conductor_commit_backoff_custom_backoff_ms() {
    let args = SequencerArgs { conductor_commit_backoff_ms: Duration::from_millis(200), ..default_args() };
    assert_eq!(args.config().conductor_commit_backoff, Some(Duration::from_millis(200)));
}

#[test]
fn config_conductor_commit_backoff_without_backoff() {
    let args = SequencerArgs { without_backoff: true, ..default_args() };
    assert_eq!(args.config().conductor_commit_backoff, None);
}

#[test]
fn config_conductor_commit_backoff_without_backoff_ignores_ms() {
    let args = SequencerArgs {
        without_backoff: true,
        conductor_commit_backoff_ms: Duration::from_millis(200),
        ..default_args()
    };
    assert_eq!(args.config().conductor_commit_backoff, None);
}

#[test]
fn config_copies_flags() {
    let args = SequencerArgs {
        stopped: true,
        recover: true,
        l1_confs: 12,
        max_safe_lag: 9,
        ..default_args()
    };
    let config = args.config();
    assert!(config.sequencer_stopped);
    assert!(config.sequencer_recovery_mode);
    assert_eq!(config.l1_conf_delay, 12);
    assert_eq!(config.conductor_rpc_url, None);

    let config = default_args().config();
    assert!(!config.sequencer_stopped);
    assert!(!config.sequencer_recovery_mode);
    assert_eq!(config.l1_conf_delay, 4);
}

#[test]
fn config_keeps_conductor_rpc_url() {
    let url = Url::parse("http://conductor.example:8547/rpc").unwrap();
    let args = SequencerArgs { conductor_rpc: Some(url.clone()), ..default_args() };
    let config = args.config();
    assert_eq!(config.conductor_rpc_url.as_ref().map(|u| u.as_str()), Some("http://conductor.example:8547/rpc"));
    assert_eq!(config.conductor_rpc_url, Some(url));
}
