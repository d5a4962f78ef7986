//! Sequencer settings, as given on the command line, and the sequencer
//! configuration derived from them.

use std::time::Duration;
use url::Url;
use vstd::prelude::*;

verus! {

/// A URL, such as the conductor service's RPC endpoint.
#[verifier::external_type_specification]
#[verifier::external_body]
pub struct ExUrl(url::Url);

/// Calls `url::Url::clone`.
///
/// `Url` derives `Clone`, so the copy holds the same serialization and the
/// same component offsets as the original: the contract claims that the copy
/// equals the original.
#[verifier::external_body]
fn clone_url(url: &Url) -> (r: Url)
    ensures
        r == *url,
{
    url.clone()
}

/// Specifies `<Duration as Clone>::clone`.
///
/// `Duration` is `Copy` and derives `Clone`, so the clone is a copy: the
/// contract claims that it equals the original.
pub assume_specification[ <Duration as Clone>::clone ](duration: &Duration) -> (r: Duration)
    ensures
        r == *duration,
;

/// Sequencer settings.
#[derive(Clone, Debug, PartialEq, Eq)]
pub struct SequencerArgs {
    /// Initialize the sequencer in a stopped state. The sequencer can be
    /// started using the `admin_startSequencer` RPC.
    pub stopped: bool,
    /// Maximum number of L2 blocks for restricting the distance between L2
    /// safe and unsafe. Disabled if 0.
    pub max_safe_lag: u64,
    /// Number of L1 blocks to keep distance from the L1 head as a sequencer
    /// for picking an L1 origin.
    pub l1_confs: u64,
    /// Forces the sequencer to strictly prepare the next L1 origin and create
    /// empty L2 blocks.
    pub recover: bool,
    /// Conductor service rpc endpoint. Providing this value will enable the
    /// conductor service.
    pub conductor_rpc: Option<Url>,
    /// Conductor service rpc timeout.
    pub conductor_rpc_timeout: Duration,
    /// Backoff to apply when a conductor commit fails at runtime. The
    /// sequencer skips gossip on commit failure, retains the sealed payload,
    /// and retries the conductor commit after this delay before building the
    /// next block. Has no effect when `without_backoff` is set.
    pub conductor_commit_backoff_ms: Duration,
    /// Disable the conductor commit backoff entirely. When set, conductor
    /// commit failures are logged and ignored; gossip and insertion proceed
    /// regardless. Overrides `conductor_commit_backoff_ms`.
    pub without_backoff: bool,
}

/// The configuration of the sequencer.
#[derive(Clone, Debug, PartialEq, Eq)]
pub struct SequencerConfig {
    /// Whether the sequencer starts in a stopped state.
    pub sequencer_stopped: bool,
    /// Whether the sequencer runs in recovery mode.
    pub sequencer_recovery_mode: bool,
    /// The conductor service's RPC endpoint, if any.
    pub conductor_rpc_url: Option<Url>,
    /// The number of L1 blocks to keep distance from the L1 head.
    pub l1_conf_delay: u64,
    /// The backoff after a failed conductor commit; `None` disables it.
    pub conductor_commit_backoff: Option<Duration>,
}

impl SequencerArgs {
    /// The conductor commit backoff that these settings ask for: none when
    /// the backoff is disabled, the configured delay otherwise.
    pub open spec fn commit_backoff(self) -> Option<Duration> {
        if self.without_backoff {
            None
        } else {
            Some(self.conductor_commit_backoff_ms)
        }
    }

    /// Creates a [`SequencerConfig`] from the [`SequencerArgs`].
    pub fn config(&self) -> (r: SequencerConfig)
        ensures
            r.sequencer_stopped == self.stopped,
            r.sequencer_recovery_mode == self.recover,
            r.conductor_rpc_url == self.conductor_rpc,
            r.l1_conf_delay == self.l1_confs,
            r.conductor_commit_backoff == self.commit_backoff(),
            !self.without_backoff ==> r.conductor_commit_backoff == Some(self.conductor_commit_backoff_ms),
            self.without_backoff ==> r.conductor_commit_backoff is None,
    {
        let conductor_rpc_url = match &self.conductor_rpc {
            Some(url) => Some(clone_url(url)),
            None => None,
        };
        let conductor_commit_backoff = if self.without_backoff {
            None
        } else {
            Some(self.conductor_commit_backoff_ms)
        };
        SequencerConfig {
            sequencer_stopped: self.stopped,
            sequencer_recovery_mode: self.recover,
            conductor_rpc_url,
            l1_conf_delay: self.l1_confs,
            conductor_commit_backoff,
        }
    }
}

/// The backoff is the configured delay whenever it is not disabled, whatever
/// the other settings are, and none when it is disabled.
pub proof fn lemma_commit_backoff_follows_flag(args: SequencerArgs)
    ensures
        !args.without_backoff ==> args.commit_backoff() == Some(args.conductor_commit_backoff_ms),
        args.without_backoff ==> args.commit_backoff() is None,
        args.commit_backoff() is Some <==> !args.without_backoff,
{
}

/// Settings that differ only outside the backoff flag and delay (for
/// example in the conductor endpoint) ask for the same backoff.
pub proof fn lemma_commit_backoff_ignores_other_settings(a: SequencerArgs, b: SequencerArgs)
    requires
        a.without_backoff == b.without_backoff,
        a.conductor_commit_backoff_ms == b.conductor_commit_backoff_ms,
    ensures
        a.commit_backoff() == b.commit_backoff(),
{
}

/// Once the backoff is disabled, the configured backoff delay has no effect:
/// two settings that both disable it ask for the same backoff, none.
pub proof fn lemma_disabled_backoff_ignores_delay(a: SequencerArgs, b: SequencerArgs)
    requires
        a.without_backoff,
        b.without_backoff,
    ensures
        a.commit_backoff() == b.commit_backoff(),
        a.commit_backoff() is None,
{
}

} // verus!
