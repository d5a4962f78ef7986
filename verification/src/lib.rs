//! Sequencer support: the sealing state machine that tracks an unsealed
//! payload through commit, gossip and insertion, and the sequencer's
//! command-line settings with the configuration derived from them.

pub mod seal;
pub mod sequencer;
