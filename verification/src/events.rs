//! What the control layer decides when the user or a worker asks for
//! something: each function takes what is known and says what is to be done.

use crate::mining_channel::{after_start, after_stop, MiningDataChannelResource};
use crate::transactions::ProofAccountResource;
use vstd::prelude::*;
use vstd::string::StringExecFns;

verus! {

/// What the miner is doing.
#[derive(Clone, Copy, Debug, PartialEq, Eq, Structural)]
pub enum MinerStatus {
    Stopped,
    /// The workers search for a hash.
    Mining,
    /// A solution is on its way to the chain.
    Processing,
}

impl MinerStatus {
    /// The text under which this status is shown.
    pub open spec fn name(self) -> Seq<char> {
        match self {
            MinerStatus::Stopped => "STOPPED"@,
            MinerStatus::Mining => "MINING"@,
            MinerStatus::Processing => "PROCESSING"@,
        }
    }

    pub fn to_string(&self) -> (s: String)
        ensures
            s@ == self.name(),
    {
        match self {
            MinerStatus::Stopped => String::from_str("STOPPED"),
            MinerStatus::Mining => String::from_str("MINING"),
            MinerStatus::Processing => String::from_str("PROCESSING"),
        }
    }

    /// A session is under way.
    pub open spec fn is_active(self) -> bool {
        self != MinerStatus::Stopped
    }
}

/// The challenge that an account shows while the chain does not know it.
pub open spec fn challenge_of_no_account() -> Seq<char> {
    "Not Found"@
}

/// What a click on the start/stop button leads to.
#[derive(Clone, Copy, Debug, PartialEq, Eq, Structural)]
pub enum StartStopAction {
    /// A session was under way: it is cancelled, and the button shows "off".
    CancelMining,
    /// The chain does not know the miner yet: register first.
    RegisterWallet,
    /// Start a session; the button shows "on".
    MineForHash,
}

/// What a click on the start/stop button does to a miner in state `status`
/// whose account shows `challenge`.
pub open spec fn start_stop_action(status: MinerStatus, challenge: Seq<char>) -> StartStopAction {
    if status.is_active() {
        StartStopAction::CancelMining
    } else if challenge == challenge_of_no_account() {
        StartStopAction::RegisterWallet
    } else {
        StartStopAction::MineForHash
    }
}

/// One click on the start/stop button. A click never starts a session while
/// one is under way: it stops that one.
pub fn handle_event_start_stop_mining_clicked(
    miner_status: &mut MinerStatus,
    proof_account: &ProofAccountResource,
) -> (action: StartStopAction)
    ensures
        action == start_stop_action(*old(miner_status), proof_account.challenge@),
        *final(miner_status) == if action == StartStopAction::CancelMining {
            MinerStatus::Stopped
        } else {
            *old(miner_status)
        },
        action == StartStopAction::MineForHash ==> !old(miner_status).is_active(),
{
    match *miner_status {
        MinerStatus::Mining | MinerStatus::Processing => {
            *miner_status = MinerStatus::Stopped;
            StartStopAction::CancelMining
        },
        MinerStatus::Stopped => {
            let not_found = String::from_str("Not Found");
            if proof_account.challenge == not_found {
                StartStopAction::RegisterWallet
            } else {
                StartStopAction::MineForHash
            }
        },
    }
}

/// What a request to mine leads to.
#[derive(Clone, Copy, Debug, PartialEq, Eq, Structural)]
pub enum MineForHashAction {
    /// Nobody is there to run the workers: the request is dropped.
    Nothing,
    /// No wallet is loaded: show the unlock screen.
    UnlockWallet,
    /// Run `threads` workers, which look for a hash of at least
    /// `min_difficulty`.
    SpawnWorkers { threads: u64, min_difficulty: u64 },
}

/// The number of workers to run when `requested` are asked for on a machine
/// with `cpu_count` processors: what was asked for, but one at least, and
/// no more than there are processors.
pub open spec fn worker_threads(requested: u64, cpu_count: u64) -> u64 {
    if requested > cpu_count {
        if cpu_count < 1 {
            1
        } else {
            cpu_count
        }
    } else if requested < 1 {
        1
    } else {
        requested
    }
}

/// The number of workers to run.
pub fn clamp_threads(requested: u64, cpu_count: u64) -> (threads: u64)
    ensures
        threads == worker_threads(requested, cpu_count),
        1 <= threads,
        cpu_count >= 1 ==> threads <= cpu_count,
{
    if requested > cpu_count {
        if cpu_count < 1 {
            1
        } else {
            cpu_count
        }
    } else if requested < 1 {
        1
    } else {
        requested
    }
}

/// One request to mine. Where workers are to be run, the channel to them is
/// made ready first: it is there, and nothing waits in it.
pub fn handle_event_mine_for_hash(
    has_task_handler: bool,
    has_wallet: bool,
    miner_threads: u64,
    cpu_count: u64,
    min_difficulty: u64,
    mining_channels_res: &mut MiningDataChannelResource,
) -> (action: MineForHashAction)
    ensures
        action == if !has_task_handler {
            MineForHashAction::Nothing
        } else if !has_wallet {
            MineForHashAction::UnlockWallet
        } else {
            (MineForHashAction::SpawnWorkers {
                threads: worker_threads(miner_threads, cpu_count),
                min_difficulty,
            })
        },
        final(mining_channels_res).is_open() == (action is SpawnWorkers
            || old(mining_channels_res).is_open()),
        final(mining_channels_res).pending() == if action is SpawnWorkers {
            after_start(old(mining_channels_res).pending())
        } else {
            old(mining_channels_res).pending()
        },
{
    if !has_task_handler {
        return MineForHashAction::Nothing;
    }
    if !has_wallet {
        return MineForHashAction::UnlockWallet;
    }
    mining_channels_res.start();
    let threads: u64 = clamp_threads(miner_threads, cpu_count);
    MineForHashAction::SpawnWorkers { threads, min_difficulty }
}

/// What a found solution leads to.
#[derive(Clone, Copy, Debug, PartialEq, Eq, Structural)]
pub enum SubmitHashTxAction {
    /// No wallet is loaded: show the unlock screen.
    UnlockWallet,
    /// Nobody is there to send the transaction: the solution is dropped.
    Nothing,
    /// Send the transaction.
    Dispatch,
}

/// One solution to submit. The miner is `Processing` from the moment its
/// solution is dispatched.
pub fn handle_event_submit_hash_tx(
    has_wallet: bool,
    has_task_handler: bool,
    miner_status: &mut MinerStatus,
) -> (action: SubmitHashTxAction)
    ensures
        action == if !has_wallet {
            SubmitHashTxAction::UnlockWallet
        } else if !has_task_handler {
            SubmitHashTxAction::Nothing
        } else {
            SubmitHashTxAction::Dispatch
        },
        *final(miner_status) == if action == SubmitHashTxAction::Dispatch {
            MinerStatus::Processing
        } else {
            *old(miner_status)
        },
{
    if !has_wallet {
        return SubmitHashTxAction::UnlockWallet;
    }
    if !has_task_handler {
        return SubmitHashTxAction::Nothing;
    }
    *miner_status = MinerStatus::Processing;
    SubmitHashTxAction::Dispatch
}

/// `events` requests to cancel the session: each asks the workers to stop.
/// However many there are, one `Stop` waits at most.
pub fn handle_event_cancel_mining(events: usize, mining_channels_res: &mut MiningDataChannelResource)
    ensures
        final(mining_channels_res).is_open() == old(mining_channels_res).is_open(),
        final(mining_channels_res).pending() == if events > 0 {
            after_stop(old(mining_channels_res).is_open(), old(mining_channels_res).pending())
        } else {
            old(mining_channels_res).pending()
        },
{
    let mut sent: usize = 0;
    while sent < events
        invariant
            sent <= events,
            mining_channels_res.is_open() == old(mining_channels_res).is_open(),
            mining_channels_res.pending() == if sent > 0 {
                after_stop(old(mining_channels_res).is_open(), old(mining_channels_res).pending())
            } else {
                old(mining_channels_res).pending()
            },
        decreases events - sent,
    {
        mining_channels_res.stop();
        sent = sent + 1;
    }
}

} // verus!
