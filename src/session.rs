use vstd::prelude::*;
use vstd::string::StringExecFns;

use crate::amount::{total_zat, PoolBalances};
use crate::profile::{is_profile_for, select_profile, Chain, NetworkProfile};
use crate::report::{payload_text, sync_payload, WalletReport};

verus! {

/// What the UI asks for: a watch-only sync of one viewing key.
#[derive(Clone, Debug)]
pub struct SyncRequest {
    /// A unified full viewing key; never a spending key.
    pub viewing_key: String,
    pub is_testnet: bool,
    /// Height to scan from.
    pub birthday: u32,
}

/// Where a sync session stands. The steps run strictly in this order; the
/// first failure ends the session.
#[derive(Clone, Copy, Debug, PartialEq, Eq, Structural)]
pub enum Phase {
    /// Find out whether local state is left from an earlier run.
    CheckState,
    /// Remove that state; the outcome is ignored.
    ClearState,
    LoadConfig,
    BuildWallet,
    CreateClient,
    Rescan,
    FetchBalance,
    FetchDetails,
    Succeeded,
    Failed,
}

/// The outside work the caller performs next.
#[derive(Clone, Debug)]
pub enum Action {
    /// Report whether a directory exists at `path`.
    CheckStateDir { path: String },
    /// Delete the directory at `path` with all it holds.
    RemoveStateDir { path: String },
    /// Load the wallet engine's configuration.
    LoadConfig {
        server_uri: String,
        data_dir: String,
        chain: Chain,
        min_confirmations: u32,
        mempool_interval: u32,
        client_version: String,
    },
    /// Build a watch-only wallet from the viewing key.
    BuildWallet { viewing_key: String, chain: Chain, birthday: u32, min_confirmations: u32 },
    /// Bind the wallet to the configuration, replacing any state on disk when
    /// `overwrite`.
    CreateClient { overwrite: bool },
    /// Run a full rescan and wait for it to finish.
    Rescan,
    /// Read the balance breakdown of account `account`.
    FetchBalance { account: u32 },
    /// Read transaction summaries, server status and addresses.
    FetchDetails,
    /// The sync succeeded: hand `payload` back.
    Respond { payload: String },
    /// The sync failed: hand `message` back.
    Fail { message: String },
}

/// The outcome of the last action.
#[derive(Clone, Debug)]
pub enum Event {
    StateDirExists(bool),
    Done,
    Failed(String),
    Balance { balances: PoolBalances, text: String },
    Details { server_info: String, addresses: String, transactions: String },
}

/// One sync, from the state reset to the payload or the first error.
#[derive(Clone, Debug)]
pub struct SyncSession {
    pub request: SyncRequest,
    pub profile: NetworkProfile,
    pub phase: Phase,
    /// The balance breakdown and its rendering, once read.
    pub balance: Option<(PoolBalances, String)>,
    /// The payload once succeeded, the error message once failed.
    pub outcome: String,
}

pub open spec fn client_version() -> Seq<char> {
    "0.1.0"@
}

pub open spec fn overflow_message() -> Seq<char> {
    "wallet balance total exceeds the 64-bit range"@
}

pub open spec fn unexpected_event_message() -> Seq<char> {
    "event does not match the current sync step"@
}

/// Moves on to `next` when the step is done; anything else fails.
pub open spec fn after_step(e: Event, next: Phase) -> Phase {
    match e {
        Event::Done => next,
        _ => Phase::Failed,
    }
}

/// Whether `s` holds a balance whose total fits in 64 bits.
pub open spec fn balance_fits(s: SyncSession) -> bool {
    s.balance matches Some(b) && total_zat(b.0) <= u64::MAX
}

pub open spec fn next_phase(s: SyncSession, e: Event) -> Phase {
    match s.phase {
        Phase::CheckState => match e {
            Event::StateDirExists(exists) => if exists {
                Phase::ClearState
            } else {
                Phase::LoadConfig
            },
            _ => Phase::Failed,
        },
        Phase::ClearState => match e {
            Event::Done => Phase::LoadConfig,
            Event::Failed(_) => Phase::LoadConfig,
            _ => Phase::Failed,
        },
        Phase::LoadConfig => after_step(e, Phase::BuildWallet),
        Phase::BuildWallet => after_step(e, Phase::CreateClient),
        Phase::CreateClient => after_step(e, Phase::Rescan),
        Phase::Rescan => after_step(e, Phase::FetchBalance),
        Phase::FetchBalance => match e {
            Event::Balance { .. } => Phase::FetchDetails,
            _ => Phase::Failed,
        },
        Phase::FetchDetails => match e {
            Event::Details { .. } => if balance_fits(s) {
                Phase::Succeeded
            } else {
                Phase::Failed
            },
            _ => Phase::Failed,
        },
        Phase::Succeeded => Phase::Succeeded,
        Phase::Failed => Phase::Failed,
    }
}

pub open spec fn next_balance(s: SyncSession, e: Event) -> Option<(PoolBalances, String)> {
    if s.phase == Phase::FetchBalance {
        match e {
            Event::Balance { balances, text } => Some((balances, text)),
            _ => s.balance,
        }
    } else {
        s.balance
    }
}

/// The report that a `Details` event completes.
pub open spec fn report_of(s: SyncSession, e: Event) -> WalletReport {
    let b = s.balance->0;
    WalletReport {
        balances: b.0,
        balance_text: b.1,
        server_info: e->server_info,
        addresses: e->addresses,
        transactions: e->transactions,
    }
}

/// The message of a failure that `e` causes.
pub open spec fn failure_message(s: SyncSession, e: Event) -> Seq<char> {
    match e {
        Event::Failed(m) => m@,
        Event::Details { .. } => if s.phase == Phase::FetchDetails && s.balance is Some {
            overflow_message()
        } else {
            unexpected_event_message()
        },
        _ => unexpected_event_message(),
    }
}

pub open spec fn next_outcome(s: SyncSession, e: Event) -> Seq<char> {
    if s.phase == Phase::Succeeded || s.phase == Phase::Failed {
        s.outcome@
    } else if next_phase(s, e) == Phase::Failed {
        failure_message(s, e)
    } else if next_phase(s, e) == Phase::Succeeded {
        payload_text(report_of(s, e))
    } else {
        s.outcome@
    }
}

/// `a` is the action that a session in state `s` asks for.
pub open spec fn is_action_of(s: SyncSession, a: Action) -> bool {
    match s.phase {
        Phase::CheckState => a matches Action::CheckStateDir { path } && path@ == s.profile.data_dir@,
        Phase::ClearState => a matches Action::RemoveStateDir { path } && path@
            == s.profile.data_dir@,
        Phase::LoadConfig => a matches Action::LoadConfig {
            server_uri,
            data_dir,
            chain,
            min_confirmations,
            mempool_interval,
            client_version: v,
        } && {
            &&& server_uri@ == s.profile.server_uri@
            &&& data_dir@ == s.profile.data_dir@
            &&& chain == s.profile.chain
            &&& min_confirmations == s.profile.min_confirmations
            &&& mempool_interval == 1
            &&& v@ == client_version()
        },
        Phase::BuildWallet => a matches Action::BuildWallet {
            viewing_key,
            chain,
            birthday,
            min_confirmations,
        } && {
            &&& viewing_key@ == s.request.viewing_key@
            &&& chain == s.profile.chain
            &&& birthday == s.request.birthday
            &&& min_confirmations == s.profile.min_confirmations
        },
        Phase::CreateClient => a matches Action::CreateClient { overwrite } && overwrite,
        Phase::Rescan => a is Rescan,
        Phase::FetchBalance => a matches Action::FetchBalance { account } && account == 0,
        Phase::FetchDetails => a is FetchDetails,
        Phase::Succeeded => a matches Action::Respond { payload } && payload@ == s.outcome@,
        Phase::Failed => a matches Action::Fail { message } && message@ == s.outcome@,
    }
}

/// A session that finds no left-over state goes straight on to load its
/// configuration: a missing state directory is no failure.
pub proof fn lemma_missing_state_dir_is_no_failure(s: SyncSession)
    requires
        s.phase == Phase::CheckState,
    ensures
        next_phase(s, Event::StateDirExists(false)) == Phase::LoadConfig,
        next_outcome(s, Event::StateDirExists(false)) == s.outcome@,
        next_balance(s, Event::StateDirExists(false)) == s.balance,
{
}

/// The reset cannot make a sync fail: whether state is left from an earlier
/// run or not, and whatever its removal gives, the session reaches the
/// configuration step with nothing else changed, so a second run of the same
/// request asks for the very configuration that the first did.
pub proof fn lemma_reset_is_idempotent(s: SyncSession, removal: Event)
    requires
        s.phase == Phase::CheckState,
        removal is Done || removal is Failed,
    ensures
        next_phase(s, Event::StateDirExists(false)) == Phase::LoadConfig,
        next_phase(s, Event::StateDirExists(true)) == Phase::ClearState,
        ({
            let found = SyncSession { phase: Phase::ClearState, ..s };
            &&& next_phase(found, removal) == Phase::LoadConfig
            &&& next_outcome(found, removal) == next_outcome(s, Event::StateDirExists(false))
            &&& next_balance(found, removal) == next_balance(s, Event::StateDirExists(false))
            &&& forall|a: Action|
                is_action_of(SyncSession { phase: Phase::LoadConfig, ..found }, a)
                    <==> is_action_of(SyncSession { phase: Phase::LoadConfig, ..s }, a)
        }),
{
}

/// A failure to build the wallet fails the session with that failure's
/// message, and a failed session stays failed: no payload ever follows.
pub proof fn lemma_wallet_failure_is_final(s: SyncSession, m: String, a: Action)
    requires
        s.phase == Phase::BuildWallet,
    ensures
        next_phase(s, Event::Failed(m)) == Phase::Failed,
        next_outcome(s, Event::Failed(m)) == m@,
        forall|t: SyncSession, e: Event|
            t.phase == Phase::Failed ==> #[trigger] next_phase(t, e) == Phase::Failed
                && next_outcome(t, e) == t.outcome@,
        forall|t: SyncSession| #[trigger] is_action_of(t, a) && t.phase == Phase::Failed
            ==> a is Fail,
{
}

impl SyncSession {
    /// The session is for its request's network.
    pub open spec fn wf(&self) -> bool {
        is_profile_for(self.profile, self.request.is_testnet)
    }

    /// Starts a session: its first step is the check for left-over state.
    pub fn new(viewing_key: String, is_testnet: bool, birthday: u32) -> (s: SyncSession)
        ensures
            s.wf(),
            s.request.viewing_key == viewing_key,
            s.request.is_testnet == is_testnet,
            s.request.birthday == birthday,
            s.phase == Phase::CheckState,
            s.balance is None,
    {
        let profile = select_profile(is_testnet);
        SyncSession {
            request: SyncRequest { viewing_key, is_testnet, birthday },
            profile,
            phase: Phase::CheckState,
            balance: None,
            outcome: String::new(),
        }
    }

    /// The action that the session asks for now.
    pub fn action(&self) -> (a: Action)
        ensures
            is_action_of(*self, a),
    {
        match self.phase {
            Phase::CheckState => Action::CheckStateDir { path: self.profile.data_dir.clone() },
            Phase::ClearState => Action::RemoveStateDir { path: self.profile.data_dir.clone() },
            Phase::LoadConfig => Action::LoadConfig {
                server_uri: self.profile.server_uri.clone(),
                data_dir: self.profile.data_dir.clone(),
                chain: self.profile.chain,
                min_confirmations: self.profile.min_confirmations,
                mempool_interval: 1,
                client_version: String::from_str("0.1.0"),
            },
            Phase::BuildWallet => Action::BuildWallet {
                viewing_key: self.request.viewing_key.clone(),
                chain: self.profile.chain,
                birthday: self.request.birthday,
                min_confirmations: self.profile.min_confirmations,
            },
            Phase::CreateClient => Action::CreateClient { overwrite: true },
            Phase::Rescan => Action::Rescan,
            Phase::FetchBalance => Action::FetchBalance { account: 0 },
            Phase::FetchDetails => Action::FetchDetails,
            Phase::Succeeded => Action::Respond { payload: self.outcome.clone() },
            Phase::Failed => Action::Fail { message: self.outcome.clone() },
        }
    }

    fn fail_with(&mut self, e: Event)
        requires
            old(self).phase != Phase::Succeeded,
            old(self).phase != Phase::Failed,
        ensures
            final(self).phase == Phase::Failed,
            final(self).outcome@ == failure_message(*old(self), e),
            final(self).request == old(self).request,
            final(self).profile == old(self).profile,
            final(self).balance == old(self).balance,
    {
        let message = match e {
            Event::Failed(m) => m,
            Event::Details { .. } => if self.phase == Phase::FetchDetails && self.balance.is_some() {
                String::from_str("wallet balance total exceeds the 64-bit range")
            } else {
                String::from_str("event does not match the current sync step")
            },
            _ => String::from_str("event does not match the current sync step"),
        };
        self.phase = Phase::Failed;
        self.outcome = message;
    }

    fn proceed(&mut self, e: Event, next: Phase)
        requires
            old(self).phase != Phase::Succeeded,
            old(self).phase != Phase::Failed,
            next != Phase::Failed,
            next != Phase::Succeeded,
        ensures
            final(self).phase == after_step(e, next),
            final(self).outcome@ == (if after_step(e, next) == Phase::Failed {
                failure_message(*old(self), e)
            } else {
                old(self).outcome@
            }),
            final(self).request == old(self).request,
            final(self).profile == old(self).profile,
            final(self).balance == old(self).balance,
    {
        match e {
            Event::Done => {
                self.phase = next;
            },
            other => {
                self.fail_with(other);
            },
        }
    }

    /// Feeds the outcome of the last action in and returns the next action.
    pub fn advance(&mut self, event: Event) -> (a: Action)
        ensures
            final(self).phase == next_phase(*old(self), event),
            final(self).outcome@ == next_outcome(*old(self), event),
            final(self).balance == next_balance(*old(self), event),
            final(self).request == old(self).request,
            final(self).profile == old(self).profile,
            is_action_of(*final(self), a),
    {
        match self.phase {
            Phase::Succeeded => {},
            Phase::Failed => {},
            Phase::CheckState => match event {
                Event::StateDirExists(exists) => {
                    self.phase = if exists {
                        Phase::ClearState
                    } else {
                        Phase::LoadConfig
                    };
                },
                other => self.fail_with(other),
            },
            Phase::ClearState => match event {
                Event::Done => self.phase = Phase::LoadConfig,
                Event::Failed(_) => self.phase = Phase::LoadConfig,
                other => self.fail_with(other),
            },
            Phase::LoadConfig => self.proceed(event, Phase::BuildWallet),
            Phase::BuildWallet => self.proceed(event, Phase::CreateClient),
            Phase::CreateClient => self.proceed(event, Phase::Rescan),
            Phase::Rescan => self.proceed(event, Phase::FetchBalance),
            Phase::FetchBalance => match event {
                Event::Balance { balances, text } => {
                    self.balance = Some((balances, text));
                    self.phase = Phase::FetchDetails;
                },
                other => self.fail_with(other),
            },
            Phase::FetchDetails => match event {
                Event::Details { server_info, addresses, transactions } => {
                    let report = match &self.balance {
                        Some(b) => Some(
                            WalletReport {
                                balances: b.0,
                                balance_text: b.1.clone(),
                                server_info,
                                addresses,
                                transactions,
                            },
                        ),
                        None => None,
                    };
                    match report {
                        Some(report) => match sync_payload(&report) {
                            Some(p) => {
                                self.outcome = p;
                                self.phase = Phase::Succeeded;
                            },
                            None => {
                                self.outcome = String::from_str(
                                    "wallet balance total exceeds the 64-bit range",
                                );
                                self.phase = Phase::Failed;
                            },
                        },
                        None => {
                            self.outcome = String::from_str(
                                "event does not match the current sync step",
                            );
                            self.phase = Phase::Failed;
                        },
                    }
                },
                other => self.fail_with(other),
            },
        }
        self.action()
    }
}

} // verus!
