//! Decision logic for a one-shot, watch-only light-wallet synchronisation:
//! network profile selection, the state-reset and sync session machine,
//! balance aggregation and the JSON payload handed back to the UI.
use vstd::prelude::*;
use vstd::string::StringExecFns;

pub mod amount;
pub mod profile;
pub mod report;
pub mod session;

pub use amount::{decimal_string, total_balance_zat, zec_string, PoolBalances, ZAT_PER_ZEC};
pub use profile::{select_profile, Chain, NetworkProfile};
pub use report::{debug_log, sync_payload, WalletReport};
pub use session::{Action, Event, Phase, SyncRequest, SyncSession};

verus! {

pub open spec fn greeting_text(name: Seq<char>) -> Seq<char> {
    "Hello, "@ + name + "! You've been greeted from Rust!"@
}

/// The greeting the UI shows for `name`.
pub fn greet(name: &str) -> (r: String)
    ensures
        r@ == greeting_text(name@),
{
    let mut s = String::from_str("Hello, ");
    s.append(name);
    s.append("! You've been greeted from Rust!");
    s
}

} // verus!
