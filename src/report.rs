use vstd::prelude::*;
use vstd::string::StringExecFns;

use crate::amount::{
    decimal_string, decimal_text, total_balance_zat, total_zat, zec_string, zec_text,
    PoolBalances,
};

verus! {

/// What the wallet engine reported after a completed rescan, already rendered
/// to text where the engine owns the format.
#[derive(Clone, Debug)]
pub struct WalletReport {
    pub balances: PoolBalances,
    /// The engine's own rendering of the balance breakdown.
    pub balance_text: String,
    /// The server's status text.
    pub server_info: String,
    /// The wallet's receiving addresses, as indented JSON.
    pub addresses: String,
    /// The engine's rendering of the transaction summaries.
    pub transactions: String,
}

/// `s` as a JSON string literal, as serde_json writes it.
pub uninterp spec fn json_quoted(s: Seq<char>) -> Seq<char>;

/// Relies on serde_json: `Value::from(&str)` builds `Value::String`, and the
/// `Display` of a `Value` writes it as compact JSON, quoted and escaped.
#[verifier::external_body]
fn json_string(s: &str) -> (r: String)
    ensures
        r@ == json_quoted(s@),
{
    serde_json::Value::from(s).to_string()
}

/// The multi-section diagnostic transcript shown in the UI's raw view.
pub open spec fn debug_log_text(
    server_info: Seq<char>,
    addresses: Seq<char>,
    balance: Seq<char>,
    transactions: Seq<char>,
) -> Seq<char> {
    "\u{1F50D} DEBUG INFO:\n\n\u{1F30D} Server:\n"@ + server_info + "\n\n\u{1F4CD} My Address:\n"@
        + addresses + "\n\n\u{1F4B0} Balance:\n"@ + balance + "\n\n\u{1F4DC} Transactions:\n"@
        + transactions
}

/// Builds the diagnostic transcript from its four sections.
pub fn debug_log(server_info: &str, addresses: &str, balance: &str, transactions: &str) -> (r:
    String)
    ensures
        r@ == debug_log_text(server_info@, addresses@, balance@, transactions@),
{
    let mut s = String::from_str("\u{1F50D} DEBUG INFO:\n\n\u{1F30D} Server:\n");
    s.append(server_info);
    s.append("\n\n\u{1F4CD} My Address:\n");
    s.append(addresses);
    s.append("\n\n\u{1F4B0} Balance:\n");
    s.append(balance);
    s.append("\n\n\u{1F4DC} Transactions:\n");
    s.append(transactions);
    s
}

/// One `"key":value` member of a JSON object; `value` is already JSON text.
pub open spec fn member_text(m: (Seq<char>, Seq<char>)) -> Seq<char> {
    "\""@ + m.0 + "\":"@ + m.1
}

/// The members, separated by commas.
pub open spec fn members_text(ms: Seq<(Seq<char>, Seq<char>)>) -> Seq<char>
    decreases ms.len(),
{
    if ms.len() == 0 {
        Seq::empty()
    } else if ms.len() == 1 {
        member_text(ms[0])
    } else {
        members_text(ms.drop_last()) + ","@ + member_text(ms.last())
    }
}

/// A compact JSON object with the given members, in order.
pub open spec fn object_text(ms: Seq<(Seq<char>, Seq<char>)>) -> Seq<char> {
    "{"@ + members_text(ms) + "}"@
}

pub open spec fn member_views(ms: Seq<(String, String)>) -> Seq<(Seq<char>, Seq<char>)> {
    ms.map_values(|m: (String, String)| (m.0@, m.1@))
}

/// Writes a compact JSON object; each key must need no escaping and each
/// value must already be JSON text.
fn json_object(members: &Vec<(String, String)>) -> (r: String)
    ensures
        r@ == object_text(member_views(members@)),
{
    let ghost ms = member_views(members@);
    let mut s = String::from_str("{");
    let mut i: usize = 0;
    while i < members.len()
        invariant
            i <= members.len(),
            ms == member_views(members@),
            s@ == "{"@ + members_text(ms.take(i as int)),
        decreases members.len() - i,
    {
        if i > 0 {
            s.append(",");
        }
        s.append("\"");
        s.append(members[i].0.as_str());
        s.append("\":");
        s.append(members[i].1.as_str());
        proof {
            let t = ms.take(i + 1);
            assert(t.drop_last() =~= ms.take(i as int));
            assert(t.last() == ms[i as int]);
        }
        i = i + 1;
    }
    assert(ms.take(i as int) =~= ms);
    s.append("}");
    s
}

/// The five keys of the payload, in order.
pub open spec fn payload_keys() -> Seq<Seq<char>> {
    seq!["balance_zat"@, "balance_zec"@, "sync_height"@, "history_raw"@, "pretty_log"@]
}

/// The payload's members for a total of `total` base units: the total, the
/// same in whole coins, the server status (as the sync height), the
/// transaction summaries and the diagnostic transcript.
pub open spec fn payload_members(total: nat, r: WalletReport) -> Seq<(Seq<char>, Seq<char>)> {
    seq![
        ("balance_zat"@, decimal_text(total)),
        ("balance_zec"@, zec_text(total)),
        ("sync_height"@, json_quoted(r.server_info@)),
        ("history_raw"@, json_quoted(r.transactions@)),
        (
            "pretty_log"@,
            json_quoted(
                debug_log_text(r.server_info@, r.addresses@, r.balance_text@, r.transactions@),
            ),
        ),
    ]
}

/// The JSON payload for a report whose balance total fits in 64 bits.
pub open spec fn payload_text(r: WalletReport) -> Seq<char> {
    object_text(payload_members(total_zat(r.balances), r))
}

/// Aggregates a report into the JSON payload returned to the UI; `None` only
/// where the balance total does not fit in 64 bits.
pub fn sync_payload(report: &WalletReport) -> (r: Option<String>)
    ensures
        total_zat(report.balances) <= u64::MAX <==> r is Some,
        r matches Some(p) ==> p@ == payload_text(*report),
{
    let total = match total_balance_zat(&report.balances) {
        Some(t) => t,
        None => return None,
    };
    let log = debug_log(
        report.server_info.as_str(),
        report.addresses.as_str(),
        report.balance_text.as_str(),
        report.transactions.as_str(),
    );
    let mut members: Vec<(String, String)> = Vec::new();
    members.push((String::from_str("balance_zat"), decimal_string(total)));
    members.push((String::from_str("balance_zec"), zec_string(total)));
    members.push((String::from_str("sync_height"), json_string(report.server_info.as_str())));
    members.push((String::from_str("history_raw"), json_string(report.transactions.as_str())));
    members.push((String::from_str("pretty_log"), json_string(log.as_str())));
    let p = json_object(&members);
    assert(member_views(members@) =~= payload_members(total as nat, *report));
    Some(p)
}

/// Whenever a payload is produced, it is a JSON object with exactly five
/// members, under five distinct fixed keys, however many transactions or
/// addresses the report holds (none included).
pub proof fn lemma_payload_has_fixed_keys(r: WalletReport)
    requires
        total_zat(r.balances) <= u64::MAX,
    ensures
        ({
            let ms = payload_members(total_zat(r.balances), r);
            &&& payload_text(r) == object_text(ms)
            &&& ms.len() == 5
            &&& forall|i: int| 0 <= i < 5 ==> #[trigger] ms[i].0 == payload_keys()[i]
            &&& forall|i: int, j: int|
                0 <= i < j < 5 ==> #[trigger] payload_keys()[i] != #[trigger] payload_keys()[j]
        }),
{
    reveal_strlit("balance_zat");
    reveal_strlit("balance_zec");
    reveal_strlit("sync_height");
    reveal_strlit("history_raw");
    reveal_strlit("pretty_log");
    let k = payload_keys();
    assert(k[0][9] != k[1][9]);
    assert(k[0][0] != k[2][0]);
    assert(k[0][0] != k[3][0]);
    assert(k[0].len() != k[4].len());
    assert(k[1][0] != k[2][0]);
    assert(k[1][0] != k[3][0]);
    assert(k[1].len() != k[4].len());
    assert(k[2][0] != k[3][0]);
    assert(k[2].len() != k[4].len());
    assert(k[3].len() != k[4].len());
}

} // verus!
