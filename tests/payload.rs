use wallet_sync::{debug_log, greet, sync_payload, PoolBalances, WalletReport};

fn report(server_info: &str, addresses: &str, transactions: &str) -> WalletReport {
    WalletReport {
        balances: PoolBalances {
            confirmed_orchard: None,
            unconfirmed_orchard: Some(5000),
            confirmed_sapling: Some(3000),
            unconfirmed_sapling: None,
        },
        balance_text: "Balance { orchard: 5000 }".to_string(),
        server_info: server_info.to_string(),
        addresses: addresses.to_string(),
        transactions: transactions.to_string(),
    }
}

#[test]
fn greeting() {
    assert_eq!(greet("Ann"), "Hello, Ann! You've been greeted from Rust!");
    assert_eq!(greet(""), "Hello, ! You've been greeted from Rust!");
}

#[test]
fn debug_log_sections() {
    let log = debug_log("info", "[]", "bal", "txs");
    assert_eq!(
        log,
        "\u{1F50D} DEBUG INFO:\n\n\u{1F30D} Server:\ninfo\n\n\u{1F4CD} My Address:\n[]\n\n\u{1F4B0} Balance:\nbal\n\n\u{1F4DC} Transactions:\ntxs"
    );
}

#[test]
fn payload_exact_text() {
    let p = sync_payload(&report("h", "a", "t")).unwrap();
    let log = debug_log("h", "a", "Balance { orchard: 5000 }", "t");
    let expected = format!(
        "{{\"balance_zat\":8000,\"balance_zec\":0.00008000,\"sync_height\":\"h\",\"history_raw\":\"t\",\"pretty_log\":{}}}",
        serde_json::Value::from(log.as_str())
    );
    assert_eq!(p, expected);
}

#[test]
fn payload_escapes_text_fields() {
    let p = sync_payload(&report("line \"one\"\nline two", "[\n  \"addr\"\n]", "[]")).unwrap();
    assert!(p.contains("\"sync_height\":\"line \\\"one\\\"\\nline two\""));
    let v: serde_json::Value = serde_json::from_str(&p).unwrap();
    assert_eq!(v["sync_height"], "line \"one\"\nline two");
    assert_eq!(v["history_raw"], "[]");
    assert_eq!(v["balance_zat"], 8000);
    assert_eq!(v["balance_zec"].as_f64(), Some(0.00008));
    let log = debug_log("line \"one\"\nline two", "[\n  \"addr\"\n]", "Balance { orchard: 5000 }", "[]");
    assert_eq!(v["pretty_log"], log.as_str());
}

#[test]
fn payload_has_exactly_five_keys() {
    for (addresses, transactions) in [("", "[]"), ("[]", "[]"), ("[\"a\",\"b\"]", "[T1, T2, T3]")] {
        let p = sync_payload(&report("status", addresses, transactions)).unwrap();
        let v: serde_json::Value = serde_json::from_str(&p).unwrap();
        let obj = v.as_object().unwrap();
        let mut keys: Vec<&str> = obj.keys().map(|k| k.as_str()).collect();
        keys.sort();
        assert_eq!(keys, vec!["balance_zat", "balance_zec", "history_raw", "pretty_log", "sync_height"]);
    }
}

#[test]
fn payload_with_overflowing_total_is_none() {
    let mut r = report("s", "a", "t");
    r.balances.confirmed_orchard = Some(u64::MAX);
    assert!(sync_payload(&r).is_none());
}
