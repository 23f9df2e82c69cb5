use vstd::prelude::*;
use vstd::string::StringExecFns;

verus! {

/// Base units ("zat") in one whole coin.
pub const ZAT_PER_ZEC: u64 = 100_000_000;

/// Balance of account 0 per shielded pool, as the wallet engine reports it.
/// A pool the engine has no figure for is `None`.
#[derive(Clone, Copy, Debug, PartialEq, Eq, Structural)]
pub struct PoolBalances {
    pub confirmed_orchard: Option<u64>,
    pub unconfirmed_orchard: Option<u64>,
    pub confirmed_sapling: Option<u64>,
    pub unconfirmed_sapling: Option<u64>,
}

/// An absent figure counts as zero.
pub open spec fn zat_or_zero(z: Option<u64>) -> nat {
    match z {
        Some(v) => v as nat,
        None => 0,
    }
}

/// Confirmed plus unconfirmed balance over both shielded pools.
pub open spec fn total_zat(b: PoolBalances) -> nat {
    zat_or_zero(b.confirmed_orchard) + zat_or_zero(b.unconfirmed_orchard) + zat_or_zero(
        b.confirmed_sapling,
    ) + zat_or_zero(b.unconfirmed_sapling)
}

fn add_zat(acc: u64, z: Option<u64>) -> (r: Option<u64>)
    ensures
        acc + zat_or_zero(z) <= u64::MAX ==> r == Some((acc + zat_or_zero(z)) as u64),
        acc + zat_or_zero(z) > u64::MAX ==> r is None,
{
    match z {
        Some(v) => acc.checked_add(v),
        None => Some(acc),
    }
}

/// Sums the four pool figures, absent ones as zero; `None` only where the sum
/// does not fit in 64 bits.
pub fn total_balance_zat(b: &PoolBalances) -> (r: Option<u64>)
    ensures
        total_zat(*b) <= u64::MAX ==> r == Some(total_zat(*b) as u64),
        total_zat(*b) > u64::MAX ==> r is None,
{
    let a = match add_zat(0, b.confirmed_orchard) {
        Some(a) => a,
        None => return None,
    };
    let a = match add_zat(a, b.unconfirmed_orchard) {
        Some(a) => a,
        None => return None,
    };
    let a = match add_zat(a, b.confirmed_sapling) {
        Some(a) => a,
        None => return None,
    };
    add_zat(a, b.unconfirmed_sapling)
}

/// The decimal digit `d` as text.
pub open spec fn digit_text(d: nat) -> Seq<char> {
    if d == 0 {
        "0"@
    } else if d == 1 {
        "1"@
    } else if d == 2 {
        "2"@
    } else if d == 3 {
        "3"@
    } else if d == 4 {
        "4"@
    } else if d == 5 {
        "5"@
    } else if d == 6 {
        "6"@
    } else if d == 7 {
        "7"@
    } else if d == 8 {
        "8"@
    } else {
        "9"@
    }
}

/// `n` in decimal, without leading zeros.
pub open spec fn decimal_text(n: nat) -> Seq<char>
    decreases n,
{
    if n < 10 {
        digit_text(n)
    } else {
        decimal_text(n / 10) + digit_text(n % 10)
    }
}

/// The last `width` decimal digits of `n`, padded with leading zeros.
pub open spec fn padded_text(n: nat, width: nat) -> Seq<char>
    decreases width,
{
    if width == 0 {
        Seq::empty()
    } else {
        padded_text(n / 10, (width - 1) as nat) + digit_text(n % 10)
    }
}

/// `zat` in whole coins, exactly: the whole part, a point and eight digits.
pub open spec fn zec_text(zat: nat) -> Seq<char> {
    decimal_text(zat / ZAT_PER_ZEC as nat) + "."@ + padded_text(zat % ZAT_PER_ZEC as nat, 8)
}

fn digit_string(d: u64) -> (r: String)
    requires
        d < 10,
    ensures
        r@ == digit_text(d as nat),
{
    if d == 0 {
        String::from_str("0")
    } else if d == 1 {
        String::from_str("1")
    } else if d == 2 {
        String::from_str("2")
    } else if d == 3 {
        String::from_str("3")
    } else if d == 4 {
        String::from_str("4")
    } else if d == 5 {
        String::from_str("5")
    } else if d == 6 {
        String::from_str("6")
    } else if d == 7 {
        String::from_str("7")
    } else if d == 8 {
        String::from_str("8")
    } else {
        String::from_str("9")
    }
}

/// Renders `n` in decimal.
pub fn decimal_string(n: u64) -> (r: String)
    ensures
        r@ == decimal_text(n as nat),
    decreases n,
{
    if n < 10 {
        digit_string(n)
    } else {
        let mut s = decimal_string(n / 10);
        let d = digit_string(n % 10);
        s.append(d.as_str());
        s
    }
}

fn padded_string(n: u64, width: u64) -> (r: String)
    ensures
        r@ == padded_text(n as nat, width as nat),
    decreases width,
{
    if width == 0 {
        String::new()
    } else {
        let mut s = padded_string(n / 10, width - 1);
        let d = digit_string(n % 10);
        s.append(d.as_str());
        s
    }
}

/// Renders `zat` base units as whole coins, exactly, with eight fraction
/// digits (8000 gives `0.00008000`). The text is also a JSON number.
pub fn zec_string(zat: u64) -> (r: String)
    ensures
        r@ == zec_text(zat as nat),
{
    let mut s = decimal_string(zat / ZAT_PER_ZEC);
    s.append(".");
    let frac = padded_string(zat % ZAT_PER_ZEC, 8);
    s.append(frac.as_str());
    s
}

} // verus!
