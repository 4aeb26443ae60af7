//! The report writer's content: the ten summary fields rendered one value
//! per line, in a fixed order that downstream consumers rely on. Amounts
//! are rendered in bitcoin (integral part, then the fractional satoshis
//! with trailing zeros trimmed), the height in plain decimal. Persisting
//! the lines is the caller's business.

use vstd::prelude::*;
use vstd::arithmetic::div_mod::lemma_fundamental_div_mod;
use vstd::string::StringExecFns;

use crate::SATS_PER_BTC;
use crate::resolve::TransactionSummary;

verus! {

/// The character of one decimal digit.
pub open spec fn digit_char(d: int) -> char {
    if d == 0 {
        '0'
    } else if d == 1 {
        '1'
    } else if d == 2 {
        '2'
    } else if d == 3 {
        '3'
    } else if d == 4 {
        '4'
    } else if d == 5 {
        '5'
    } else if d == 6 {
        '6'
    } else if d == 7 {
        '7'
    } else if d == 8 {
        '8'
    } else {
        '9'
    }
}

/// The decimal rendering of `n`: most significant digit first, no leading
/// zeros, a single zero digit for zero.
pub open spec fn dec_chars(n: nat) -> Seq<char>
    decreases n,
{
    if n < 10 {
        seq![digit_char(n as int)]
    } else {
        dec_chars(n / 10) + seq![digit_char((n % 10) as int)]
    }
}

/// The decimal rendering of `n` padded with leading zeros to exactly
/// `width` digits (the low `width` digits of `n`).
pub open spec fn padded_chars(n: nat, width: nat) -> Seq<char>
    decreases width,
{
    if width == 0 {
        Seq::<char>::empty()
    } else {
        padded_chars(n / 10, (width - 1) as nat) + seq![digit_char((n % 10) as int)]
    }
}

/// `s` without its trailing zero characters.
pub open spec fn trim_zeros(s: Seq<char>) -> Seq<char>
    decreases s.len(),
{
    if s.len() > 0 && s.last() == '0' {
        trim_zeros(s.drop_last())
    } else {
        s
    }
}

/// Powers of ten.
pub open spec fn pow10(k: nat) -> nat
    decreases k,
{
    if k == 0 {
        1
    } else {
        10 * pow10((k - 1) as nat)
    }
}

/// A satoshi amount rendered in bitcoin: the integral part in decimal,
/// then, when fractional satoshis remain, a point and the eight-digit
/// fraction with its trailing zeros trimmed.
pub open spec fn btc_chars(sats: nat) -> Seq<char> {
    let whole = sats / (SATS_PER_BTC as nat);
    let frac = sats % (SATS_PER_BTC as nat);
    if frac == 0 {
        dec_chars(whole)
    } else {
        dec_chars(whole) + seq!['.'] + trim_zeros(padded_chars(frac, 8))
    }
}

/// The one-character string of one decimal digit.
fn digit_str(d: u64) -> (s: &'static str)
    requires
        d < 10,
    ensures
        s@ == seq![digit_char(d as int)],
{
    proof {
        reveal_strlit("0");
        reveal_strlit("1");
        reveal_strlit("2");
        reveal_strlit("3");
        reveal_strlit("4");
        reveal_strlit("5");
        reveal_strlit("6");
        reveal_strlit("7");
        reveal_strlit("8");
        reveal_strlit("9");
    }
    let s: &'static str = match d {
        0 => "0",
        1 => "1",
        2 => "2",
        3 => "3",
        4 => "4",
        5 => "5",
        6 => "6",
        7 => "7",
        8 => "8",
        _ => "9",
    };
    proof {
        assert(s@ =~= seq![digit_char(d as int)]);
    }
    s
}

/// Render `n` in decimal.
pub fn u64_to_string(n: u64) -> (s: String)
    ensures
        s@ == dec_chars(n as nat),
    decreases n,
{
    if n < 10 {
        digit_str(n).to_owned()
    } else {
        let mut s = u64_to_string(n / 10);
        s.append(digit_str(n % 10));
        s
    }
}

/// Render the low `width` digits of `n`, zero-padded to `width`.
fn padded_string(n: u64, width: u64) -> (s: String)
    ensures
        s@ == padded_chars(n as nat, width as nat),
    decreases width,
{
    if width == 0 {
        let s = String::new();
        proof {
            assert(s@ =~= padded_chars(n as nat, 0));
        }
        s
    } else {
        let mut s = padded_string(n / 10, width - 1);
        s.append(digit_str(n % 10));
        s
    }
}

proof fn lemma_pow10_8()
    ensures
        pow10(8) == SATS_PER_BTC,
{
    assert(pow10(0) == 1);
    assert(pow10(1) == 10);
    assert(pow10(2) == 100);
    assert(pow10(3) == 1000);
    assert(pow10(4) == 10000);
    assert(pow10(5) == 100000);
    assert(pow10(6) == 1000000);
    assert(pow10(7) == 10000000);
    assert(pow10(8) == 100000000);
}

/// Render a satoshi amount in bitcoin, as [`btc_chars`] says.
pub fn btc_string(sats: u64) -> (s: String)
    ensures
        s@ == btc_chars(sats as nat),
{
    let whole = sats / SATS_PER_BTC;
    let frac = sats % SATS_PER_BTC;
    let mut s = u64_to_string(whole);
    if frac != 0 {
        proof {
            reveal_strlit(".");
            assert("."@ =~= seq!['.']);
            lemma_pow10_8();
        }
        s.append(".");
        let mut f = frac;
        let mut width: u64 = 8;
        while f % 10 == 0
            invariant
                1 <= width <= 8,
                1 <= f,
                (f as nat) < pow10(width as nat),
                trim_zeros(padded_chars(frac as nat, 8)) == trim_zeros(
                    padded_chars(f as nat, width as nat),
                ),
            decreases width,
        {
            proof {
                lemma_fundamental_div_mod(f as int, 10);
                if width == 1 {
                    assert(pow10(0) == 1);
                    assert(pow10(1) == 10);
                    assert(false);
                }
                assert(pow10(width as nat) == 10 * pow10((width - 1) as nat));
                let tail = padded_chars(f as nat, width as nat);
                assert(tail == padded_chars((f / 10) as nat, (width - 1) as nat) + seq![
                    digit_char((f % 10) as int),
                ]);
                assert(tail.last() == '0');
                assert(tail.drop_last() =~= padded_chars((f / 10) as nat, (width - 1) as nat));
            }
            f = f / 10;
            width = width - 1;
        }
        proof {
            let tail = padded_chars(f as nat, width as nat);
            assert(tail == padded_chars((f / 10) as nat, (width - 1) as nat) + seq![
                digit_char((f % 10) as int),
            ]);
            assert(tail.last() != '0');
            assert(trim_zeros(tail) == tail);
        }
        let tail = padded_string(f, width);
        s.append(tail.as_str());
    }
    s
}

impl TransactionSummary {
    /// The report's lines, in the fixed order the downstream consumer
    /// relies on: txid, sender input address, sender input amount,
    /// recipient address, recipient output amount, change address, change
    /// amount, fee, block height, confirming block hash. Amounts in
    /// bitcoin, the height in decimal. This ordering is a compatibility
    /// contract and must not change.
    pub fn to_lines(&self) -> (lines: Vec<String>)
        ensures
            lines@.len() == 10,
            lines@[0]@ == self.txid@,
            lines@[1]@ == self.sender_address@,
            lines@[2]@ == btc_chars(self.sender_input_sats as nat),
            lines@[3]@ == self.recipient_address@,
            lines@[4]@ == btc_chars(self.recipient_output_sats as nat),
            lines@[5]@ == self.change_address@,
            lines@[6]@ == btc_chars(self.change_sats as nat),
            lines@[7]@ == btc_chars(self.fee_sats as nat),
            lines@[8]@ == dec_chars(self.block_height as nat),
            lines@[9]@ == self.block_hash@,
    {
        let mut lines: Vec<String> = Vec::new();
        lines.push(self.txid.clone());
        lines.push(self.sender_address.clone());
        lines.push(btc_string(self.sender_input_sats));
        lines.push(self.recipient_address.clone());
        lines.push(btc_string(self.recipient_output_sats));
        lines.push(self.change_address.clone());
        lines.push(btc_string(self.change_sats));
        lines.push(btc_string(self.fee_sats));
        lines.push(u64_to_string(self.block_height));
        lines.push(self.block_hash.clone());
        lines
    }
}

} // verus!
