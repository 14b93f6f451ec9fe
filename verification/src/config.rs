//! The settings of the backend process, resolved from what its environment
//! holds and the defaults.

use crate::text::text_of;
use vstd::prelude::*;

verus! {

/// The port that is listened on where none is given or the one given is no
/// port number.
pub const DEFAULT_PORT: u16 = 8000;

/// Whether the character is a decimal digit.
pub open spec fn is_digit(c: char) -> bool {
    '0' <= c <= '9'
}

/// The number that a sequence of decimal digits denotes.
pub open spec fn decimal(digits: Seq<char>) -> nat
    decreases digits.len(),
{
    if digits.len() == 0 {
        0
    } else {
        (decimal(digits.drop_last()) * 10 + (digits.last() as nat - '0' as nat)) as nat
    }
}

/// The text without the plus sign that may lead it.
pub open spec fn unsigned_part(text: Seq<char>) -> Seq<char> {
    if text.len() > 0 && text[0] == '+' {
        text.skip(1)
    } else {
        text
    }
}

/// The port number that a text denotes: an optional plus sign, then one or
/// more decimal digits and nothing else, of a value that a port can have.
pub open spec fn port_of_text(text: Seq<char>) -> Option<u16> {
    let digits = unsigned_part(text);
    if digits.len() > 0 && (forall|i: int| 0 <= i < digits.len() ==> is_digit(#[trigger] digits[i]))
        && decimal(digits) <= u16::MAX {
        Some(decimal(digits) as u16)
    } else {
        None
    }
}

/// A longer sequence of digits denotes no smaller number than its beginning.
proof fn decimal_grows(digits: Seq<char>, n: int)
    requires
        0 <= n <= digits.len(),
        forall|i: int| 0 <= i < digits.len() ==> is_digit(#[trigger] digits[i]),
    ensures
        decimal(digits.take(n)) <= decimal(digits),
    decreases digits.len() - n,
{
    if n < digits.len() {
        decimal_grows(digits, n + 1);
        let longer = digits.take(n + 1);
        assert(longer.drop_last() =~= digits.take(n));
        assert(longer.last() == digits[n]);
    } else {
        assert(digits.take(n) =~= digits);
    }
}

/// Reads a port number from a text.
pub fn parse_port(text: &str) -> (r: Option<u16>)
    ensures
        r == port_of_text(text@),
{
    let len = text.unicode_len();
    let start: usize = if len > 0 && text.get_char(0) == '+' {
        1
    } else {
        0
    };
    let ghost digits = unsigned_part(text@);
    assert(digits.len() == len - start);
    assert(forall|i: int| 0 <= i < digits.len() ==> digits[i] == text@[i + start]);
    if start == len {
        return None;
    }
    let mut value: u32 = 0;
    let mut i: usize = start;
    while i < len
        invariant
            start <= i <= len,
            len == text@.len(),
            digits == unsigned_part(text@),
            digits.len() == len - start,
            forall|j: int| 0 <= j < digits.len() ==> digits[j] == text@[j + start],
            forall|j: int| 0 <= j < i - start ==> is_digit(#[trigger] digits[j]),
            value == decimal(digits.take(i - start)),
            value <= u16::MAX,
        decreases len - i,
    {
        let c = text.get_char(i);
        if c < '0' || c > '9' {
            assert(!is_digit(digits[i - start]));
            return None;
        }
        let d: u32 = c as u32 - '0' as u32;
        let next: u32 = value * 10 + d;
        proof {
            let longer = digits.take(i - start + 1);
            assert(longer.drop_last() =~= digits.take(i - start));
            assert(longer.last() == c);
            assert(decimal(longer) == next);
        }
        if next > 65535 {
            proof {
                if forall|j: int| 0 <= j < digits.len() ==> is_digit(#[trigger] digits[j]) {
                    decimal_grows(digits, i - start + 1);
                }
            }
            return None;
        }
        value = next;
        i += 1;
    }
    assert(digits.take(i - start) =~= digits);
    Some(value as u16)
}

/// What the environment of the process holds for each setting, if anything.
#[derive(Clone, Debug)]
pub struct Environment {
    pub port: Option<String>,
    pub database_url: Option<String>,
    pub stellar_network: Option<String>,
    pub stellar_rpc_url: Option<String>,
    pub soroban_rpc_url: Option<String>,
    pub contract_donation_id: Option<String>,
    pub contract_escrow_id: Option<String>,
    pub contract_community_id: Option<String>,
    pub jwt_secret: Option<String>,
}

/// The settings of the backend process.
#[derive(Clone, Debug)]
pub struct Config {
    pub port: u16,
    pub database_url: String,
    pub stellar_network: String,
    pub stellar_rpc_url: String,
    pub soroban_rpc_url: String,
    pub contract_donation_id: String,
    pub contract_escrow_id: String,
    pub contract_community_id: String,
    pub jwt_secret: String,
}

/// The value that is held, or the default where none is.
pub open spec fn or_default(held: Option<Seq<char>>, default: Seq<char>) -> Seq<char> {
    match held {
        Some(t) => t,
        None => default,
    }
}

/// The port that a held text gives: the number it denotes, or the default
/// where nothing is held or the text denotes no port.
pub open spec fn port_or_default(held: Option<Seq<char>>) -> u16 {
    match held {
        Some(t) => match port_of_text(t) {
            Some(p) => p,
            None => DEFAULT_PORT,
        },
        None => DEFAULT_PORT,
    }
}

fn held_or(held: Option<String>, default: &str) -> (r: String)
    ensures
        r@ == or_default(text_of(held), default@),
{
    match held {
        Some(t) => t,
        None => default.to_owned(),
    }
}

impl Config {
    /// The settings that the environment gives: each value that it holds,
    /// and the default for each that it does not.
    pub fn from_values(env: Environment) -> (c: Config)
        ensures
            c.port == port_or_default(text_of(env.port)),
            c.database_url@ == or_default(text_of(env.database_url), "sqlite:./verida.db"@),
            c.stellar_network@ == or_default(text_of(env.stellar_network), "testnet"@),
            c.stellar_rpc_url@ == or_default(
                text_of(env.stellar_rpc_url),
                "https://horizon-testnet.stellar.org"@,
            ),
            c.soroban_rpc_url@ == or_default(
                text_of(env.soroban_rpc_url),
                "https://soroban-testnet.stellar.org"@,
            ),
            c.contract_donation_id@ == or_default(text_of(env.contract_donation_id), ""@),
            c.contract_escrow_id@ == or_default(text_of(env.contract_escrow_id), ""@),
            c.contract_community_id@ == or_default(text_of(env.contract_community_id), ""@),
            c.jwt_secret@ == or_default(text_of(env.jwt_secret), "verida-secret-key"@),
    {
        let port = match &env.port {
            Some(t) => match parse_port(t.as_str()) {
                Some(p) => p,
                None => DEFAULT_PORT,
            },
            None => DEFAULT_PORT,
        };
        Config {
            port,
            database_url: held_or(env.database_url, "sqlite:./verida.db"),
            stellar_network: held_or(env.stellar_network, "testnet"),
            stellar_rpc_url: held_or(env.stellar_rpc_url, "https://horizon-testnet.stellar.org"),
            soroban_rpc_url: held_or(env.soroban_rpc_url, "https://soroban-testnet.stellar.org"),
            contract_donation_id: held_or(env.contract_donation_id, ""),
            contract_escrow_id: held_or(env.contract_escrow_id, ""),
            contract_community_id: held_or(env.contract_community_id, ""),
            jwt_secret: held_or(env.jwt_secret, "verida-secret-key"),
        }
    }
}

} // verus!
