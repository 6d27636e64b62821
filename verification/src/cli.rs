//! Command-line facing values: the argument record and the network-name
//! parser. Reading the arguments themselves is the surrounding layer's job.

use vstd::prelude::*;
use vstd::string::StringExecFns;
use crate::error::AppError;
use crate::types::Network;

verus! {

/// The run's command-line arguments.
pub struct CliArgs {
    /// Path of the JSON run description.
    pub input_file: String,
    /// Path the raw transaction hex is written to.
    pub output_file: String,
    /// Network name: `bitcoin`, `mainnet`, `testnet` or `regtest`.
    pub network: String,
}

/// `b` is `a` folded to lower case, where folding turns an ASCII capital
/// into its small letter and leaves every other character as it is.
pub open spec fn char_lower_eq(a: char, b: char) -> bool {
    a as u32 == b as u32 || (65 <= a as u32 && a as u32 <= 90 && a as u32 + 32 == b as u32)
}

/// The string `s`, folded to ASCII lower case, spells the keyword `kw`.
pub open spec fn lower_matches(s: Seq<char>, kw: Seq<char>) -> bool {
    s.len() == kw.len() && (forall|i: int|
        0 <= i < s.len() ==> char_lower_eq(s[i], #[trigger] kw[i]))
}

/// The network a name denotes, if any.
pub open spec fn spec_network_of(s: Seq<char>) -> Option<Network> {
    if lower_matches(s, "bitcoin"@) || lower_matches(s, "mainnet"@) {
        Some(Network::Bitcoin)
    } else if lower_matches(s, "testnet"@) {
        Some(Network::Testnet)
    } else if lower_matches(s, "regtest"@) {
        Some(Network::Regtest)
    } else {
        None
    }
}

fn char_matches_lower(a: char, b: char) -> (r: bool)
    ensures
        r == char_lower_eq(a, b),
{
    let ua = a as u32;
    let ub = b as u32;
    ua == ub || (65 <= ua && ua <= 90 && ua + 32 == ub)
}

fn str_lower_matches(s: &str, kw: &str) -> (r: bool)
    ensures
        r == lower_matches(s@, kw@),
{
    let n = s.unicode_len();
    if n != kw.unicode_len() {
        return false;
    }
    let mut i: usize = 0;
    while i < n
        invariant
            n == s@.len(),
            n == kw@.len(),
            i <= n,
            forall|j: int| 0 <= j < i ==> char_lower_eq(s@[j], #[trigger] kw@[j]),
        decreases n - i,
    {
        if !char_matches_lower(s.get_char(i), kw.get_char(i)) {
            return false;
        }
        i = i + 1;
    }
    true
}

/// Turn a network name into the network it denotes, accepting any ASCII
/// case. An unknown name is an input-validation failure naming the value.
pub fn parse_network(network_str: &str) -> (r: Result<Network, AppError>)
    ensures
        r matches Ok(n) ==> spec_network_of(network_str@) == Some(n),
        r is Err <==> spec_network_of(network_str@) is None,
        r matches Err(e) ==> (e matches AppError::InputValidation(m) && m@ == "invalid network: "@
            + network_str@),
{
    if str_lower_matches(network_str, "bitcoin") || str_lower_matches(network_str, "mainnet") {
        Ok(Network::Bitcoin)
    } else if str_lower_matches(network_str, "testnet") {
        Ok(Network::Testnet)
    } else if str_lower_matches(network_str, "regtest") {
        Ok(Network::Regtest)
    } else {
        let mut m = "invalid network: ".to_owned();
        m.append(network_str);
        Err(AppError::InputValidation(m))
    }
}

} // verus!
