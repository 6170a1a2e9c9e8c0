//! The Bitcoin network selector and its persisted text form.
use vstd::prelude::*;
use vstd::string::StrSliceExecFns;

verus! {

/// Which Bitcoin network the anchoring chain lives on. It affects address
/// encoding only.
#[derive(Clone, Copy, Debug, PartialEq, Eq, Structural)]
pub enum Network {
    Bitcoin,
    Testnet,
}

/// Failure to read a network from its persisted text form.
#[derive(Clone, Copy, Debug, PartialEq, Eq, Structural)]
pub enum NetworkError {
    /// The text is neither `"bitcoin"` nor `"testnet"`.
    InvalidNetworkLiteral,
}

/// The persisted literal of each network.
pub open spec fn network_literal(network: Network) -> Seq<char> {
    match network {
        Network::Bitcoin => "bitcoin"@,
        Network::Testnet => "testnet"@,
    }
}

/// Whether `text` is character for character equal to `lit`.
pub fn str_equals(text: &str, lit: &str) -> (r: bool)
    ensures
        r == (text@ == lit@),
{
    let n = text.unicode_len();
    if n != lit.unicode_len() {
        return false;
    }
    let mut i: usize = 0;
    while i < n
        invariant
            n == text@.len(),
            n == lit@.len(),
            i <= n,
            forall|j: int| 0 <= j < i ==> text@[j] == lit@[j],
        decreases n - i,
    {
        if text.get_char(i) != lit.get_char(i) {
            return false;
        }
        i = i + 1;
    }
    assert(text@ =~= lit@);
    true
}

/// The persisted literal of `network`.
pub fn btc_network_to_str(network: Network) -> (r: &'static str)
    ensures
        r@ == network_literal(network),
{
    match network {
        Network::Bitcoin => "bitcoin",
        Network::Testnet => "testnet",
    }
}

/// Reads a network from its persisted literal; any other text is rejected.
pub fn btc_network_from_str(text: &str) -> (r: Result<Network, NetworkError>)
    ensures
        r == Ok::<Network, NetworkError>(Network::Bitcoin) <==> text@ == "bitcoin"@,
        r == Ok::<Network, NetworkError>(Network::Testnet) <==> text@ == "testnet"@,
        r == Err::<Network, NetworkError>(NetworkError::InvalidNetworkLiteral) <==> (
        text@ != "bitcoin"@ && text@ != "testnet"@),
        r matches Ok(n) ==> network_literal(n) == text@,
{
    proof {
        reveal_strlit("bitcoin");
        reveal_strlit("testnet");
        assert("bitcoin"@[0] != "testnet"@[0]);
    }
    if str_equals(text, "bitcoin") {
        Ok(Network::Bitcoin)
    } else if str_equals(text, "testnet") {
        Ok(Network::Testnet)
    } else {
        Err(NetworkError::InvalidNetworkLiteral)
    }
}

} // verus!
