use vstd::prelude::*;
use vstd::string::*;

verus! {

/// The RPC endpoint that a network name or alias stands for; any other text is
/// taken to be an endpoint already.
pub open spec fn network_url(name: Seq<char>) -> Seq<char> {
    if name == "devnet"@ || name == "dev"@ || name == "d"@ {
        "https://api.devnet.solana.com"@
    } else if name == "mainnet"@ || name == "main"@ || name == "m"@ || name == "mainnet-beta"@ {
        "https://api.mainnet-beta.solana.com"@
    } else if name == "localnet"@ || name == "localhost"@ || name == "l"@ || name == "local"@ {
        "http://localhost:8899"@
    } else {
        name
    }
}

/// Character-wise equality of two strings.
pub(crate) fn str_equals(a: &str, b: &str) -> (r: bool)
    ensures
        r == (a@ == b@),
{
    let n = a.unicode_len();
    if n != b.unicode_len() {
        return false;
    }
    let mut i: usize = 0;
    while i < n
        invariant
            n == a@.len(),
            n == b@.len(),
            i <= n,
            forall|j: int| 0 <= j < i ==> a@[j] == b@[j],
        decreases n - i,
    {
        if a.get_char(i) != b.get_char(i) {
            return false;
        }
        i += 1;
    }
    assert(a@ =~= b@);
    true
}

/// Resolves a network name or alias to its RPC endpoint.
pub fn get_network<'a>(network_str: &'a str) -> (r: &'a str)
    ensures
        r@ == network_url(network_str@),
{
    if str_equals(network_str, "devnet") || str_equals(network_str, "dev") || str_equals(network_str, "d") {
        "https://api.devnet.solana.com"
    } else if str_equals(network_str, "mainnet") || str_equals(network_str, "main")
        || str_equals(network_str, "m") || str_equals(network_str, "mainnet-beta") {
        "https://api.mainnet-beta.solana.com"
    } else if str_equals(network_str, "localnet") || str_equals(network_str, "localhost")
        || str_equals(network_str, "l") || str_equals(network_str, "local") {
        "http://localhost:8899"
    } else {
        network_str
    }
}

} // verus!
