//! Where the two services are reached: local ports, and the address of the
//! one path on which each service takes its calls.

use crate::encode::{decimal, number};
use rand::Rng;
use vstd::prelude::*;
use vstd::string::StringExecFns;

verus! {

/// The lowest local port that is handed out.
pub const FIRST_LOCAL_PORT: u16 = 1024;

/// The address of the service that listens on the local port `port`.
pub open spec fn localhost_address(port: u16) -> Seq<char> {
    "http://127.0.0.1:"@ + decimal(port as nat) + "/json_rpc"@
}

/// The address of the service that listens on the local port `port`.
pub fn localhost_url(port: u16) -> (url: String)
    ensures
        url@ == localhost_address(port),
{
    let mut url = "http://127.0.0.1:".to_owned();
    let digits = number(port as u64);
    url.append(digits.as_str());
    url.append("/json_rpc");
    url
}

/// `rand::Rng::gen_range` on `rand::thread_rng()`: some number from `low`
/// up to, but not including, `high`. Which one is left open.
#[verifier::external_body]
fn random_between(low: u16, high: u16) -> (n: u16)
    requires
        low < high,
    ensures
        low <= n < high,
{
    rand::thread_rng().gen_range(low, high)
}

/// Two local ports picked at random, one for the daemon and one for the
/// wallet service. Each lies from 1024 up to, but not including, 65535;
/// nothing keeps the two apart.
pub fn random_local_ports() -> (ports: (u16, u16))
    ensures
        FIRST_LOCAL_PORT <= ports.0 < u16::MAX,
        FIRST_LOCAL_PORT <= ports.1 < u16::MAX,
{
    let daemon = random_between(FIRST_LOCAL_PORT, u16::MAX);
    let wallet = random_between(FIRST_LOCAL_PORT, u16::MAX);
    (daemon, wallet)
}

} // verus!
