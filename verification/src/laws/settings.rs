//! What the environment settles.
use vstd::prelude::*;

use crate::config::{
    listen_address, listen_port, local_ip_best_effort, master_url, parse_port,
};
use crate::text::decimal_text;

verus! {

/// The master listens on the port that `MASTER_PORT` names, and on 7000 where
/// it is not set or names none.
pub proof fn law_listen_port(
    master_port: Option<String>,
    r: u16,
    text: &str,
    named: Option<u16>,
)
    requires
        call_ensures(listen_port, (master_port,), r),
        call_ensures(parse_port, (text,), named),
        master_port matches Some(s) ==> s@ == text@,
    ensures
        master_port is None ==> r == 7000,
        master_port is Some && named is None ==> r == 7000,
        master_port is Some ==> (named matches Some(port) ==> r == port),
{
}

/// The master listens on every interface, on the port that it is given.
pub proof fn law_listen_address(port: u16, r: String, digits: String)
    requires
        call_ensures(listen_address, (port,), r),
        call_ensures(decimal_text, (port as u64,), digits),
    ensures
        r@ == "0.0.0.0:"@ + digits@,
{
}

/// A detected address counts, and the loopback address where none was.
pub proof fn law_local_ip(detected: Option<String>, r: String)
    requires
        call_ensures(local_ip_best_effort, (detected,), r),
    ensures
        detected matches Some(ip) ==> r@ == ip@,
        detected is None ==> r@ == "127.0.0.1"@,
{
}

/// An advertised URL is taken as it is. Otherwise managers are sent to the
/// address of this host and the port that is listened on.
pub proof fn law_master_url(
    advertised: Option<String>,
    detected: Option<String>,
    port: u16,
    r: String,
    ip: String,
    digits: String,
)
    requires
        call_ensures(master_url, (advertised, detected, port), r),
        call_ensures(local_ip_best_effort, (detected,), ip),
        call_ensures(decimal_text, (port as u64,), digits),
    ensures
        advertised matches Some(url) ==> r@ == url@,
        advertised is None ==> r@ == "http://"@ + ip@ + ":"@ + digits@,
{
}

} // verus!
