//! Where to connect: the host and port of the remote shell.

use vstd::prelude::*;
use crate::error::{Fault, OffloadError};
use crate::numeral::{decimal, lemma_decimal, port_at, port_number};
use crate::text::{
    chars_of, last_index, lemma_last_index_is, opt_text, rfind_char, text_between,
};

verus! {

/// The port of the remote shell when none is given.
pub const DEFAULT_PORT: u16 = 22;

/// The number written after the last colon of `s`, if what stands there is a
/// port numeral.
pub open spec fn inline_port(s: Seq<char>) -> Option<u16> {
    let colon = last_index(s, ':');
    if colon >= 0 {
        port_number(s.skip(colon + 1))
    } else {
        None
    }
}

/// The host named by `s`: what stands before the last colon when a port
/// numeral follows it, and all of `s` otherwise.
pub open spec fn host_part(s: Seq<char>) -> Seq<char> {
    if inline_port(s) is Some {
        s.take(last_index(s, ':'))
    } else {
        s
    }
}

/// The port to connect to: the flag, else the port written in `s`, else the
/// default.
pub open spec fn chosen_port(s: Seq<char>, flag: Option<u16>) -> u16 {
    match flag {
        Some(p) => p,
        None => match inline_port(s) {
            Some(p) => p,
            None => DEFAULT_PORT,
        },
    }
}

/// The host string to use: the flag, else the environment's fallback.
pub open spec fn chosen_host(flag: Option<Seq<char>>, fallback: Option<Seq<char>>) -> Option<
    Seq<char>,
> {
    if flag is Some {
        flag
    } else {
        fallback
    }
}

/// Where to connect, for the host string `s` and the port flag: the host
/// and the chosen port, unless that port is 0, which is no port.
pub open spec fn endpoint_of(s: Seq<char>, flag: Option<u16>) -> Result<(Seq<char>, u16), Fault> {
    if chosen_port(s, flag) == 0 {
        Err(Fault::InvalidPort)
    } else {
        Ok((host_part(s), chosen_port(s, flag)))
    }
}

/// Splits `[user@]host[:port]` into host and port. A port flag wins over a
/// port written in the string. A port of 0 is refused, wherever it comes
/// from.
pub fn resolve_endpoint(host: &str, port_flag: Option<u16>) -> (r: Result<
    (String, u16),
    OffloadError,
>)
    ensures
        match endpoint_of(host@, port_flag) {
            Ok(e) => r matches Ok(found) && found.0@ == e.0 && found.1 == e.1,
            Err(fault) => r matches Err(e) && e@ == fault,
        },
{
    let chars = chars_of(host);
    let mut end = chars.len();
    let mut port = DEFAULT_PORT;
    if let Some(colon) = rfind_char(&chars, ':') {
        if let Some(number) = port_at(&chars, colon + 1) {
            end = colon;
            port = number;
        }
    }
    if let Some(flag) = port_flag {
        port = flag;
    }
    if port == 0 {
        return Err(OffloadError::InvalidPort);
    }
    Ok((text_between(&chars, 0, end), port))
}

/// The host and port to connect to. The host comes from the flag or, failing
/// that, from the environment; with neither there is nothing to connect to.
pub fn parse_host_and_port(
    host_flag: Option<&String>,
    env_host: Option<&String>,
    port_flag: Option<u16>,
) -> (r: Result<(String, u16), OffloadError>)
    ensures
        match chosen_host(opt_text(host_flag), opt_text(env_host)) {
            Some(h) => match endpoint_of(h, port_flag) {
                Ok(e) => r matches Ok(found) && found.0@ == e.0 && found.1 == e.1,
                Err(fault) => r matches Err(e) && e@ == fault,
            },
            None => r matches Err(e) && e@ == Fault::MissingHost,
        },
{
    let host = match host_flag {
        Some(h) => h,
        None => match env_host {
            Some(h) => h,
            None => {
                return Err(OffloadError::MissingHost);
            },
        },
    };
    resolve_endpoint(host.as_str(), port_flag)
}

/// A host string that ends in a colon and the numeral of a port names that
/// port, and what stands before the colon as the host.
pub proof fn law_inline_port(prefix: Seq<char>, port: u16)
    ensures
        host_part(prefix + seq![':'] + decimal(port as nat)) == prefix,
        chosen_port(prefix + seq![':'] + decimal(port as nat), None) == port,
        port >= 1 ==> endpoint_of(prefix + seq![':'] + decimal(port as nat), None) == Ok::<
            (Seq<char>, u16),
            Fault,
        >((prefix, port)),
{
    let s = prefix + seq![':'] + decimal(port as nat);
    let colon = prefix.len() as int;
    lemma_decimal(port as nat);
    assert forall|j: int| colon < j < s.len() implies s[j] != ':' by {
        assert(s[j] == decimal(port as nat)[j - colon - 1]);
    }
    lemma_last_index_is(s, ':', colon);
    assert(s.skip(colon + 1) =~= decimal(port as nat));
    assert(s.take(colon) =~= prefix);
}

/// A port flag always wins over a port written in the host string, and
/// the written port is still taken off the host.
pub proof fn law_port_flag_wins(prefix: Seq<char>, port: u16, flag: u16)
    ensures
        chosen_port(prefix + seq![':'] + decimal(port as nat), Some(flag)) == flag,
        host_part(prefix + seq![':'] + decimal(port as nat)) == prefix,
        forall|s: Seq<char>| chosen_port(s, Some(flag)) == flag,
{
    law_inline_port(prefix, port);
}

/// Whatever is resolved has a port between 1 and 65535; a port of 0 is the
/// only reason to refuse a host string.
pub proof fn law_port_range(s: Seq<char>, flag: Option<u16>)
    ensures
        endpoint_of(s, flag) matches Ok(e) ==> 1 <= e.1 <= 65535,
        endpoint_of(s, flag) is Err <==> chosen_port(s, flag) == 0,
{
}

} // verus!
