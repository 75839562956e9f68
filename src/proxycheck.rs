//! Address reputation: how an answer of the reputation service is read, and
//! when an address counts as a risk.

use vstd::prelude::*;
use crate::text::i64_text;

verus! {

/// The reputation of one address.
#[derive(Debug)]
pub struct ProxyCheckIpResponse {
    pub proxy: String,
    pub ip_type: Option<String>,
    pub provider: Option<String>,
    pub risk: i32,
}

/// The status of a reputation answer: `ok`, `warning`, `denied`, `error`.
#[derive(Debug, Clone, Copy, PartialEq, Eq, Structural)]
pub enum ProxyCheckStatus {
    Success,
    Warning,
    Denied,
    Failure,
}

/// Why no reputation was had.
#[derive(Debug)]
pub enum ProxyCheckError {
    /// The request failed; the words of the failure.
    Transport(String),
    /// The service answered without the address's reputation.
    ProxyCheck(String),
}

pub open spec fn is_proxy(r: ProxyCheckIpResponse) -> bool {
    r.proxy@ == "yes"@
}

pub open spec fn is_vpn(r: ProxyCheckIpResponse) -> bool {
    match r.ip_type {
        Some(t) => t@ == "VPN"@,
        None => false,
    }
}

/// An address is a risk when it is a proxy that is not a VPN, a proxy with a
/// risk over 33, or anything with a risk over 66.
pub open spec fn risky(r: ProxyCheckIpResponse) -> bool {
    (is_proxy(r) && !is_vpn(r)) || (is_proxy(r) && r.risk > 33) || r.risk > 66
}

pub open spec fn bool_text(b: bool) -> Seq<char> {
    if b { "true"@ } else { "false"@ }
}

fn bool_string(b: bool) -> (r: String)
    ensures
        r@ == bool_text(b),
{
    if b { String::from_str("true") } else { String::from_str("false") }
}

impl ProxyCheckIpResponse {
    /// Whether the address is judged risky.
    pub fn is_risk(&self) -> (r: bool)
        ensures
            r == risky(*self),
    {
        let yes = String::from_str("yes");
        let proxy = self.proxy == yes;
        let vpn = match &self.ip_type {
            Some(t) => {
                let v = String::from_str("VPN");
                *t == v
            },
            None => false,
        };
        (proxy && !vpn) || (proxy && self.risk > 33) || self.risk > 66
    }

    /// `Proxy : {proxy}, VPN : {vpn}, Risk : {risk}`.
    pub fn describe(&self) -> (r: String)
        ensures
            r@ == "Proxy : "@ + bool_text(is_proxy(*self)) + ", VPN : "@ + bool_text(is_vpn(*self))
                + ", Risk : "@ + crate::text::decimal_text(self.risk as int),
    {
        let yes = String::from_str("yes");
        let proxy = self.proxy == yes;
        let vpn = match &self.ip_type {
            Some(t) => {
                let v = String::from_str("VPN");
                *t == v
            },
            None => false,
        };
        let p = bool_string(proxy);
        let v = bool_string(vpn);
        let k = i64_text(self.risk as i64);
        String::from_str("Proxy : ").concat(p.as_str()).concat(", VPN : ").concat(v.as_str()).concat(", Risk : ").concat(k.as_str())
    }
}

/// Reads a reputation answer: `found` is the entry for the address asked
/// about, if the answer has one. An `ok` or `warning` answer with that entry
/// gives it; a `warning` without it gives the answer's message when there is
/// one; `denied` and `error` give the answer's message.
pub fn resolve_answer(status: ProxyCheckStatus, message: Option<String>, found: Option<ProxyCheckIpResponse>) -> (r: Result<ProxyCheckIpResponse, ProxyCheckError>)
    ensures
        (status == ProxyCheckStatus::Success || status == ProxyCheckStatus::Warning) && found is Some ==> r == Ok::<ProxyCheckIpResponse, ProxyCheckError>(found.unwrap()),
        status == ProxyCheckStatus::Success && found is None ==> r is Err && r->Err_0 is ProxyCheck
            && r->Err_0->ProxyCheck_0@ == "Provided ip was not found in result"@,
        status == ProxyCheckStatus::Warning && found is None ==> r is Err && r->Err_0 is ProxyCheck
            && r->Err_0->ProxyCheck_0@ == match message {
                Some(m) => m@,
                None => "Provided ip was not found in result, proxycheck.io added a warning about this query but no message was given"@,
            },
        status == ProxyCheckStatus::Denied || status == ProxyCheckStatus::Failure ==> r is Err && r->Err_0 is ProxyCheck
            && r->Err_0->ProxyCheck_0@ == match message {
                Some(m) => m@,
                None => "No message"@,
            },
{
    match status {
        ProxyCheckStatus::Success => match found {
            Some(f) => Ok(f),
            None => Err(ProxyCheckError::ProxyCheck(String::from_str("Provided ip was not found in result"))),
        },
        ProxyCheckStatus::Warning => match found {
            Some(f) => Ok(f),
            None => match message {
                Some(m) => Err(ProxyCheckError::ProxyCheck(m)),
                None => Err(ProxyCheckError::ProxyCheck(String::from_str(
                    "Provided ip was not found in result, proxycheck.io added a warning about this query but no message was given",
                ))),
            },
        },
        ProxyCheckStatus::Denied | ProxyCheckStatus::Failure => match message {
            Some(m) => Err(ProxyCheckError::ProxyCheck(m)),
            None => Err(ProxyCheckError::ProxyCheck(String::from_str("No message"))),
        },
    }
}

} // verus!
