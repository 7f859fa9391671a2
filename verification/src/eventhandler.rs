//! The report that an event leaves in the device's log.

use vstd::prelude::*;
use vstd::string::StringExecFns;
use crate::events::{ApiEvent, Event};

verus! {

/// The line that reports `ae`.
pub open spec fn api_report(ae: ApiEvent) -> Seq<char> {
    match ae {
        ApiEvent::ConnectToWifi(creds) => "ssid: "@ + creds.ssid@ + ", psk: "@ + creds.psk@,
    }
}

/// The line that reports `e`.
pub open spec fn report(e: Event) -> Seq<char> {
    match e {
        Event::Api(ae) => api_report(ae),
    }
}

/// Writes the line that reports `e`, for the caller to print.
pub fn handle(e: Event) -> (line: String)
    ensures
        line@ == report(e),
{
    match e {
        Event::Api(ae) => handle_api(ae),
    }
}

fn handle_api(ae: ApiEvent) -> (line: String)
    ensures
        line@ == api_report(ae),
{
    match ae {
        ApiEvent::ConnectToWifi(creds) => {
            let mut line = String::from_str("ssid: ");
            line.append(creds.ssid.as_str());
            line.append(", psk: ");
            line.append(creds.psk.as_str());
            line
        },
    }
}

} // verus!
