//! The events that the parts of the device send each other.

use vstd::prelude::*;
use self::wifi::Creds;

pub mod wifi;

verus! {

pub enum Event {
    Api(ApiEvent),
}

pub enum ApiEvent {
    ConnectToWifi(Creds),
}

} // verus!
