//! The credentials of a wireless network.

use vstd::prelude::*;

verus! {

#[derive(Debug)]
pub struct Creds {
    pub ssid: String,
    pub psk: String,
}

impl Clone for Creds {
    fn clone(&self) -> (copy: Self)
        ensures
            copy == *self,
    {
        Self { ssid: self.ssid.clone(), psk: self.psk.clone() }
    }
}

impl Creds {
    pub fn new(ssid: String, psk: String) -> (creds: Self)
        ensures
            creds == (Creds { ssid, psk }),
    {
        Self { ssid, psk }
    }
}

} // verus!
