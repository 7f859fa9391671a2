//! What is to be done about an event that came in over the device's API.

use vstd::prelude::*;
use crate::events::wifi::Creds;
use crate::events::ApiEvent;

verus! {

/// What the device has to do next.
pub enum ApiCommand {
    /// Keep the credentials in the store, whether or not that succeeds, and
    /// then join the network as a client.
    StoreAndConnect(Creds),
}

#[derive(Clone, Copy, Debug, PartialEq, Eq, Structural)]
pub enum ApiError {
    WifiNotInitialized,
}

impl ApiError {
    /// The error in words.
    pub fn message(&self) -> (text: &'static str)
        ensures
            text@ == "wifi not initialized"@,
    {
        "wifi not initialized"
    }
}

/// Decides on API events. It knows of the device only whether its wireless
/// interface has been brought up.
pub struct ApiEventHandler {
    pub wifi_initialized: bool,
}

impl ApiEventHandler {
    /// The answer to `ae`: an event that needs the wireless interface is
    /// refused while there is none.
    pub open spec fn answer(self, ae: ApiEvent) -> Result<ApiCommand, ApiError> {
        match ae {
            ApiEvent::ConnectToWifi(creds) => if self.wifi_initialized {
                Ok(ApiCommand::StoreAndConnect(creds))
            } else {
                Err(ApiError::WifiNotInitialized)
            },
        }
    }

    pub fn new(wifi_initialized: bool) -> (handler: Self)
        ensures
            handler.wifi_initialized == wifi_initialized,
    {
        Self { wifi_initialized }
    }

    pub fn handle(&self, ae: ApiEvent) -> (res: Result<ApiCommand, ApiError>)
        ensures
            res == self.answer(ae),
    {
        match ae {
            ApiEvent::ConnectToWifi(creds) => {
                if self.wifi_initialized {
                    Ok(ApiCommand::StoreAndConnect(creds))
                } else {
                    Err(ApiError::WifiNotInitialized)
                }
            },
        }
    }
}

} // verus!
