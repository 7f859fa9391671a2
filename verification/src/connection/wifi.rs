//! The configuration of the wireless interface as it follows from
//! credentials and from what a scan has found.

use vstd::prelude::*;
pub use crate::events::wifi::Creds;

verus! {

/// How a network is secured.
#[derive(Clone, Copy, Debug, PartialEq, Eq, Structural)]
pub enum AuthMethod {
    /// The network is open: it asks for no password.
    Open,
    WEP,
    WPA,
    WPA2Personal,
    WPAWPA2Personal,
    WPA2Enterprise,
    WPA3Personal,
    WPA2WPA3Personal,
    WAPIPersonal,
}

#[derive(Clone, Copy, Debug, PartialEq, Eq, Structural)]
pub enum CredentialError {
    /// The network name is empty.
    MissingName,
}

impl CredentialError {
    /// The error in words.
    pub fn message(&self) -> (text: &'static str)
        ensures
            text@ == "missing WiFi name"@,
    {
        "missing WiFi name"
    }
}

/// What a scan tells of one access point.
#[derive(Debug)]
pub struct AccessPointInfo {
    pub ssid: String,
    pub channel: u8,
    pub auth_method: AuthMethod,
}

/// The settings with which a network is joined.
#[derive(Debug)]
pub struct ClientSettings {
    pub ssid: String,
    pub password: String,
    pub auth_method: AuthMethod,
    pub channel: Option<u8>,
}

impl Clone for ClientSettings {
    fn clone(&self) -> (copy: Self)
        ensures
            copy == *self,
    {
        Self {
            ssid: self.ssid.clone(),
            password: self.password.clone(),
            auth_method: self.auth_method,
            channel: self.channel,
        }
    }
}

/// The settings with which an access point is opened.
#[derive(Debug)]
pub struct AccessPointSettings {
    pub ssid: String,
    pub password: String,
    pub auth_method: AuthMethod,
}

impl Clone for AccessPointSettings {
    fn clone(&self) -> (copy: Self)
        ensures
            copy == *self,
    {
        Self {
            ssid: self.ssid.clone(),
            password: self.password.clone(),
            auth_method: self.auth_method,
        }
    }
}

/// What is to be loaded into the wireless interface.
#[derive(Debug)]
pub enum WifiPlan {
    /// Neither role is wanted: the interface is stopped.
    Stop,
    Client(ClientSettings),
    AccessPoint(AccessPointSettings),
    Mixed(ClientSettings, AccessPointSettings),
}

/// The method to assume for a network of which only the password is
/// known: none for an empty password.
pub open spec fn assumed_auth(psk: Seq<char>, preset: AuthMethod) -> AuthMethod {
    if psk.len() == 0 {
        AuthMethod::Open
    } else {
        preset
    }
}

/// The first access point of the scan that carries the name.
pub open spec fn first_named(scan: Seq<AccessPointInfo>, ssid: Seq<char>) -> Option<
    AccessPointInfo,
>
    decreases scan.len(),
{
    if scan.len() == 0 {
        None
    } else if scan[0].ssid@ == ssid {
        Some(scan[0])
    } else {
        first_named(scan.drop_first(), ssid)
    }
}

/// The settings for joining the network of `creds` after a scan: channel
/// and method are taken from the first access point of that name, and
/// where there is none the channel is left open and the method assumed.
pub open spec fn client_settings_of(creds: Creds, scan: Seq<AccessPointInfo>) -> ClientSettings {
    match first_named(scan, creds.ssid@) {
        Some(ours) => ClientSettings {
            ssid: creds.ssid,
            password: creds.psk,
            auth_method: ours.auth_method,
            channel: Some(ours.channel),
        },
        None => ClientSettings {
            ssid: creds.ssid,
            password: creds.psk,
            auth_method: assumed_auth(creds.psk@, AuthMethod::WPAWPA2Personal),
            channel: None,
        },
    }
}

/// The settings for hosting with `creds`.
pub open spec fn access_point_settings_of(creds: Creds) -> AccessPointSettings {
    AccessPointSettings {
        ssid: creds.ssid,
        password: creds.psk,
        auth_method: assumed_auth(creds.psk@, AuthMethod::WPAWPA2Personal),
    }
}

/// Checks credentials before they are used. An empty name is refused. An
/// empty password turns the method to `Open`; otherwise the method stays
/// as the caller set it.
pub fn check_credentials(ssid: &str, psk: &str, auth_method: &mut AuthMethod) -> (res: Result<
    (),
    CredentialError,
>)
    ensures
        res is Ok <==> ssid@.len() > 0,
        res is Err ==> res == Err::<(), CredentialError>(CredentialError::MissingName),
        res is Err ==> *final(auth_method) == *old(auth_method),
        res is Ok ==> *final(auth_method) == assumed_auth(psk@, *old(auth_method)),
{
    if ssid.is_empty() {
        return Err(CredentialError::MissingName);
    }
    if psk.is_empty() {
        *auth_method = AuthMethod::Open;
    }
    Ok(())
}

/// Finds the first access point of the scan that carries the name.
pub fn find_named<'a>(scan: &'a Vec<AccessPointInfo>, ssid: &String) -> (found: Option<
    &'a AccessPointInfo,
>)
    ensures
        found is Some <==> first_named(scan@, ssid@) is Some,
        found matches Some(ours) ==> *ours == first_named(scan@, ssid@)->Some_0,
{
    let mut k: usize = 0;
    assert(scan@.subrange(0, scan@.len() as int) =~= scan@);
    while k < scan.len()
        invariant
            k <= scan@.len(),
            first_named(scan@, ssid@) == first_named(
                scan@.subrange(k as int, scan@.len() as int),
                ssid@,
            ),
        decreases scan@.len() - k,
    {
        let ghost rest = scan@.subrange(k as int, scan@.len() as int);
        assert(rest[0] == scan@[k as int]);
        if scan[k].ssid == *ssid {
            return Some(&scan[k]);
        }
        assert(rest.drop_first() =~= scan@.subrange(k as int + 1, scan@.len() as int));
        k += 1;
    }
    None
}

/// The wanted roles of the wireless interface: client, access point, both
/// or neither.
#[derive(Debug)]
pub struct Wlan {
    pub client: Option<ClientSettings>,
    pub ap: Option<AccessPointSettings>,
}

impl Wlan {
    /// What is to be loaded for these roles.
    pub open spec fn plan(self) -> WifiPlan {
        match (self.client, self.ap) {
            (None, None) => WifiPlan::Stop,
            (Some(c), None) => WifiPlan::Client(c),
            (None, Some(ap)) => WifiPlan::AccessPoint(ap),
            (Some(c), Some(ap)) => WifiPlan::Mixed(c, ap),
        }
    }

    /// No role is wanted yet.
    pub fn start() -> (wlan: Self)
        ensures
            wlan.client is None,
            wlan.ap is None,
    {
        Self { client: None, ap: None }
    }

    /// Works out what is to be loaded into the interface.
    pub fn load_cfg(&self) -> (plan: WifiPlan)
        ensures
            plan == self.plan(),
    {
        match (&self.client, &self.ap) {
            (None, None) => WifiPlan::Stop,
            (Some(c), None) => WifiPlan::Client(c.clone()),
            (None, Some(ap)) => WifiPlan::AccessPoint(ap.clone()),
            (Some(c), Some(ap)) => WifiPlan::Mixed(c.clone(), ap.clone()),
        }
    }

    /// Takes on the client role for the network of `creds`, with what the
    /// scan has found of it, and returns what is to be loaded. Credentials
    /// without a name are refused and change nothing.
    pub fn connect_to(&mut self, creds: Creds, scan: &Vec<AccessPointInfo>) -> (res: Result<
        WifiPlan,
        CredentialError,
    >)
        ensures
            res is Ok <==> creds.ssid@.len() > 0,
            res is Err ==> res == Err::<WifiPlan, CredentialError>(CredentialError::MissingName),
            res is Err ==> *final(self) == *old(self),
            res is Ok ==> final(self).client == Some(client_settings_of(creds, scan@)),
            res is Ok ==> final(self).ap == old(self).ap,
            res matches Ok(plan) ==> plan == final(self).plan(),
    {
        let mut auth_method = AuthMethod::WPAWPA2Personal;
        match check_credentials(creds.ssid.as_str(), creds.psk.as_str(), &mut auth_method) {
            Ok(()) => {},
            Err(e) => {
                return Err(e);
            },
        }
        let settings = match find_named(scan, &creds.ssid) {
            Some(ours) => ClientSettings {
                ssid: creds.ssid,
                password: creds.psk,
                auth_method: ours.auth_method,
                channel: Some(ours.channel),
            },
            None => ClientSettings {
                ssid: creds.ssid,
                password: creds.psk,
                auth_method,
                channel: None,
            },
        };
        self.client = Some(settings);
        Ok(self.load_cfg())
    }

    /// Takes on the access point role with `creds` and returns what is to
    /// be loaded. Credentials without a name are refused and change
    /// nothing.
    pub fn host_as(&mut self, creds: Creds) -> (res: Result<WifiPlan, CredentialError>)
        ensures
            res is Ok <==> creds.ssid@.len() > 0,
            res is Err ==> res == Err::<WifiPlan, CredentialError>(CredentialError::MissingName),
            res is Err ==> *final(self) == *old(self),
            res is Ok ==> final(self).ap == Some(access_point_settings_of(creds)),
            res is Ok ==> final(self).client == old(self).client,
            res matches Ok(plan) ==> plan == final(self).plan(),
    {
        let mut auth_method = AuthMethod::WPAWPA2Personal;
        match check_credentials(creds.ssid.as_str(), creds.psk.as_str(), &mut auth_method) {
            Ok(()) => {},
            Err(e) => {
                return Err(e);
            },
        }
        self.ap = Some(AccessPointSettings { ssid: creds.ssid, password: creds.psk, auth_method });
        Ok(self.load_cfg())
    }

    /// Gives up the access point role and returns what is to be loaded.
    pub fn disable_ap(&mut self) -> (plan: WifiPlan)
        ensures
            final(self).ap is None,
            final(self).client == old(self).client,
            plan == final(self).plan(),
    {
        self.ap = None;
        self.load_cfg()
    }

    /// Gives up the client role and returns what is to be loaded.
    pub fn disable_client(&mut self) -> (plan: WifiPlan)
        ensures
            final(self).client is None,
            final(self).ap == old(self).ap,
            plan == final(self).plan(),
    {
        self.client = None;
        self.load_cfg()
    }
}

} // verus!
