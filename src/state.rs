//! A plain record of the link for display: the linked peer, the cached
//! credentials and the connection status.

use vstd::prelude::*;
use crate::credential::{CachedCode, CredentialCache, TOTP_WINDOW_SECS, age};
use crate::link::{CPEN_CHAR_UUID, CPEN_SERVICE_UUID};
use crate::manager::ConnectionStatus;
use crate::peer::DeviceInfo;

verus! {

/// Record of the link to the pen.
pub struct BluetoothState {
    pub connected_device: Option<DeviceInfo>,
    pub credentials: CredentialCache,
    pub connection_status: ConnectionStatus,
    pub cpen_service_uuid: String,
    pub cpen_char_uuid: String,
}

impl BluetoothState {
    /// No peer, no credentials, disconnected, addressed at the pen's channel.
    pub fn new() -> (r: Self)
        ensures
            r.connected_device is None,
            r.credentials.totp is None,
            r.credentials.device_id is None,
            r.connection_status == ConnectionStatus::Disconnected,
            r.cpen_service_uuid@ == CPEN_SERVICE_UUID@,
            r.cpen_char_uuid@ == CPEN_CHAR_UUID@,
    {
        BluetoothState {
            connected_device: None,
            credentials: CredentialCache::new(),
            connection_status: ConnectionStatus::Disconnected,
            cpen_service_uuid: String::from_str(CPEN_SERVICE_UUID),
            cpen_char_uuid: String::from_str(CPEN_CHAR_UUID),
        }
    }

    /// The cached code if it is younger than 30 s at `now`.
    pub fn get_cached_totp(&self, now: u64) -> (r: Option<String>)
        ensures
            match self.credentials.totp {
                Some(c) => if age(now as nat, c.captured_at as nat) < TOTP_WINDOW_SECS {
                    r is Some && r->0@ == c.value@
                } else {
                    r is None
                },
                None => r is None,
            },
    {
        self.credentials.get_cached_totp(now)
    }

    /// Caches `totp`, captured at `now`.
    pub fn update_totp_cache(&mut self, totp: String, now: u64)
        ensures
            final(self).credentials.totp == Some(CachedCode { value: totp, captured_at: now }),
            final(self).credentials.device_id == old(self).credentials.device_id,
            final(self).connection_status == old(self).connection_status,
    {
        self.credentials.update_totp_cache(totp, now);
    }

    /// Forgets the cached code.
    pub fn clear_totp_cache(&mut self)
        ensures
            final(self).credentials.totp is None,
            final(self).credentials.device_id == old(self).credentials.device_id,
            final(self).connection_status == old(self).connection_status,
    {
        self.credentials.clear_totp_cache();
    }

    /// Sets the status; a disconnect forgets the peer and both credentials.
    pub fn update_connection_status(&mut self, status: ConnectionStatus)
        ensures
            final(self).connection_status == status,
            status == ConnectionStatus::Disconnected ==> final(self).connected_device is None
                && final(self).credentials.totp is None && final(self).credentials.device_id is None,
            status != ConnectionStatus::Disconnected ==> final(self).connected_device == old(self).connected_device
                && final(self).credentials == old(self).credentials,
    {
        self.connection_status = status;
        if status == ConnectionStatus::Disconnected {
            self.connected_device = None;
            self.credentials.clear();
        }
    }

    /// Caches the device identifier.
    pub fn set_device_id(&mut self, device_id: String)
        ensures
            final(self).credentials.device_id == Some(device_id),
            final(self).credentials.totp == old(self).credentials.totp,
    {
        self.credentials.set_device_id(device_id);
    }

    /// The cached device identifier.
    pub fn get_device_id(&self) -> (r: Option<String>)
        ensures
            r is Some <==> self.credentials.device_id is Some,
            r is Some ==> r->0@ == self.credentials.device_id->0@,
    {
        self.credentials.get_device_id()
    }

    /// Whether the status is `Connected`.
    pub fn is_connected(&self) -> (r: bool)
        ensures
            r == (self.connection_status == ConnectionStatus::Connected),
    {
        self.connection_status == ConnectionStatus::Connected
    }

    /// The pen's command service.
    pub fn get_service_uuid(&self) -> (r: &str)
        ensures
            r@ == self.cpen_service_uuid@,
    {
        self.cpen_service_uuid.as_str()
    }

    /// The pen's command characteristic.
    pub fn get_char_uuid(&self) -> (r: &str)
        ensures
            r@ == self.cpen_char_uuid@,
    {
        self.cpen_char_uuid.as_str()
    }

    /// Records the linked peer.
    pub fn set_connected_device(&mut self, device: DeviceInfo)
        ensures
            final(self).connected_device == Some(device),
            final(self).connection_status == old(self).connection_status,
            final(self).credentials == old(self).credentials,
    {
        self.connected_device = Some(device);
    }
}

} // verus!
