//! The device manager: keeps at most one link to a pen, decides each step of
//! connecting, reconnecting and retrying, and owns the credential cache.
//!
//! The manager does no radio work itself. Each operation is a short exchange:
//! the manager names a step, the caller performs it on the radio and hands
//! the outcome back, and the manager names the next step.

use vstd::prelude::*;
use crate::credential::{CachedCode, CredentialCache, spec_should_refresh};
use crate::link::LinkError;
use crate::peer::{DeviceInfo, filter_cpen_devices, pens_of, same_info};
use crate::text::decode_utf8_text;

verus! {

/// Phase of the link, as reported to the user.
#[derive(Clone, Copy, Debug, PartialEq, Eq, Structural)]
pub enum ConnectionStatus {
    Disconnected,
    Connecting,
    Connected,
    Error,
}

/// What the caller must do next while a link is being made sure of.
#[derive(Debug)]
pub enum EnsureStep {
    /// Ask the native radio capability to power the radio on; report with
    /// `radio_checked`.
    EnableRadio,
    /// The native check failed: probe whether the wireless stack comes up at
    /// all; report with `stack_probed`, passing `radio_error` back.
    ProbeStack { radio_error: String },
    /// Ask the session whether the recorded link is still alive; report with
    /// `liveness_checked`, passing `radio_checked` back.
    CheckAlive { radio_checked: bool },
    /// Scan for peers; report with `scanned`.
    Scan,
    /// Tear down any old session, connect to this peer, re-check that the
    /// link stayed up, and report with `connect_finished`. After success,
    /// give the hardware a short pause to settle.
    Connect(DeviceInfo),
    /// The operation is over.
    Finished(Result<(), LinkError>),
}

/// What to do after a command exchange failed.
#[derive(Debug)]
pub enum RetryVerdict {
    /// Tear the session down, wait briefly, make sure of a link again and
    /// repeat the same command.
    Reconnect,
    /// Report this error to the caller.
    GiveUp(LinkError),
}

/// Default number of reconnect-and-retry rounds for one command.
pub const MAX_COMMAND_RETRIES: u32 = 2;

/// State of the device manager.
pub struct CpenDeviceManager {
    /// Address of the pen the manager is linked to; at most one.
    pub connected_address: Option<String>,
    /// The peer record of that pen.
    pub current_device: Option<DeviceInfo>,
    pub credentials: CredentialCache,
    pub status: ConnectionStatus,
}

/// No step replaces a recorded link by a different one: a new link is
/// recorded only once the previous one has been cleared.
pub open spec fn keeps_single_link(a: CpenDeviceManager, b: CpenDeviceManager) -> bool {
    a.connected_address is Some && b.connected_address is Some
        ==> b.connected_address->0@ == a.connected_address->0@
}

/// `b` is `a` with the link forgotten and the status set to `status`.
pub open spec fn link_cleared(a: CpenDeviceManager, b: CpenDeviceManager, status: ConnectionStatus) -> bool {
    &&& b.connected_address is None
    &&& b.current_device is None
    &&& b.status == status
    &&& b.credentials == a.credentials
}

/// `b` is `a` with only the status set to `status`.
pub open spec fn status_set(a: CpenDeviceManager, b: CpenDeviceManager, status: ConnectionStatus) -> bool {
    &&& b.connected_address == a.connected_address
    &&& b.current_device == a.current_device
    &&& b.status == status
    &&& b.credentials == a.credentials
}

/// The step after a successful radio check, and the state it leaves.
pub open spec fn after_radio(a: CpenDeviceManager, b: CpenDeviceManager, r: EnsureStep) -> bool {
    if a.connected_address is Some {
        r == (EnsureStep::CheckAlive { radio_checked: true }) && b == a
    } else {
        r is Scan && status_set(a, b, ConnectionStatus::Connecting)
    }
}

/// The user-facing text for a link in `status` with peer record `device`.
pub open spec fn status_text(status: ConnectionStatus, device: Option<DeviceInfo>) -> Seq<char> {
    match status {
        ConnectionStatus::Connected => match device {
            Some(d) => "已连接到设备: "@ + d.name@ + " ("@ + d.address@ + ")"@,
            None => "已连接（设备信息未知）"@,
        },
        ConnectionStatus::Connecting => "正在连接设备..."@,
        ConnectionStatus::Disconnected => "未连接设备"@,
        ConnectionStatus::Error => "状态: error"@,
    }
}

/// The state a disconnect leaves: no link, status `Disconnected`, no cached
/// code and no cached identifier.
pub open spec fn forgotten(m: CpenDeviceManager) -> bool {
    &&& m.connected_address is None
    &&& m.current_device is None
    &&& m.status == ConnectionStatus::Disconnected
    &&& m.credentials.totp is None
    &&& m.credentials.device_id is None
}

impl CpenDeviceManager {
    /// The recorded link and the status agree: a link is recorded exactly
    /// when the status is `Connected`, together with its peer record.
    pub open spec fn wf(&self) -> bool {
        &&& (self.connected_address is Some <==> self.current_device is Some)
        &&& (self.connected_address is Some <==> self.status == ConnectionStatus::Connected)
        &&& (self.connected_address is Some ==> self.current_device->0.address@
            == self.connected_address->0@)
    }

    /// A manager with no link and empty caches.
    pub fn new() -> (r: Self)
        ensures
            r.wf(),
            r.connected_address is None,
            r.status == ConnectionStatus::Disconnected,
            r.credentials.totp is None,
            r.credentials.device_id is None,
    {
        CpenDeviceManager {
            connected_address: None,
            current_device: None,
            credentials: CredentialCache::new(),
            status: ConnectionStatus::Disconnected,
        }
    }

    fn clear_link(&mut self, status: ConnectionStatus)
        requires
            status != ConnectionStatus::Connected,
        ensures
            final(self).wf(),
            link_cleared(*old(self), *final(self), status),
    {
        self.connected_address = None;
        self.current_device = None;
        self.status = status;
    }

    /// First step of making sure of a link: check the radio.
    pub fn ensure_connected_start(&self) -> (r: EnsureStep)
        ensures
            r is EnableRadio,
    {
        EnsureStep::EnableRadio
    }

    /// First step of a refresh that reuses a live link: check the recorded
    /// link if there is one, else make sure of a link from the start.
    pub fn refresh_start(&self) -> (r: EnsureStep)
        requires
            self.wf(),
        ensures
            self.connected_address is Some ==> r == (EnsureStep::CheckAlive { radio_checked: false }),
            self.connected_address is None ==> r is EnableRadio,
    {
        if self.connected_address.is_some() {
            EnsureStep::CheckAlive { radio_checked: false }
        } else {
            EnsureStep::EnableRadio
        }
    }

    fn step_after_radio(&mut self) -> (r: EnsureStep)
        requires
            old(self).wf(),
        ensures
            final(self).wf(),
            after_radio(*old(self), *final(self), r),
    {
        if self.connected_address.is_some() {
            EnsureStep::CheckAlive { radio_checked: true }
        } else {
            self.status = ConnectionStatus::Connecting;
            EnsureStep::Scan
        }
    }

    /// Outcome of the native radio check.
    pub fn radio_checked(&mut self, result: Result<(), String>) -> (r: EnsureStep)
        requires
            old(self).wf(),
        ensures
            final(self).wf(),
            keeps_single_link(*old(self), *final(self)),
            match result {
                Ok(_) => after_radio(*old(self), *final(self), r),
                Err(e) => r == (EnsureStep::ProbeStack { radio_error: e }) && *final(self) == *old(self),
            },
    {
        match result {
            Ok(_) => self.step_after_radio(),
            Err(e) => EnsureStep::ProbeStack { radio_error: e },
        }
    }

    /// Outcome of the stack probe that follows a failed native check; the
    /// operation fails only when both failed.
    pub fn stack_probed(&mut self, radio_error: String, result: Result<(), String>) -> (r: EnsureStep)
        requires
            old(self).wf(),
        ensures
            final(self).wf(),
            keeps_single_link(*old(self), *final(self)),
            match result {
                Ok(_) => after_radio(*old(self), *final(self), r),
                Err(e) => r == EnsureStep::Finished(
                    Err(LinkError::RadioUnavailable { native: radio_error, probe: e }),
                ) && *final(self) == *old(self),
            },
    {
        match result {
            Ok(_) => self.step_after_radio(),
            Err(e) => EnsureStep::Finished(
                Err(LinkError::RadioUnavailable { native: radio_error, probe: e }),
            ),
        }
    }

    /// Outcome of asking whether the recorded link is alive. A live link is
    /// reused; otherwise the record is cleared and a new link is made, after
    /// a radio check if none was made in this operation.
    pub fn liveness_checked(&mut self, radio_checked: bool, alive: Result<bool, String>) -> (r: EnsureStep)
        requires
            old(self).wf(),
        ensures
            final(self).wf(),
            keeps_single_link(*old(self), *final(self)),
            (old(self).connected_address is Some && alive == Ok::<bool, String>(true)) ==> (
                r == EnsureStep::Finished(Ok(())) && *final(self) == *old(self)),
            !(old(self).connected_address is Some && alive == Ok::<bool, String>(true)) ==> (
                if radio_checked {
                    r is Scan && link_cleared(*old(self), *final(self), ConnectionStatus::Connecting)
                } else {
                    r is EnableRadio && link_cleared(*old(self), *final(self), ConnectionStatus::Disconnected)
                }),
    {
        let live = match alive {
            Ok(b) => b,
            Err(_) => false,
        };
        if self.connected_address.is_some() && live {
            EnsureStep::Finished(Ok(()))
        } else if radio_checked {
            self.clear_link(ConnectionStatus::Connecting);
            EnsureStep::Scan
        } else {
            self.clear_link(ConnectionStatus::Disconnected);
            EnsureStep::EnableRadio
        }
    }

    /// Outcome of the scan: connect to the first pen seen, by design only
    /// one even when several are in range.
    pub fn scanned(&mut self, result: Result<Vec<DeviceInfo>, String>) -> (r: EnsureStep)
        requires
            old(self).wf(),
        ensures
            final(self).wf(),
            keeps_single_link(*old(self), *final(self)),
            old(self).connected_address is Some ==> (r matches EnsureStep::Finished(Err(LinkError::ProtocolError(_)))
                && *final(self) == *old(self)),
            old(self).connected_address is None ==> match result {
                Err(e) => r == EnsureStep::Finished(Err(LinkError::DiscoveryFailed(e)))
                    && status_set(*old(self), *final(self), ConnectionStatus::Disconnected),
                Ok(devices) => if pens_of(devices@).len() == 0 {
                    r == EnsureStep::Finished(Err(LinkError::NoDeviceFound))
                        && status_set(*old(self), *final(self), ConnectionStatus::Disconnected)
                } else {
                    r is Connect && same_info(r->Connect_0, pens_of(devices@)[0])
                        && status_set(*old(self), *final(self), ConnectionStatus::Connecting)
                },
            },
    {
        if self.connected_address.is_some() {
            return EnsureStep::Finished(Err(LinkError::ProtocolError(String::from_str("a link is already open"))));
        }
        match result {
            Err(e) => {
                self.status = ConnectionStatus::Disconnected;
                EnsureStep::Finished(Err(LinkError::DiscoveryFailed(e)))
            },
            Ok(devices) => {
                let pens = filter_cpen_devices(&devices);
                if pens.len() == 0 {
                    self.status = ConnectionStatus::Disconnected;
                    EnsureStep::Finished(Err(LinkError::NoDeviceFound))
                } else {
                    self.status = ConnectionStatus::Connecting;
                    EnsureStep::Connect(pens[0].duplicate())
                }
            },
        }
    }

    /// Outcome of connecting to `device`. The link is recorded only when no
    /// other link is recorded.
    pub fn connect_finished(&mut self, device: DeviceInfo, result: Result<(), String>) -> (r: EnsureStep)
        requires
            old(self).wf(),
        ensures
            final(self).wf(),
            keeps_single_link(*old(self), *final(self)),
            old(self).connected_address is Some ==> (r matches EnsureStep::Finished(Err(LinkError::ProtocolError(_)))
                && *final(self) == *old(self)),
            old(self).connected_address is None ==> match result {
                Err(e) => r == EnsureStep::Finished(Err(LinkError::ConnectFailed(e)))
                    && status_set(*old(self), *final(self), ConnectionStatus::Disconnected),
                Ok(_) => r == EnsureStep::Finished(Ok(()))
                    && final(self).connected_address is Some
                    && final(self).connected_address->0@ == device.address@
                    && final(self).current_device == Some(device)
                    && final(self).status == ConnectionStatus::Connected
                    && final(self).credentials == old(self).credentials,
            },
    {
        if self.connected_address.is_some() {
            return EnsureStep::Finished(Err(LinkError::ProtocolError(String::from_str("a link is already open"))));
        }
        match result {
            Err(e) => {
                self.status = ConnectionStatus::Disconnected;
                EnsureStep::Finished(Err(LinkError::ConnectFailed(e)))
            },
            Ok(_) => {
                self.connected_address = Some(device.address.clone());
                self.current_device = Some(device);
                self.status = ConnectionStatus::Connected;
                EnsureStep::Finished(Ok(()))
            },
        }
    }

    /// Decision after a command exchange failed on attempt `retries + 1`:
    /// a dropped link is cleared and the command repeated while fewer than
    /// `max_retries` retries were made; any other error, or an exhausted
    /// budget, is reported. The caches are never touched.
    pub fn exchange_failed(&mut self, error: LinkError, retries: u32, max_retries: u32) -> (r: RetryVerdict)
        requires
            old(self).wf(),
        ensures
            final(self).wf(),
            keeps_single_link(*old(self), *final(self)),
            final(self).credentials == old(self).credentials,
            (error is ConnectionDropped && retries < max_retries) ==> (r is Reconnect
                && link_cleared(*old(self), *final(self), ConnectionStatus::Disconnected)),
            !(error is ConnectionDropped && retries < max_retries) ==> (r == RetryVerdict::GiveUp(error)
                && *final(self) == *old(self)),
    {
        if error.is_disconnect() && retries < max_retries {
            self.clear_link(ConnectionStatus::Disconnected);
            RetryVerdict::Reconnect
        } else {
            RetryVerdict::GiveUp(error)
        }
    }

    /// The code to hand out at `now` without asking the pen, if the cached
    /// one is younger than the refresh threshold.
    pub fn cached_totp(&self, now: u64) -> (r: Option<String>)
        ensures
            r is Some <==> !spec_should_refresh(self.credentials.totp, now as nat),
            r is Some ==> r->0@ == self.credentials.totp->0.value@,
    {
        self.credentials.fresh_totp(now)
    }

    /// The pen's answer to the code command, received at `now`: decoded as
    /// text and cached, once.
    pub fn totp_received(&mut self, response: Vec<u8>, now: u64) -> (r: Result<String, LinkError>)
        requires
            old(self).wf(),
        ensures
            final(self).wf(),
            keeps_single_link(*old(self), *final(self)),
            r is Ok <==> vstd::utf8::valid_utf8(response@),
            r is Ok ==> r->Ok_0@ == vstd::utf8::decode_utf8(response@)
                && final(self).credentials.totp == Some(CachedCode { value: r->Ok_0, captured_at: now })
                && final(self).credentials.device_id == old(self).credentials.device_id,
            r is Ok ==> final(self).connected_address == old(self).connected_address
                && final(self).current_device == old(self).current_device
                && final(self).status == old(self).status,
            r is Err ==> r == Err::<String, LinkError>(LinkError::EncodingError) && *final(self) == *old(self),
    {
        match decode_utf8_text(response) {
            Some(code) => {
                self.credentials.update_totp_cache(code.clone(), now);
                Ok(code)
            },
            None => Err(LinkError::EncodingError),
        }
    }

    /// The cached device identifier, which never expires.
    pub fn cached_device_id(&self) -> (r: Option<String>)
        ensures
            r is Some <==> self.credentials.device_id is Some,
            r is Some ==> r->0@ == self.credentials.device_id->0@,
    {
        self.credentials.get_device_id()
    }

    /// The pen's answer to the identifier command: decoded as text and
    /// cached without expiry.
    pub fn id_received(&mut self, response: Vec<u8>) -> (r: Result<String, LinkError>)
        requires
            old(self).wf(),
        ensures
            final(self).wf(),
            keeps_single_link(*old(self), *final(self)),
            r is Ok <==> vstd::utf8::valid_utf8(response@),
            r is Ok ==> r->Ok_0@ == vstd::utf8::decode_utf8(response@)
                && final(self).credentials.device_id == Some(r->Ok_0)
                && final(self).credentials.totp == old(self).credentials.totp
                && final(self).connected_address == old(self).connected_address
                && final(self).current_device == old(self).current_device
                && final(self).status == old(self).status,
            r is Err ==> r == Err::<String, LinkError>(LinkError::EncodingError) && *final(self) == *old(self),
    {
        match decode_utf8_text(response) {
            Some(id) => {
                self.credentials.set_device_id(id.clone());
                Ok(id)
            },
            None => Err(LinkError::EncodingError),
        }
    }

    /// Forgets the link and both caches. Returns whether a link was recorded,
    /// that is whether the caller must close the session (a failure to close
    /// it is tolerated).
    pub fn disconnect(&mut self) -> (r: bool)
        requires
            old(self).wf(),
        ensures
            final(self).wf(),
            r == old(self).connected_address is Some,
            forgotten(*final(self)),
    {
        let had_link = self.connected_address.is_some();
        self.credentials.clear();
        self.clear_link(ConnectionStatus::Disconnected);
        had_link
    }

    /// Text describing the link for the user.
    pub fn get_connection_status(&self) -> (r: String)
        ensures
            r@ == status_text(self.status, self.current_device),
    {
        match self.status {
            ConnectionStatus::Connected => match &self.current_device {
                Some(d) => {
                    let mut s = String::from_str("已连接到设备: ");
                    s.append(d.name.as_str());
                    s.append(" (");
                    s.append(d.address.as_str());
                    s.append(")");
                    s
                },
                None => String::from_str("已连接（设备信息未知）"),
            },
            ConnectionStatus::Connecting => String::from_str("正在连接设备..."),
            ConnectionStatus::Disconnected => String::from_str("未连接设备"),
            ConnectionStatus::Error => String::from_str("状态: error"),
        }
    }

    /// "name - address" of the linked pen, if any.
    pub fn get_current_device_info(&self) -> (r: Option<String>)
        ensures
            r is Some <==> self.current_device is Some,
            r is Some ==> r->0@ == self.current_device->0.name@ + " - "@
                + self.current_device->0.address@,
    {
        match &self.current_device {
            Some(d) => {
                let mut s = d.name.clone();
                s.append(" - ");
                s.append(d.address.as_str());
                Some(s)
            },
            None => None,
        }
    }

    /// Whether a link is recorded, so that its liveness is worth asking.
    pub fn has_link(&self) -> (r: bool)
        ensures
            r == self.connected_address is Some,
    {
        self.connected_address.is_some()
    }

    /// Whether the pen is connected, given the session's answer to a
    /// liveness query (not consulted when no link is recorded). A dead link
    /// is forgotten.
    pub fn is_connected(&mut self, alive: Result<bool, String>) -> (r: Result<bool, LinkError>)
        requires
            old(self).wf(),
        ensures
            final(self).wf(),
            keeps_single_link(*old(self), *final(self)),
            old(self).connected_address is None ==> r == Ok::<bool, LinkError>(false) && *final(self) == *old(self),
            old(self).connected_address is Some ==> match alive {
                Ok(true) => r == Ok::<bool, LinkError>(true) && *final(self) == *old(self),
                Ok(false) => r == Ok::<bool, LinkError>(false)
                    && link_cleared(*old(self), *final(self), ConnectionStatus::Disconnected),
                Err(e) => r == Err::<bool, LinkError>(LinkError::ProtocolError(e)) && *final(self) == *old(self),
            },
    {
        if self.connected_address.is_none() {
            return Ok(false);
        }
        match alive {
            Ok(true) => Ok(true),
            Ok(false) => {
                self.clear_link(ConnectionStatus::Disconnected);
                Ok(false)
            },
            Err(e) => Err(LinkError::ProtocolError(e)),
        }
    }
}

/// Single session: along any run of manager states in which each step keeps
/// the recorded link or clears it, two different recorded links are always
/// separated by a state with no link, so at most one link is open at a time.
pub proof fn lemma_single_session(trace: Seq<CpenDeviceManager>, i: int, j: int)
    requires
        forall|k: int| 0 <= k < trace.len() - 1 ==> keeps_single_link(#[trigger] trace[k], trace[k + 1]),
        0 <= i <= j < trace.len(),
        trace[i].connected_address is Some,
        trace[j].connected_address is Some,
        trace[j].connected_address->0@ != trace[i].connected_address->0@,
    ensures
        exists|k: int| i < k < j && trace[k].connected_address is None,
    decreases j - i,
{
    assert(keeps_single_link(trace[j - 1], trace[j]));
    if trace[j - 1].connected_address is Some {
        lemma_single_session(trace, i, j - 1);
        let k = choose|k: int| i < k < j - 1 && trace[k].connected_address is None;
        assert(i < k < j && trace[k].connected_address is None);
    } else {
        assert(i < j - 1 < j && trace[j - 1].connected_address is None);
    }
}

/// Disconnect clears identity state: after a disconnect the status reads
/// "未连接设备" (not connected), both caches are empty, and the next code request finds no
/// fresh code and no link, so it starts a full connection.
pub proof fn lemma_disconnect_forgets(m: CpenDeviceManager, now: nat)
    requires
        forgotten(m),
    ensures
        m.wf(),
        status_text(m.status, m.current_device) == "未连接设备"@,
        spec_should_refresh(m.credentials.totp, now),
        m.credentials.device_id is None,
        m.connected_address is None,
{
}

} // verus!
