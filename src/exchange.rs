//! Fetching a code or the identifier from the pen: the order of the writes,
//! and one command run with reconnect-and-retry.
//!
//! As with making sure of a link, the caller performs each step on the radio
//! and reports the outcome; these functions name the next step.

use vstd::prelude::*;
use crate::credential::{CachedCode, spec_should_refresh};
use crate::link::{LinkError, get_id_command, get_totp_command, set_time_command, set_time_text};
use crate::manager::{
    ConnectionStatus, CpenDeviceManager, EnsureStep, RetryVerdict, keeps_single_link, link_cleared,
};

verus! {

/// What the caller must do next while one command runs.
#[derive(Debug)]
pub enum ExchangeStep {
    /// Write this command to the pen and collect its answer; report with
    /// `attempt_finished`.
    Send(String),
    /// Tear the session down, wait briefly, make sure of a link with the
    /// `EnsureStep`s from `ensure_connected_start`, and report with
    /// `reconnected`.
    Reconnect,
    /// The command is over, with the pen's answer or an error.
    Done(Result<Vec<u8>, LinkError>),
}

/// One command against the pen, repeated after a reconnect while the link
/// drops and the retry budget lasts.
pub struct CommandRun {
    pub command: String,
    /// Reconnects made so far; the command has been sent `retries + 1` times.
    pub retries: u32,
    pub max_retries: u32,
}

/// `mb` and `r` are what an attempt of `run` ending in `result` gives, from `ma`.
pub open spec fn attempt_step(
    run: CommandRun,
    ma: CpenDeviceManager,
    result: Result<Vec<u8>, LinkError>,
    mb: CpenDeviceManager,
    r: ExchangeStep,
) -> bool {
    &&& mb.credentials == ma.credentials
    &&& match result {
        Ok(answer) => r == ExchangeStep::Done(Ok(answer)) && mb == ma,
        Err(e) => if e is ConnectionDropped && run.retries < run.max_retries {
            r is Reconnect && link_cleared(ma, mb, ConnectionStatus::Disconnected)
        } else {
            r == ExchangeStep::Done(Err(e)) && mb == ma
        },
    }
}

/// `b` and `r` are what `a` gives once the reconnect ended in `result`.
pub open spec fn reconnect_step(a: CommandRun, result: Result<(), LinkError>, b: CommandRun, r: ExchangeStep) -> bool {
    match result {
        Ok(_) => if a.retries < a.max_retries {
            &&& b.retries == a.retries + 1
            &&& b.max_retries == a.max_retries
            &&& b.command == a.command
            &&& r is Send
            &&& r->Send_0@ == a.command@
        } else {
            r matches ExchangeStep::Done(Err(LinkError::ProtocolError(_))) && b == a
        },
        Err(e) => r == ExchangeStep::Done(Err(e)) && b == a,
    }
}

impl CommandRun {
    /// A run of `command` allowing `max_retries` reconnects; its first step
    /// sends the command.
    pub fn new(command: String, max_retries: u32) -> (r: (CommandRun, ExchangeStep))
        ensures
            r.0.command@ == command@,
            r.0.retries == 0,
            r.0.max_retries == max_retries,
            r.1 is Send,
            r.1->Send_0@ == command@,
    {
        let first = command.clone();
        (CommandRun { command, retries: 0, max_retries }, ExchangeStep::Send(first))
    }

    /// Outcome of one attempt: an answer ends the run; a dropped link under
    /// the budget is cleared in `m` and leads to a reconnect; any other error
    /// ends the run. The caches of `m` are never touched.
    pub fn attempt_finished(&self, m: &mut CpenDeviceManager, result: Result<Vec<u8>, LinkError>) -> (r: ExchangeStep)
        requires
            old(m).wf(),
        ensures
            final(m).wf(),
            keeps_single_link(*old(m), *final(m)),
            attempt_step(*self, *old(m), result, *final(m), r),
    {
        match result {
            Ok(answer) => ExchangeStep::Done(Ok(answer)),
            Err(e) => match m.exchange_failed(e, self.retries, self.max_retries) {
                RetryVerdict::Reconnect => ExchangeStep::Reconnect,
                RetryVerdict::GiveUp(e) => ExchangeStep::Done(Err(e)),
            },
        }
    }

    /// Outcome of the reconnect: on success the same command is sent again.
    pub fn reconnected(&mut self, result: Result<(), LinkError>) -> (r: ExchangeStep)
        ensures
            reconnect_step(*old(self), result, *final(self), r),
    {
        match result {
            Err(e) => ExchangeStep::Done(Err(e)),
            Ok(_) => {
                if self.retries < self.max_retries {
                    self.retries = self.retries + 1;
                    ExchangeStep::Send(self.command.clone())
                } else {
                    ExchangeStep::Done(Err(LinkError::ProtocolError(String::from_str("the retry budget is spent"))))
                }
            },
        }
    }
}

/// What the caller must do next while a code or the identifier is fetched.
#[derive(Debug)]
pub enum FetchStep {
    /// Make sure of a link, starting with this step; report the outcome of
    /// the `EnsureStep`s with `totp_link_ready` or `id_link_ready`.
    Link(EnsureStep),
    /// Write this clock command; report with `totp_clock_sent`.
    SetClock(String),
    /// Wait a moment and try briefly to read the clock echo; whatever comes
    /// is ignored. Then call `totp_echo_done`.
    ReadEcho,
    /// Run this command with a `CommandRun`; report its outcome with
    /// `totp_answered` or `id_answered`.
    Command(String),
    /// The fetch is over.
    Done(Result<String, LinkError>),
}

impl CpenDeviceManager {
    /// First step of fetching a code at `now`: a code younger than the
    /// refresh threshold is handed out with no radio traffic; otherwise a
    /// live link is reused or a new one made.
    pub fn totp_start(&self, now: u64) -> (r: FetchStep)
        requires
            self.wf(),
        ensures
            !spec_should_refresh(self.credentials.totp, now as nat) ==> (r matches FetchStep::Done(Ok(_)))
                && r->Done_0->Ok_0@ == self.credentials.totp->0.value@,
            spec_should_refresh(self.credentials.totp, now as nat) ==> r is Link && (
                if self.connected_address is Some {
                    r->Link_0 == (EnsureStep::CheckAlive { radio_checked: false })
                } else {
                    r->Link_0 is EnableRadio
                }),
    {
        match self.cached_totp(now) {
            Some(code) => FetchStep::Done(Ok(code)),
            None => FetchStep::Link(self.refresh_start()),
        }
    }

    /// The link for a code fetch is settled: the pen's clock is set to
    /// `epoch` first.
    pub fn totp_link_ready(&self, result: Result<(), LinkError>, epoch: u64) -> (r: FetchStep)
        ensures
            result is Ok ==> r is SetClock && r->SetClock_0@ == set_time_text(epoch as nat),
            result is Err ==> r == FetchStep::Done(Err(result->Err_0)),
    {
        match result {
            Ok(_) => FetchStep::SetClock(set_time_command(epoch)),
            Err(e) => FetchStep::Done(Err(e)),
        }
    }

    /// The clock command was written, or failed to be.
    pub fn totp_clock_sent(&self, result: Result<(), LinkError>) -> (r: FetchStep)
        ensures
            result is Ok ==> r is ReadEcho,
            result is Err ==> r == FetchStep::Done(Err(result->Err_0)),
    {
        match result {
            Ok(_) => FetchStep::ReadEcho,
            Err(e) => FetchStep::Done(Err(e)),
        }
    }

    /// The optional clock echo is over: the code command comes next.
    pub fn totp_echo_done(&self) -> (r: FetchStep)
        ensures
            r is Command && r->Command_0@ == "getTotp"@,
    {
        FetchStep::Command(get_totp_command())
    }

    /// Outcome of the code command, answered at `now`: a text answer is
    /// cached once and returned.
    pub fn totp_answered(&mut self, result: Result<Vec<u8>, LinkError>, now: u64) -> (r: FetchStep)
        requires
            old(self).wf(),
        ensures
            final(self).wf(),
            keeps_single_link(*old(self), *final(self)),
            result is Err ==> r == FetchStep::Done(Err(result->Err_0)) && *final(self) == *old(self),
            result is Ok && vstd::utf8::valid_utf8(result->Ok_0@) ==> (r matches FetchStep::Done(Ok(_)))
                && r->Done_0->Ok_0@ == vstd::utf8::decode_utf8(result->Ok_0@)
                && final(self).credentials.totp == Some(CachedCode { value: r->Done_0->Ok_0, captured_at: now })
                && final(self).credentials.device_id == old(self).credentials.device_id,
            result is Ok && !vstd::utf8::valid_utf8(result->Ok_0@) ==> r == FetchStep::Done(
                Err(LinkError::EncodingError),
            ) && *final(self) == *old(self),
    {
        match result {
            Ok(answer) => FetchStep::Done(self.totp_received(answer, now)),
            Err(e) => FetchStep::Done(Err(e)),
        }
    }

    /// First step of fetching the identifier: the cached one, else a link
    /// made from the start.
    pub fn id_start(&self) -> (r: FetchStep)
        ensures
            self.credentials.device_id is Some ==> (r matches FetchStep::Done(Ok(_)))
                && r->Done_0->Ok_0@ == self.credentials.device_id->0@,
            self.credentials.device_id is None ==> r is Link && r->Link_0 is EnableRadio,
    {
        match self.cached_device_id() {
            Some(id) => FetchStep::Done(Ok(id)),
            None => FetchStep::Link(self.ensure_connected_start()),
        }
    }

    /// The link for an identifier fetch is settled.
    pub fn id_link_ready(&self, result: Result<(), LinkError>) -> (r: FetchStep)
        ensures
            result is Ok ==> r is Command && r->Command_0@ == "getId"@,
            result is Err ==> r == FetchStep::Done(Err(result->Err_0)),
    {
        match result {
            Ok(_) => FetchStep::Command(get_id_command()),
            Err(e) => FetchStep::Done(Err(e)),
        }
    }

    /// Outcome of the identifier command: a text answer is cached without
    /// expiry and returned.
    pub fn id_answered(&mut self, result: Result<Vec<u8>, LinkError>) -> (r: FetchStep)
        requires
            old(self).wf(),
        ensures
            final(self).wf(),
            keeps_single_link(*old(self), *final(self)),
            result is Err ==> r == FetchStep::Done(Err(result->Err_0)) && *final(self) == *old(self),
            result is Ok && vstd::utf8::valid_utf8(result->Ok_0@) ==> (r matches FetchStep::Done(Ok(_)))
                && r->Done_0->Ok_0@ == vstd::utf8::decode_utf8(result->Ok_0@)
                && final(self).credentials.device_id == Some(r->Done_0->Ok_0)
                && final(self).credentials.totp == old(self).credentials.totp,
            result is Ok && !vstd::utf8::valid_utf8(result->Ok_0@) ==> r == FetchStep::Done(
                Err(LinkError::EncodingError),
            ) && *final(self) == *old(self),
    {
        match result {
            Ok(answer) => FetchStep::Done(self.id_received(answer)),
            Err(e) => FetchStep::Done(Err(e)),
        }
    }
}

/// Reconnect and retry: when the first attempt of a command loses the link,
/// the manager clears the link without touching its caches, and once the
/// reconnect succeeds the same command is sent a second time; if that
/// attempt answers, the run ends with exactly that answer and the attempt
/// changes nothing in the manager, so the code is cached only once, from the
/// second answer.
pub proof fn lemma_reconnect_retry(
    run0: CommandRun,
    run1: CommandRun,
    m0: CpenDeviceManager,
    m1: CpenDeviceManager,
    m2: CpenDeviceManager,
    m3: CpenDeviceManager,
    error: LinkError,
    answer: Vec<u8>,
    r1: ExchangeStep,
    r2: ExchangeStep,
    r3: ExchangeStep,
)
    requires
        run0.retries == 0,
        run0.max_retries >= 1,
        error is ConnectionDropped,
        attempt_step(run0, m0, Err(error), m1, r1),
        reconnect_step(run0, Ok(()), run1, r2),
        attempt_step(run1, m2, Ok(answer), m3, r3),
    ensures
        r1 is Reconnect,
        m1.connected_address is None,
        m1.credentials == m0.credentials,
        r2 is Send,
        r2->Send_0@ == run0.command@,
        run1.command == run0.command,
        run1.retries == 1,
        r3 == ExchangeStep::Done(Ok(answer)),
        m3 == m2,
{
}

} // verus!
