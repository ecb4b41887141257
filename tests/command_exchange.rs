use camfc::exchange::{CommandRun, ExchangeStep, FetchStep};
use camfc::link::LinkError;
use camfc::manager::{CpenDeviceManager, EnsureStep, MAX_COMMAND_RETRIES};
use camfc::peer::DeviceInfo;

fn link(m: &mut CpenDeviceManager) {
    assert!(matches!(m.radio_checked(Ok(())), EnsureStep::Scan));
    let d = match m.scanned(Ok(vec![DeviceInfo { name: "Cpen".to_string(), address: "BB".to_string(), services: vec![] }])) {
        EnsureStep::Connect(d) => d,
        other => panic!("unexpected step {:?}", other),
    };
    assert!(matches!(m.connect_finished(d, Ok(())), EnsureStep::Finished(Ok(()))));
}

#[test]
fn get_totp_reconnects_and_retries_once() {
    let mut m = CpenDeviceManager::new();
    link(&mut m);
    let (mut run, step) = CommandRun::new("getTotp".to_string(), MAX_COMMAND_RETRIES);
    let mut sent = Vec::new();
    let mut reconnects = 0;
    let mut step = step;
    let answer = loop {
        step = match step {
            ExchangeStep::Send(c) => {
                sent.push(c);
                let result = if sent.len() == 1 {
                    Err(LinkError::ConnectionDropped("link lost".to_string()))
                } else {
                    Ok(b"135790".to_vec())
                };
                run.attempt_finished(&mut m, result)
            }
            ExchangeStep::Reconnect => {
                reconnects += 1;
                assert!(m.credentials.totp.is_none());
                assert!(!m.has_link());
                assert!(matches!(m.ensure_connected_start(), EnsureStep::EnableRadio));
                link(&mut m);
                run.reconnected(Ok(()))
            }
            ExchangeStep::Done(r) => break r,
        };
    };
    assert_eq!(answer.unwrap(), b"135790".to_vec());
    assert_eq!(sent, vec!["getTotp".to_string(), "getTotp".to_string()]);
    assert_eq!(reconnects, 1);
    assert!(m.credentials.totp.is_none());
}

#[test]
fn exchange_gives_up_when_budget_is_spent() {
    let mut m = CpenDeviceManager::new();
    link(&mut m);
    let (mut run, _) = CommandRun::new("getId".to_string(), 1);
    assert!(matches!(run.attempt_finished(&mut m, Err(LinkError::ConnectionDropped("x".to_string()))), ExchangeStep::Reconnect));
    link(&mut m);
    assert!(matches!(run.reconnected(Ok(())), ExchangeStep::Send(c) if c == "getId"));
    let r = run.attempt_finished(&mut m, Err(LinkError::ConnectionDropped("y".to_string())));
    assert!(matches!(r, ExchangeStep::Done(Err(LinkError::ConnectionDropped(_)))));
    assert!(matches!(run.reconnected(Ok(())), ExchangeStep::Done(Err(LinkError::ProtocolError(_)))));
    let (run, _) = CommandRun::new("getId".to_string(), 2);
    let r = run.attempt_finished(&mut m, Err(LinkError::ProtocolTimeout("read".to_string())));
    assert!(matches!(r, ExchangeStep::Done(Err(LinkError::ProtocolTimeout(_)))));
    let (mut run, _) = CommandRun::new("getId".to_string(), 2);
    assert!(matches!(run.reconnected(Err(LinkError::NoDeviceFound)), ExchangeStep::Done(Err(LinkError::NoDeviceFound))));
}

#[test]
fn code_fetch_sets_clock_then_asks_for_code() {
    let mut m = CpenDeviceManager::new();
    let step = m.totp_start(1000);
    assert!(matches!(step, FetchStep::Link(EnsureStep::EnableRadio)));
    link(&mut m);
    match m.totp_link_ready(Ok(()), 1_700_000_000) {
        FetchStep::SetClock(c) => assert_eq!(c, "setTime:1700000000"),
        other => panic!("unexpected step {:?}", other),
    }
    assert!(matches!(m.totp_clock_sent(Ok(())), FetchStep::ReadEcho));
    assert!(matches!(m.totp_echo_done(), FetchStep::Command(c) if c == "getTotp"));
    assert!(matches!(m.totp_answered(Ok(b"246810".to_vec()), 1000), FetchStep::Done(Ok(c)) if c == "246810"));
    assert!(matches!(m.totp_start(1024), FetchStep::Done(Ok(c)) if c == "246810"));
    assert!(matches!(m.totp_start(1025), FetchStep::Link(EnsureStep::CheckAlive { radio_checked: false })));
}

#[test]
fn code_fetch_failures_end_the_fetch() {
    let mut m = CpenDeviceManager::new();
    assert!(matches!(m.totp_link_ready(Err(LinkError::NoDeviceFound), 1), FetchStep::Done(Err(LinkError::NoDeviceFound))));
    assert!(matches!(m.totp_clock_sent(Err(LinkError::ProtocolTimeout("w".to_string()))), FetchStep::Done(Err(LinkError::ProtocolTimeout(_)))));
    assert!(matches!(m.totp_answered(Ok(vec![0xff]), 1), FetchStep::Done(Err(LinkError::EncodingError))));
    assert!(m.credentials.totp.is_none());
}

#[test]
fn identifier_fetch_is_cached_forever() {
    let mut m = CpenDeviceManager::new();
    assert!(matches!(m.id_start(), FetchStep::Link(EnsureStep::EnableRadio)));
    link(&mut m);
    assert!(matches!(m.id_link_ready(Ok(())), FetchStep::Command(c) if c == "getId"));
    assert!(matches!(m.id_answered(Ok(b"pen-9".to_vec())), FetchStep::Done(Ok(c)) if c == "pen-9"));
    assert!(matches!(m.id_start(), FetchStep::Done(Ok(c)) if c == "pen-9"));
}
