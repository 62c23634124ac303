use lucid_ao4::codec::{GetResponse, ProtocolError, SetResponse};
use lucid_ao4::transaction::{
    check_status, link_config, Action, Outcome, Phase, Request, SerialEvent, Transaction,
};

#[test]
fn link_config_is_fixed() {
    let c = link_config();
    assert_eq!(c.baud_rate, 9600);
    assert_eq!(c.data_bits, 8);
    assert!(!c.parity_enabled);
    assert_eq!(c.stop_bits, 1);
    assert!(!c.flow_control_enabled);
    assert_eq!(c.timeout_ms, 1000);
}

#[test]
fn get_exchange_completes() {
    let t = Transaction::new(Request::GetAnalog { channel: 2 });
    assert_eq!(t.next_action(), Action::OpenPort);
    assert_eq!(t.request_bytes(), vec![0x46, 0x02, 0x1C, 0x00]);
    assert_eq!(t.expected_response_len(), 4);

    let t = t.step(SerialEvent::OpenOk);
    assert_eq!(t.next_action(), Action::ConfigurePort);
    let t = t.step(SerialEvent::ConfigOk);
    assert_eq!(t.next_action(), Action::WriteRequest);
    let t = t.step(SerialEvent::WriteOk);
    assert_eq!(t.next_action(), Action::ReadResponse);
    let t = t.step(SerialEvent::ReadOk(vec![0x00, 0x02, 0xE8, 0x03]));
    assert_eq!(t.next_action(), Action::Finish);
    assert_eq!(
        t.phase,
        Phase::Done(Ok(Outcome::GetResult(GetResponse {
            status: 0,
            length: 2,
            value: 1000,
        })))
    );
}

#[test]
fn set_exchange_reports_device_status() {
    let t = Transaction::new(Request::SetAnalog { channel: 1, voltage_mv: -500 });
    assert_eq!(t.request_bytes(), vec![0x40, 0x01, 0x1C, 0x02, 0x0C, 0xFE]);
    assert_eq!(t.expected_response_len(), 2);

    let t = t
        .step(SerialEvent::OpenOk)
        .step(SerialEvent::ConfigOk)
        .step(SerialEvent::WriteOk)
        .step(SerialEvent::ReadOk(vec![0x01, 0x00]));
    let resp = match t.phase {
        Phase::Done(Ok(Outcome::SetResult(resp))) => resp,
        other => panic!("exchange did not complete: {:?}", other),
    };
    assert_eq!(resp, SetResponse { status: 1, length: 0 });
    assert_eq!(
        check_status(resp.status),
        Err(ProtocolError::DeviceStatusError(1))
    );
}

#[test]
fn open_failure_is_transport_config_error() {
    let t = Transaction::new(Request::GetAnalog { channel: 0 });
    let t = t.step(SerialEvent::OpenFailed);
    assert_eq!(t.phase, Phase::Done(Err(ProtocolError::TransportConfigError)));
}

#[test]
fn config_failure_is_transport_config_error() {
    let t = Transaction::new(Request::GetAnalog { channel: 0 });
    let t = t.step(SerialEvent::OpenOk).step(SerialEvent::ConfigFailed);
    assert_eq!(t.phase, Phase::Done(Err(ProtocolError::TransportConfigError)));
}

#[test]
fn write_failure_is_write_error() {
    let t = Transaction::new(Request::SetAnalog { channel: 0, voltage_mv: 0 });
    let t = t
        .step(SerialEvent::OpenOk)
        .step(SerialEvent::ConfigOk)
        .step(SerialEvent::WriteFailed);
    assert_eq!(t.phase, Phase::Done(Err(ProtocolError::WriteError)));
}

#[test]
fn read_timeout_surfaces_read_timeout() {
    let t = Transaction::new(Request::GetAnalog { channel: 3 });
    let t = t
        .step(SerialEvent::OpenOk)
        .step(SerialEvent::ConfigOk)
        .step(SerialEvent::WriteOk)
        .step(SerialEvent::ReadTimedOut);
    assert_eq!(t.phase, Phase::Done(Err(ProtocolError::ReadTimeout)));
}

#[test]
fn read_failure_is_read_error() {
    let t = Transaction::new(Request::GetAnalog { channel: 3 });
    let t = t
        .step(SerialEvent::OpenOk)
        .step(SerialEvent::ConfigOk)
        .step(SerialEvent::WriteOk)
        .step(SerialEvent::ReadFailed);
    assert_eq!(t.phase, Phase::Done(Err(ProtocolError::ReadError)));
}

#[test]
fn short_read_is_read_error() {
    let t = Transaction::new(Request::GetAnalog { channel: 0 });
    let t = t
        .step(SerialEvent::OpenOk)
        .step(SerialEvent::ConfigOk)
        .step(SerialEvent::WriteOk)
        .step(SerialEvent::ReadOk(vec![0x00, 0x02, 0xE8]));
    assert_eq!(t.phase, Phase::Done(Err(ProtocolError::ReadError)));
}

#[test]
fn over_long_read_is_read_error() {
    let t = Transaction::new(Request::SetAnalog { channel: 0, voltage_mv: 5 });
    let t = t
        .step(SerialEvent::OpenOk)
        .step(SerialEvent::ConfigOk)
        .step(SerialEvent::WriteOk)
        .step(SerialEvent::ReadOk(vec![0x00, 0x00, 0x00]));
    assert_eq!(t.phase, Phase::Done(Err(ProtocolError::ReadError)));
}

#[test]
fn finished_transaction_never_moves_again() {
    let t = Transaction::new(Request::GetAnalog { channel: 1 });
    let t = t.step(SerialEvent::OpenFailed);
    let done = t.phase.clone();
    let t = t.step(SerialEvent::OpenOk).step(SerialEvent::ReadTimedOut);
    assert_eq!(t.phase, done);
}

#[test]
fn check_status_zero_is_success() {
    assert_eq!(check_status(0), Ok(()));
    for s in [1u8, 2, 0x7F, 0xFF] {
        assert_eq!(check_status(s), Err(ProtocolError::DeviceStatusError(s)));
    }
}
