use air_quality_monitor::mqtt::{
    AttemptOutcome, MqttFacade, MqttFacadeConfig, MqttMessage, PublishStage, step,
};
use air_quality_monitor::mdns::Ipv4;

fn facade() -> MqttFacade {
    MqttFacade::new(MqttFacadeConfig::new(Ipv4::new(192, 168, 1, 50), 1883, "MyDevice"))
}

fn message() -> MqttMessage {
    MqttMessage::new(
        String::from("homeassistant/device/dev01/state"),
        String::from("{}"),
    )
}

#[test]
fn publish_retry_convergence() {
    let mut f = facade();
    let outcomes = vec![
        AttemptOutcome::ConnectFailed,
        AttemptOutcome::HandshakeFailed,
        AttemptOutcome::TransmitFailed,
        AttemptOutcome::Delivered,
        AttemptOutcome::Delivered,
    ];
    let report = f.send_message(&message(), &outcomes);
    assert!(report.delivered);
    assert_eq!(report.attempts, 4);
    assert_eq!(report.transmissions, 2);
}

#[test]
fn publish_succeeds_first_try() {
    let mut f = facade();
    let report = f.send_message(&message(), &vec![AttemptOutcome::Delivered]);
    assert!(report.delivered);
    assert_eq!(report.attempts, 1);
    assert_eq!(report.transmissions, 1);
}

#[test]
fn publish_keeps_retrying_without_success() {
    let mut f = facade();
    let outcomes = vec![
        AttemptOutcome::NotReady,
        AttemptOutcome::NotReady,
        AttemptOutcome::ConnectFailed,
        AttemptOutcome::HandshakeFailed,
    ];
    let report = f.send_message(&message(), &outcomes);
    assert!(!report.delivered);
    assert_eq!(report.attempts, 4);
    assert_eq!(report.transmissions, 0);
}

#[test]
fn failed_transmissions_are_counted_but_not_repeated_after_success() {
    let mut f = facade();
    let outcomes = vec![
        AttemptOutcome::TransmitFailed,
        AttemptOutcome::TransmitFailed,
        AttemptOutcome::Delivered,
        AttemptOutcome::TransmitFailed,
        AttemptOutcome::Delivered,
    ];
    let report = f.send_message(&message(), &outcomes);
    assert!(report.delivered);
    assert_eq!(report.attempts, 3);
    assert_eq!(report.transmissions, 3);
}

#[test]
fn stage_machine_restarts_at_gate_on_any_failure() {
    assert_eq!(step(PublishStage::Gate, true), PublishStage::Connect);
    assert_eq!(step(PublishStage::Gate, false), PublishStage::Gate);
    assert_eq!(step(PublishStage::Connect, true), PublishStage::Handshake);
    assert_eq!(step(PublishStage::Connect, false), PublishStage::Gate);
    assert_eq!(step(PublishStage::Handshake, true), PublishStage::Transmit);
    assert_eq!(step(PublishStage::Handshake, false), PublishStage::Gate);
    assert_eq!(step(PublishStage::Transmit, true), PublishStage::Done);
    assert_eq!(step(PublishStage::Transmit, false), PublishStage::Gate);
    assert_eq!(step(PublishStage::Done, false), PublishStage::Done);
}
