//! Server events on their way to listeners.

use chat_bridge::listener::ChatListener;
use chat_bridge::listener::ChatListenerExt;
use chat_bridge::listener::DisconnectCause;
use chat_bridge::listener::ListenerEvent;
use chat_bridge::listener::ProvisioningEvent;
use chat_bridge::listener::ProvisioningListener;
use chat_bridge::listener::ProvisioningListenerExt;
use chat_bridge::listener::ProvisioningReceipt;
use chat_bridge::listener::RegistrationListener;
use chat_bridge::listener::ServerEvent;
use chat_bridge::listener::ServerMessageAck;
use chat_bridge::requester::SendError;
use chat_bridge::time::Timestamp;

#[derive(Default)]
struct Heard(Vec<String>);

fn cause(disconnect_cause: Option<SendError>) -> &'static str {
    match disconnect_cause {
        None => "none",
        Some(SendError::Disconnected) => "disconnected",
        Some(_) => "other",
    }
}

impl ChatListener for Heard {
    fn received_incoming_message(
        &mut self,
        envelope: bytes::Bytes,
        timestamp: Timestamp,
        mut ack: ServerMessageAck,
    ) {
        self.0
            .push(format!("message {:?} {} {:?}", envelope, timestamp.millis, ack.take()));
    }
    fn received_queue_empty(&mut self) {
        self.0.push("empty".to_owned());
    }
    fn received_alerts(&mut self, alerts: Box<[String]>) {
        self.0.push(format!("alerts {:?}", alerts));
    }
    fn received_server_timestamp(&mut self, timestamp: Timestamp) {
        self.0.push(format!("time {}", timestamp.millis));
    }
    fn connection_interrupted(&mut self, disconnect_cause: Option<SendError>) {
        self.0.push(format!("end {}", cause(disconnect_cause)));
    }
}

impl ProvisioningListener for Heard {
    fn received_address(&mut self, address: String, mut send_ack: ServerMessageAck) {
        self.0.push(format!("address {} {:?}", address, send_ack.take()));
    }
    fn received_envelope(&mut self, envelope: bytes::Bytes, mut send_ack: ServerMessageAck) {
        self.0.push(format!("envelope {:?} {:?}", envelope, send_ack.take()));
    }
    fn connection_interrupted(&mut self, disconnect_cause: Option<SendError>) {
        self.0.push(format!("end {}", cause(disconnect_cause)));
    }
}

type Event = ListenerEvent<u8, u8>;

const TIME: Timestamp = Timestamp { millis: 77 };

#[test]
fn each_event_reaches_its_own_callback() {
    let mut listener = ChatListenerExt::into_event_listener(Heard::default());
    let events: Vec<Box<dyn FnOnce() -> ServerEvent>> = vec![
        Box::new(|| ServerEvent::IncomingMessage {
            request_id: 1,
            envelope: bytes::Bytes::from_static(b"hi"),
            server_delivery_timestamp: TIME,
            send_ack: 42,
        }),
        Box::new(|| ServerEvent::QueueEmpty),
        Box::new(|| ServerEvent::Alerts(vec!["a".to_owned(), "b".to_owned()])),
        Box::new(|| ServerEvent::ServerTimestamp(TIME)),
        Box::new(|| ServerEvent::Stopped(DisconnectCause::LocalDisconnect)),
        Box::new(|| ServerEvent::Stopped(DisconnectCause::Error(SendError::Disconnected))),
    ];
    for event in events {
        let rejected: Option<()> = listener.receive(Event::ReceivedMessage(0), |_| Ok(event()));
        assert!(rejected.is_none());
    }
    assert_eq!(
        listener.listener.0,
        [
            "message b\"hi\" 77 Some(42)",
            "empty",
            "alerts [\"a\", \"b\"]",
            "time 77",
            "end none",
            "end disconnected",
        ]
    );
}

#[test]
fn an_event_without_meaning_is_kept_from_the_listener() {
    let mut listener = ChatListenerExt::into_event_listener(Heard::default());
    let rejected = listener.receive(Event::ReceivedMessage(9), |event| match event {
        ListenerEvent::ReceivedMessage(9) => Err("no such message"),
        _ => Ok(ServerEvent::QueueEmpty),
    });
    assert_eq!(rejected, Some("no such message"));
    assert!(listener.listener.0.is_empty());
}

#[test]
fn provisioning_events_reach_their_own_callbacks() {
    let mut listener = ProvisioningListenerExt::into_event_listener(Heard::default());
    let events: Vec<Box<dyn FnOnce() -> ProvisioningEvent>> = vec![
        Box::new(|| ProvisioningEvent::ServerTimestamp(TIME)),
        Box::new(|| ProvisioningEvent::ReceivedAddress {
            address: "here".to_owned(),
            send_ack: 1,
        }),
        Box::new(|| ProvisioningEvent::ReceivedEnvelope {
            envelope: bytes::Bytes::from_static(b"e"),
            send_ack: 2,
        }),
        Box::new(|| ProvisioningEvent::Stopped(DisconnectCause::LocalDisconnect)),
        Box::new(|| {
            ProvisioningEvent::Stopped(DisconnectCause::Error(SendError::IncomingDataInvalid))
        }),
    ];
    for event in events {
        let receipt: ProvisioningReceipt<()> =
            listener.receive(Event::ReceivedMessage(0), |_| Ok(event()));
        assert!(matches!(receipt, ProvisioningReceipt::Received));
    }
    assert_eq!(
        listener.listener.0,
        [
            "address here Some(1)",
            "envelope b\"e\" Some(2)",
            "end none",
            "end other",
        ]
    );
}

#[test]
fn alerts_are_not_expected_while_provisioning() {
    let mut listener = ProvisioningListenerExt::into_event_listener(Heard::default());
    let alerts = vec!["idle".to_owned(), "old".to_owned()];
    let receipt: ProvisioningReceipt<()> =
        listener.receive(Event::ReceivedAlerts(alerts.clone()), |_| unreachable!());
    assert!(matches!(receipt, ProvisioningReceipt::UnexpectedAlerts(a) if a == alerts));
    let receipt: ProvisioningReceipt<()> =
        listener.receive(Event::ReceivedAlerts(vec![]), |_| unreachable!());
    assert!(matches!(receipt, ProvisioningReceipt::Received));
    let receipt = listener.receive(Event::ServerTimestamp(TIME), |_| Err(5));
    assert!(matches!(receipt, ProvisioningReceipt::Rejected(5)));
    assert!(listener.listener.0.is_empty());
}

#[test]
fn a_message_is_acknowledged_once() {
    let mut ack = ServerMessageAck::new(13);
    assert_eq!(ack.take(), Some(13));
    assert_eq!(ack.take(), None);
    assert_eq!(ack.take(), None);
}

#[test]
fn registration_waits_for_the_end() {
    let mut listener = RegistrationListener::new("sender");
    assert_eq!(listener.receive(Event::ServerTimestamp(TIME)), None);
    assert_eq!(listener.receive(Event::ReceivedAlerts(vec![])), None);
    assert_eq!(listener.receive(Event::ReceivedMessage(1)), None);
    assert_eq!(listener.receive(Event::Finished(0)), Some("sender"));
    assert_eq!(listener.receive(Event::Finished(0)), None);
    assert_eq!(listener.receive(Event::ReceivedMessage(1)), None);
}
