use indi_touch_meter::config::{get_mqtt_config, mqtt_config_at, push_decimal, MqttConfig};
use indi_touch_meter::error::MqttError;
use indi_touch_meter::manager::{
    connection_config, ConnectionConfig, mqtt_disconnect, publish_outcome, ConnectionState, MqttManager, MqttMessage, PublishRequest,
    KEEP_ALIVE_SECONDS, REQUEST_CAPACITY, SETTLE_MILLIS,
};
use indi_touch_meter::qos::DeliveryGuarantee;
use indi_touch_meter::tls::{load_tls_config, VerifierStrategy};

const ROOT_CERT: &str = "-----BEGIN CERTIFICATE-----\nMIIBjDCCATGgAwIBAgIURnFRzkOkzB6t7SC11d0gSvT7eqMwCgYIKoZIzj0EAwIw\nGjEYMBYGA1UEAwwPTWV0ZXIgVGVzdCBSb290MCAXDTI2MTAyNzIwMDU0NFoYDzIx\nMjYxMDAzMjAwNTQ0WjAaMRgwFgYDVQQDDA9NZXRlciBUZXN0IFJvb3QwWTATBgcq\nhkjOPQIBBggqhkjOPQMBBwNCAAT61dMBOTVHnRvAllxmQdQp7HDp2fyQJMFQ+564\nLLqdw1C4OjdnvLGCeCXP7U2m/QdxCScUEzUNncKLeskK+Jg0o1MwUTAdBgNVHQ4E\nFgQUAbyFr9WSRqNqH/fQGrbk1i+c6xswHwYDVR0jBBgwFoAUAbyFr9WSRqNqH/fQ\nGrbk1i+c6xswDwYDVR0TAQH/BAUwAwEB/zAKBggqhkjOPQQDAgNJADBGAiEAi+AY\n1LE9TNypuhW1LVQVtxxC27YhPsGkex5O1dhwfjwCIQCpdB7/7Bn1YbC8XmA4CBkv\nZof79iORly/oSBzRCG+rUg==\n-----END CERTIFICATE-----\n";

fn bytes(text: &str) -> Vec<u8> {
    text.as_bytes().to_vec()
}

fn base64(data: &[u8]) -> String {
    let table = b"ABCDEFGHIJKLMNOPQRSTUVWXYZabcdefghijklmnopqrstuvwxyz0123456789+/";
    let mut text = String::new();
    for chunk in data.chunks(3) {
        let b0: u8 = chunk[0];
        let b1: u8 = if chunk.len() > 1 { chunk[1] } else { 0 };
        let b2: u8 = if chunk.len() > 2 { chunk[2] } else { 0 };
        text.push(table[usize::from(b0 >> 2)] as char);
        text.push(table[usize::from((b0 & 0x03) << 4 | b1 >> 4)] as char);
        if chunk.len() > 1 {
            text.push(table[usize::from((b1 & 0x0f) << 2 | b2 >> 6)] as char);
        } else {
            text.push('=');
        }
        if chunk.len() > 2 {
            text.push(table[usize::from(b2 & 0x3f)] as char);
        } else {
            text.push('=');
        }
    }
    text
}

fn pem(label: &str, der: &[u8]) -> Vec<u8> {
    format!("-----BEGIN {}-----\n{}\n-----END {}-----\n", label, base64(der), label).into_bytes()
}

/// A fresh P-256 key in PKCS8, made for this one test run.
fn fresh_pkcs8_der() -> Vec<u8> {
    let rng = ring::rand::SystemRandom::new();
    let alg = &ring::signature::ECDSA_P256_SHA256_ASN1_SIGNING;
    let doc = ring::signature::EcdsaKeyPair::generate_pkcs8(alg, &rng).unwrap();
    doc.as_ref().to_vec()
}

/// The SEC1 key that a P-256 PKCS8 document wraps: the content of its
/// octet string.
fn sec1_inside(pkcs8: &[u8]) -> Vec<u8> {
    assert_eq!(pkcs8[27], 0x04);
    assert_eq!(usize::from(pkcs8[28]), pkcs8.len() - 29);
    pkcs8[29..].to_vec()
}

fn pkcs8_key_pem() -> Vec<u8> {
    pem("PRIVATE KEY", &fresh_pkcs8_der())
}

fn sec1_key_pem() -> Vec<u8> {
    pem("EC PRIVATE KEY", &sec1_inside(&fresh_pkcs8_der()))
}

fn message(qos: u8) -> MqttMessage {
    MqttMessage { topic: String::from("meter/state"), payload: String::from("x"), qos }
}

fn local_config() -> MqttConfig {
    MqttConfig {
        endpoint: String::from("localhost"),
        port: 8883,
        client_id: String::from("meter-under-test"),
        cert_path: String::new(),
        key_path: String::new(),
        ca_path: String::new(),
    }
}

fn connected() -> MqttManager {
    let mut manager = MqttManager::new();
    let poller = manager.connect(
        &local_config(),
        Ok(bytes(ROOT_CERT)),
        Ok(pkcs8_key_pem()),
        Ok(bytes(ROOT_CERT)),
    );
    assert!(poller.is_ok());
    manager
}

#[test]
fn guarantees_map_to_levels() {
    assert_eq!(DeliveryGuarantee::AtMostOnce.level(), 0);
    assert_eq!(DeliveryGuarantee::AtLeastOnce.level(), 1);
    assert_eq!(DeliveryGuarantee::ExactlyOnce.level(), 2);
}

#[test]
fn levels_map_back_to_guarantees() {
    assert_eq!(DeliveryGuarantee::from_level(0), DeliveryGuarantee::AtMostOnce);
    assert_eq!(DeliveryGuarantee::from_level(1), DeliveryGuarantee::AtLeastOnce);
    assert_eq!(DeliveryGuarantee::from_level(2), DeliveryGuarantee::ExactlyOnce);
}

#[test]
fn guarantee_round_trip() {
    for g in [
        DeliveryGuarantee::AtMostOnce,
        DeliveryGuarantee::AtLeastOnce,
        DeliveryGuarantee::ExactlyOnce,
    ] {
        assert_eq!(DeliveryGuarantee::from_level(g.level()), g);
    }
    for level in 0u8..=2 {
        assert_eq!(DeliveryGuarantee::from_level(level).level(), level);
    }
}

#[test]
fn unrecognised_levels_fall_back_to_at_least_once() {
    for level in 3u8..=255 {
        assert_eq!(DeliveryGuarantee::from_level(level), DeliveryGuarantee::AtLeastOnce);
    }
}

#[test]
fn new_manager_is_disconnected() {
    let manager = MqttManager::new();
    assert!(manager.client.is_none());
    assert_eq!(manager.state(), ConnectionState::Disconnected);
}

#[test]
fn publish_without_connection_is_refused_for_every_guarantee() {
    let manager = MqttManager::new();
    for qos in 0u8..=255 {
        assert_eq!(manager.publish(message(qos)), Err(MqttError::NotConnected));
    }
}

#[test]
fn connect_with_a_sound_identity_connects() {
    let manager = connected();
    assert!(manager.client.is_some());
    assert_eq!(manager.state(), ConnectionState::Connected);
}

#[test]
fn connect_hands_the_broker_address_to_the_event_loop() {
    let mut manager = MqttManager::new();
    let poller = manager
        .connect(&local_config(), Ok(bytes(ROOT_CERT)), Ok(pkcs8_key_pem()), Ok(bytes(ROOT_CERT)))
        .ok()
        .unwrap();
    assert_eq!(poller.mqtt_options.broker_address(), (String::from("localhost"), 8883));
    assert_eq!(poller.mqtt_options.client_id(), "meter-under-test");
    assert_eq!(poller.mqtt_options.keep_alive(), std::time::Duration::from_secs(30));
}

#[test]
fn connect_with_explicit_context_connects() {
    let tls = load_tls_config(
        Ok(bytes(ROOT_CERT)),
        Ok(sec1_key_pem()),
        Ok(bytes(ROOT_CERT)),
        VerifierStrategy::AcceptAll,
    )
    .ok()
    .unwrap();
    let mut manager = MqttManager::new();
    let _poller = manager.connect_with(&local_config(), tls);
    assert_eq!(manager.state(), ConnectionState::Connected);
}

#[test]
fn failed_connect_leaves_the_manager_disconnected() {
    let mut manager = MqttManager::new();
    let missing = Err::<Vec<u8>, String>(String::from("no such file"));
    let outcome = manager.connect(&local_config(), Ok(bytes(ROOT_CERT)), Ok(pkcs8_key_pem()), missing);
    assert_eq!(outcome.err(), Some(MqttError::Io(String::from("no such file"))));
    assert_eq!(manager.state(), ConnectionState::Disconnected);
    let outcome = manager.connect(&local_config(), Ok(bytes(ROOT_CERT)), Ok(bytes("junk")), Ok(bytes(ROOT_CERT)));
    assert_eq!(outcome.err(), Some(MqttError::NoValidKey));
    assert_eq!(manager.state(), ConnectionState::Disconnected);
    assert_eq!(manager.publish(message(1)), Err(MqttError::NotConnected));
}

#[test]
fn failed_connect_keeps_an_earlier_connection() {
    let mut manager = connected();
    let outcome = manager.connect(&local_config(), Ok(bytes("")), Ok(pkcs8_key_pem()), Ok(bytes(ROOT_CERT)));
    assert_eq!(outcome.err(), Some(MqttError::Parse));
    assert_eq!(manager.state(), ConnectionState::Connected);
}

#[test]
fn publish_when_connected_yields_the_request() {
    let manager = connected();
    let request = manager.publish(message(1)).unwrap();
    assert_eq!(
        request,
        PublishRequest {
            topic: String::from("meter/state"),
            guarantee: DeliveryGuarantee::AtLeastOnce,
            level: 1,
            retain: false,
            payload: vec![b'x'],
        }
    );
    assert_eq!(manager.publish(message(0)).unwrap().level, 0);
    assert_eq!(manager.publish(message(2)).unwrap().guarantee, DeliveryGuarantee::ExactlyOnce);
    assert_eq!(manager.publish(message(9)).unwrap().level, 1);
}

#[test]
fn payload_is_sent_as_utf8_bytes() {
    let manager = connected();
    let text = MqttMessage { topic: String::from("t"), payload: String::from("h\u{e9}"), qos: 0 };
    assert_eq!(manager.publish(text).unwrap().payload, vec![b'h', 0xc3, 0xa9]);
}

#[test]
fn publish_after_disconnect_is_refused() {
    let mut manager = connected();
    let handle = manager.disconnect();
    assert!(handle.is_some());
    assert_eq!(manager.state(), ConnectionState::Disconnected);
    for qos in 0u8..=2 {
        assert_eq!(manager.publish(message(qos)), Err(MqttError::NotConnected));
    }
}

#[test]
fn disconnect_without_connection_does_nothing() {
    let mut manager = MqttManager::new();
    assert!(manager.disconnect().is_none());
    assert!(mqtt_disconnect(&mut manager).is_none());
    assert_eq!(manager.state(), ConnectionState::Disconnected);
}

#[test]
fn mqtt_disconnect_hands_out_the_handle() {
    let mut manager = connected();
    assert!(mqtt_disconnect(&mut manager).is_some());
    assert!(manager.client.is_none());
}

#[test]
fn submission_outcome_is_passed_on() {
    assert_eq!(publish_outcome(Ok(())), Ok(()));
    let failed = rumqttc::ClientError::Request(rumqttc::Request::PingReq(rumqttc::PingReq));
    let outcome = publish_outcome(Err(failed));
    assert_eq!(
        outcome,
        Err(MqttError::Network(String::from("Failed to send mqtt requests to eventloop")))
    );
}

#[test]
fn connection_settings_follow_the_meter_configuration() {
    assert_eq!(
        connection_config(&local_config()),
        ConnectionConfig {
            broker_host: String::from("localhost"),
            broker_port: 8883,
            client_id: String::from("meter-under-test"),
            keep_alive_seconds: 30,
        }
    );
}

#[test]
fn link_constants() {
    assert_eq!(KEEP_ALIVE_SECONDS, 30);
    assert_eq!(REQUEST_CAPACITY, 10);
    assert_eq!(SETTLE_MILLIS, 800);
}

#[test]
fn config_is_stamped_with_the_time() {
    let config = mqtt_config_at(1_700_000_000_123);
    assert_eq!(config.endpoint, "a3uoz4wfsx2nz3-ats.iot.ap-south-1.amazonaws.com");
    assert_eq!(config.port, 8883);
    assert_eq!(config.client_id, "indi-touch-meter-1700000000123");
    assert_eq!(
        config.cert_path,
        "C:\\Users\\ankur\\Dev\\personal\\frontend\\indi-touch-meter\\certs\\INDIREX-ADMIN.crt"
    );
    assert_eq!(
        config.key_path,
        "C:\\Users\\ankur\\Dev\\personal\\frontend\\indi-touch-meter\\certs\\INDIREX-ADMIN.key"
    );
    assert_eq!(
        config.ca_path,
        "C:\\Users\\ankur\\Dev\\personal\\frontend\\indi-touch-meter\\certs\\AmazonRootCA1.pem"
    );
}

#[test]
fn config_at_zero_and_at_the_largest_time() {
    assert_eq!(mqtt_config_at(0).client_id, "indi-touch-meter-0");
    assert_eq!(
        mqtt_config_at(u128::MAX).client_id,
        "indi-touch-meter-340282366920938463463374607431768211455"
    );
}

#[test]
fn decimal_is_appended() {
    let mut text = String::from("n=");
    push_decimal(&mut text, 9);
    push_decimal(&mut text, 10);
    push_decimal(&mut text, 905);
    assert_eq!(text, "n=910905");
}

#[test]
fn current_config_has_a_decimal_stamp() {
    let config = get_mqtt_config().unwrap();
    let stamp = config.client_id.strip_prefix("indi-touch-meter-").unwrap();
    assert!(!stamp.is_empty());
    assert!(stamp.chars().all(|c| c.is_ascii_digit()));
    assert_eq!(config.port, 8883);
}
