use ultrasonic::client::{CredentialMaterial, SessionConfig, KEEP_ALIVE_SECS};
use ultrasonic::credential::{read_until_sentinel, with_sentinel, SENTINEL};
use ultrasonic::startup::Config;

#[test]
fn sentinel_is_appended() {
    assert_eq!(SENTINEL, 0);
    assert_eq!(with_sentinel(b"-----BEGIN".to_vec()), b"-----BEGIN\0".to_vec());
    assert_eq!(with_sentinel(Vec::new()), vec![0u8]);
}

#[test]
fn credential_round_trip() {
    for b in [&b""[..], &b"x"[..], &b"-----BEGIN CERTIFICATE-----\nMIIB\n"[..]] {
        let buf = with_sentinel(b.to_vec());
        assert_eq!(read_until_sentinel(&buf), b.to_vec());
    }
}

#[test]
fn read_stops_at_first_sentinel() {
    assert_eq!(read_until_sentinel(&[65, 0, 66, 0]), vec![65]);
    assert_eq!(read_until_sentinel(&[65, 66]), vec![65, 66]);
    assert_eq!(read_until_sentinel(&[]), Vec::<u8>::new());
    assert_eq!(read_until_sentinel(&[0]), Vec::<u8>::new());
}

#[test]
fn material_buffers_are_terminated() {
    let m = CredentialMaterial::load(b"ca".to_vec(), b"cert".to_vec(), b"key".to_vec());
    assert_eq!(m.root_ca(), b"ca\0");
    assert_eq!(m.device_cert(), b"cert\0");
    assert_eq!(m.private_key(), b"key\0");
    let (a, b, c) = m.into_buffers();
    assert_eq!(a, b"ca\0".to_vec());
    assert_eq!(b, b"cert\0".to_vec());
    assert_eq!(c, b"key\0".to_vec());
}

#[test]
fn session_config_has_fixed_keep_alive() {
    let m = CredentialMaterial::load(b"ca".to_vec(), b"cert".to_vec(), b"key".to_vec());
    let c = SessionConfig::new("mqtts://broker:8883", "node-1", m);
    assert_eq!(KEEP_ALIVE_SECS, 60);
    assert_eq!(c.keep_alive_secs, 60);
    assert_eq!(c.url, "mqtts://broker:8883");
    assert_eq!(c.client_id, "node-1");
    assert_eq!(c.credentials.root_ca(), b"ca\0");
}

#[test]
fn config_defaults_are_empty() {
    let c = Config::default();
    assert_eq!(c.wifi_ssid, "");
    assert_eq!(c.wifi_pass, "");
    assert_eq!(c.mqtt_url, "");
    assert_eq!(c.mqtt_client_id, "");
    assert_eq!(c.mqtt_topic_pub, "");
    assert_eq!(c.mqtt_topic_sub, "");
}
