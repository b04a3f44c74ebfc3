//! Boot-time configuration of the node.
use vstd::prelude::*;

verus! {

/// Radio and broker settings, read once at boot. Every field is empty by default.
pub struct Config {
    pub wifi_ssid: String,
    pub wifi_pass: String,
    pub mqtt_url: String,
    pub mqtt_client_id: String,
    pub mqtt_topic_pub: String,
    pub mqtt_topic_sub: String,
}

impl Default for Config {
    fn default() -> (r: Config)
        ensures
            r.wifi_ssid@ == Seq::<char>::empty(),
            r.wifi_pass@ == Seq::<char>::empty(),
            r.mqtt_url@ == Seq::<char>::empty(),
            r.mqtt_client_id@ == Seq::<char>::empty(),
            r.mqtt_topic_pub@ == Seq::<char>::empty(),
            r.mqtt_topic_sub@ == Seq::<char>::empty(),
    {
        Config {
            wifi_ssid: String::new(),
            wifi_pass: String::new(),
            mqtt_url: String::new(),
            mqtt_client_id: String::new(),
            mqtt_topic_pub: String::new(),
            mqtt_topic_sub: String::new(),
        }
    }
}

} // verus!
