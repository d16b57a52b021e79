//! Node settings: the optional and filled-in shapes, promotion, stored flags.
use vstd::prelude::*;

verus! {

/// Store key of the Wi-Fi network name.
pub const WIFI_SSID_KEY: &'static str = "wifi.ssid";

/// Store key of the Wi-Fi password.
pub const WIFI_PASSWORD_KEY: &'static str = "wifi.password";

/// Store key of the broker address.
pub const MQTT_BROKER_KEY: &'static str = "mqtt.broker";

/// Store key of the MQTT client id.
pub const MQTT_CLIENT_ID_KEY: &'static str = "mqtt.client_id";

/// Store key of the telemetry topic.
pub const MQTT_TOPIC_KEY: &'static str = "mqtt.topic";

/// Store key of the "reboot to reconfigure" flag.
pub const SYSTEM_REBOOT_TO_RECONFIGURE: &'static str = "system.reconfig";

/// Settings as read while bootstrapping: any field may be missing.
pub struct OptionalSettings {
    pub wifi_ssid: Option<String>,
    pub wifi_password: Option<String>,
    pub mqtt_broker: Option<String>,
    pub mqtt_client_id: Option<String>,
    pub mqtt_topic: Option<String>,
    pub reboot_to_reconfigure: Option<bool>,
}

/// Settings with every required field present.
pub struct Settings {
    pub wifi_ssid: String,
    pub wifi_password: String,
    pub mqtt_broker: String,
    pub mqtt_client_id: String,
    pub mqtt_topic: String,
    pub reboot_to_reconfigure: bool,
}

/// Either shape of the node's settings.
pub enum SettingsEnum {
    Optional(OptionalSettings),
    FilledIn(Settings),
}

/// The text of an optional string, empty when absent.
pub open spec fn text_or_empty(s: Option<String>) -> Seq<char> {
    match s {
        Some(v) => v@,
        None => Seq::empty(),
    }
}

impl OptionalSettings {
    /// All five required fields are present.
    pub open spec fn complete(&self) -> bool {
        &&& self.wifi_ssid is Some
        &&& self.wifi_password is Some
        &&& self.mqtt_broker is Some
        &&& self.mqtt_client_id is Some
        &&& self.mqtt_topic is Some
    }

    /// The reboot flag, false when absent.
    pub open spec fn reboot_flag(&self) -> bool {
        match self.reboot_to_reconfigure {
            Some(b) => b,
            None => false,
        }
    }

    /// Whether the node must go to provisioning: a required field is
    /// missing, or the reboot flag is set.
    pub fn needs_reconfiguration(&self) -> (r: bool)
        ensures
            r == (!self.complete() || self.reboot_flag()),
    {
        let flag = match self.reboot_to_reconfigure {
            Some(b) => b,
            None => false,
        };
        !self.is_complete() || flag
    }

    /// Whether all five required fields are present.
    pub fn is_complete(&self) -> (r: bool)
        ensures
            r == self.complete(),
    {
        self.wifi_ssid.is_some() && self.wifi_password.is_some() && self.mqtt_broker.is_some()
            && self.mqtt_client_id.is_some() && self.mqtt_topic.is_some()
    }
}

/// Complete optional settings promoted to filled-in ones.
pub open spec fn promoted(o: OptionalSettings) -> Settings {
    Settings {
        wifi_ssid: o.wifi_ssid->Some_0,
        wifi_password: o.wifi_password->Some_0,
        mqtt_broker: o.mqtt_broker->Some_0,
        mqtt_client_id: o.mqtt_client_id->Some_0,
        mqtt_topic: o.mqtt_topic->Some_0,
        reboot_to_reconfigure: o.reboot_flag(),
    }
}

/// Filled-in settings with every field marked present.
pub open spec fn demoted(f: Settings) -> OptionalSettings {
    OptionalSettings {
        wifi_ssid: Some(f.wifi_ssid),
        wifi_password: Some(f.wifi_password),
        mqtt_broker: Some(f.mqtt_broker),
        mqtt_client_id: Some(f.mqtt_client_id),
        mqtt_topic: Some(f.mqtt_topic),
        reboot_to_reconfigure: Some(f.reboot_to_reconfigure),
    }
}

/// The shape switch: complete `Optional` settings are promoted, incomplete
/// ones stay, `FilledIn` ones are demoted.
pub open spec fn transmuted(s: SettingsEnum) -> SettingsEnum {
    match s {
        SettingsEnum::Optional(o) => if o.complete() {
            SettingsEnum::FilledIn(promoted(o))
        } else {
            SettingsEnum::Optional(o)
        },
        SettingsEnum::FilledIn(f) => SettingsEnum::Optional(demoted(f)),
    }
}

impl SettingsEnum {
    /// Whether the boot must go to provisioning instead of telemetry:
    /// settings still incomplete, or complete with the reboot flag set.
    pub open spec fn provisioning(&self) -> bool {
        match self {
            SettingsEnum::Optional(_) => true,
            SettingsEnum::FilledIn(s) => s.reboot_to_reconfigure,
        }
    }

    /// Switches shape. An `Optional` value with every required field present
    /// becomes `FilledIn` with the same fields, the reboot flag defaulting to
    /// false; an incomplete one is returned unchanged. A `FilledIn` value
    /// becomes `Optional` with every field present.
    pub fn transmute(self) -> (r: Self)
        ensures
            r == transmuted(self),
    {
        match self {
            SettingsEnum::Optional(settings) => {
                let reboot_to_reconfigure = match settings.reboot_to_reconfigure {
                    Some(b) => b,
                    None => false,
                };
                match settings {
                    OptionalSettings {
                        wifi_ssid: Some(wifi_ssid),
                        wifi_password: Some(wifi_password),
                        mqtt_broker: Some(mqtt_broker),
                        mqtt_client_id: Some(mqtt_client_id),
                        mqtt_topic: Some(mqtt_topic),
                        ..
                    } => SettingsEnum::FilledIn(
                        Settings {
                            wifi_ssid,
                            wifi_password,
                            mqtt_broker,
                            mqtt_client_id,
                            mqtt_topic,
                            reboot_to_reconfigure,
                        },
                    ),
                    other => SettingsEnum::Optional(other),
                }
            },
            SettingsEnum::FilledIn(settings) => SettingsEnum::Optional(
                OptionalSettings {
                    wifi_ssid: Some(settings.wifi_ssid),
                    wifi_password: Some(settings.wifi_password),
                    mqtt_broker: Some(settings.mqtt_broker),
                    mqtt_client_id: Some(settings.mqtt_client_id),
                    mqtt_topic: Some(settings.mqtt_topic),
                    reboot_to_reconfigure: Some(settings.reboot_to_reconfigure),
                },
            ),
        }
    }

    /// The settings with every missing string empty and a missing reboot
    /// flag false; `FilledIn` settings are returned as they are.
    pub fn to_filled_in_with_default(self) -> (r: Settings)
        ensures
            self matches SettingsEnum::FilledIn(f) ==> r == f,
            self matches SettingsEnum::Optional(o) ==> r.wifi_ssid@ == text_or_empty(o.wifi_ssid),
            self matches SettingsEnum::Optional(o) ==> r.wifi_password@ == text_or_empty(o.wifi_password),
            self matches SettingsEnum::Optional(o) ==> r.mqtt_broker@ == text_or_empty(o.mqtt_broker),
            self matches SettingsEnum::Optional(o) ==> r.mqtt_client_id@ == text_or_empty(o.mqtt_client_id),
            self matches SettingsEnum::Optional(o) ==> r.mqtt_topic@ == text_or_empty(o.mqtt_topic),
            self matches SettingsEnum::Optional(o) ==> r.reboot_to_reconfigure == o.reboot_flag(),
    {
        match self {
            SettingsEnum::Optional(settings) => Settings {
                wifi_ssid: string_or_empty(settings.wifi_ssid),
                wifi_password: string_or_empty(settings.wifi_password),
                mqtt_broker: string_or_empty(settings.mqtt_broker),
                mqtt_client_id: string_or_empty(settings.mqtt_client_id),
                mqtt_topic: string_or_empty(settings.mqtt_topic),
                reboot_to_reconfigure: match settings.reboot_to_reconfigure {
                    Some(b) => b,
                    None => false,
                },
            },
            SettingsEnum::FilledIn(settings) => settings,
        }
    }

    /// Whether the boot must go to provisioning (access point and form)
    /// rather than telemetry.
    pub fn needs_provisioning(&self) -> (r: bool)
        ensures
            r == self.provisioning(),
    {
        match self {
            SettingsEnum::Optional(_) => true,
            SettingsEnum::FilledIn(s) => s.reboot_to_reconfigure,
        }
    }
}

/// Promotion: optional settings with all five required fields and no reboot
/// flag become filled-in settings with those fields and the flag false;
/// optional settings missing any required field stay optional and unchanged.
pub proof fn lemma_promotion(o: OptionalSettings)
    ensures
        o.complete() && o.reboot_to_reconfigure is None ==> transmuted(SettingsEnum::Optional(o))
            == SettingsEnum::FilledIn(
            Settings {
                wifi_ssid: o.wifi_ssid->Some_0,
                wifi_password: o.wifi_password->Some_0,
                mqtt_broker: o.mqtt_broker->Some_0,
                mqtt_client_id: o.mqtt_client_id->Some_0,
                mqtt_topic: o.mqtt_topic->Some_0,
                reboot_to_reconfigure: false,
            },
        ),
        !o.complete() ==> transmuted(SettingsEnum::Optional(o)) == SettingsEnum::Optional(o),
{
}

fn string_or_empty(s: Option<String>) -> (r: String)
    ensures
        r@ == text_or_empty(s),
{
    match s {
        Some(v) => v,
        None => String::new(),
    }
}

/// The stored form of a flag: one byte, 1 for true and 0 for false.
pub fn encode_flag(value: bool) -> (r: Vec<u8>)
    ensures
        r@ == seq![if value { 1u8 } else { 0u8 }],
{
    let mut r: Vec<u8> = Vec::new();
    r.push(if value { 1u8 } else { 0u8 });
    assert(r@ =~= seq![if value { 1u8 } else { 0u8 }]);
    r
}

/// Reads a stored flag: set when the first byte is non-zero; an empty
/// record reads as false.
pub fn decode_flag(bytes: &[u8]) -> (r: bool)
    ensures
        r == (bytes@.len() > 0 && bytes@[0] != 0),
{
    bytes.len() > 0 && bytes[0] != 0
}

} // verus!
