//! Verified core of an environmental sensor node: air-quality scoring, the
//! bounded sample queue, the acquisition cycle, settings promotion, remote
//! command decoding, the telemetry payload encoder, the wall-clock base and
//! the MQTT session state machine with its reconnect backoff.

pub mod acquisition;
pub mod air_quality;
pub mod clock;
pub mod command;
pub mod key;
pub mod payload;
pub mod queue;
pub mod sample;
pub mod session;
pub mod settings;
pub mod system;

pub use acquisition::{
    cycle_delay_ms, merge_readings, Acquisition, BmeReading, BmpReading, CycleOutcome, Readings,
    ShtReading, SAMPLE_PERIOD_MS, WARMUP_CYCLES,
};
pub use air_quality::{aiq_from_score, calculate, AirQuality};
pub use clock::{ntp_request, ntp_unix_seconds, TimeState, NTP_PACKET_LEN};
pub use command::{command_topic, Command, CommandError, COMMANDS_TOPIC_BASE};
pub use key::Key;
pub use payload::build_payload;
pub use queue::{QueueOp, SampleQueue, QUEUE_CAPACITY};
pub use sample::Sample;
pub use session::{
    next_backoff, Action, Burst, Event, Phase, QoS, Session, BROKER_PORT, CONNECT_TIMEOUT_SECS,
    INITIAL_BACKOFF_SECS, IO_POLL_TIMEOUT_MS, KEEP_ALIVE_SECS, MAX_BACKOFF_SECS, PUBLISH_BURST,
};
pub use settings::{
    decode_flag, encode_flag, OptionalSettings, Settings, SettingsEnum, MQTT_BROKER_KEY,
    MQTT_CLIENT_ID_KEY, MQTT_TOPIC_KEY, SYSTEM_REBOOT_TO_RECONFIGURE, WIFI_PASSWORD_KEY,
    WIFI_SSID_KEY,
};
pub use system::{set_state, Latest, State};
