use sensors_node::{
    aiq_from_score, build_payload, calculate, command_topic, cycle_delay_ms, decode_flag,
    encode_flag, merge_readings, next_backoff, ntp_request, ntp_unix_seconds, set_state,
    Acquisition, Action, AirQuality, BmeReading, BmpReading, Command, CommandError, CycleOutcome,
    Event, Key, Latest, OptionalSettings, Phase, QoS, Readings, Sample, SampleQueue, Session,
    Settings, SettingsEnum, ShtReading, State, TimeState, QUEUE_CAPACITY,
};

fn optional(
    ssid: Option<&str>,
    password: Option<&str>,
    broker: Option<&str>,
    client_id: Option<&str>,
    topic: Option<&str>,
    reboot: Option<bool>,
) -> OptionalSettings {
    OptionalSettings {
        wifi_ssid: ssid.map(String::from),
        wifi_password: password.map(String::from),
        mqtt_broker: broker.map(String::from),
        mqtt_client_id: client_id.map(String::from),
        mqtt_topic: topic.map(String::from),
        reboot_to_reconfigure: reboot,
    }
}

fn complete(reboot: Option<bool>) -> OptionalSettings {
    optional(
        Some("home"),
        Some("secret"),
        Some("192.168.1.11"),
        Some("node-1"),
        Some("sensors/living_room"),
        reboot,
    )
}

#[test]
fn category_bucket_edges() {
    assert_eq!(aiq_from_score(0), AirQuality::Good);
    assert_eq!(aiq_from_score(49), AirQuality::Good);
    assert_eq!(aiq_from_score(50), AirQuality::Moderate);
    assert_eq!(aiq_from_score(149), AirQuality::Moderate);
    assert_eq!(aiq_from_score(150), AirQuality::UnhealthyForSensitiveGroups);
    assert_eq!(aiq_from_score(174), AirQuality::UnhealthyForSensitiveGroups);
    assert_eq!(aiq_from_score(175), AirQuality::Unhealthy);
    assert_eq!(aiq_from_score(199), AirQuality::Unhealthy);
    assert_eq!(aiq_from_score(200), AirQuality::VeryUnhealthy);
    assert_eq!(aiq_from_score(299), AirQuality::VeryUnhealthy);
    assert_eq!(aiq_from_score(300), AirQuality::Hazardous);
    assert_eq!(aiq_from_score(u32::MAX), AirQuality::Hazardous);
}

#[test]
fn calculate_exact_scores() {
    // humidity in thousandths of a percent, gas in ohms
    assert_eq!(calculate(0, 0), (0, AirQuality::Good));
    assert_eq!(calculate(20_000, 0), (12, AirQuality::Good));
    assert_eq!(calculate(40_000, 4_999), (25, AirQuality::Good));
    assert_eq!(calculate(38_000, 5_000), (58, AirQuality::Moderate));
    assert_eq!(calculate(42_000, 49_999), (58, AirQuality::Moderate));
    assert_eq!(calculate(71_000, 0), (45, AirQuality::Good));
    assert_eq!(calculate(100_000, 50_000), (141, AirQuality::Moderate));
    assert_eq!(calculate(100_000, u32::MAX), (141, AirQuality::Moderate));
}

#[test]
fn calculate_stays_bounded_over_the_humidity_range() {
    let gases = [0u32, 4_999, 5_000, 25_000, 49_999, 50_000, u32::MAX];
    let mut h: u32 = 0;
    while h <= 100_000 {
        for g in gases {
            let (score, category) = calculate(h, g);
            assert!(score <= 141);
            assert_eq!(category, aiq_from_score(score));
        }
        h += 250;
    }
    let (score, _) = calculate(u32::MAX, u32::MAX);
    assert_eq!(category_of_score(score), aiq_from_score(score));
}

fn category_of_score(score: u32) -> AirQuality {
    aiq_from_score(score)
}

fn sample_with_readings() -> Sample {
    let mut s = Sample::new(1_700_000_000);
    s.temperature = Some(23_456);
    s.gas_ohm = Some(12_000);
    s.hum_sht40 = Some(-5);
    s.lux_bh1750 = Some(120_500);
    s
}

#[test]
fn payload_has_timestamp_and_present_fields_only() {
    let payload = build_payload(&sample_with_readings());
    assert_eq!(
        String::from_utf8(payload).unwrap(),
        "{\"ts\":1700000000,\"temp_bme680\":23.456,\"gas_ohm\":12000,\"lux_bh1750\":120.500,\"hum_sht40\":-0.005}"
    );
}

#[test]
fn payload_of_empty_sample_is_timestamp_only() {
    let payload = build_payload(&Sample::new(0));
    assert_eq!(String::from_utf8(payload).unwrap(), "{\"ts\":0}");
}

#[test]
fn payload_with_every_field() {
    let s = Sample {
        timestamp: 7,
        temperature: Some(1),
        pressure: Some(1_013_250),
        humidity: Some(45_000),
        hum_sht40: Some(44_999),
        temp_sht40: Some(-12_345),
        press_bmp390: Some(999_000),
        temp_bmp390: Some(0),
        gas_ohm: Some(0),
        lux_veml7700: Some(2_147_483_647),
        lux_bh1750: Some(-2_147_483_648),
        aiq_score: Some(58),
    };
    let text = String::from_utf8(build_payload(&s)).unwrap();
    assert_eq!(
        text,
        "{\"ts\":7,\"temp_bme680\":0.001,\"press_bme680\":1013.250,\"hum_bme680\":45.000,\
         \"gas_ohm\":0,\"aiq_score\":58,\"lux_bh1750\":-2147483.648,\
         \"lux_veml7700\":2147483.647,\"temp_bmp390\":0.000,\"press_bmp390\":999.000,\
         \"hum_sht40\":44.999,\"temp_sht40\":-12.345}"
    );
}

#[test]
fn queue_is_fifo() {
    let mut q = SampleQueue::new();
    assert!(q.is_empty());
    assert_eq!(q.dequeue(), None);
    assert_eq!(q.enqueue(Sample::new(1)), Ok(()));
    assert_eq!(q.enqueue(Sample::new(2)), Ok(()));
    assert_eq!(q.dequeue(), Some(Sample::new(1)));
    assert_eq!(q.enqueue(Sample::new(3)), Ok(()));
    assert_eq!(q.len(), 2);
    assert_eq!(q.dequeue(), Some(Sample::new(2)));
    assert_eq!(q.dequeue(), Some(Sample::new(3)));
    assert_eq!(q.dequeue(), None);
}

#[test]
fn queue_full_rejects_without_corruption() {
    let mut q = SampleQueue::new();
    for i in 0..QUEUE_CAPACITY as u32 {
        assert_eq!(q.enqueue(Sample::new(i)), Ok(()));
    }
    assert!(q.is_full());
    assert_eq!(q.len(), 64);
    assert_eq!(q.enqueue(Sample::new(999)), Err(Sample::new(999)));
    assert_eq!(q.len(), 64);
    for i in 0..QUEUE_CAPACITY as u32 {
        assert_eq!(q.dequeue(), Some(Sample::new(i)));
    }
    assert_eq!(q.dequeue(), None);
}

#[test]
fn queue_accepts_again_after_dequeue_from_full() {
    let mut q = SampleQueue::new();
    for i in 0..64u32 {
        q.enqueue(Sample::new(i)).unwrap();
    }
    assert_eq!(q.dequeue(), Some(Sample::new(0)));
    assert_eq!(q.enqueue(Sample::new(64)), Ok(()));
    assert_eq!(q.enqueue(Sample::new(65)), Err(Sample::new(65)));
    for i in 1..=64u32 {
        assert_eq!(q.dequeue(), Some(Sample::new(i)));
    }
}

#[test]
fn complete_settings_promote_with_reboot_false() {
    match SettingsEnum::Optional(complete(None)).transmute() {
        SettingsEnum::FilledIn(s) => {
            assert_eq!(s.wifi_ssid, "home");
            assert_eq!(s.wifi_password, "secret");
            assert_eq!(s.mqtt_broker, "192.168.1.11");
            assert_eq!(s.mqtt_client_id, "node-1");
            assert_eq!(s.mqtt_topic, "sensors/living_room");
            assert!(!s.reboot_to_reconfigure);
        }
        SettingsEnum::Optional(_) => panic!("complete settings must promote"),
    }
}

#[test]
fn complete_settings_keep_reboot_flag() {
    match SettingsEnum::Optional(complete(Some(true))).transmute() {
        SettingsEnum::FilledIn(s) => assert!(s.reboot_to_reconfigure),
        SettingsEnum::Optional(_) => panic!("complete settings must promote"),
    }
}

#[test]
fn incomplete_settings_do_not_promote() {
    let cases = [
        optional(None, Some("p"), Some("b"), Some("c"), Some("t"), None),
        optional(Some("s"), None, Some("b"), Some("c"), Some("t"), None),
        optional(Some("s"), Some("p"), None, Some("c"), Some("t"), None),
        optional(Some("s"), Some("p"), Some("b"), None, Some("t"), None),
        optional(Some("s"), Some("p"), Some("b"), Some("c"), None, Some(false)),
    ];
    for o in cases {
        assert!(!o.is_complete());
        assert!(o.needs_reconfiguration());
        match SettingsEnum::Optional(o).transmute() {
            SettingsEnum::Optional(back) => assert!(!back.is_complete()),
            SettingsEnum::FilledIn(_) => panic!("incomplete settings must not promote"),
        }
    }
}

#[test]
fn filled_in_settings_demote_with_every_field() {
    let s = Settings {
        wifi_ssid: String::from("a"),
        wifi_password: String::from("b"),
        mqtt_broker: String::from("c"),
        mqtt_client_id: String::from("d"),
        mqtt_topic: String::from("e"),
        reboot_to_reconfigure: true,
    };
    match SettingsEnum::FilledIn(s).transmute() {
        SettingsEnum::Optional(o) => {
            assert_eq!(o.wifi_ssid.as_deref(), Some("a"));
            assert_eq!(o.wifi_password.as_deref(), Some("b"));
            assert_eq!(o.mqtt_broker.as_deref(), Some("c"));
            assert_eq!(o.mqtt_client_id.as_deref(), Some("d"));
            assert_eq!(o.mqtt_topic.as_deref(), Some("e"));
            assert_eq!(o.reboot_to_reconfigure, Some(true));
        }
        SettingsEnum::FilledIn(_) => panic!("filled-in settings must demote"),
    }
}

#[test]
fn defaults_fill_missing_fields() {
    let o = optional(Some("net"), None, None, Some("id"), None, None);
    let s = SettingsEnum::Optional(o).to_filled_in_with_default();
    assert_eq!(s.wifi_ssid, "net");
    assert_eq!(s.wifi_password, "");
    assert_eq!(s.mqtt_broker, "");
    assert_eq!(s.mqtt_client_id, "id");
    assert_eq!(s.mqtt_topic, "");
    assert!(!s.reboot_to_reconfigure);
}

#[test]
fn reboot_flag_forces_provisioning() {
    assert!(!complete(None).needs_reconfiguration());
    assert!(!complete(Some(false)).needs_reconfiguration());
    assert!(complete(Some(true)).needs_reconfiguration());
    let promoted = SettingsEnum::Optional(complete(Some(true))).transmute();
    assert!(promoted.needs_provisioning());
    let running = SettingsEnum::Optional(complete(None)).transmute();
    assert!(!running.needs_provisioning());
    assert!(SettingsEnum::Optional(optional(None, None, None, None, None, None)).needs_provisioning());
}

#[test]
fn flag_encoding() {
    assert_eq!(encode_flag(true), vec![1u8]);
    assert_eq!(encode_flag(false), vec![0u8]);
    assert!(decode_flag(&[1]));
    assert!(decode_flag(&[7]));
    assert!(!decode_flag(&[0]));
    assert!(!decode_flag(&[]));
}

#[test]
fn command_parsing() {
    assert_eq!(Command::try_from(&[0x30]), Ok(Command::RebootToReconfigure));
    assert_eq!(Command::try_from(&[]), Err(CommandError::CannotConvertPayload));
    assert_eq!(Command::try_from(&[0x30, 0x30]), Err(CommandError::CannotConvertPayload));
    for b in 0..=255u8 {
        if b != 0x30 {
            assert_eq!(Command::try_from(&[b]), Err(CommandError::CannotConvertPayload));
        }
    }
}

#[test]
fn command_topic_of_client() {
    assert_eq!(command_topic("esp32s3-test-2"), "sensors/command/esp32s3-test-2");
    assert_eq!(command_topic(""), "sensors/command/");
}

fn fail_tcp(s: &mut Session) -> Vec<Action> {
    assert_eq!(s.step(Event::WifiUp), vec![Action::OpenTcp { port: 1883 }]);
    s.step(Event::TcpFailed)
}

fn fail_connect(s: &mut Session) -> Vec<Action> {
    assert_eq!(s.step(Event::WifiUp), vec![Action::OpenTcp { port: 1883 }]);
    assert_eq!(
        s.step(Event::TcpConnected),
        vec![Action::SendConnect { clean_session: true, keep_alive_secs: 120, ack_timeout_secs: 10 }]
    );
    s.step(Event::ConnectFailed)
}

fn connect(s: &mut Session) {
    assert_eq!(s.step(Event::WifiUp), vec![Action::OpenTcp { port: 1883 }]);
    s.step(Event::TcpConnected);
    assert_eq!(
        s.step(Event::ConnAck),
        vec![Action::SignalReady, Action::Subscribe { qos: QoS::AtMostOnce }]
    );
    assert_eq!(s.phase, Phase::Connected);
}

#[test]
fn backoff_doubles_up_to_thirty_seconds() {
    let mut s = Session::new("node");
    let expected = [1u64, 2, 4, 8, 16, 30, 30, 30];
    for (n, secs) in expected.iter().enumerate() {
        let acts = if n % 2 == 0 { fail_tcp(&mut s) } else { fail_connect(&mut s) };
        assert_eq!(acts, vec![Action::Sleep { secs: *secs }]);
        assert_eq!(s.phase, Phase::Disconnected);
    }
    assert_eq!(next_backoff(1), 2);
    assert_eq!(next_backoff(14), 28);
    assert_eq!(next_backoff(15), 30);
    assert_eq!(next_backoff(30), 30);
}

#[test]
fn backoff_resets_after_connect() {
    let mut s = Session::new("node");
    fail_tcp(&mut s);
    fail_tcp(&mut s);
    fail_tcp(&mut s);
    assert_eq!(s.backoff_secs, 8);
    connect(&mut s);
    assert_eq!(s.backoff_secs, 1);
    assert_eq!(s.step(Event::PeerDisconnected), vec![Action::SignalDown]);
    assert_eq!(fail_tcp(&mut s), vec![Action::Sleep { secs: 1 }]);
}

#[test]
fn connect_then_publish_one_sample() {
    let mut queue = SampleQueue::new();
    let sample = sample_with_readings();
    queue.enqueue(sample).unwrap();
    let mut s = Session::new("node");
    connect(&mut s);
    let taken = queue.dequeue().unwrap();
    let acts = s.step(Event::SampleReady(taken));
    assert_eq!(
        acts,
        vec![Action::Publish { sample, qos: QoS::AtLeastOnce, retain: false }]
    );
    assert_eq!(queue.dequeue(), None);
    let payload = String::from_utf8(build_payload(&taken)).unwrap();
    assert!(payload.starts_with("{\"ts\":1700000000,"));
    assert!(payload.contains("\"temp_bme680\":23.456"));
    assert!(!payload.contains("press_bme680"));
}

#[test]
fn publish_failure_requeues_and_goes_down() {
    let mut queue = SampleQueue::new();
    let mut s = Session::new("node");
    fail_tcp(&mut s);
    connect(&mut s);
    let first = Sample::new(1);
    let second = Sample::new(2);
    queue.enqueue(first).unwrap();
    queue.enqueue(second).unwrap();
    let a = queue.dequeue().unwrap();
    assert_eq!(s.step(Event::SampleReady(a)).len(), 1);
    let b = queue.dequeue().unwrap();
    let acts = s.step(Event::PublishFailed(b));
    assert_eq!(acts, vec![Action::Requeue(second), Action::SignalDown]);
    assert_eq!(s.phase, Phase::Disconnected);
    assert_eq!(queue.enqueue(second), Ok(()));
    assert_eq!(queue.dequeue(), Some(second));
    // the next cycle starts from Disconnected; the delay is 1 s after the last good CONNECT
    assert_eq!(fail_tcp(&mut s), vec![Action::Sleep { secs: 1 }]);
    assert_eq!(fail_tcp(&mut s), vec![Action::Sleep { secs: 2 }]);
    connect(&mut s);
    assert_eq!(s.backoff_secs, 1);
}

#[test]
fn publish_failure_with_full_queue_loses_sample() {
    let mut queue = SampleQueue::new();
    for i in 0..64u32 {
        queue.enqueue(Sample::new(i)).unwrap();
    }
    let mut s = Session::new("node");
    connect(&mut s);
    let lost = Sample::new(500);
    assert_eq!(
        s.step(Event::PublishFailed(lost)),
        vec![Action::Requeue(lost), Action::SignalDown]
    );
    assert_eq!(queue.enqueue(lost), Err(lost));
    assert_eq!(queue.dequeue(), Some(Sample::new(0)));
}

#[test]
fn inbound_command_is_dispatched_only_on_command_topic() {
    let mut s = Session::new("node-7");
    connect(&mut s);
    let acts = s.step(Event::Received {
        topic: String::from("sensors/command/node-7"),
        payload: vec![0x30],
    });
    assert_eq!(acts, vec![Action::Execute(Command::RebootToReconfigure)]);
    let acts = s.step(Event::Received {
        topic: String::from("sensors/command/node-8"),
        payload: vec![0x30],
    });
    assert!(acts.is_empty());
    let acts = s.step(Event::Received {
        topic: String::from("sensors/command/node-7"),
        payload: vec![0x31],
    });
    assert!(acts.is_empty());
    assert_eq!(s.phase, Phase::Connected);
}

#[test]
fn disconnect_and_io_error_drop_session() {
    let mut s = Session::new("n");
    connect(&mut s);
    assert_eq!(s.step(Event::Idle), vec![]);
    assert_eq!(s.step(Event::PeerDisconnected), vec![Action::SignalDown]);
    assert_eq!(s.phase, Phase::Disconnected);
    connect(&mut s);
    assert_eq!(s.step(Event::IoError), vec![Action::SignalDown]);
    assert_eq!(s.backoff_secs, 1);
}

#[test]
fn connect_phase_failures_back_off() {
    let mut s = Session::new("n");
    s.step(Event::WifiUp);
    s.step(Event::TcpConnected);
    assert_eq!(s.step(Event::PeerDisconnected), vec![Action::Sleep { secs: 1 }]);
    s.step(Event::WifiUp);
    s.step(Event::TcpConnected);
    assert_eq!(s.step(Event::IoError), vec![Action::Sleep { secs: 2 }]);
    assert_eq!(s.backoff_secs, 4);
}

#[test]
fn events_out_of_phase_change_nothing() {
    let mut s = Session::new("n");
    assert!(s.step(Event::ConnAck).is_empty());
    assert!(s.step(Event::SampleReady(Sample::new(3))).is_empty());
    assert_eq!(s.phase, Phase::Disconnected);
    s.step(Event::WifiUp);
    assert!(s.step(Event::WifiUp).is_empty());
    assert_eq!(s.phase, Phase::TcpConnecting);
}

#[test]
fn wall_clock_from_sync_base() {
    let mut t = TimeState::new();
    assert_eq!(t.now_at(100), None);
    assert_eq!(t.now_or_uptime_at(100), 100);
    t.set_at(1_700_000_000, 50);
    assert_eq!(t.now_at(110), Some(1_700_000_060));
    assert_eq!(t.now_or_uptime_at(50), 1_700_000_000);
    t.set_at(u32::MAX, 0);
    assert_eq!(t.now_at(2), Some(1));
}

#[test]
fn wall_clock_with_live_uptime() {
    let mut t = TimeState::new();
    assert_eq!(t.now(), None);
    t.set(1_000_000);
    let now = t.now().unwrap();
    assert!(now >= 1_000_000 && now < 1_000_100);
    assert!(t.now_or_uptime() >= 1_000_000);
}

#[test]
fn ntp_packets() {
    let req = ntp_request();
    assert_eq!(req.len(), 48);
    assert_eq!(req[0], 0b1110_0011);
    assert!(req[1..].iter().all(|b| *b == 0));
    let mut reply = vec![0u8; 48];
    // 2024-01-01T00:00:00Z = 1_704_067_200 Unix = 3_913_056_000 NTP
    reply[40..44].copy_from_slice(&3_913_056_000u32.to_be_bytes());
    assert_eq!(ntp_unix_seconds(&reply), Some(1_704_067_200));
    assert_eq!(ntp_unix_seconds(&reply[..47]), None);
    let early = vec![0u8; 48];
    assert_eq!(ntp_unix_seconds(&early), None);
}

#[test]
fn key_bytes_round_trip() {
    let k = Key::from([0x78, 0x56, 0x34, 0x12]);
    assert_eq!(k.as_bytes(), [0x78, 0x56, 0x34, 0x12]);
    assert_eq!(k.as_bytes(), 0x1234_5678u32.to_le_bytes());
    assert_eq!(k.next().as_bytes(), [0x79, 0x56, 0x34, 0x12]);
    assert_eq!(Key::from_bytes([0xff, 0, 0, 0]).next().as_bytes(), [0, 1, 0, 0]);
}

#[test]
fn acquisition_discards_warmup_then_queues() {
    let mut acq = Acquisition::new(2);
    let mut queue = SampleQueue::new();
    let readings = Readings {
        bme680: Some(BmeReading { humidity: 40_000, pressure: 1_000_000, temperature: 21_000, gas_ohm: 10_000 }),
        sht40: None,
        bmp390: None,
        lux_veml7700: Some(5),
        lux_bh1750: None,
    };
    assert_eq!(acq.cycle(1, &readings, &mut queue), CycleOutcome::WarmingUp);
    assert_eq!(acq.cycle(2, &readings, &mut queue), CycleOutcome::WarmingUp);
    assert!(queue.is_empty());
    assert_eq!(acq.cycle(3, &readings, &mut queue), CycleOutcome::Queued);
    let s = queue.dequeue().unwrap();
    assert_eq!(s.timestamp, 3);
    assert_eq!(s.aiq_score, Some(58));
    assert_eq!(s.lux_veml7700, Some(5));
    for i in 0..64u32 {
        assert_eq!(acq.cycle(i, &readings, &mut queue), CycleOutcome::Queued);
    }
    assert_eq!(acq.cycle(99, &readings, &mut queue), CycleOutcome::QueueFull);
}

#[test]
fn merge_keeps_absent_fields_absent() {
    let readings = Readings {
        bme680: None,
        sht40: Some(ShtReading { humidity: 55_500, temperature: 22_100 }),
        bmp390: Some(BmpReading { temperature: 21_900, pressure: 1_012_000 }),
        lux_veml7700: None,
        lux_bh1750: Some(300_000),
    };
    let s = merge_readings(42, &readings);
    assert_eq!(s.timestamp, 42);
    assert_eq!(s.temperature, None);
    assert_eq!(s.gas_ohm, None);
    assert_eq!(s.aiq_score, None);
    assert_eq!(s.hum_sht40, Some(55_500));
    assert_eq!(s.temp_sht40, Some(22_100));
    assert_eq!(s.temp_bmp390, Some(21_900));
    assert_eq!(s.press_bmp390, Some(1_012_000));
    assert_eq!(s.lux_bh1750, Some(300_000));
    let negative = Readings {
        bme680: Some(BmeReading { humidity: -1_000, pressure: 0, temperature: 0, gas_ohm: 60_000 }),
        sht40: None,
        bmp390: None,
        lux_veml7700: None,
        lux_bh1750: None,
    };
    assert_eq!(merge_readings(0, &negative).aiq_score, Some(75));
}

#[test]
fn cycle_delay_shrinks_but_never_negates() {
    assert_eq!(cycle_delay_ms(60_000, 1_500), 58_500);
    assert_eq!(cycle_delay_ms(60_000, 60_000), 0);
    assert_eq!(cycle_delay_ms(60_000, 75_000), 0);
}

#[test]
fn state_signal_keeps_latest() {
    let mut slot: Latest<State> = Latest::new();
    assert!(!slot.is_set());
    set_state(&mut slot, State::Booting);
    set_state(&mut slot, State::WifiConnecting);
    assert!(slot.is_set());
    assert_eq!(slot.take(), Some(State::WifiConnecting));
    assert_eq!(slot.take(), None);
    assert_eq!(State::default(), State::Booting);
}

#[test]
fn burst_allows_four_more_per_wake() {
    let mut burst = sensors_node::Burst::new();
    assert!(!burst.take());
    burst.start();
    assert!(burst.take());
    assert!(burst.take());
    assert!(burst.take());
    assert!(burst.take());
    assert!(!burst.take());
    burst.start();
    assert!(burst.take());
    burst.stop();
    assert!(!burst.take());
}
