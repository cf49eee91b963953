use air_quality_monitor::home_assistant::{
    AirQualityReading, ClimateReading, HomeAssistantFacade, HomeAssistantFacadeConfig,
    ParticulateReading, SensorReadings, SensorSet,
};
use air_quality_monitor::numfmt::Deci;

fn facade() -> HomeAssistantFacade {
    HomeAssistantFacade::new(HomeAssistantFacadeConfig::new("dev01", "Dev 01"))
}

fn all_sensors() -> SensorSet {
    SensorSet { climate: true, air_quality: true, particulate: true }
}

fn sample_readings() -> SensorReadings {
    SensorReadings {
        climate: Some(ClimateReading {
            co2: 410,
            humidity: Deci::from_tenths(452),
            temperature: Deci::from_tenths(215),
        }),
        air_quality: Some(AirQualityReading { voc_index: 100, nox_index: 1 }),
        particulate: None,
    }
}

#[test]
fn state_message_end_to_end() {
    let msg = facade().get_state_mqtt_message(&sample_readings());
    assert_eq!(msg.topic, "homeassistant/device/dev01/state");
    assert_eq!(
        msg.content,
        "{\"temperature\":21.5,\"co2\":410,\"humidity\":45.2,\"voc_index\":100,\"nox_index\":1}"
    );
}

#[test]
fn state_message_all_sensors() {
    let mut readings = sample_readings();
    readings.particulate = Some(ParticulateReading { pm1_0_atm: 5, pm2_5_atm: 9, pm10_0_atm: 12 });
    let msg = facade().get_state_mqtt_message(&readings);
    assert_eq!(
        msg.content,
        "{\"temperature\":21.5,\"co2\":410,\"humidity\":45.2,\"voc_index\":100,\"nox_index\":1,\"pm1_0_atm\":5,\"pm2_5_atm\":9,\"pm10_0_atm\":12}"
    );
}

#[test]
fn state_message_whole_and_negative_quantities() {
    let readings = SensorReadings {
        climate: Some(ClimateReading {
            co2: 0,
            humidity: Deci::from_tenths(1000),
            temperature: Deci::from_tenths(-45),
        }),
        air_quality: None,
        particulate: None,
    };
    let msg = facade().get_state_mqtt_message(&readings);
    assert_eq!(msg.content, "{\"temperature\":-4.5,\"co2\":0,\"humidity\":100}");
}

#[test]
fn state_message_no_sensors() {
    let readings = SensorReadings { climate: None, air_quality: None, particulate: None };
    let msg = facade().get_state_mqtt_message(&readings);
    assert_eq!(msg.content, "{}");
}

#[test]
fn discovery_message_minimal_exact() {
    let sensors = SensorSet { climate: false, air_quality: true, particulate: false };
    let msg = facade().get_device_discovery_mqtt_message(&sensors);
    assert_eq!(msg.topic, "homeassistant/device/dev01/config");
    let expected = "{\"dev\":{\"ids\":\"dev01\",\"name\":\"Dev 01\"},\"o\":{\"name\":\"air-quality-monitor\",\"sw\":\"1.0\"},\"cmps\":{\"voc_index_component\":{\"p\":\"sensor\",\"name\":\"VOC index\",\"device_class\":\"aqi\",\"value_template\":\"{{ value_json.voc_index}}\",\"unique_id\":\"dev01_voc_index\"},\"nox_index_component\":{\"p\":\"sensor\",\"name\":\"NOx index\",\"device_class\":\"aqi\",\"value_template\":\"{{ value_json.nox_index}}\",\"unique_id\":\"dev01_nox_index\"}},\"state_topic\":\"homeassistant/device/dev01/state\",\"qos\":2}";
    assert_eq!(msg.content, expected);
}

#[test]
fn discovery_message_declares_all_wired_fields() {
    let msg = facade().get_device_discovery_mqtt_message(&all_sensors());
    assert!(msg.content.len() <= 4096);
    assert!(msg.topic.len() <= 128);
    let keys = [
        "temperature", "co2", "humidity", "voc_index", "nox_index", "pm1_0_atm", "pm2_5_atm",
        "pm10_0_atm",
    ];
    for key in keys.iter() {
        let template = format!("value_json.{}", key);
        assert!(msg.content.contains(&template));
    }
    assert!(msg.content.contains("\"unit_of_measurement\":\"\u{b0}C\""));
    assert!(msg.content.contains("\"unit_of_measurement\":\"\u{b5}g/m\u{b3}\""));
    assert!(msg.content.contains("\"unique_id\":\"dev01_pm2_5\""));
}

#[test]
fn schema_consistency_state_keys_declared() {
    let mut readings = sample_readings();
    readings.particulate = Some(ParticulateReading { pm1_0_atm: 1, pm2_5_atm: 2, pm10_0_atm: 3 });
    let f = facade();
    let discovery = f.get_device_discovery_mqtt_message(&all_sensors());
    let state = f.get_state_mqtt_message(&readings);
    let body = state
        .content
        .trim_start_matches('{')
        .trim_end_matches('}')
        .to_string();
    for member in body.split(',') {
        let key = member.split(':').next().unwrap().trim_matches('"');
        let template = format!("value_json.{}", key);
        assert!(discovery.content.contains(&template));
    }
}

#[test]
fn idempotent_formatting() {
    let f = facade();
    let readings = sample_readings();
    let first = f.get_state_mqtt_message(&readings);
    let second = f.get_state_mqtt_message(&readings);
    assert_eq!(first.topic, second.topic);
    assert_eq!(first.content, second.content);
    let d1 = f.get_device_discovery_mqtt_message(&all_sensors());
    let d2 = f.get_device_discovery_mqtt_message(&all_sensors());
    assert_eq!(d1.topic, d2.topic);
    assert_eq!(d1.content, d2.content);
}

#[test]
fn state_message_extreme_values() {
    let readings = SensorReadings {
        climate: Some(ClimateReading {
            co2: 65535,
            humidity: Deci::from_tenths(i32::MAX),
            temperature: Deci::from_tenths(i32::MIN),
        }),
        air_quality: Some(AirQualityReading { voc_index: 65535, nox_index: 65535 }),
        particulate: Some(ParticulateReading {
            pm1_0_atm: 65535,
            pm2_5_atm: 65535,
            pm10_0_atm: 65535,
        }),
    };
    let msg = facade().get_state_mqtt_message(&readings);
    assert_eq!(
        msg.content,
        "{\"temperature\":-214748364.8,\"co2\":65535,\"humidity\":214748364.7,\"voc_index\":65535,\"nox_index\":65535,\"pm1_0_atm\":65535,\"pm2_5_atm\":65535,\"pm10_0_atm\":65535}"
    );
    assert!(msg.content.len() <= 1024);
}

#[test]
fn longest_identifier_still_fits_topics() {
    let id = "a".repeat(100);
    let f = HomeAssistantFacade::new(HomeAssistantFacadeConfig::new(
        Box::leak(id.into_boxed_str()),
        "Device",
    ));
    let state = f.get_state_mqtt_message(&sample_readings());
    assert_eq!(state.topic.len(), 127);
    let discovery = f.get_device_discovery_mqtt_message(&all_sensors());
    assert_eq!(discovery.topic.len(), 128);
    assert!(discovery.content.len() <= 4096);
}

#[test]
fn default_identity() {
    let config = HomeAssistantFacadeConfig::new_from_env();
    let f = HomeAssistantFacade::new(config);
    let msg = f.get_state_mqtt_message(&sample_readings());
    assert_eq!(msg.topic, "homeassistant/device/air-quality-monitor/state");
}
