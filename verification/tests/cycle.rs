use air_quality_monitor::home_assistant::{
    AirQualityReading, ClimateReading, HomeAssistantFacade, HomeAssistantFacadeConfig,
    ParticulateReading, SensorReadings, SensorSet,
};
use air_quality_monitor::numfmt::Deci;
use air_quality_monitor::orchestrator::run_cycle;
use air_quality_monitor::readiness::{NetStatus, is_ready, wait_ready};

fn codec() -> HomeAssistantFacade {
    HomeAssistantFacade::new(HomeAssistantFacadeConfig::new("dev01", "Dev 01"))
}

fn all_sensors() -> SensorSet {
    SensorSet { climate: true, air_quality: true, particulate: true }
}

fn climate() -> Option<ClimateReading> {
    Some(ClimateReading {
        co2: 600,
        humidity: Deci::from_tenths(501),
        temperature: Deci::from_tenths(199),
    })
}

fn air_quality() -> Option<AirQualityReading> {
    Some(AirQualityReading { voc_index: 120, nox_index: 2 })
}

fn particulate() -> Option<ParticulateReading> {
    Some(ParticulateReading { pm1_0_atm: 3, pm2_5_atm: 4, pm10_0_atm: 6 })
}

#[test]
fn cycle_with_second_sensor_failed_publishes_nothing() {
    let readings = SensorReadings {
        climate: climate(),
        air_quality: None,
        particulate: particulate(),
    };
    assert!(run_cycle(&codec(), &all_sensors(), &readings).is_none());
}

#[test]
fn cycle_with_any_sensor_failed_publishes_nothing() {
    let missing_first = SensorReadings {
        climate: None,
        air_quality: air_quality(),
        particulate: particulate(),
    };
    let missing_last = SensorReadings {
        climate: climate(),
        air_quality: air_quality(),
        particulate: None,
    };
    assert!(run_cycle(&codec(), &all_sensors(), &missing_first).is_none());
    assert!(run_cycle(&codec(), &all_sensors(), &missing_last).is_none());
}

#[test]
fn complete_cycle_publishes_one_state_message() {
    let readings = SensorReadings {
        climate: climate(),
        air_quality: air_quality(),
        particulate: particulate(),
    };
    let msg = run_cycle(&codec(), &all_sensors(), &readings).unwrap();
    assert_eq!(msg.topic, "homeassistant/device/dev01/state");
    assert_eq!(
        msg.content,
        "{\"temperature\":19.9,\"co2\":600,\"humidity\":50.1,\"voc_index\":120,\"nox_index\":2,\"pm1_0_atm\":3,\"pm2_5_atm\":4,\"pm10_0_atm\":6}"
    );
}

#[test]
fn unwired_sensors_never_block_a_report() {
    let sensors = SensorSet { climate: true, air_quality: false, particulate: false };
    let readings = SensorReadings { climate: climate(), air_quality: None, particulate: None };
    let msg = run_cycle(&codec(), &sensors, &readings).unwrap();
    assert_eq!(msg.content, "{\"temperature\":19.9,\"co2\":600,\"humidity\":50.1}");
}

#[test]
fn readiness_is_conjunction_of_link_and_address() {
    assert!(is_ready(&NetStatus { link_up: true, address_configured: true }));
    assert!(!is_ready(&NetStatus { link_up: true, address_configured: false }));
    assert!(!is_ready(&NetStatus { link_up: false, address_configured: true }));
    assert!(!is_ready(&NetStatus { link_up: false, address_configured: false }));
}

#[test]
fn gate_opens_at_first_simultaneous_readiness() {
    let polls = vec![
        NetStatus { link_up: false, address_configured: false },
        NetStatus { link_up: true, address_configured: false },
        NetStatus { link_up: false, address_configured: true },
        NetStatus { link_up: true, address_configured: true },
        NetStatus { link_up: true, address_configured: true },
    ];
    assert_eq!(wait_ready(&polls), Some(3));
    let never = vec![
        NetStatus { link_up: true, address_configured: false },
        NetStatus { link_up: false, address_configured: true },
    ];
    assert_eq!(wait_ready(&never), None);
}
