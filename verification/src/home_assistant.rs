//! Message codec for the home-automation platform.
//!
//! Pure functions that render the one-time discovery descriptor and the
//! recurring state snapshot into wire-ready topic/payload pairs.  Every
//! payload is a complete JSON object, every topic a complete slash-delimited
//! path, and both are bounded: topics fit 128 characters, a state payload
//! fits 1024 and a discovery payload 4096.  The keys of every state payload
//! are exactly the fields the discovery payload declares for the same sensor
//! set, in a fixed order.

use vstd::prelude::*;
use crate::mqtt::MqttMessage;
use crate::numfmt::{
    Deci, dec_digits, tenths_chars, format_deci, format_u32, lemma_tenths_len,
    lemma_dec_digits_len, pow10,
};

verus! {

/// The device's identity: configured once at startup, read-only afterwards.
/// The identifier also appears in every topic, so it is bounded to keep
/// topics within their capacity; the display name is bounded by the
/// discovery payload's capacity.
pub struct HomeAssistantFacadeConfig {
    pub device_id: &'static str,
    pub device_name: &'static str,
}

impl HomeAssistantFacadeConfig {
    /// The bounds that keep every rendered topic and payload within its
    /// fixed capacity.
    pub open spec fn spec_wf(self) -> bool {
        &&& self.device_id@.len() <= 100
        &&& self.device_name@.len() <= 1000
    }

    /// An identity from an identifier and a display name.
    pub fn new(device_id: &'static str, device_name: &'static str) -> (r: Self)
        requires
            device_id@.len() <= 100,
            device_name@.len() <= 1000,
        ensures
            r.device_id@ == device_id@,
            r.device_name@ == device_name@,
            r.spec_wf(),
    {
        Self { device_id, device_name }
    }

    /// The build-time default identity.
    pub fn new_from_env() -> (r: Self)
        ensures
            r.device_id@ == "air-quality-monitor"@,
            r.device_name@ == "Air Quality Monitor"@,
            r.spec_wf(),
    {
        proof {
            reveal_strlit("air-quality-monitor");
            reveal_strlit("Air Quality Monitor");
        }
        Self::new("air-quality-monitor", "Air Quality Monitor")
    }
}

/// The codec: renders messages for one device identity.
pub struct HomeAssistantFacade {
    pub config: HomeAssistantFacadeConfig,
}

/// One reading of the climate sensor.
#[derive(Clone, Copy, PartialEq, Eq, Structural, Debug)]
pub struct ClimateReading {
    pub co2: u16,
    pub humidity: Deci,
    pub temperature: Deci,
}

/// One reading of the gas-index sensor.
#[derive(Clone, Copy, PartialEq, Eq, Structural, Debug)]
pub struct AirQualityReading {
    pub voc_index: u16,
    pub nox_index: u16,
}

/// One reading of the particulate-matter sensor.
#[derive(Clone, Copy, PartialEq, Eq, Structural, Debug)]
pub struct ParticulateReading {
    pub pm1_0_atm: u16,
    pub pm2_5_atm: u16,
    pub pm10_0_atm: u16,
}

/// What one polling cycle produced: per sensor either a structured record
/// or an explicit "unavailable this cycle" absence.
#[derive(Clone, Copy, PartialEq, Eq, Structural, Debug)]
pub struct SensorReadings {
    pub climate: Option<ClimateReading>,
    pub air_quality: Option<AirQualityReading>,
    pub particulate: Option<ParticulateReading>,
}

/// Which sensors this build of the device is wired with.  The key set of
/// every message is fixed by this choice.
#[derive(Clone, Copy, PartialEq, Eq, Structural, Debug)]
pub struct SensorSet {
    pub climate: bool,
    pub air_quality: bool,
    pub particulate: bool,
}

/// The topic carrying recurring state messages.
pub open spec fn spec_state_topic(id: Seq<char>) -> Seq<char> {
    "homeassistant/device/"@ + id + "/state"@
}

/// The topic carrying the one-time discovery message.
pub open spec fn spec_config_topic(id: Seq<char>) -> Seq<char> {
    "homeassistant/device/"@ + id + "/config"@
}

/// The state-payload fields of the climate sensor, in payload order.
pub open spec fn spec_climate_keys() -> Seq<Seq<char>> {
    seq!["temperature"@, "co2"@, "humidity"@]
}

/// The state-payload fields of the gas-index sensor, in payload order.
pub open spec fn spec_air_quality_keys() -> Seq<Seq<char>> {
    seq!["voc_index"@, "nox_index"@]
}

/// The state-payload fields of the particulate sensor, in payload order.
pub open spec fn spec_particulate_keys() -> Seq<Seq<char>> {
    seq!["pm1_0_atm"@, "pm2_5_atm"@, "pm10_0_atm"@]
}

/// The keys of the state payload for what a cycle produced, in the order
/// they are rendered.
pub open spec fn spec_state_keys(r: SensorReadings) -> Seq<Seq<char>> {
    (if r.climate is Some {
        spec_climate_keys()
    } else {
        Seq::empty()
    }) + (if r.air_quality is Some {
        spec_air_quality_keys()
    } else {
        Seq::empty()
    }) + (if r.particulate is Some {
        spec_particulate_keys()
    } else {
        Seq::empty()
    })
}

/// The keys the discovery payload declares for a sensor set, in the order
/// their components are rendered.
pub open spec fn spec_discovery_keys(s: SensorSet) -> Seq<Seq<char>> {
    (if s.climate {
        spec_climate_keys()
    } else {
        Seq::empty()
    }) + (if s.air_quality {
        spec_air_quality_keys()
    } else {
        Seq::empty()
    }) + (if s.particulate {
        spec_particulate_keys()
    } else {
        Seq::empty()
    })
}

/// The climate sensor's slice of the state payload.
pub open spec fn spec_climate_part(c: ClimateReading) -> Seq<char> {
    "\"temperature\":"@ + tenths_chars(c.temperature.tenths as int) + ",\"co2\":"@ + dec_digits(
        c.co2 as int,
    ) + ",\"humidity\":"@ + tenths_chars(c.humidity.tenths as int)
}

/// The gas-index sensor's slice of the state payload.
pub open spec fn spec_air_quality_part(a: AirQualityReading) -> Seq<char> {
    "\"voc_index\":"@ + dec_digits(a.voc_index as int) + ",\"nox_index\":"@ + dec_digits(
        a.nox_index as int,
    )
}

/// The particulate sensor's slice of the state payload.
pub open spec fn spec_particulate_part(p: ParticulateReading) -> Seq<char> {
    "\"pm1_0_atm\":"@ + dec_digits(p.pm1_0_atm as int) + ",\"pm2_5_atm\":"@ + dec_digits(
        p.pm2_5_atm as int,
    ) + ",\"pm10_0_atm\":"@ + dec_digits(p.pm10_0_atm as int)
}

/// The payload slices a cycle's readings contribute, in rendering order.
pub open spec fn spec_state_parts(r: SensorReadings) -> Seq<Seq<char>> {
    (match r.climate {
        Some(c) => seq![spec_climate_part(c)],
        None => Seq::empty(),
    }) + (match r.air_quality {
        Some(a) => seq![spec_air_quality_part(a)],
        None => Seq::empty(),
    }) + (match r.particulate {
        Some(p) => seq![spec_particulate_part(p)],
        None => Seq::empty(),
    })
}

/// The given texts joined with commas.
pub open spec fn spec_join_comma(parts: Seq<Seq<char>>) -> Seq<char>
    decreases parts.len(),
{
    if parts.len() == 0 {
        Seq::empty()
    } else if parts.len() == 1 {
        parts[0]
    } else {
        parts[0] + ","@ + spec_join_comma(parts.drop_first())
    }
}

/// The complete state payload: a flat JSON object holding each present
/// sensor's fields in a fixed order.
pub open spec fn spec_state_payload(r: SensorReadings) -> Seq<char> {
    "{"@ + spec_join_comma(spec_state_parts(r)) + "}"@
}

/// The views of a vector of rendered parts.
pub open spec fn spec_views(parts: Seq<String>) -> Seq<Seq<char>> {
    parts.map_values(|s: String| s@)
}

/// Joining one more part appends a comma first unless nothing was joined
/// yet.
proof fn lemma_join_comma_take(parts: Seq<Seq<char>>, i: int)
    requires
        1 <= i < parts.len(),
    ensures
        spec_join_comma(parts.take(i + 1)) == spec_join_comma(parts.take(i)) + ","@ + parts[i],
    decreases i,
{
    if i == 1 {
        let t2 = parts.take(2);
        assert(t2.len() == 2);
        assert(t2[0] == parts[0]);
        assert(t2.drop_first() =~= seq![parts[1]]);
        assert(spec_join_comma(seq![parts[1]]) == parts[1]);
        assert(spec_join_comma(t2) == t2[0] + ","@ + spec_join_comma(t2.drop_first()));
        assert(parts.take(1).len() == 1);
        assert(spec_join_comma(parts.take(1)) == parts.take(1)[0]);
        assert(parts.take(1)[0] == parts[0]);
        assert(spec_join_comma(parts.take(2)) =~= spec_join_comma(parts.take(1)) + ","@
            + parts[1]);
    } else {
        lemma_join_comma_take(parts.drop_first(), i - 1);
        assert(parts.take(i + 1).drop_first() =~= parts.drop_first().take(i));
        assert(parts.take(i).drop_first() =~= parts.drop_first().take(i - 1));
        assert(parts.take(i + 1)[0] == parts[0]);
        assert(parts.take(i)[0] == parts[0]);
        assert(spec_join_comma(parts.take(i + 1)) =~= spec_join_comma(parts.take(i)) + ","@
            + parts[i]);
    }
}

/// Joins rendered parts with commas.
fn join_with_commas(parts: &Vec<String>) -> (r: String)
    ensures
        r@ == spec_join_comma(spec_views(parts@)),
{
    let mut s = String::new();
    let mut i: usize = 0;
    while i < parts.len()
        invariant
            i <= parts@.len(),
            s@ == spec_join_comma(spec_views(parts@).take(i as int)),
        decreases parts@.len() - i,
    {
        if i > 0 {
            s.append(",");
            proof {
                lemma_join_comma_take(spec_views(parts@), i as int);
            }
        } else {
            proof {
                assert(spec_views(parts@).take(1)[0] == parts@[0]@);
            }
        }
        s.append(parts[i].as_str());
        proof {
            assert(s@ =~= spec_join_comma(spec_views(parts@).take(i as int + 1)));
        }
        i = i + 1;
    }
    proof {
        assert(spec_views(parts@).take(parts@.len() as int) =~= spec_views(parts@));
    }
    s
}

/// Renders the climate sensor's slice of the state payload.
fn render_climate(c: &ClimateReading) -> (r: String)
    ensures
        r@ == spec_climate_part(*c),
{
    let mut s = String::from_str("\"temperature\":");
    s.append(format_deci(&c.temperature).as_str());
    s.append(",\"co2\":");
    s.append(format_u32(c.co2 as u32).as_str());
    s.append(",\"humidity\":");
    s.append(format_deci(&c.humidity).as_str());
    proof {
        assert(s@ =~= spec_climate_part(*c));
    }
    s
}

/// Renders the gas-index sensor's slice of the state payload.
fn render_air_quality(a: &AirQualityReading) -> (r: String)
    ensures
        r@ == spec_air_quality_part(*a),
{
    let mut s = String::from_str("\"voc_index\":");
    s.append(format_u32(a.voc_index as u32).as_str());
    s.append(",\"nox_index\":");
    s.append(format_u32(a.nox_index as u32).as_str());
    proof {
        assert(s@ =~= spec_air_quality_part(*a));
    }
    s
}

/// Renders the particulate sensor's slice of the state payload.
fn render_particulate(p: &ParticulateReading) -> (r: String)
    ensures
        r@ == spec_particulate_part(*p),
{
    let mut s = String::from_str("\"pm1_0_atm\":");
    s.append(format_u32(p.pm1_0_atm as u32).as_str());
    s.append(",\"pm2_5_atm\":");
    s.append(format_u32(p.pm2_5_atm as u32).as_str());
    s.append(",\"pm10_0_atm\":");
    s.append(format_u32(p.pm10_0_atm as u32).as_str());
    proof {
        assert(s@ =~= spec_particulate_part(*p));
    }
    s
}

/// Renders a topic under this device's path.
fn render_topic(id: &str, suffix: &str) -> (r: String)
    ensures
        r@ == "homeassistant/device/"@ + id@ + suffix@,
{
    let mut s = String::from_str("homeassistant/device/");
    s.append(id);
    s.append(suffix);
    proof {
        assert(s@ =~= "homeassistant/device/"@ + id@ + suffix@);
    }
    s
}

impl HomeAssistantFacade {
    /// A codec for one device identity.
    pub fn new(config: HomeAssistantFacadeConfig) -> (r: Self)
        ensures
            r.config.device_id@ == config.device_id@,
            r.config.device_name@ == config.device_name@,
    {
        Self { config }
    }

    /// Renders the recurring state message: the shared state topic, and a
    /// flat JSON object holding each present sensor's fields in the fixed
    /// key order.
    pub fn get_state_mqtt_message(&self, readings: &SensorReadings) -> (r: MqttMessage)
        requires
            self.config.spec_wf(),
        ensures
            r.topic@ == spec_state_topic(self.config.device_id@),
            r.topic@.len() <= 128,
            r.content@ == spec_state_payload(*readings),
            r.content@.len() <= 1024,
    {
        let mut parts: Vec<String> = Vec::new();
        if let Some(c) = &readings.climate {
            parts.push(render_climate(c));
        }
        if let Some(a) = &readings.air_quality {
            parts.push(render_air_quality(a));
        }
        if let Some(p) = &readings.particulate {
            parts.push(render_particulate(p));
        }
        proof {
            assert(spec_views(parts@) =~= spec_state_parts(*readings));
        }
        let body = join_with_commas(&parts);
        let mut content = String::from_str("{");
        content.append(body.as_str());
        content.append("}");
        let topic = render_topic(self.config.device_id, "/state");
        proof {
            assert(content@ =~= spec_state_payload(*readings));
            lemma_state_payload_len(*readings);
            lemma_topic_len(self.config.device_id@);
        }
        MqttMessage::new(topic, content)
    }
}

/// The fixed texts of the state payload and topics have these lengths.
proof fn lemma_state_literal_lens()
    ensures
        ("\"temperature\":"@).len() == 14,
        (",\"co2\":"@).len() == 7,
        (",\"humidity\":"@).len() == 12,
        ("\"voc_index\":"@).len() == 12,
        (",\"nox_index\":"@).len() == 13,
        ("\"pm1_0_atm\":"@).len() == 12,
        (",\"pm2_5_atm\":"@).len() == 13,
        (",\"pm10_0_atm\":"@).len() == 14,
        (","@).len() == 1,
        ("{"@).len() == 1,
        ("}"@).len() == 1,
{
    reveal_strlit("\"temperature\":");
    reveal_strlit(",\"co2\":");
    reveal_strlit(",\"humidity\":");
    reveal_strlit("\"voc_index\":");
    reveal_strlit(",\"nox_index\":");
    reveal_strlit("\"pm1_0_atm\":");
    reveal_strlit(",\"pm2_5_atm\":");
    reveal_strlit(",\"pm10_0_atm\":");
    reveal_strlit(",");
    reveal_strlit("{");
    reveal_strlit("}");
}

/// A `u16` value renders in at most five digits.
proof fn lemma_u16_digits_len(n: u16)
    ensures
        dec_digits(n as int).len() <= 5,
{
    assert(pow10(5) == 100000) by {
        reveal_with_fuel(pow10, 6);
    }
    lemma_dec_digits_len(n as int, 5);
}

/// Every state payload fits its 1024-character capacity with room to
/// spare.
proof fn lemma_state_payload_len(r: SensorReadings)
    ensures
        spec_state_payload(r).len() <= 256,
{
    lemma_state_literal_lens();
    let parts = spec_state_parts(r);
    if r.climate is Some {
        let c = r.climate->0;
        lemma_tenths_len(c.temperature.tenths as int);
        lemma_tenths_len(c.humidity.tenths as int);
        lemma_u16_digits_len(c.co2);
        assert(spec_climate_part(c).len() <= 64);
    }
    if r.air_quality is Some {
        let a = r.air_quality->0;
        lemma_u16_digits_len(a.voc_index);
        lemma_u16_digits_len(a.nox_index);
        assert(spec_air_quality_part(a).len() <= 35);
    }
    if r.particulate is Some {
        let p = r.particulate->0;
        lemma_u16_digits_len(p.pm1_0_atm);
        lemma_u16_digits_len(p.pm2_5_atm);
        lemma_u16_digits_len(p.pm10_0_atm);
        assert(spec_particulate_part(p).len() <= 54);
    }
    assert(spec_join_comma(parts).len() <= 160) by {
        reveal_with_fuel(spec_join_comma, 4);
    }
}

/// Every topic under the device path fits its 128-character capacity when
/// the identifier is within its bound.
proof fn lemma_topic_len(id: Seq<char>)
    requires
        id.len() <= 100,
    ensures
        spec_state_topic(id).len() <= 128,
        spec_config_topic(id).len() <= 128,
{
    reveal_strlit("homeassistant/device/");
    reveal_strlit("/state");
    reveal_strlit("/config");
}

/// One declared sub-component of the discovery payload: its fixed opening
/// (label, platform, class, unit), the value-extraction template for its
/// state key, and a unique identifier namespaced by the device identifier.
pub open spec fn spec_component(pre: Seq<char>, key: Seq<char>, id: Seq<char>, uid: Seq<char>)
    -> Seq<char> {
    pre + "\"value_template\":\"{{ value_json."@ + key + "}}\",\"unique_id\":\""@ + id + "_"@
        + uid + "\"}"@
}

/// The temperature sub-component.
pub open spec fn spec_temperature_component(id: Seq<char>) -> Seq<char> {
    spec_component(
        "\"temperature_component\":{\"p\":\"sensor\",\"device_class\":\"temperature\",\"unit_of_measurement\":\"\u{b0}C\","@,
        "temperature"@,
        id,
        "temperature"@,
    )
}

/// The carbon-dioxide sub-component.
pub open spec fn spec_co2_component(id: Seq<char>) -> Seq<char> {
    spec_component(
        "\"carbon_dioxide_component\":{\"p\":\"sensor\",\"device_class\":\"carbon_dioxide\",\"unit_of_measurement\":\"ppm\","@,
        "co2"@,
        id,
        "co2"@,
    )
}

/// The humidity sub-component.
pub open spec fn spec_humidity_component(id: Seq<char>) -> Seq<char> {
    spec_component(
        "\"humidity_component\":{\"p\":\"sensor\",\"device_class\":\"humidity\",\"unit_of_measurement\":\"%\","@,
        "humidity"@,
        id,
        "humidity"@,
    )
}

/// The VOC-index sub-component.
pub open spec fn spec_voc_index_component(id: Seq<char>) -> Seq<char> {
    spec_component(
        "\"voc_index_component\":{\"p\":\"sensor\",\"name\":\"VOC index\",\"device_class\":\"aqi\","@,
        "voc_index"@,
        id,
        "voc_index"@,
    )
}

/// The NOx-index sub-component.
pub open spec fn spec_nox_index_component(id: Seq<char>) -> Seq<char> {
    spec_component(
        "\"nox_index_component\":{\"p\":\"sensor\",\"name\":\"NOx index\",\"device_class\":\"aqi\","@,
        "nox_index"@,
        id,
        "nox_index"@,
    )
}

/// The 1.0-micron particulate sub-component.
pub open spec fn spec_pm1_component(id: Seq<char>) -> Seq<char> {
    spec_component(
        "\"pm1_0_atm_component\":{\"p\":\"sensor\",\"device_class\":\"pm1\",\"unit_of_measurement\":\"\u{b5}g/m\u{b3}\","@,
        "pm1_0_atm"@,
        id,
        "pm1"@,
    )
}

/// The 2.5-micron particulate sub-component.
pub open spec fn spec_pm2_5_component(id: Seq<char>) -> Seq<char> {
    spec_component(
        "\"pm2_5_atm_component\":{\"p\":\"sensor\",\"device_class\":\"pm25\",\"unit_of_measurement\":\"\u{b5}g/m\u{b3}\","@,
        "pm2_5_atm"@,
        id,
        "pm2_5"@,
    )
}

/// The 10-micron particulate sub-component.
pub open spec fn spec_pm10_component(id: Seq<char>) -> Seq<char> {
    spec_component(
        "\"pm10_0_atm_component\":{\"p\":\"sensor\",\"device_class\":\"pm10\",\"unit_of_measurement\":\"\u{b5}g/m\u{b3}\","@,
        "pm10_0_atm"@,
        id,
        "pm10"@,
    )
}

/// The climate sensor's declared sub-components.
pub open spec fn spec_climate_components(id: Seq<char>) -> Seq<char> {
    spec_temperature_component(id) + ","@ + spec_co2_component(id) + ","@
        + spec_humidity_component(id)
}

/// The gas-index sensor's declared sub-components.
pub open spec fn spec_air_quality_components(id: Seq<char>) -> Seq<char> {
    spec_voc_index_component(id) + ","@ + spec_nox_index_component(id)
}

/// The particulate sensor's declared sub-components.
pub open spec fn spec_particulate_components(id: Seq<char>) -> Seq<char> {
    spec_pm1_component(id) + ","@ + spec_pm2_5_component(id) + ","@ + spec_pm10_component(id)
}

/// The component blocks the discovery payload declares, one per wired
/// sensor, in rendering order.
pub open spec fn spec_discovery_parts(id: Seq<char>, s: SensorSet) -> Seq<Seq<char>> {
    (if s.climate {
        seq![spec_climate_components(id)]
    } else {
        Seq::empty()
    }) + (if s.air_quality {
        seq![spec_air_quality_components(id)]
    } else {
        Seq::empty()
    }) + (if s.particulate {
        seq![spec_particulate_components(id)]
    } else {
        Seq::empty()
    })
}

/// The complete discovery payload: the device block, the origin block, one
/// declared sub-component per wired sensor, the shared state topic, and the
/// fixed delivery-quality hint.
pub open spec fn spec_discovery_payload(id: Seq<char>, name: Seq<char>, s: SensorSet)
    -> Seq<char> {
    "{\"dev\":{\"ids\":\""@ + id + "\",\"name\":\""@ + name
        + "\"},\"o\":{\"name\":\"air-quality-monitor\",\"sw\":\"1.0\"},\"cmps\":{"@
        + spec_join_comma(spec_discovery_parts(id, s))
        + "},\"state_topic\":\"homeassistant/device/"@ + id + "/state\",\"qos\":2}"@
}

/// Appends one declared sub-component.
fn push_component(out: &mut String, pre: &str, key: &str, id: &str, uid: &str)
    ensures
        final(out)@ == old(out)@ + spec_component(pre@, key@, id@, uid@),
{
    out.append(pre);
    out.append("\"value_template\":\"{{ value_json.");
    out.append(key);
    out.append("}}\",\"unique_id\":\"");
    out.append(id);
    out.append("_");
    out.append(uid);
    out.append("\"}");
    proof {
        assert(out@ =~= old(out)@ + spec_component(pre@, key@, id@, uid@));
    }
}

/// Renders the climate sensor's declared sub-components.
fn render_climate_components(id: &str) -> (r: String)
    ensures
        r@ == spec_climate_components(id@),
{
    let mut s = String::new();
    push_component(
        &mut s,
        "\"temperature_component\":{\"p\":\"sensor\",\"device_class\":\"temperature\",\"unit_of_measurement\":\"\u{b0}C\",",
        "temperature",
        id,
        "temperature",
    );
    s.append(",");
    push_component(
        &mut s,
        "\"carbon_dioxide_component\":{\"p\":\"sensor\",\"device_class\":\"carbon_dioxide\",\"unit_of_measurement\":\"ppm\",",
        "co2",
        id,
        "co2",
    );
    s.append(",");
    push_component(
        &mut s,
        "\"humidity_component\":{\"p\":\"sensor\",\"device_class\":\"humidity\",\"unit_of_measurement\":\"%\",",
        "humidity",
        id,
        "humidity",
    );
    proof {
        assert(s@ =~= spec_climate_components(id@));
    }
    s
}

/// Renders the gas-index sensor's declared sub-components.
fn render_air_quality_components(id: &str) -> (r: String)
    ensures
        r@ == spec_air_quality_components(id@),
{
    let mut s = String::new();
    push_component(
        &mut s,
        "\"voc_index_component\":{\"p\":\"sensor\",\"name\":\"VOC index\",\"device_class\":\"aqi\",",
        "voc_index",
        id,
        "voc_index",
    );
    s.append(",");
    push_component(
        &mut s,
        "\"nox_index_component\":{\"p\":\"sensor\",\"name\":\"NOx index\",\"device_class\":\"aqi\",",
        "nox_index",
        id,
        "nox_index",
    );
    proof {
        assert(s@ =~= spec_air_quality_components(id@));
    }
    s
}

/// Renders the particulate sensor's declared sub-components.
fn render_particulate_components(id: &str) -> (r: String)
    ensures
        r@ == spec_particulate_components(id@),
{
    let mut s = String::new();
    push_component(
        &mut s,
        "\"pm1_0_atm_component\":{\"p\":\"sensor\",\"device_class\":\"pm1\",\"unit_of_measurement\":\"\u{b5}g/m\u{b3}\",",
        "pm1_0_atm",
        id,
        "pm1",
    );
    s.append(",");
    push_component(
        &mut s,
        "\"pm2_5_atm_component\":{\"p\":\"sensor\",\"device_class\":\"pm25\",\"unit_of_measurement\":\"\u{b5}g/m\u{b3}\",",
        "pm2_5_atm",
        id,
        "pm2_5",
    );
    s.append(",");
    push_component(
        &mut s,
        "\"pm10_0_atm_component\":{\"p\":\"sensor\",\"device_class\":\"pm10\",\"unit_of_measurement\":\"\u{b5}g/m\u{b3}\",",
        "pm10_0_atm",
        id,
        "pm10",
    );
    proof {
        assert(s@ =~= spec_particulate_components(id@));
    }
    s
}

impl HomeAssistantFacade {
    /// Renders the one-time discovery message: the device's configuration
    /// topic, and a JSON descriptor naming the device and declaring one
    /// sub-component per wired sensor field, each with its value-extraction
    /// template and an identifier namespaced by the device identifier.
    pub fn get_device_discovery_mqtt_message(&self, sensors: &SensorSet) -> (r: MqttMessage)
        requires
            self.config.spec_wf(),
        ensures
            r.topic@ == spec_config_topic(self.config.device_id@),
            r.topic@.len() <= 128,
            r.content@ == spec_discovery_payload(
                self.config.device_id@,
                self.config.device_name@,
                *sensors,
            ),
            r.content@.len() <= 4096,
    {
        let id = self.config.device_id;
        let mut parts: Vec<String> = Vec::new();
        if sensors.climate {
            parts.push(render_climate_components(id));
        }
        if sensors.air_quality {
            parts.push(render_air_quality_components(id));
        }
        if sensors.particulate {
            parts.push(render_particulate_components(id));
        }
        proof {
            assert(spec_views(parts@) =~= spec_discovery_parts(id@, *sensors));
        }
        let body = join_with_commas(&parts);
        let mut content = String::from_str("{\"dev\":{\"ids\":\"");
        content.append(id);
        content.append("\",\"name\":\"");
        content.append(self.config.device_name);
        content.append("\"},\"o\":{\"name\":\"air-quality-monitor\",\"sw\":\"1.0\"},\"cmps\":{");
        content.append(body.as_str());
        content.append("},\"state_topic\":\"homeassistant/device/");
        content.append(id);
        content.append("/state\",\"qos\":2}");
        let topic = render_topic(id, "/config");
        proof {
            assert(content@ =~= spec_discovery_payload(
                self.config.device_id@,
                self.config.device_name@,
                *sensors,
            ));
            lemma_discovery_payload_len(
                self.config.device_id@,
                self.config.device_name@,
                *sensors,
            );
            lemma_topic_len(self.config.device_id@);
        }
        MqttMessage::new(topic, content)
    }
}

/// Every declared sub-component fits a fixed budget over the identifier's
/// length.
proof fn lemma_component_lens(id: Seq<char>)
    ensures
        spec_temperature_component(id).len() <= 200 + id.len(),
        spec_co2_component(id).len() <= 200 + id.len(),
        spec_humidity_component(id).len() <= 200 + id.len(),
        spec_voc_index_component(id).len() <= 200 + id.len(),
        spec_nox_index_component(id).len() <= 200 + id.len(),
        spec_pm1_component(id).len() <= 200 + id.len(),
        spec_pm2_5_component(id).len() <= 200 + id.len(),
        spec_pm10_component(id).len() <= 200 + id.len(),
{
    reveal_strlit("\"value_template\":\"{{ value_json.");
    reveal_strlit("}}\",\"unique_id\":\"");
    reveal_strlit("_");
    reveal_strlit("\"}");
    reveal_strlit(
        "\"temperature_component\":{\"p\":\"sensor\",\"device_class\":\"temperature\",\"unit_of_measurement\":\"\u{b0}C\",",
    );
    reveal_strlit(
        "\"carbon_dioxide_component\":{\"p\":\"sensor\",\"device_class\":\"carbon_dioxide\",\"unit_of_measurement\":\"ppm\",",
    );
    reveal_strlit(
        "\"humidity_component\":{\"p\":\"sensor\",\"device_class\":\"humidity\",\"unit_of_measurement\":\"%\",",
    );
    reveal_strlit(
        "\"voc_index_component\":{\"p\":\"sensor\",\"name\":\"VOC index\",\"device_class\":\"aqi\",",
    );
    reveal_strlit(
        "\"nox_index_component\":{\"p\":\"sensor\",\"name\":\"NOx index\",\"device_class\":\"aqi\",",
    );
    reveal_strlit(
        "\"pm1_0_atm_component\":{\"p\":\"sensor\",\"device_class\":\"pm1\",\"unit_of_measurement\":\"\u{b5}g/m\u{b3}\",",
    );
    reveal_strlit(
        "\"pm2_5_atm_component\":{\"p\":\"sensor\",\"device_class\":\"pm25\",\"unit_of_measurement\":\"\u{b5}g/m\u{b3}\",",
    );
    reveal_strlit(
        "\"pm10_0_atm_component\":{\"p\":\"sensor\",\"device_class\":\"pm10\",\"unit_of_measurement\":\"\u{b5}g/m\u{b3}\",",
    );
    reveal_strlit("temperature");
    reveal_strlit("co2");
    reveal_strlit("humidity");
    reveal_strlit("voc_index");
    reveal_strlit("nox_index");
    reveal_strlit("pm1_0_atm");
    reveal_strlit("pm2_5_atm");
    reveal_strlit("pm10_0_atm");
    reveal_strlit("pm1");
    reveal_strlit("pm2_5");
    reveal_strlit("pm10");
}

/// Every discovery payload fits its 4096-character capacity when the
/// identity is within its bounds.
proof fn lemma_discovery_payload_len(id: Seq<char>, name: Seq<char>, s: SensorSet)
    requires
        id.len() <= 100,
        name.len() <= 1000,
    ensures
        spec_discovery_payload(id, name, s).len() <= 4096,
{
    lemma_component_lens(id);
    reveal_strlit(",");
    reveal_strlit("{\"dev\":{\"ids\":\"");
    reveal_strlit("\",\"name\":\"");
    reveal_strlit("\"},\"o\":{\"name\":\"air-quality-monitor\",\"sw\":\"1.0\"},\"cmps\":{");
    reveal_strlit("},\"state_topic\":\"homeassistant/device/");
    reveal_strlit("/state\",\"qos\":2}");
    assert(spec_climate_components(id).len() <= 602 + 3 * id.len());
    assert(spec_air_quality_components(id).len() <= 401 + 2 * id.len());
    assert(spec_particulate_components(id).len() <= 602 + 3 * id.len());
    assert(spec_join_comma(spec_discovery_parts(id, s)).len() <= 1607 + 8 * id.len()) by {
        reveal_with_fuel(spec_join_comma, 4);
    }
}

/// `needle` occurs in `hay` starting at position `at`.
pub open spec fn spec_occurs_at(hay: Seq<char>, needle: Seq<char>, at: int) -> bool {
    &&& 0 <= at
    &&& at + needle.len() <= hay.len()
    &&& hay.subrange(at, at + needle.len()) == needle
}

/// `needle` occurs somewhere in `hay`.
pub open spec fn spec_occurs(hay: Seq<char>, needle: Seq<char>) -> bool {
    exists|at: int| spec_occurs_at(hay, needle, at)
}

/// The value-extraction template text that the discovery payload carries
/// for a state key.
pub open spec fn spec_template(key: Seq<char>) -> Seq<char> {
    "value_json."@ + key + "}}"@
}

/// An occurrence survives prefixing.
proof fn lemma_occurs_extend_left(a: Seq<char>, b: Seq<char>, needle: Seq<char>)
    requires
        spec_occurs(b, needle),
    ensures
        spec_occurs(a + b, needle),
{
    let at = choose|at: int| spec_occurs_at(b, needle, at);
    assert((a + b).subrange(a.len() + at, a.len() + at + needle.len()) =~= b.subrange(
        at,
        at + needle.len(),
    ));
    assert(spec_occurs_at(a + b, needle, a.len() + at));
}

/// An occurrence survives suffixing.
proof fn lemma_occurs_extend_right(a: Seq<char>, b: Seq<char>, needle: Seq<char>)
    requires
        spec_occurs(a, needle),
    ensures
        spec_occurs(a + b, needle),
{
    let at = choose|at: int| spec_occurs_at(a, needle, at);
    assert((a + b).subrange(at, at + needle.len()) =~= a.subrange(at, at + needle.len()));
    assert(spec_occurs_at(a + b, needle, at));
}

/// Every declared sub-component carries the value-extraction template for
/// its key.
proof fn lemma_component_has_template(pre: Seq<char>, key: Seq<char>, id: Seq<char>, uid: Seq<char>)
    ensures
        spec_occurs(spec_component(pre, key, id, uid), spec_template(key)),
{
    reveal_strlit("\"value_template\":\"{{ value_json.");
    reveal_strlit("}}\",\"unique_id\":\"");
    reveal_strlit("value_json.");
    reveal_strlit("}}");
    let mid = "\"value_template\":\"{{ value_json."@;
    let at = pre.len() + mid.len() - 11;
    assert(spec_component(pre, key, id, uid).subrange(at, at + spec_template(key).len())
        =~= spec_template(key));
    assert(spec_occurs_at(spec_component(pre, key, id, uid), spec_template(key), at));
}

/// The JSON member text that introduces a key in the state payload.
pub open spec fn spec_member_intro(key: Seq<char>) -> Seq<char> {
    "\""@ + key + "\":"@
}

/// An occurrence somewhere in a joined part is an occurrence in the join.
proof fn lemma_join_occurs(parts: Seq<Seq<char>>, j: int, needle: Seq<char>)
    requires
        0 <= j < parts.len(),
        spec_occurs(parts[j], needle),
    ensures
        spec_occurs(spec_join_comma(parts), needle),
    decreases parts.len(),
{
    if parts.len() == 1 {
    } else if j == 0 {
        lemma_occurs_extend_right(parts[0], ","@, needle);
        lemma_occurs_extend_right(parts[0] + ","@, spec_join_comma(parts.drop_first()), needle);
    } else {
        lemma_join_occurs(parts.drop_first(), j - 1, needle);
        lemma_occurs_extend_left(parts[0] + ","@, spec_join_comma(parts.drop_first()), needle);
    }
}

/// The climate slice of the state payload introduces each climate key.
proof fn lemma_climate_part_has_keys(c: ClimateReading, k: Seq<char>)
    requires
        spec_climate_keys().contains(k),
    ensures
        spec_occurs(spec_climate_part(c), spec_member_intro(k)),
{
    reveal_strlit("\"temperature\":");
    reveal_strlit(",\"co2\":");
    reveal_strlit(",\"humidity\":");
    reveal_strlit("\"");
    reveal_strlit("\":");
    reveal_strlit("temperature");
    reveal_strlit("co2");
    reveal_strlit("humidity");
    let part = spec_climate_part(c);
    let i: int = choose|i: int| 0 <= i < spec_climate_keys().len() && spec_climate_keys()[i] == k;
    if i == 0 {
        assert(part.subrange(0, 14) =~= spec_member_intro(k));
        assert(spec_occurs_at(part, spec_member_intro(k), 0));
    } else if i == 1 {
        let at: int = (14 + tenths_chars(c.temperature.tenths as int).len() + 1) as int;
        assert(part.subrange(at as int, at + 6) =~= spec_member_intro(k));
        assert(spec_occurs_at(part, spec_member_intro(k), at as int));
    } else {
        let at: int = (14 + tenths_chars(c.temperature.tenths as int).len() + 7 + dec_digits(
            c.co2 as int,
        ).len() + 1) as int;
        assert(part.subrange(at as int, at + 11) =~= spec_member_intro(k));
        assert(spec_occurs_at(part, spec_member_intro(k), at as int));
    }
}

/// The gas-index slice of the state payload introduces each of its keys.
proof fn lemma_air_quality_part_has_keys(a: AirQualityReading, k: Seq<char>)
    requires
        spec_air_quality_keys().contains(k),
    ensures
        spec_occurs(spec_air_quality_part(a), spec_member_intro(k)),
{
    reveal_strlit("\"voc_index\":");
    reveal_strlit(",\"nox_index\":");
    reveal_strlit("\"");
    reveal_strlit("\":");
    reveal_strlit("voc_index");
    reveal_strlit("nox_index");
    let part = spec_air_quality_part(a);
    let i: int = choose|i: int|
        0 <= i < spec_air_quality_keys().len() && spec_air_quality_keys()[i] == k;
    if i == 0 {
        assert(part.subrange(0, 12) =~= spec_member_intro(k));
        assert(spec_occurs_at(part, spec_member_intro(k), 0));
    } else {
        let at: int = (12 + dec_digits(a.voc_index as int).len() + 1) as int;
        assert(part.subrange(at as int, at + 12) =~= spec_member_intro(k));
        assert(spec_occurs_at(part, spec_member_intro(k), at as int));
    }
}

/// The particulate slice of the state payload introduces each of its keys.
proof fn lemma_particulate_part_has_keys(p: ParticulateReading, k: Seq<char>)
    requires
        spec_particulate_keys().contains(k),
    ensures
        spec_occurs(spec_particulate_part(p), spec_member_intro(k)),
{
    reveal_strlit("\"pm1_0_atm\":");
    reveal_strlit(",\"pm2_5_atm\":");
    reveal_strlit(",\"pm10_0_atm\":");
    reveal_strlit("\"");
    reveal_strlit("\":");
    reveal_strlit("pm1_0_atm");
    reveal_strlit("pm2_5_atm");
    reveal_strlit("pm10_0_atm");
    let part = spec_particulate_part(p);
    let i: int = choose|i: int|
        0 <= i < spec_particulate_keys().len() && spec_particulate_keys()[i] == k;
    if i == 0 {
        assert(part.subrange(0, 12) =~= spec_member_intro(k));
        assert(spec_occurs_at(part, spec_member_intro(k), 0));
    } else if i == 1 {
        let at: int = (12 + dec_digits(p.pm1_0_atm as int).len() + 1) as int;
        assert(part.subrange(at as int, at + 12) =~= spec_member_intro(k));
        assert(spec_occurs_at(part, spec_member_intro(k), at as int));
    } else {
        let at: int = (12 + dec_digits(p.pm1_0_atm as int).len() + 13 + dec_digits(
            p.pm2_5_atm as int,
        ).len() + 1) as int;
        assert(part.subrange(at as int, at + 13) =~= spec_member_intro(k));
        assert(spec_occurs_at(part, spec_member_intro(k), at as int));
    }
}

/// The climate sensor's declared sub-components carry the template for
/// each climate key.
proof fn lemma_climate_chunk_declares(id: Seq<char>, k: Seq<char>)
    requires
        spec_climate_keys().contains(k),
    ensures
        spec_occurs(spec_climate_components(id), spec_template(k)),
{
    let t = spec_temperature_component(id);
    let c = spec_co2_component(id);
    let h = spec_humidity_component(id);
    let i: int = choose|i: int| 0 <= i < spec_climate_keys().len() && spec_climate_keys()[i] == k;
    if i == 0 {
        lemma_component_has_template(
            "\"temperature_component\":{\"p\":\"sensor\",\"device_class\":\"temperature\",\"unit_of_measurement\":\"\u{b0}C\","@,
            k,
            id,
            "temperature"@,
        );
        lemma_occurs_extend_right(t, ","@, spec_template(k));
        lemma_occurs_extend_right(t + ","@, c, spec_template(k));
        lemma_occurs_extend_right(t + ","@ + c, ","@, spec_template(k));
        lemma_occurs_extend_right(t + ","@ + c + ","@, h, spec_template(k));
    } else if i == 1 {
        lemma_component_has_template(
            "\"carbon_dioxide_component\":{\"p\":\"sensor\",\"device_class\":\"carbon_dioxide\",\"unit_of_measurement\":\"ppm\","@,
            k,
            id,
            "co2"@,
        );
        lemma_occurs_extend_left(t + ","@, c, spec_template(k));
        lemma_occurs_extend_right(t + ","@ + c, ","@, spec_template(k));
        lemma_occurs_extend_right(t + ","@ + c + ","@, h, spec_template(k));
    } else {
        lemma_component_has_template(
            "\"humidity_component\":{\"p\":\"sensor\",\"device_class\":\"humidity\",\"unit_of_measurement\":\"%\","@,
            k,
            id,
            "humidity"@,
        );
        lemma_occurs_extend_left(t + ","@ + c + ","@, h, spec_template(k));
    }
}

/// The gas-index sensor's declared sub-components carry the template for
/// each of its keys.
proof fn lemma_air_quality_chunk_declares(id: Seq<char>, k: Seq<char>)
    requires
        spec_air_quality_keys().contains(k),
    ensures
        spec_occurs(spec_air_quality_components(id), spec_template(k)),
{
    let v = spec_voc_index_component(id);
    let n = spec_nox_index_component(id);
    let i: int = choose|i: int|
        0 <= i < spec_air_quality_keys().len() && spec_air_quality_keys()[i] == k;
    if i == 0 {
        lemma_component_has_template(
            "\"voc_index_component\":{\"p\":\"sensor\",\"name\":\"VOC index\",\"device_class\":\"aqi\","@,
            k,
            id,
            "voc_index"@,
        );
        lemma_occurs_extend_right(v, ","@, spec_template(k));
        lemma_occurs_extend_right(v + ","@, n, spec_template(k));
    } else {
        lemma_component_has_template(
            "\"nox_index_component\":{\"p\":\"sensor\",\"name\":\"NOx index\",\"device_class\":\"aqi\","@,
            k,
            id,
            "nox_index"@,
        );
        lemma_occurs_extend_left(v + ","@, n, spec_template(k));
    }
}

/// The particulate sensor's declared sub-components carry the template for
/// each of its keys.
proof fn lemma_particulate_chunk_declares(id: Seq<char>, k: Seq<char>)
    requires
        spec_particulate_keys().contains(k),
    ensures
        spec_occurs(spec_particulate_components(id), spec_template(k)),
{
    let p1 = spec_pm1_component(id);
    let p2 = spec_pm2_5_component(id);
    let p3 = spec_pm10_component(id);
    let i: int = choose|i: int|
        0 <= i < spec_particulate_keys().len() && spec_particulate_keys()[i] == k;
    if i == 0 {
        lemma_component_has_template(
            "\"pm1_0_atm_component\":{\"p\":\"sensor\",\"device_class\":\"pm1\",\"unit_of_measurement\":\"\u{b5}g/m\u{b3}\","@,
            k,
            id,
            "pm1"@,
        );
        lemma_occurs_extend_right(p1, ","@, spec_template(k));
        lemma_occurs_extend_right(p1 + ","@, p2, spec_template(k));
        lemma_occurs_extend_right(p1 + ","@ + p2, ","@, spec_template(k));
        lemma_occurs_extend_right(p1 + ","@ + p2 + ","@, p3, spec_template(k));
    } else if i == 1 {
        lemma_component_has_template(
            "\"pm2_5_atm_component\":{\"p\":\"sensor\",\"device_class\":\"pm25\",\"unit_of_measurement\":\"\u{b5}g/m\u{b3}\","@,
            k,
            id,
            "pm2_5"@,
        );
        lemma_occurs_extend_left(p1 + ","@, p2, spec_template(k));
        lemma_occurs_extend_right(p1 + ","@ + p2, ","@, spec_template(k));
        lemma_occurs_extend_right(p1 + ","@ + p2 + ","@, p3, spec_template(k));
    } else {
        lemma_component_has_template(
            "\"pm10_0_atm_component\":{\"p\":\"sensor\",\"device_class\":\"pm10\",\"unit_of_measurement\":\"\u{b5}g/m\u{b3}\","@,
            k,
            id,
            "pm10"@,
        );
        lemma_occurs_extend_left(p1 + ","@ + p2 + ","@, p3, spec_template(k));
    }
}

/// Schema consistency: for a cycle whose present readings come only from
/// wired sensors, the key set of the rendered state payload is a subset of
/// the key set the discovery payload declares — each key of the state
/// payload stands in it as a JSON member, and the discovery payload carries
/// a value-extraction template for that same key.  A consumer never sees an
/// undeclared field.
pub proof fn lemma_schema_consistency(
    id: Seq<char>,
    name: Seq<char>,
    r: SensorReadings,
    s: SensorSet,
)
    requires
        r.climate is Some ==> s.climate,
        r.air_quality is Some ==> s.air_quality,
        r.particulate is Some ==> s.particulate,
    ensures
        forall|k: Seq<char>|
            spec_state_keys(r).contains(k) ==> spec_discovery_keys(s).contains(k),
        forall|k: Seq<char>|
            spec_state_keys(r).contains(k) ==> spec_occurs(
                spec_state_payload(r),
                spec_member_intro(k),
            ),
        forall|k: Seq<char>|
            spec_state_keys(r).contains(k) ==> spec_occurs(
                spec_discovery_payload(id, name, s),
                spec_template(k),
            ),
{
    let rc = if r.climate is Some { spec_climate_keys() } else { Seq::<Seq<char>>::empty() };
    let ra = if r.air_quality is Some {
        spec_air_quality_keys()
    } else {
        Seq::<Seq<char>>::empty()
    };
    let rp = if r.particulate is Some {
        spec_particulate_keys()
    } else {
        Seq::<Seq<char>>::empty()
    };
    let dc = if s.climate { spec_climate_keys() } else { Seq::<Seq<char>>::empty() };
    let da = if s.air_quality { spec_air_quality_keys() } else { Seq::<Seq<char>>::empty() };
    let dp = if s.particulate { spec_particulate_keys() } else { Seq::<Seq<char>>::empty() };
    assert forall|k: Seq<char>|
        spec_state_keys(r).contains(k) implies spec_discovery_keys(s).contains(k) by {
        lemma_concat_contains(rc + ra, rp, k);
        lemma_concat_contains(rc, ra, k);
        lemma_concat_contains(dc, da, k);
        lemma_concat_contains(dc + da, dp, k);
    }
    assert forall|k: Seq<char>|
        spec_state_keys(r).contains(k) implies spec_occurs(
        spec_state_payload(r),
        spec_member_intro(k),
    ) by {
        lemma_concat_contains(rc + ra, rp, k);
        lemma_concat_contains(rc, ra, k);
        let parts = spec_state_parts(r);
        let needle = spec_member_intro(k);
        if rc.contains(k) {
            let c = r.climate->0;
            lemma_climate_part_has_keys(c, k);
            assert(parts[0] == spec_climate_part(c));
            lemma_join_occurs(parts, 0, needle);
        } else if ra.contains(k) {
            let a = r.air_quality->0;
            lemma_air_quality_part_has_keys(a, k);
            let j: int = if r.climate is Some { 1 } else { 0 };
            assert(parts[j] == spec_air_quality_part(a));
            lemma_join_occurs(parts, j, needle);
        } else {
            let p = r.particulate->0;
            lemma_particulate_part_has_keys(p, k);
            let j: int = (if r.climate is Some { 1int } else { 0int })
                + (if r.air_quality is Some { 1int } else { 0int });
            assert(parts[j] == spec_particulate_part(p));
            lemma_join_occurs(parts, j, needle);
        }
        lemma_occurs_extend_left("{"@, spec_join_comma(parts), needle);
        lemma_occurs_extend_right("{"@ + spec_join_comma(parts), "}"@, needle);
    }
    assert forall|k: Seq<char>|
        spec_state_keys(r).contains(k) implies spec_occurs(
        spec_discovery_payload(id, name, s),
        spec_template(k),
    ) by {
        lemma_concat_contains(rc + ra, rp, k);
        lemma_concat_contains(rc, ra, k);
        let parts = spec_discovery_parts(id, s);
        let needle = spec_template(k);
        if rc.contains(k) {
            lemma_climate_chunk_declares(id, k);
            assert(parts[0] == spec_climate_components(id));
            lemma_join_occurs(parts, 0, needle);
        } else if ra.contains(k) {
            lemma_air_quality_chunk_declares(id, k);
            let j: int = if s.climate { 1 } else { 0 };
            assert(parts[j] == spec_air_quality_components(id));
            lemma_join_occurs(parts, j, needle);
        } else {
            lemma_particulate_chunk_declares(id, k);
            let j: int = (if s.climate { 1int } else { 0int }) + (if s.air_quality {
                1int
            } else {
                0int
            });
            assert(parts[j] == spec_particulate_components(id));
            lemma_join_occurs(parts, j, needle);
        }
        let joined = spec_join_comma(parts);
        let head = "{\"dev\":{\"ids\":\""@ + id + "\",\"name\":\""@ + name
            + "\"},\"o\":{\"name\":\"air-quality-monitor\",\"sw\":\"1.0\"},\"cmps\":{"@;
        lemma_occurs_extend_left(head, joined, needle);
        lemma_occurs_extend_right(head + joined, "},\"state_topic\":\"homeassistant/device/"@,
            needle);
        lemma_occurs_extend_right(
            head + joined + "},\"state_topic\":\"homeassistant/device/"@,
            id,
            needle,
        );
        lemma_occurs_extend_right(
            head + joined + "},\"state_topic\":\"homeassistant/device/"@ + id,
            "/state\",\"qos\":2}"@,
            needle,
        );
    }
}

/// A joined sequence holds an element exactly when one of its halves does.
proof fn lemma_concat_contains(a: Seq<Seq<char>>, b: Seq<Seq<char>>, k: Seq<char>)
    ensures
        (a + b).contains(k) <==> a.contains(k) || b.contains(k),
{
    if (a + b).contains(k) {
        let i: int = choose|i: int| 0 <= i < (a + b).len() && (a + b)[i] == k;
        if i < a.len() {
            assert(a[i] == k);
        } else {
            assert(b[i - a.len()] == k);
        }
    }
    if a.contains(k) {
        let i: int = choose|i: int| 0 <= i < a.len() && a[i] == k;
        assert((a + b)[i] == k);
    }
    if b.contains(k) {
        let i: int = choose|i: int| 0 <= i < b.len() && b[i] == k;
        assert((a + b)[a.len() + i] == k);
    }
}

/// Idempotent formatting: each rendered payload is a function of the
/// identity, the readings and the sensor set alone, so rendering the same
/// inputs twice gives byte-identical output.
pub proof fn lemma_codec_idempotent(
    id: Seq<char>,
    name: Seq<char>,
    r: SensorReadings,
    s: SensorSet,
    first_state: Seq<char>,
    second_state: Seq<char>,
    first_discovery: Seq<char>,
    second_discovery: Seq<char>,
)
    requires
        first_state == spec_state_payload(r),
        second_state == spec_state_payload(r),
        first_discovery == spec_discovery_payload(id, name, s),
        second_discovery == spec_discovery_payload(id, name, s),
    ensures
        first_state == second_state,
        first_discovery == second_discovery,
{
}

} // verus!
