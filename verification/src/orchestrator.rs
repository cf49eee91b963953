//! Telemetry orchestrator: the per-cycle publish decision.
//!
//! Each cycle reads every wired sensor and publishes one state message only
//! when every read succeeded.  A failing read anywhere in the cycle abandons
//! the whole cycle's report — no partial message with missing fields is ever
//! sent — and the next cycle starts fresh.  The runtime around the library
//! owns the fixed sampling period and the sensor transports; it hands each
//! cycle's outcome to the decision here and forwards any resulting message
//! to the publish facade, which blocks until delivery, so messages reach the
//! broker in cycle order.

use vstd::prelude::*;
use crate::home_assistant::{
    HomeAssistantFacade, SensorReadings, SensorSet, lemma_schema_consistency,
    spec_discovery_payload, spec_member_intro, spec_occurs, spec_state_keys, spec_state_payload,
    spec_state_topic, spec_template,
};
use crate::mqtt::MqttMessage;

verus! {

/// Whether every wired sensor produced a reading this cycle.
pub open spec fn spec_cycle_complete(s: SensorSet, r: SensorReadings) -> bool {
    &&& s.climate ==> r.climate is Some
    &&& s.air_quality ==> r.air_quality is Some
    &&& s.particulate ==> r.particulate is Some
}

/// Decides one cycle: renders a state message exactly when every wired
/// sensor read succeeded, and abandons the cycle's report otherwise.  A
/// sensor that is not wired is never read, so it never blocks a report.
/// Every key of a rendered message stands in the message as a JSON member
/// and is declared, with its value-extraction template, by the discovery
/// payload for the same device and sensor set.
pub fn run_cycle(
    codec: &HomeAssistantFacade,
    sensors: &SensorSet,
    readings: &SensorReadings,
) -> (r: Option<MqttMessage>)
    requires
        codec.config.spec_wf(),
        readings.climate is Some ==> sensors.climate,
        readings.air_quality is Some ==> sensors.air_quality,
        readings.particulate is Some ==> sensors.particulate,
    ensures
        match r {
            Some(m) => {
                &&& spec_cycle_complete(*sensors, *readings)
                &&& m.topic@ == spec_state_topic(codec.config.device_id@)
                &&& m.content@ == spec_state_payload(*readings)
                &&& m.content@.len() <= 1024
                &&& forall|k: Seq<char>|
                    spec_state_keys(*readings).contains(k) ==> spec_occurs(
                        m.content@,
                        spec_member_intro(k),
                    ) && spec_occurs(
                        spec_discovery_payload(
                            codec.config.device_id@,
                            codec.config.device_name@,
                            *sensors,
                        ),
                        spec_template(k),
                    )
            },
            None => !spec_cycle_complete(*sensors, *readings),
        },
{
    let complete = (!sensors.climate || readings.climate.is_some()) && (!sensors.air_quality
        || readings.air_quality.is_some()) && (!sensors.particulate
        || readings.particulate.is_some());
    if complete {
        proof {
            lemma_schema_consistency(
                codec.config.device_id@,
                codec.config.device_name@,
                *readings,
                *sensors,
            );
        }
        Some(codec.get_state_mqtt_message(readings))
    } else {
        None
    }
}

} // verus!
