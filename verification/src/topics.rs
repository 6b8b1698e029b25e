//! The names under which telemetry travels on the transport.

use vstd::prelude::*;
use vstd::string::StringExecFns;
use crate::decimal::{append_decimal, decimal_text};
use crate::telemetry::DeviceType;

verus! {

/// The filter the pipeline subscribes to: every topic below the telemetry
/// level of the namespace.
pub const TELEMETRY_FILTER: &'static str = "nordic_pulse/telemetry/#";

/// The filter as a sequence of characters.
pub open spec fn telemetry_filter() -> Seq<char> {
    "nordic_pulse/telemetry/#"@
}

/// The topic a device of the given kind and name publishes to.
pub open spec fn telemetry_topic_spec(device_type: DeviceType, device_id: Seq<char>) -> Seq<char> {
    "nordic_pulse/telemetry/"@ + device_type.label_spec() + "/"@ + device_id
}

/// Whether `filter` ends in the multi-level wildcard and `topic` lies at or
/// below the level that the wildcard stands for.
pub open spec fn covers(filter: Seq<char>, topic: Seq<char>) -> bool {
    let n = filter.len() as int;
    &&& n >= 2
    &&& filter[n - 1] == '#'
    &&& filter[n - 2] == '/'
    &&& (topic == filter.take(n - 2) || (topic.len() >= n - 1 && topic.take(n - 1) == filter.take(
        n - 1,
    )))
}

/// The topic a device of the given kind and name publishes to.
pub fn telemetry_topic(device_type: DeviceType, device_id: &str) -> (topic: String)
    ensures
        topic@ == telemetry_topic_spec(device_type, device_id@),
{
    let mut topic = String::from_str("nordic_pulse/telemetry/");
    topic.append(device_type.as_str());
    topic.append("/");
    topic.append(device_id);
    topic
}

/// The zeros that fill the index of a device up to four digits.
pub open spec fn zero_fill(index: nat) -> Seq<char> {
    if index < 10 {
        seq!['0', '0', '0']
    } else if index < 100 {
        seq!['0', '0']
    } else if index < 1000 {
        seq!['0']
    } else {
        Seq::empty()
    }
}

/// The name of the `index`-th device of a fleet: `dev_` and the index in
/// base ten, filled with zeros on the left to four digits.
pub open spec fn device_id_spec(index: nat) -> Seq<char> {
    "dev_"@ + zero_fill(index) + decimal_text(index)
}

/// The name of the `index`-th device of a fleet.
pub fn device_id(index: usize) -> (id: String)
    ensures
        id@ == device_id_spec(index as nat),
{
    let mut id = String::from_str("dev_");
    proof {
        reveal_strlit("000");
        reveal_strlit("00");
        reveal_strlit("0");
    }
    if index < 10 {
        id.append("000");
    } else if index < 100 {
        id.append("00");
    } else if index < 1000 {
        id.append("0");
    }
    assert(id@ =~= "dev_"@ + zero_fill(index as nat));
    append_decimal(&mut id, index as u64);
    id
}

/// Whatever a device is called, what it publishes reaches the subscription.
pub proof fn subscription_covers_every_device(device_type: DeviceType, device_id: Seq<char>)
    ensures
        TELEMETRY_FILTER@ == telemetry_filter(),
        covers(telemetry_filter(), telemetry_topic_spec(device_type, device_id)),
{
    reveal_strlit("nordic_pulse/telemetry/#");
    reveal_strlit("nordic_pulse/telemetry/");
    let filter = telemetry_filter();
    let topic = telemetry_topic_spec(device_type, device_id);
    let n = filter.len() as int;
    assert(topic.take(n - 1) =~= filter.take(n - 1));
}

} // verus!
