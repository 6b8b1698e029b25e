//! The telemetry record and the closed set of device kinds.

use vstd::prelude::*;
use vstd::string::StringExecFns;

verus! {

/// The kind of device that produced a record. The pipeline never branches on
/// it; it is carried as a label into the store.
#[derive(Debug, Clone, Copy, PartialEq, Eq, Structural)]
pub enum DeviceType {
    SolarPanel,
    EVCharger,
    Sauna,
    HeatPump,
}

impl DeviceType {
    /// The text under which a device kind is stored and published.
    pub open spec fn label_spec(self) -> Seq<char> {
        match self {
            DeviceType::SolarPanel => "SolarPanel"@,
            DeviceType::EVCharger => "EVCharger"@,
            DeviceType::Sauna => "Sauna"@,
            DeviceType::HeatPump => "HeatPump"@,
        }
    }

    /// The label of this device kind as a string slice.
    pub fn as_str(&self) -> (s: &'static str)
        ensures
            s@ == self.label_spec(),
    {
        match self {
            DeviceType::SolarPanel => "SolarPanel",
            DeviceType::EVCharger => "EVCharger",
            DeviceType::Sauna => "Sauna",
            DeviceType::HeatPump => "HeatPump",
        }
    }

    /// The unit in which a device of this kind reports.
    pub open spec fn unit_spec(self) -> Seq<char> {
        match self {
            DeviceType::SolarPanel => "kWh"@,
            _ => "kW"@,
        }
    }

    /// The unit in which a device of this kind reports: energy for a solar
    /// panel, power for the others.
    pub fn unit(&self) -> (s: &'static str)
        ensures
            s@ == self.unit_spec(),
    {
        match self {
            DeviceType::SolarPanel => "kWh",
            _ => "kW",
        }
    }

    /// The kind of the `index`-th device of a fleet: the four kinds in turn.
    pub open spec fn for_index_spec(index: nat) -> DeviceType {
        if index % 4 == 0 {
            DeviceType::SolarPanel
        } else if index % 4 == 1 {
            DeviceType::EVCharger
        } else if index % 4 == 2 {
            DeviceType::Sauna
        } else {
            DeviceType::HeatPump
        }
    }

    /// The kind of the `index`-th device of a fleet: the four kinds in turn.
    pub fn for_index(index: usize) -> (kind: DeviceType)
        ensures
            kind == Self::for_index_spec(index as nat),
    {
        let turn: usize = index % 4;
        if turn == 0 {
            DeviceType::SolarPanel
        } else if turn == 1 {
            DeviceType::EVCharger
        } else if turn == 2 {
            DeviceType::Sauna
        } else {
            DeviceType::HeatPump
        }
    }

    /// The label of this device kind as an owned string.
    pub fn label(&self) -> (s: String)
        ensures
            s@ == self.label_spec(),
    {
        String::from_str(self.as_str())
    }
}

/// A point in time as the producer reported it: whole seconds since the Unix
/// epoch, leap seconds not counted, and the nanoseconds past that second.
/// Within an inserted leap second the nanoseconds run on from one second to
/// just under two.
#[derive(Debug, Clone, Copy, PartialEq, Eq, Structural)]
pub struct Timestamp {
    pub secs: i64,
    pub nanos: u32,
}

impl Timestamp {
    /// The nanoseconds are a proper fraction of a second: the point does not
    /// lie in an inserted leap second.
    pub open spec fn is_plain(self) -> bool {
        self.nanos < 1_000_000_000
    }
}

/// What a telemetry record says, as a mathematical value.
pub struct Record {
    pub device_id: Seq<char>,
    pub device_type: DeviceType,
    pub timestamp: Timestamp,
    pub value_bits: u64,
    pub unit: Seq<char>,
    pub location: Seq<char>,
}

/// One observation from one device.
///
/// `value_bits` is the IEEE 754 binary64 bit pattern of the measured
/// magnitude; the pipeline carries it and never interprets it. `location` is
/// either a "latitude,longitude" pair or a region name, and is opaque as well.
#[derive(Debug, Clone, PartialEq, Eq)]
pub struct IoTMessage {
    pub device_id: String,
    pub device_type: DeviceType,
    pub timestamp: Timestamp,
    pub value_bits: u64,
    pub unit: String,
    pub location: String,
}

impl View for IoTMessage {
    type V = Record;

    open spec fn view(&self) -> Record {
        Record {
            device_id: self.device_id@,
            device_type: self.device_type,
            timestamp: self.timestamp,
            value_bits: self.value_bits,
            unit: self.unit@,
            location: self.location@,
        }
    }
}

/// The records of a batch, in order, as mathematical values.
pub open spec fn records_of(batch: Seq<IoTMessage>) -> Seq<Record> {
    Seq::new(batch.len(), |i: int| batch[i]@)
}

/// Reads the system clock through `chrono::Utc::now` and splits the reading
/// with `DateTime::timestamp` and `DateTime::timestamp_subsec_nanos`.
///
/// Trusted: `Utc::now` builds its result from the whole seconds and the
/// sub-second nanoseconds of the time elapsed since the Unix epoch, and the
/// two accessors give those two numbers back, so the nanoseconds stay below
/// one second. Nothing else is known of the reading. `Utc::now` panics on a
/// machine whose clock stands before the epoch.
#[verifier::external_body]
fn utc_now() -> (t: Timestamp)
    ensures
        t.is_plain(),
{
    let now = chrono::Utc::now();
    Timestamp { secs: now.timestamp(), nanos: now.timestamp_subsec_nanos() }
}

impl IoTMessage {
    /// A record of the given observation, made at the given time.
    pub fn stamped(
        device_id: String,
        device_type: DeviceType,
        timestamp: Timestamp,
        value_bits: u64,
        unit: String,
        location: String,
    ) -> (msg: IoTMessage)
        ensures
            msg@ == (Record {
                device_id: device_id@,
                device_type,
                timestamp,
                value_bits,
                unit: unit@,
                location: location@,
            }),
    {
        IoTMessage { device_id, device_type, timestamp, value_bits, unit, location }
    }

    /// A record of the given observation, stamped with a reading of the
    /// system clock taken during the call.
    pub fn new(
        device_id: String,
        device_type: DeviceType,
        value_bits: u64,
        unit: String,
        location: String,
    ) -> (msg: IoTMessage)
        ensures
            msg@.device_id == device_id@,
            msg@.device_type == device_type,
            msg@.value_bits == value_bits,
            msg@.unit == unit@,
            msg@.location == location@,
            msg@.timestamp.is_plain(),
    {
        Self::stamped(device_id, device_type, utc_now(), value_bits, unit, location)
    }
}

/// No two device kinds share a label: the kind of a stored row can be told
/// from its text.
pub proof fn labels_are_distinct(a: DeviceType, b: DeviceType)
    ensures
        a.label_spec() == b.label_spec() <==> a == b,
{
    reveal_strlit("SolarPanel");
    reveal_strlit("EVCharger");
    reveal_strlit("Sauna");
    reveal_strlit("HeatPump");
    if a != b {
        assert(a.label_spec().len() != b.label_spec().len() || a.label_spec()[0]
            != b.label_spec()[0]);
    }
}

} // verus!
