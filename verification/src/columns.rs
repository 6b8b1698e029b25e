//! The column-oriented form of a batch: what one bulk write carries.

use vstd::prelude::*;
use crate::telemetry::{labels_are_distinct, IoTMessage, Record, Timestamp};

verus! {

/// The statement of the bulk write: six parallel arrays, one row per index.
pub const INSERT_STATEMENT: &'static str =
    "INSERT INTO iot_data (time, device_id, device_type, location, value, unit) SELECT * FROM UNNEST($1::timestamptz[], $2::text[], $3::text[], $4::text[], $5::float8[], $6::text[])";

/// One row of the bulk write, as a mathematical value. The device kind is
/// stored under its label.
pub struct Row {
    pub time: Timestamp,
    pub device_id: Seq<char>,
    pub device_type: Seq<char>,
    pub location: Seq<char>,
    pub value_bits: u64,
    pub unit: Seq<char>,
}

/// The row that a record becomes.
pub open spec fn row_of(r: Record) -> Row {
    Row {
        time: r.timestamp,
        device_id: r.device_id,
        device_type: r.device_type.label_spec(),
        location: r.location,
        value_bits: r.value_bits,
        unit: r.unit,
    }
}

/// A row holds all that its record held: two records that become the same row
/// are the same record.
pub proof fn row_determines_record(a: Record, b: Record)
    ensures
        row_of(a) == row_of(b) <==> a == b,
{
    labels_are_distinct(a.device_type, b.device_type);
}

/// Six parallel columns in the order of the store's table.
#[derive(Debug, Clone, PartialEq, Eq)]
pub struct Columns {
    pub times: Vec<Timestamp>,
    pub device_ids: Vec<String>,
    pub device_types: Vec<String>,
    pub locations: Vec<String>,
    pub values: Vec<u64>,
    pub units: Vec<String>,
}

impl Columns {
    /// All six columns have one length.
    pub open spec fn aligned(&self) -> bool {
        &&& self.device_ids@.len() == self.times@.len()
        &&& self.device_types@.len() == self.times@.len()
        &&& self.locations@.len() == self.times@.len()
        &&& self.values@.len() == self.times@.len()
        &&& self.units@.len() == self.times@.len()
    }

    /// The row read across the columns at index `i`.
    pub open spec fn row(&self, i: int) -> Row {
        Row {
            time: self.times@[i],
            device_id: self.device_ids@[i]@,
            device_type: self.device_types@[i]@,
            location: self.locations@[i]@,
            value_bits: self.values@[i],
            unit: self.units@[i]@,
        }
    }

    /// The number of rows.
    pub fn len(&self) -> (n: usize)
        ensures
            n == self.times@.len(),
    {
        self.times.len()
    }

    /// Whether there is no row.
    pub fn is_empty(&self) -> (b: bool)
        ensures
            b == (self.times@.len() == 0),
    {
        self.times.len() == 0
    }

    /// Splits a batch into columns. The row at each index is the row of the
    /// record at that index: no column is reordered against another.
    pub fn from_batch(batch: &[IoTMessage]) -> (cols: Columns)
        ensures
            cols.aligned(),
            cols@ == Seq::new(batch@.len(), |i: int| row_of(batch@[i]@)),
    {
        let mut cols = Columns {
            times: Vec::new(),
            device_ids: Vec::new(),
            device_types: Vec::new(),
            locations: Vec::new(),
            values: Vec::new(),
            units: Vec::new(),
        };
        let mut k: usize = 0;
        while k < batch.len()
            invariant
                k <= batch@.len(),
                cols.aligned(),
                cols.times@.len() == k,
                forall|i: int| 0 <= i < k ==> cols.row(i) == row_of(#[trigger] batch@[i]@),
            decreases batch@.len() - k,
        {
            let msg = &batch[k];
            cols.times.push(msg.timestamp);
            cols.device_ids.push(msg.device_id.clone());
            cols.device_types.push(msg.device_type.label());
            cols.locations.push(msg.location.clone());
            cols.values.push(msg.value_bits);
            cols.units.push(msg.unit.clone());
            k += 1;
        }
        assert(cols@ =~= Seq::new(batch@.len(), |i: int| row_of(batch@[i]@)));
        cols
    }
}

impl View for Columns {
    type V = Seq<Row>;

    open spec fn view(&self) -> Seq<Row> {
        Seq::new(self.times@.len(), |i: int| self.row(i))
    }
}

} // verus!
