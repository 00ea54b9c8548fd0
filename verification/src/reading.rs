//! The reading taken from a decoded record: the power available at the meter.

use vstd::prelude::*;
use crate::apdu::{Body, BodyView, Field, Record, RecordView};
use crate::error::Error;

verus! {

/// The number of magnitudes that a reading needs.
pub const MAGNITUDES_NEEDED: usize = 6;

/// The magnitudes among `fields`, in their order; every other entry is
/// skipped.
pub open spec fn magnitudes(fields: Seq<Field>) -> Seq<u32>
    decreases fields.len(),
{
    if fields.len() == 0 {
        Seq::empty()
    } else {
        match fields.last() {
            Field::Magnitude(value) => magnitudes(fields.drop_last()).push(value),
            Field::Other => magnitudes(fields.drop_last()),
        }
    }
}

/// The power available according to `record`: the sixth magnitude of the
/// structure in a data notification less the fifth.
pub open spec fn reading_of(record: RecordView) -> Result<int, Error> {
    match record {
        RecordView::DataNotification(BodyView::Structure(fields)) => {
            let values = magnitudes(fields);
            if values.len() < MAGNITUDES_NEEDED {
                Err(Error::InsufficientFields)
            } else {
                Ok(values[5] - values[4])
            }
        },
        _ => Err(Error::InvalidApduFormat),
    }
}

fn collect_magnitudes(fields: &Vec<Field>) -> (r: Vec<u32>)
    ensures
        r@ == magnitudes(fields@),
{
    let mut values: Vec<u32> = Vec::new();
    let mut i: usize = 0;
    while i < fields.len()
        invariant
            i <= fields@.len(),
            values@ == magnitudes(fields@.take(i as int)),
        decreases fields@.len() - i,
    {
        proof {
            assert(fields@.take(i + 1).drop_last() =~= fields@.take(i as int));
        }
        match fields[i] {
            Field::Magnitude(value) => {
                values.push(value);
            },
            Field::Other => {},
        }
        i = i + 1;
    }
    assert(fields@.take(fields@.len() as int) =~= fields@);
    values
}

/// Takes the available power from a record: positive for a surplus, negative
/// for a deficit. A record that is no data notification, or whose body is no
/// structure, is refused, and so is a structure with fewer than six
/// magnitudes.
pub fn available_power(record: &Record) -> (r: Result<i64, Error>)
    ensures
        match r {
            Ok(power) => reading_of(record@) == Ok::<int, Error>(power as int),
            Err(error) => reading_of(record@) == Err::<int, Error>(error),
        },
{
    match record {
        Record::DataNotification(Body::Structure(fields)) => {
            let values = collect_magnitudes(fields);
            if values.len() < MAGNITUDES_NEEDED {
                Err(Error::InsufficientFields)
            } else {
                Ok(values[5] as i64 - values[4] as i64)
            }
        },
        _ => Err(Error::InvalidApduFormat),
    }
}

} // verus!
