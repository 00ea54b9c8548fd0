//! The deciphered application message: its grammar on bytes, and the record
//! that the reading is taken from.

use vstd::prelude::*;

verus! {

/// Why a message could not be decoded.
#[derive(Debug, Clone, Copy, PartialEq, Eq, Structural)]
pub enum DecodeError {
    /// The bytes break off; `missing` more were needed where they ended.
    Incomplete { missing: usize },
    /// The bytes do not follow the grammar.
    InvalidFormat,
    /// The cipher refused the content.
    DecryptionFailed,
}

/// The mathematical value of a [`DecodeError`].
pub enum DecodeFailure {
    Incomplete { missing: nat },
    InvalidFormat,
    DecryptionFailed,
}

impl View for DecodeError {
    type V = DecodeFailure;

    open spec fn view(&self) -> DecodeFailure {
        match *self {
            DecodeError::Incomplete { missing } => DecodeFailure::Incomplete {
                missing: missing as nat,
            },
            DecodeError::InvalidFormat => DecodeFailure::InvalidFormat,
            DecodeError::DecryptionFailed => DecodeFailure::DecryptionFailed,
        }
    }
}

/// One entry of a structure, as far as a reading needs it.
#[derive(Debug, Clone, Copy, PartialEq, Eq, Structural)]
pub enum Field {
    /// An unsigned 32-bit magnitude.
    Magnitude(u32),
    /// An entry of any other type.
    Other,
}

/// The body of a data notification.
#[derive(Debug)]
pub enum Body {
    /// An ordered list of typed entries.
    Structure(Vec<Field>),
    /// A single value that is no structure.
    Scalar,
}

/// A decoded application message.
#[derive(Debug)]
pub enum Record {
    /// A measurement pushed by the meter.
    DataNotification(Body),
    /// A message of another kind.
    Other,
}

/// The mathematical value of a [`Body`].
pub enum BodyView {
    Structure(Seq<Field>),
    Scalar,
}

/// The mathematical value of a [`Record`].
pub enum RecordView {
    DataNotification(BodyView),
    Other,
}

impl View for Body {
    type V = BodyView;

    open spec fn view(&self) -> BodyView {
        match *self {
            Body::Structure(fields) => BodyView::Structure(fields@),
            Body::Scalar => BodyView::Scalar,
        }
    }
}

impl View for Record {
    type V = RecordView;

    open spec fn view(&self) -> RecordView {
        match *self {
            Record::DataNotification(body) => RecordView::DataNotification(body@),
            Record::Other => RecordView::Other,
        }
    }
}

/// The tag of a data notification.
pub const DATA_NOTIFICATION_TAG: u8 = 0x0f;

/// The tag of a message under general global ciphering.
pub const GENERAL_CIPHERING_TAG: u8 = 0xdb;

/// The type tag of a structure.
pub const STRUCTURE_TAG: u8 = 0x02;

/// The type tag of an octet string.
pub const OCTET_STRING_TAG: u8 = 0x09;

/// The type tag of an unsigned 32-bit value.
pub const MAGNITUDE_TAG: u8 = 0x06;

/// The number of content bytes of a value whose type has a fixed width.
pub open spec fn fixed_width(tag: u8) -> Option<nat> {
    if tag == 0x00 {
        Some(0)
    } else if tag == 0x0f || tag == 0x16 {
        Some(1)
    } else if tag == 0x10 || tag == 0x12 {
        Some(2)
    } else if tag == 0x05 || tag == 0x06 || tag == 0x17 || tag == 0x1b {
        Some(4)
    } else if tag == 0x1a {
        Some(5)
    } else if tag == 0x14 || tag == 0x15 || tag == 0x18 {
        Some(8)
    } else if tag == 0x19 {
        Some(12)
    } else {
        None
    }
}

/// The unsigned value of the four bytes from `pos` on, most significant first.
pub open spec fn be_u32(bytes: Seq<u8>, pos: int) -> int {
    bytes[pos] * 0x100_0000 + bytes[pos + 1] * 0x1_0000 + bytes[pos + 2] * 0x100 + bytes[pos + 3]
}

/// The typed value that starts at `pos`: the entry it stands for and the
/// position behind it.
pub open spec fn item_at(bytes: Seq<u8>, pos: int) -> Result<(Field, int), DecodeFailure>
    decreases bytes.len() - pos, 0nat,
{
    if pos >= bytes.len() {
        Err(DecodeFailure::Incomplete { missing: 1 })
    } else {
        let tag = bytes[pos];
        let left = bytes.len() - pos - 1;
        if tag == STRUCTURE_TAG {
            if left == 0 {
                Err(DecodeFailure::Incomplete { missing: 1 })
            } else {
                match items_at(bytes, pos + 2, bytes[pos + 1] as nat) {
                    Ok((_, end)) => Ok((Field::Other, end)),
                    Err(failure) => Err(failure),
                }
            }
        } else if tag == OCTET_STRING_TAG {
            if left == 0 {
                Err(DecodeFailure::Incomplete { missing: 1 })
            } else if left - 1 < bytes[pos + 1] {
                Err(DecodeFailure::Incomplete { missing: (bytes[pos + 1] - (left - 1)) as nat })
            } else {
                Ok((Field::Other, pos + 2 + bytes[pos + 1]))
            }
        } else {
            match fixed_width(tag) {
                Some(width) => if left < width {
                    Err(DecodeFailure::Incomplete { missing: (width - left) as nat })
                } else if tag == MAGNITUDE_TAG {
                    Ok((Field::Magnitude(be_u32(bytes, pos + 1) as u32), pos + 1 + width))
                } else {
                    Ok((Field::Other, pos + 1 + width))
                },
                None => Err(DecodeFailure::InvalidFormat),
            }
        }
    }
}

/// The `count` typed values that start at `pos`, one behind the other: the
/// entries they stand for and the position behind the last.
pub open spec fn items_at(bytes: Seq<u8>, pos: int, count: nat) -> Result<
    (Seq<Field>, int),
    DecodeFailure,
>
    decreases bytes.len() - pos, count + 1,
{
    if count == 0 {
        Ok((Seq::empty(), pos))
    } else {
        match item_at(bytes, pos) {
            Ok((field, end)) => if pos < end <= bytes.len() {
                match items_at(bytes, end, (count - 1) as nat) {
                    Ok((fields, last)) => Ok((seq![field] + fields, last)),
                    Err(failure) => Err(failure),
                }
            } else {
                Err(DecodeFailure::InvalidFormat)
            },
            Err(failure) => Err(failure),
        }
    }
}

/// The message in `bytes`. A data notification is its tag, four bytes that
/// identify it, a date and time behind a length byte, and one typed value,
/// the body, that ends with the bytes. A ciphered message is recognised by
/// its tag and not opened. Bytes under another tag are no message.
pub open spec fn record_of(bytes: Seq<u8>) -> Result<RecordView, DecodeFailure> {
    if bytes.len() == 0 {
        Err(DecodeFailure::Incomplete { missing: 1 })
    } else if bytes[0] == GENERAL_CIPHERING_TAG {
        Ok(RecordView::Other)
    } else if bytes[0] != DATA_NOTIFICATION_TAG {
        Err(DecodeFailure::InvalidFormat)
    } else if bytes.len() < 6 {
        Err(DecodeFailure::Incomplete { missing: (6 - bytes.len()) as nat })
    } else if bytes.len() < 6 + bytes[5] {
        Err(DecodeFailure::Incomplete { missing: (6 + bytes[5] - bytes.len()) as nat })
    } else {
        let start = 6 + bytes[5];
        match item_at(bytes, start) {
            Err(failure) => Err(failure),
            Ok((_, end)) => if end != bytes.len() {
                Err(DecodeFailure::InvalidFormat)
            } else if bytes[start] == STRUCTURE_TAG {
                match items_at(bytes, start + 2, bytes[start + 1] as nat) {
                    Ok((fields, _)) => Ok(RecordView::DataNotification(BodyView::Structure(fields))),
                    Err(failure) => Err(failure),
                }
            } else {
                Ok(RecordView::DataNotification(BodyView::Scalar))
            },
        }
    }
}

/// The entries `before` followed by those of `later`, where `later` has any.
spec fn prepend(before: Seq<Field>, later: Result<(Seq<Field>, int), DecodeFailure>)
    -> Result<(Seq<Field>, int), DecodeFailure> {
    match later {
        Ok((fields, end)) => Ok((before + fields, end)),
        Err(failure) => Err(failure),
    }
}

fn width_of(tag: u8) -> (r: Option<usize>)
    ensures
        match r {
            Some(width) => fixed_width(tag) == Some(width as nat),
            None => fixed_width(tag) is None,
        },
{
    if tag == 0x00 {
        Some(0)
    } else if tag == 0x0f || tag == 0x16 {
        Some(1)
    } else if tag == 0x10 || tag == 0x12 {
        Some(2)
    } else if tag == 0x05 || tag == 0x06 || tag == 0x17 || tag == 0x1b {
        Some(4)
    } else if tag == 0x1a {
        Some(5)
    } else if tag == 0x14 || tag == 0x15 || tag == 0x18 {
        Some(8)
    } else if tag == 0x19 {
        Some(12)
    } else {
        None
    }
}

fn read_be_u32(bytes: &[u8], pos: usize) -> (r: u32)
    requires
        pos + 4 <= bytes@.len(),
    ensures
        r == be_u32(bytes@, pos as int),
{
    let b0: u32 = bytes[pos] as u32;
    let b1: u32 = bytes[pos + 1] as u32;
    let b2: u32 = bytes[pos + 2] as u32;
    let b3: u32 = bytes[pos + 3] as u32;
    b0 * 0x100_0000 + b1 * 0x1_0000 + b2 * 0x100 + b3
}

fn read_item(bytes: &[u8], pos: usize) -> (r: Result<(Field, usize), DecodeError>)
    ensures
        match r {
            Ok((field, end)) => {
                &&& item_at(bytes@, pos as int) == Ok::<(Field, int), DecodeFailure>(
                    (field, end as int),
                )
                &&& pos < end <= bytes@.len()
            },
            Err(error) => item_at(bytes@, pos as int) == Err::<(Field, int), DecodeFailure>(
                error@,
            ),
        },
    decreases bytes@.len() - pos, 0nat,
{
    if pos >= bytes.len() {
        return Err(DecodeError::Incomplete { missing: 1 });
    }
    let tag: u8 = bytes[pos];
    let left: usize = bytes.len() - pos - 1;
    if tag == STRUCTURE_TAG {
        if left == 0 {
            return Err(DecodeError::Incomplete { missing: 1 });
        }
        match read_items(bytes, pos + 2, bytes[pos + 1]) {
            Ok((_, end)) => Ok((Field::Other, end)),
            Err(error) => Err(error),
        }
    } else if tag == OCTET_STRING_TAG {
        if left == 0 {
            return Err(DecodeError::Incomplete { missing: 1 });
        }
        let length: usize = bytes[pos + 1] as usize;
        if left - 1 < length {
            Err(DecodeError::Incomplete { missing: length - (left - 1) })
        } else {
            Ok((Field::Other, pos + 2 + length))
        }
    } else {
        match width_of(tag) {
            Some(width) => {
                if left < width {
                    Err(DecodeError::Incomplete { missing: width - left })
                } else if tag == MAGNITUDE_TAG {
                    Ok((Field::Magnitude(read_be_u32(bytes, pos + 1)), pos + 1 + width))
                } else {
                    Ok((Field::Other, pos + 1 + width))
                }
            },
            None => Err(DecodeError::InvalidFormat),
        }
    }
}

fn read_items(bytes: &[u8], pos: usize, count: u8) -> (r: Result<(Vec<Field>, usize), DecodeError>)
    requires
        pos <= bytes@.len(),
    ensures
        match r {
            Ok((fields, end)) => {
                &&& items_at(bytes@, pos as int, count as nat) == Ok::<
                    (Seq<Field>, int),
                    DecodeFailure,
                >((fields@, end as int))
                &&& pos <= end <= bytes@.len()
            },
            Err(error) => items_at(bytes@, pos as int, count as nat) == Err::<
                (Seq<Field>, int),
                DecodeFailure,
            >(error@),
        },
    decreases bytes@.len() - pos, count + 1,
{
    let mut fields: Vec<Field> = Vec::new();
    let mut at: usize = pos;
    let mut left: u8 = count;
    assert(fields@ + Seq::<Field>::empty() =~= Seq::<Field>::empty());
    while left > 0
        invariant
            pos <= at <= bytes@.len(),
            items_at(bytes@, pos as int, count as nat) == prepend(
                fields@,
                items_at(bytes@, at as int, left as nat),
            ),
        decreases left,
    {
        match read_item(bytes, at) {
            Ok((field, end)) => {
                proof {
                    let later = items_at(bytes@, end as int, (left - 1) as nat);
                    match later {
                        Ok((more, last)) => {
                            assert(fields@ + (seq![field] + more) =~= fields@.push(field) + more);
                        },
                        Err(_) => {},
                    }
                }
                fields.push(field);
                at = end;
                left = left - 1;
            },
            Err(error) => {
                return Err(error);
            },
        }
    }
    assert(fields@ + Seq::<Field>::empty() =~= fields@);
    Ok((fields, at))
}

/// Decodes the message in `bytes`.
pub fn parse_record(bytes: &[u8]) -> (r: Result<Record, DecodeError>)
    ensures
        match r {
            Ok(record) => record_of(bytes@) == Ok::<RecordView, DecodeFailure>(record@),
            Err(error) => record_of(bytes@) == Err::<RecordView, DecodeFailure>(error@),
        },
{
    if bytes.len() == 0 {
        return Err(DecodeError::Incomplete { missing: 1 });
    }
    if bytes[0] == GENERAL_CIPHERING_TAG {
        return Ok(Record::Other);
    }
    if bytes[0] != DATA_NOTIFICATION_TAG {
        return Err(DecodeError::InvalidFormat);
    }
    if bytes.len() < 6 {
        return Err(DecodeError::Incomplete { missing: 6 - bytes.len() });
    }
    let skipped: usize = bytes[5] as usize;
    if bytes.len() - 6 < skipped {
        return Err(DecodeError::Incomplete { missing: skipped - (bytes.len() - 6) });
    }
    let start: usize = 6 + skipped;
    if start < bytes.len() && bytes[start] == STRUCTURE_TAG {
        if bytes.len() - start == 1 {
            return Err(DecodeError::Incomplete { missing: 1 });
        }
        match read_items(bytes, start + 2, bytes[start + 1]) {
            Ok((fields, end)) => {
                if end != bytes.len() {
                    Err(DecodeError::InvalidFormat)
                } else {
                    Ok(Record::DataNotification(Body::Structure(fields)))
                }
            },
            Err(error) => Err(error),
        }
    } else {
        match read_item(bytes, start) {
            Ok((_, end)) => {
                if end != bytes.len() {
                    Err(DecodeError::InvalidFormat)
                } else {
                    Ok(Record::DataNotification(Body::Scalar))
                }
            },
            Err(error) => Err(error),
        }
    }
}

} // verus!
