//! ASDU information object parser.
//!
//! Decodes the raw payload of an ASDU into structured [`DataPoint`] values,
//! honouring the sequenced and addressed object encodings.

use vstd::prelude::*;

verus! {

use crate::asdu::{spec_cp56_from, spec_ioa_of, Asdu, Cp56Time2a};
use crate::data::{
    spec_quality_from_qds,
    spec_quality_from_siq,
    DataPoint,
    DataValue,
    Quality,
};
use crate::error::Iec104Error;
use vstd::arithmetic::mul::{
    lemma_mul_inequality,
    lemma_mul_is_distributive_add_other_way,
    lemma_mul_nonnegative,
    lemma_mul_upper_bound,
};

/// The IOA stored at a byte offset of a payload, little-endian.
pub open spec fn spec_ioa_at(d: Seq<u8>, off: int) -> u32 {
    spec_ioa_of(d[off], d[off + 1], d[off + 2])
}

/// The number of payload bytes that `count` objects of element size `esize`
/// occupy. A sequenced ASDU holds one address and `count` elements; an
/// addressed ASDU holds an address before every element. The first address
/// is read even when the count is zero.
pub open spec fn spec_needed(count: int, sequence: bool, esize: int) -> int {
    if count == 0 {
        3
    } else if sequence {
        3 + count * esize
    } else {
        count * (3 + esize)
    }
}

/// The byte offset of the i-th element payload.
pub open spec fn spec_eoff(sequence: bool, esize: int, i: int) -> int {
    if sequence {
        3 + i * esize
    } else {
        i * (3 + esize) + 3
    }
}

/// The address of the i-th object: the base address plus i when sequenced,
/// the object's own stored address otherwise.
pub open spec fn spec_pioa(d: Seq<u8>, sequence: bool, esize: int, i: int) -> u32 {
    if sequence {
        ((spec_ioa_at(d, 0) + i) as u32)
    } else {
        spec_ioa_at(d, i * (3 + esize))
    }
}

/// Read a little-endian 24-bit address from the first three bytes.
pub fn read_ioa_le(bytes: &[u8]) -> (r: u32)
    requires
        bytes@.len() >= 3,
    ensures
        r == spec_ioa_of(bytes@[0], bytes@[1], bytes@[2]),
        r <= 0xFFFFFF,
{
    let b0 = bytes[0];
    let b1 = bytes[1];
    let b2 = bytes[2];
    proof {
        assert((b0 as u32) | ((b1 as u32) << 8) | ((b2 as u32) << 16) <= 0xFFFFFF) by (bit_vector);
    }
    (b0 as u32) | ((b1 as u32) << 8) | ((b2 as u32) << 16)
}

/// Read a little-endian 24-bit address, checking the length.
pub fn parse_ioa(bytes: &[u8]) -> (r: Result<u32, Iec104Error>)
    ensures
        bytes@.len() >= 3 ==> (r matches Ok(v) && v == spec_ioa_of(bytes@[0], bytes@[1], bytes@[2])
            && v <= 0xFFFFFF),
        bytes@.len() < 3 ==> (r matches Err(e) && e is InvalidAsdu),
{
    if bytes.len() < 3 {
        return Err(Iec104Error::invalid_asdu("IOA too short"));
    }
    Ok(read_ioa_le(bytes))
}

/// The address of the i-th object, as an exec computation over the payload.
fn point_ioa(data: &[u8], first_ioa: u32, sequence: bool, esize: usize, i: usize) -> (r: u32)
    requires
        first_ioa == spec_ioa_at(data@, 0),
        first_ioa <= 0xFFFFFF,
        esize <= 16,
        i < 256,
        !sequence ==> i * (3 + esize) + 3 <= data@.len(),
    ensures
        r == spec_pioa(data@, sequence, esize as int, i as int),
{
    if sequence {
        first_ioa + (i as u32)
    } else {
        proof {
            lemma_mul_upper_bound(i as int, 255, 3 + esize as int, 19);
        }
        let off = i * (3 + esize);
        let s = vstd::slice::slice_subrange(data, off, off + 3);
        read_ioa_le(s)
    }
}

/// Parse single-point information (type identifications 1 and 30).
///
/// Each element is one SIQ byte: bit 0 the value, bits 4 to 7 the quality;
/// with `with_time`, seven CP56Time2a bytes follow.
pub open spec fn spec_single_point_at(d: Seq<u8>, sequence: bool, with_time: bool, i: int) -> DataPoint {
    let e: int = if with_time {
        8
    } else {
        1
    };
    let off = spec_eoff(sequence, e, i);
    DataPoint {
        ioa: spec_pioa(d, sequence, e, i),
        value: DataValue::Single((d[off] & 0x01) != 0),
        quality: Quality(spec_quality_from_siq(d[off])),
        timestamp: if with_time {
            Some(spec_cp56_from(d.subrange(off + 1, off + 8)))
        } else {
            None
        },
    }
}

/// The points of a single-point ASDU, or `None` if the payload is too short.
pub open spec fn spec_single_points(d: Seq<u8>, count: int, sequence: bool, with_time: bool) -> Option<
    Seq<DataPoint>,
> {
    let e: int = if with_time {
        8
    } else {
        1
    };
    if d.len() < spec_needed(count, sequence, e) {
        None
    } else {
        Some(Seq::new(count as nat, |i: int| spec_single_point_at(d, sequence, with_time, i)))
    }
}

fn parse_single_point(data: &[u8], count: usize, sequence: bool, with_time: bool) -> (r: Result<
    Vec<DataPoint>,
    Iec104Error,
>)
    requires
        count <= 255,
    ensures
        r is Ok <==> spec_single_points(data@, count as int, sequence, with_time) is Some,
        r matches Ok(points) ==> Some(points@) == spec_single_points(
            data@,
            count as int,
            sequence,
            with_time,
        ),
        r matches Err(e) ==> e is InvalidAsdu,
{
    let esize: usize = if with_time {
        8
    } else {
        1
    };
    proof {
        lemma_mul_upper_bound(count as int, 255, esize as int, 16);
        lemma_mul_upper_bound(count as int, 255, 3 + esize as int, 19);
        lemma_mul_nonnegative(count as int, esize as int);
        if count > 0 {
            lemma_mul_inequality(1, count as int, esize as int);
            lemma_mul_inequality(1, count as int, 3 + esize as int);
        }
    }
    let needed: usize = if count == 0 {
        3
    } else if sequence {
        3 + count * esize
    } else {
        count * (3 + esize)
    };
    if data.len() < needed {
        return Err(Iec104Error::invalid_asdu("Data too short"));
    }
    let first_ioa = read_ioa_le(data);
    let mut points: Vec<DataPoint> = Vec::new();
    let mut i: usize = 0;
    while i < count
        invariant
            count <= 255,
            esize == (if with_time {
                8int
            } else {
                1int
            }),
            needed == spec_needed(count as int, sequence, esize as int),
            needed <= data@.len(),
            first_ioa == spec_ioa_at(data@, 0),
            first_ioa <= 0xFFFFFF,
            points@.len() == i,
            i <= count,
            forall|j: int|
                0 <= j < i ==> points@[j] == spec_single_point_at(data@, sequence, with_time, j),
        decreases count - i,
    {
        proof {
            lemma_mul_inequality(i as int + 1, count as int, esize as int);
            lemma_mul_inequality(i as int + 1, count as int, 3 + esize as int);
            lemma_mul_is_distributive_add_other_way(i as int + 1, 1, esize as int);
            lemma_mul_is_distributive_add_other_way(i as int + 1, 1, 3 + esize as int);
        }
        let ioa = point_ioa(data, first_ioa, sequence, esize, i);
        let off: usize = if sequence {
            3 + i * esize
        } else {
            i * (3 + esize) + 3
        };
        let siq = data[off];
        let value = (siq & 0x01) != 0;
        let quality = Quality::from_siq(siq);
        let timestamp: Option<Cp56Time2a> = if with_time {
            let ts_slice = vstd::slice::slice_subrange(data, off + 1, off + 8);
            match Cp56Time2a::from_bytes(ts_slice) {
                Ok(ts) => Some(ts),
                Err(e) => {
                    return Err(e);
                },
            }
        } else {
            None
        };
        points.push(DataPoint { ioa, value: DataValue::Single(value), quality, timestamp });
        i = i + 1;
    }
    proof {
        assert(points@ =~= spec_single_points(data@, count as int, sequence, with_time)->0);
    }
    Ok(points)
}


/// A 16-bit little-endian word.
pub open spec fn spec_u16_le(b0: u8, b1: u8) -> u16 {
    (b0 as u16) | ((b1 as u16) << 8)
}

/// A 32-bit little-endian word.
pub open spec fn spec_u32_le(b0: u8, b1: u8, b2: u8, b3: u8) -> u32 {
    (b0 as u32) | ((b1 as u32) << 8) | ((b2 as u32) << 16) | ((b3 as u32) << 24)
}

/// Read a 16-bit little-endian word at an offset.
fn read_u16_le(data: &[u8], off: usize) -> (r: u16)
    requires
        off + 2 <= data@.len(),
    ensures
        r == spec_u16_le(data@[off as int], data@[off as int + 1]),
{
    (data[off] as u16) | ((data[off + 1] as u16) << 8)
}

/// Read a 32-bit little-endian word at an offset.
fn read_u32_le(data: &[u8], off: usize) -> (r: u32)
    requires
        off + 4 <= data@.len(),
    ensures
        r == spec_u32_le(
            data@[off as int],
            data@[off as int + 1],
            data@[off as int + 2],
            data@[off as int + 3],
        ),
{
    (data[off] as u32) | ((data[off + 1] as u32) << 8) | ((data[off + 2] as u32) << 16) | ((data[off
        + 3] as u32) << 24)
}

/// Parse single-point information with CP24 time tag (type 2).
///
/// Each element is one SIQ byte followed by a three-byte CP24 time tag,
/// which is skipped: no timestamp is surfaced.
pub open spec fn spec_single_point_t24_at(d: Seq<u8>, sequence: bool, i: int) -> DataPoint {
    let e: int = 4;
    let off = spec_eoff(sequence, e, i);
    DataPoint {
        ioa: spec_pioa(d, sequence, e, i),
        value: DataValue::Single((d[off] & 0x01) != 0),
        quality: Quality(spec_quality_from_siq(d[off])),
        timestamp: None,
    }
}

/// The points of such an ASDU, or `None` if the payload is too short.
pub open spec fn spec_single_point_t24_points(d: Seq<u8>, count: int, sequence: bool) -> Option<
    Seq<DataPoint>,
> {
    let e: int = 4;
    if d.len() < spec_needed(count, sequence, e) {
        None
    } else {
        Some(Seq::new(count as nat, |i: int| spec_single_point_t24_at(d, sequence, i)))
    }
}

fn parse_single_point_time24(data: &[u8], count: usize, sequence: bool) -> (r: Result<
    Vec<DataPoint>,
    Iec104Error,
>)
    requires
        count <= 255,
    ensures
        r is Ok <==> spec_single_point_t24_points(data@, count as int, sequence) is Some,
        r matches Ok(points) ==> Some(points@) == spec_single_point_t24_points(
            data@, count as int, sequence,
        ),
        r matches Err(e) ==> e is InvalidAsdu,
{
    let esize: usize = 4;
    proof {
        lemma_mul_upper_bound(count as int, 255, esize as int, 16);
        lemma_mul_upper_bound(count as int, 255, 3 + esize as int, 19);
        lemma_mul_nonnegative(count as int, esize as int);
        if count > 0 {
            lemma_mul_inequality(1, count as int, esize as int);
            lemma_mul_inequality(1, count as int, 3 + esize as int);
        }
    }
    let needed: usize = if count == 0 {
        3
    } else if sequence {
        3 + count * esize
    } else {
        count * (3 + esize)
    };
    if data.len() < needed {
        return Err(Iec104Error::invalid_asdu("Data too short"));
    }
    let first_ioa = read_ioa_le(data);
    let mut points: Vec<DataPoint> = Vec::new();
    let mut i: usize = 0;
    while i < count
        invariant
            count <= 255,
            esize == 4int,
            needed == spec_needed(count as int, sequence, esize as int),
            needed <= data@.len(),
            first_ioa == spec_ioa_at(data@, 0),
            first_ioa <= 0xFFFFFF,
            points@.len() == i,
            i <= count,
            forall|j: int|
                0 <= j < i ==> points@[j] == spec_single_point_t24_at(data@, sequence, j),
        decreases count - i,
    {
        proof {
            lemma_mul_inequality(i as int + 1, count as int, esize as int);
            lemma_mul_inequality(i as int + 1, count as int, 3 + esize as int);
            lemma_mul_is_distributive_add_other_way(i as int + 1, 1, esize as int);
            lemma_mul_is_distributive_add_other_way(i as int + 1, 1, 3 + esize as int);
        }
        let ioa = point_ioa(data, first_ioa, sequence, esize, i);
        let off: usize = if sequence {
            3 + i * esize
        } else {
            i * (3 + esize) + 3
        };
        let siq = data[off];
        let value = (siq & 0x01) != 0;
        let quality = Quality::from_siq(siq);
        points.push(
            DataPoint { ioa, value: DataValue::Single(value), quality, timestamp: None },
        );
        i = i + 1;
    }
    proof {
        assert(points@ =~= spec_single_point_t24_points(data@, count as int, sequence)->0);
    }
    Ok(points)
}

/// Parse double-point information (types 3 and 31).
///
/// Each element is one DIQ byte: bits 0..=1 the state, bits 4 to 7 the
/// quality; with `with_time`, seven CP56Time2a bytes follow.
pub open spec fn spec_double_point_at(d: Seq<u8>, sequence: bool, with_time: bool, i: int) -> DataPoint {
    let e: int = if with_time {
        8
    } else {
        1
    };
    let off = spec_eoff(sequence, e, i);
    DataPoint {
        ioa: spec_pioa(d, sequence, e, i),
        value: DataValue::Double(crate::asdu::spec_dpv_from(d[off])),
        quality: Quality(spec_quality_from_siq(d[off])),
        timestamp: if with_time {
            Some(spec_cp56_from(d.subrange(off + 1, off + 8)))
        } else {
            None
        },
    }
}

/// The points of such an ASDU, or `None` if the payload is too short.
pub open spec fn spec_double_points(d: Seq<u8>, count: int, sequence: bool, with_time: bool) -> Option<
    Seq<DataPoint>,
> {
    let e: int = if with_time {
        8
    } else {
        1
    };
    if d.len() < spec_needed(count, sequence, e) {
        None
    } else {
        Some(Seq::new(count as nat, |i: int| spec_double_point_at(d, sequence, with_time, i)))
    }
}

fn parse_double_point(data: &[u8], count: usize, sequence: bool, with_time: bool) -> (r: Result<
    Vec<DataPoint>,
    Iec104Error,
>)
    requires
        count <= 255,
    ensures
        r is Ok <==> spec_double_points(data@, count as int, sequence, with_time) is Some,
        r matches Ok(points) ==> Some(points@) == spec_double_points(
            data@, count as int, sequence, with_time,
        ),
        r matches Err(e) ==> e is InvalidAsdu,
{
    let esize: usize = if with_time {
        8
    } else {
        1
    };
    proof {
        lemma_mul_upper_bound(count as int, 255, esize as int, 16);
        lemma_mul_upper_bound(count as int, 255, 3 + esize as int, 19);
        lemma_mul_nonnegative(count as int, esize as int);
        if count > 0 {
            lemma_mul_inequality(1, count as int, esize as int);
            lemma_mul_inequality(1, count as int, 3 + esize as int);
        }
    }
    let needed: usize = if count == 0 {
        3
    } else if sequence {
        3 + count * esize
    } else {
        count * (3 + esize)
    };
    if data.len() < needed {
        return Err(Iec104Error::invalid_asdu("Data too short"));
    }
    let first_ioa = read_ioa_le(data);
    let mut points: Vec<DataPoint> = Vec::new();
    let mut i: usize = 0;
    while i < count
        invariant
            count <= 255,
            esize == (if with_time {
                8int
            } else {
                1int
            }),
            needed == spec_needed(count as int, sequence, esize as int),
            needed <= data@.len(),
            first_ioa == spec_ioa_at(data@, 0),
            first_ioa <= 0xFFFFFF,
            points@.len() == i,
            i <= count,
            forall|j: int|
                0 <= j < i ==> points@[j] == spec_double_point_at(data@, sequence, with_time, j),
        decreases count - i,
    {
        proof {
            lemma_mul_inequality(i as int + 1, count as int, esize as int);
            lemma_mul_inequality(i as int + 1, count as int, 3 + esize as int);
            lemma_mul_is_distributive_add_other_way(i as int + 1, 1, esize as int);
            lemma_mul_is_distributive_add_other_way(i as int + 1, 1, 3 + esize as int);
        }
        let ioa = point_ioa(data, first_ioa, sequence, esize, i);
        let off: usize = if sequence {
            3 + i * esize
        } else {
            i * (3 + esize) + 3
        };
        let diq = data[off];
        let dp_value = crate::asdu::DoublePointValue::from_u8(diq);
        let quality = Quality::from_diq(diq);
        let timestamp: Option<Cp56Time2a> = if with_time {
            let ts_slice = vstd::slice::slice_subrange(data, off + 1, off + 8);
            match Cp56Time2a::from_bytes(ts_slice) {
                Ok(ts) => Some(ts),
                Err(e) => {
                    return Err(e);
                },
            }
        } else {
            None
        };
        points.push(DataPoint { ioa, value: DataValue::Double(dp_value), quality, timestamp });
        i = i + 1;
    }
    proof {
        assert(points@ =~= spec_double_points(data@, count as int, sequence, with_time)->0);
    }
    Ok(points)
}

/// Parse double-point information with CP24 time tag (type 4).
///
/// Each element is one DIQ byte followed by a three-byte CP24 time tag,
/// which is skipped: no timestamp is surfaced.
pub open spec fn spec_double_point_t24_at(d: Seq<u8>, sequence: bool, i: int) -> DataPoint {
    let e: int = 4;
    let off = spec_eoff(sequence, e, i);
    DataPoint {
        ioa: spec_pioa(d, sequence, e, i),
        value: DataValue::Double(crate::asdu::spec_dpv_from(d[off])),
        quality: Quality(spec_quality_from_siq(d[off])),
        timestamp: None,
    }
}

/// The points of such an ASDU, or `None` if the payload is too short.
pub open spec fn spec_double_point_t24_points(d: Seq<u8>, count: int, sequence: bool) -> Option<
    Seq<DataPoint>,
> {
    let e: int = 4;
    if d.len() < spec_needed(count, sequence, e) {
        None
    } else {
        Some(Seq::new(count as nat, |i: int| spec_double_point_t24_at(d, sequence, i)))
    }
}

fn parse_double_point_time24(data: &[u8], count: usize, sequence: bool) -> (r: Result<
    Vec<DataPoint>,
    Iec104Error,
>)
    requires
        count <= 255,
    ensures
        r is Ok <==> spec_double_point_t24_points(data@, count as int, sequence) is Some,
        r matches Ok(points) ==> Some(points@) == spec_double_point_t24_points(
            data@, count as int, sequence,
        ),
        r matches Err(e) ==> e is InvalidAsdu,
{
    let esize: usize = 4;
    proof {
        lemma_mul_upper_bound(count as int, 255, esize as int, 16);
        lemma_mul_upper_bound(count as int, 255, 3 + esize as int, 19);
        lemma_mul_nonnegative(count as int, esize as int);
        if count > 0 {
            lemma_mul_inequality(1, count as int, esize as int);
            lemma_mul_inequality(1, count as int, 3 + esize as int);
        }
    }
    let needed: usize = if count == 0 {
        3
    } else if sequence {
        3 + count * esize
    } else {
        count * (3 + esize)
    };
    if data.len() < needed {
        return Err(Iec104Error::invalid_asdu("Data too short"));
    }
    let first_ioa = read_ioa_le(data);
    let mut points: Vec<DataPoint> = Vec::new();
    let mut i: usize = 0;
    while i < count
        invariant
            count <= 255,
            esize == 4int,
            needed == spec_needed(count as int, sequence, esize as int),
            needed <= data@.len(),
            first_ioa == spec_ioa_at(data@, 0),
            first_ioa <= 0xFFFFFF,
            points@.len() == i,
            i <= count,
            forall|j: int|
                0 <= j < i ==> points@[j] == spec_double_point_t24_at(data@, sequence, j),
        decreases count - i,
    {
        proof {
            lemma_mul_inequality(i as int + 1, count as int, esize as int);
            lemma_mul_inequality(i as int + 1, count as int, 3 + esize as int);
            lemma_mul_is_distributive_add_other_way(i as int + 1, 1, esize as int);
            lemma_mul_is_distributive_add_other_way(i as int + 1, 1, 3 + esize as int);
        }
        let ioa = point_ioa(data, first_ioa, sequence, esize, i);
        let off: usize = if sequence {
            3 + i * esize
        } else {
            i * (3 + esize) + 3
        };
        let diq = data[off];
        let dp_value = crate::asdu::DoublePointValue::from_u8(diq);
        let quality = Quality::from_diq(diq);
        points.push(
            DataPoint { ioa, value: DataValue::Double(dp_value), quality, timestamp: None },
        );
        i = i + 1;
    }
    proof {
        assert(points@ =~= spec_double_point_t24_points(data@, count as int, sequence)->0);
    }
    Ok(points)
}

/// Parse step position information (type 5).
///
/// Each element is a VTI byte, whose low seven bits map to the range -64 to
/// +63, followed by a QDS quality byte.
pub open spec fn spec_step_position_at(d: Seq<u8>, sequence: bool, i: int) -> DataPoint {
    let e: int = 2;
    let off = spec_eoff(sequence, e, i);
    DataPoint {
        ioa: spec_pioa(d, sequence, e, i),
        value: DataValue::StepPosition((((d[off] & 0x7F) as int) - 64) as i8),
        quality: Quality(spec_quality_from_qds(d[off + 1])),
        timestamp: None,
    }
}

/// The points of such an ASDU, or `None` if the payload is too short.
pub open spec fn spec_step_position_points(d: Seq<u8>, count: int, sequence: bool) -> Option<
    Seq<DataPoint>,
> {
    let e: int = 2;
    if d.len() < spec_needed(count, sequence, e) {
        None
    } else {
        Some(Seq::new(count as nat, |i: int| spec_step_position_at(d, sequence, i)))
    }
}

fn parse_step_position(data: &[u8], count: usize, sequence: bool) -> (r: Result<
    Vec<DataPoint>,
    Iec104Error,
>)
    requires
        count <= 255,
    ensures
        r is Ok <==> spec_step_position_points(data@, count as int, sequence) is Some,
        r matches Ok(points) ==> Some(points@) == spec_step_position_points(
            data@, count as int, sequence,
        ),
        r matches Err(e) ==> e is InvalidAsdu,
{
    let esize: usize = 2;
    proof {
        lemma_mul_upper_bound(count as int, 255, esize as int, 16);
        lemma_mul_upper_bound(count as int, 255, 3 + esize as int, 19);
        lemma_mul_nonnegative(count as int, esize as int);
        if count > 0 {
            lemma_mul_inequality(1, count as int, esize as int);
            lemma_mul_inequality(1, count as int, 3 + esize as int);
        }
    }
    let needed: usize = if count == 0 {
        3
    } else if sequence {
        3 + count * esize
    } else {
        count * (3 + esize)
    };
    if data.len() < needed {
        return Err(Iec104Error::invalid_asdu("Data too short"));
    }
    let first_ioa = read_ioa_le(data);
    let mut points: Vec<DataPoint> = Vec::new();
    let mut i: usize = 0;
    while i < count
        invariant
            count <= 255,
            esize == 2int,
            needed == spec_needed(count as int, sequence, esize as int),
            needed <= data@.len(),
            first_ioa == spec_ioa_at(data@, 0),
            first_ioa <= 0xFFFFFF,
            points@.len() == i,
            i <= count,
            forall|j: int|
                0 <= j < i ==> points@[j] == spec_step_position_at(data@, sequence, j),
        decreases count - i,
    {
        proof {
            lemma_mul_inequality(i as int + 1, count as int, esize as int);
            lemma_mul_inequality(i as int + 1, count as int, 3 + esize as int);
            lemma_mul_is_distributive_add_other_way(i as int + 1, 1, esize as int);
            lemma_mul_is_distributive_add_other_way(i as int + 1, 1, 3 + esize as int);
        }
        let ioa = point_ioa(data, first_ioa, sequence, esize, i);
        let off: usize = if sequence {
            3 + i * esize
        } else {
            i * (3 + esize) + 3
        };
        let vti = data[off];
        proof {
            assert(vti & 0x7F <= 127) by (bit_vector);
        }
        let value = ((vti & 0x7F) as i8) - 64;
        let qds = data[off + 1];
        let quality = Quality::from_qds(qds);
        points.push(
            DataPoint { ioa, value: DataValue::StepPosition(value), quality, timestamp: None },
        );
        i = i + 1;
    }
    proof {
        assert(points@ =~= spec_step_position_points(data@, count as int, sequence)->0);
    }
    Ok(points)
}

/// Parse bitstring of 32 bits (type 7).
///
/// Each element is a four-byte little-endian bitstring followed by a QDS
/// quality byte.
pub open spec fn spec_bitstring_at(d: Seq<u8>, sequence: bool, i: int) -> DataPoint {
    let e: int = 5;
    let off = spec_eoff(sequence, e, i);
    DataPoint {
        ioa: spec_pioa(d, sequence, e, i),
        value: DataValue::Bitstring(spec_u32_le(d[off], d[off + 1], d[off + 2], d[off + 3])),
        quality: Quality(spec_quality_from_qds(d[off + 4])),
        timestamp: None,
    }
}

/// The points of such an ASDU, or `None` if the payload is too short.
pub open spec fn spec_bitstring_points(d: Seq<u8>, count: int, sequence: bool) -> Option<
    Seq<DataPoint>,
> {
    let e: int = 5;
    if d.len() < spec_needed(count, sequence, e) {
        None
    } else {
        Some(Seq::new(count as nat, |i: int| spec_bitstring_at(d, sequence, i)))
    }
}

fn parse_bitstring(data: &[u8], count: usize, sequence: bool) -> (r: Result<
    Vec<DataPoint>,
    Iec104Error,
>)
    requires
        count <= 255,
    ensures
        r is Ok <==> spec_bitstring_points(data@, count as int, sequence) is Some,
        r matches Ok(points) ==> Some(points@) == spec_bitstring_points(
            data@, count as int, sequence,
        ),
        r matches Err(e) ==> e is InvalidAsdu,
{
    let esize: usize = 5;
    proof {
        lemma_mul_upper_bound(count as int, 255, esize as int, 16);
        lemma_mul_upper_bound(count as int, 255, 3 + esize as int, 19);
        lemma_mul_nonnegative(count as int, esize as int);
        if count > 0 {
            lemma_mul_inequality(1, count as int, esize as int);
            lemma_mul_inequality(1, count as int, 3 + esize as int);
        }
    }
    let needed: usize = if count == 0 {
        3
    } else if sequence {
        3 + count * esize
    } else {
        count * (3 + esize)
    };
    if data.len() < needed {
        return Err(Iec104Error::invalid_asdu("Data too short"));
    }
    let first_ioa = read_ioa_le(data);
    let mut points: Vec<DataPoint> = Vec::new();
    let mut i: usize = 0;
    while i < count
        invariant
            count <= 255,
            esize == 5int,
            needed == spec_needed(count as int, sequence, esize as int),
            needed <= data@.len(),
            first_ioa == spec_ioa_at(data@, 0),
            first_ioa <= 0xFFFFFF,
            points@.len() == i,
            i <= count,
            forall|j: int|
                0 <= j < i ==> points@[j] == spec_bitstring_at(data@, sequence, j),
        decreases count - i,
    {
        proof {
            lemma_mul_inequality(i as int + 1, count as int, esize as int);
            lemma_mul_inequality(i as int + 1, count as int, 3 + esize as int);
            lemma_mul_is_distributive_add_other_way(i as int + 1, 1, esize as int);
            lemma_mul_is_distributive_add_other_way(i as int + 1, 1, 3 + esize as int);
        }
        let ioa = point_ioa(data, first_ioa, sequence, esize, i);
        let off: usize = if sequence {
            3 + i * esize
        } else {
            i * (3 + esize) + 3
        };
        let value = read_u32_le(data, off);
        let qds = data[off + 4];
        let quality = Quality::from_qds(qds);
        points.push(
            DataPoint { ioa, value: DataValue::Bitstring(value), quality, timestamp: None },
        );
        i = i + 1;
    }
    proof {
        assert(points@ =~= spec_bitstring_points(data@, count as int, sequence)->0);
    }
    Ok(points)
}

/// Parse measured value, normalized (types 9 and 10).
///
/// Each element is a signed 16-bit little-endian word followed by a QDS
/// quality byte; with `with_cp24`, three CP24 time-tag bytes follow and are
/// consumed without being surfaced. The word is kept raw: full scale is
/// 32768.
pub open spec fn spec_measured_normalized_at(d: Seq<u8>, sequence: bool, with_cp24: bool, i: int) -> DataPoint {
    let e: int = if with_cp24 {
        6
    } else {
        3
    };
    let off = spec_eoff(sequence, e, i);
    DataPoint {
        ioa: spec_pioa(d, sequence, e, i),
        value: DataValue::Normalized(spec_u16_le(d[off], d[off + 1]) as i16),
        quality: Quality(spec_quality_from_qds(d[off + 2])),
        timestamp: None,
    }
}

/// The points of such an ASDU, or `None` if the payload is too short.
pub open spec fn spec_measured_normalized_points(d: Seq<u8>, count: int, sequence: bool, with_cp24: bool) -> Option<
    Seq<DataPoint>,
> {
    let e: int = if with_cp24 {
        6
    } else {
        3
    };
    if d.len() < spec_needed(count, sequence, e) {
        None
    } else {
        Some(Seq::new(count as nat, |i: int| spec_measured_normalized_at(d, sequence, with_cp24, i)))
    }
}

fn parse_measured_normalized(data: &[u8], count: usize, sequence: bool, with_cp24: bool) -> (r: Result<
    Vec<DataPoint>,
    Iec104Error,
>)
    requires
        count <= 255,
    ensures
        r is Ok <==> spec_measured_normalized_points(data@, count as int, sequence, with_cp24) is Some,
        r matches Ok(points) ==> Some(points@) == spec_measured_normalized_points(
            data@,
            count as int,
            sequence,
            with_cp24,
        ),
        r matches Err(e) ==> e is InvalidAsdu,
{
    let esize: usize = if with_cp24 {
        6
    } else {
        3
    };
    proof {
        lemma_mul_upper_bound(count as int, 255, esize as int, 16);
        lemma_mul_upper_bound(count as int, 255, 3 + esize as int, 19);
        lemma_mul_nonnegative(count as int, esize as int);
        if count > 0 {
            lemma_mul_inequality(1, count as int, esize as int);
            lemma_mul_inequality(1, count as int, 3 + esize as int);
        }
    }
    let needed: usize = if count == 0 {
        3
    } else if sequence {
        3 + count * esize
    } else {
        count * (3 + esize)
    };
    if data.len() < needed {
        return Err(Iec104Error::invalid_asdu("Data too short"));
    }
    let first_ioa = read_ioa_le(data);
    let mut points: Vec<DataPoint> = Vec::new();
    let mut i: usize = 0;
    while i < count
        invariant
            count <= 255,
            esize == (if with_cp24 {
                6int
            } else {
                3int
            }),
            needed == spec_needed(count as int, sequence, esize as int),
            needed <= data@.len(),
            first_ioa == spec_ioa_at(data@, 0),
            first_ioa <= 0xFFFFFF,
            points@.len() == i,
            i <= count,
            forall|j: int|
                0 <= j < i ==> points@[j] == spec_measured_normalized_at(
                    data@,
                    sequence,
                    with_cp24,
                    j,
                ),
        decreases count - i,
    {
        proof {
            lemma_mul_inequality(i as int + 1, count as int, esize as int);
            lemma_mul_inequality(i as int + 1, count as int, 3 + esize as int);
            lemma_mul_is_distributive_add_other_way(i as int + 1, 1, esize as int);
            lemma_mul_is_distributive_add_other_way(i as int + 1, 1, 3 + esize as int);
        }
        let ioa = point_ioa(data, first_ioa, sequence, esize, i);
        let off: usize = if sequence {
            3 + i * esize
        } else {
            i * (3 + esize) + 3
        };
        let raw = read_u16_le(data, off);
        let qds = data[off + 2];
        let quality = Quality::from_qds(qds);
        points.push(
            DataPoint {
                ioa,
                value: DataValue::Normalized(#[verifier::truncate] (raw as i16)),
                quality,
                timestamp: None,
            },
        );
        i = i + 1;
    }
    proof {
        assert(points@ =~= spec_measured_normalized_points(
            data@,
            count as int,
            sequence,
            with_cp24,
        )->0);
    }
    Ok(points)
}

/// Parse measured value, scaled (types 11 and 12).
///
/// Each element is a signed 16-bit little-endian value followed by a QDS
/// quality byte; with `with_cp24`, three CP24 time-tag bytes follow and are
/// consumed without being surfaced.
pub open spec fn spec_measured_scaled_at(d: Seq<u8>, sequence: bool, with_cp24: bool, i: int) -> DataPoint {
    let e: int = if with_cp24 {
        6
    } else {
        3
    };
    let off = spec_eoff(sequence, e, i);
    DataPoint {
        ioa: spec_pioa(d, sequence, e, i),
        value: DataValue::Scaled(spec_u16_le(d[off], d[off + 1]) as i16),
        quality: Quality(spec_quality_from_qds(d[off + 2])),
        timestamp: None,
    }
}

/// The points of such an ASDU, or `None` if the payload is too short.
pub open spec fn spec_measured_scaled_points(d: Seq<u8>, count: int, sequence: bool, with_cp24: bool) -> Option<
    Seq<DataPoint>,
> {
    let e: int = if with_cp24 {
        6
    } else {
        3
    };
    if d.len() < spec_needed(count, sequence, e) {
        None
    } else {
        Some(Seq::new(count as nat, |i: int| spec_measured_scaled_at(d, sequence, with_cp24, i)))
    }
}

fn parse_measured_scaled(data: &[u8], count: usize, sequence: bool, with_cp24: bool) -> (r: Result<
    Vec<DataPoint>,
    Iec104Error,
>)
    requires
        count <= 255,
    ensures
        r is Ok <==> spec_measured_scaled_points(data@, count as int, sequence, with_cp24) is Some,
        r matches Ok(points) ==> Some(points@) == spec_measured_scaled_points(
            data@,
            count as int,
            sequence,
            with_cp24,
        ),
        r matches Err(e) ==> e is InvalidAsdu,
{
    let esize: usize = if with_cp24 {
        6
    } else {
        3
    };
    proof {
        lemma_mul_upper_bound(count as int, 255, esize as int, 16);
        lemma_mul_upper_bound(count as int, 255, 3 + esize as int, 19);
        lemma_mul_nonnegative(count as int, esize as int);
        if count > 0 {
            lemma_mul_inequality(1, count as int, esize as int);
            lemma_mul_inequality(1, count as int, 3 + esize as int);
        }
    }
    let needed: usize = if count == 0 {
        3
    } else if sequence {
        3 + count * esize
    } else {
        count * (3 + esize)
    };
    if data.len() < needed {
        return Err(Iec104Error::invalid_asdu("Data too short"));
    }
    let first_ioa = read_ioa_le(data);
    let mut points: Vec<DataPoint> = Vec::new();
    let mut i: usize = 0;
    while i < count
        invariant
            count <= 255,
            esize == (if with_cp24 {
                6int
            } else {
                3int
            }),
            needed == spec_needed(count as int, sequence, esize as int),
            needed <= data@.len(),
            first_ioa == spec_ioa_at(data@, 0),
            first_ioa <= 0xFFFFFF,
            points@.len() == i,
            i <= count,
            forall|j: int|
                0 <= j < i ==> points@[j] == spec_measured_scaled_at(data@, sequence, with_cp24, j),
        decreases count - i,
    {
        proof {
            lemma_mul_inequality(i as int + 1, count as int, esize as int);
            lemma_mul_inequality(i as int + 1, count as int, 3 + esize as int);
            lemma_mul_is_distributive_add_other_way(i as int + 1, 1, esize as int);
            lemma_mul_is_distributive_add_other_way(i as int + 1, 1, 3 + esize as int);
        }
        let ioa = point_ioa(data, first_ioa, sequence, esize, i);
        let off: usize = if sequence {
            3 + i * esize
        } else {
            i * (3 + esize) + 3
        };
        let raw = read_u16_le(data, off);
        let qds = data[off + 2];
        let quality = Quality::from_qds(qds);
        points.push(
            DataPoint { ioa, value: DataValue::Scaled(#[verifier::truncate] (raw as i16)), quality, timestamp: None },
        );
        i = i + 1;
    }
    proof {
        assert(points@ =~= spec_measured_scaled_points(data@, count as int, sequence, with_cp24)->0);
    }
    Ok(points)
}

/// Parse measured value, short floating point (types 13, 14 and 36).
///
/// Each element is a four-byte little-endian IEEE-754 bit pattern, kept as
/// its raw 32-bit word, followed by a QDS quality byte; with `with_time`,
/// seven CP56Time2a bytes follow; with `with_cp24`, three CP24 time-tag
/// bytes follow and are consumed without being surfaced.
pub open spec fn spec_measured_float_at(d: Seq<u8>, sequence: bool, with_time: bool, with_cp24: bool, i: int) -> DataPoint {
    let e: int = if with_time {
        12
    } else if with_cp24 {
        8
    } else {
        5
    };
    let off = spec_eoff(sequence, e, i);
    DataPoint {
        ioa: spec_pioa(d, sequence, e, i),
        value: DataValue::Float(spec_u32_le(d[off], d[off + 1], d[off + 2], d[off + 3])),
        quality: Quality(spec_quality_from_qds(d[off + 4])),
        timestamp: if with_time {
            Some(spec_cp56_from(d.subrange(off + 5, off + 12)))
        } else {
            None
        },
    }
}

/// The points of such an ASDU, or `None` if the payload is too short.
pub open spec fn spec_measured_float_points(
    d: Seq<u8>,
    count: int,
    sequence: bool,
    with_time: bool,
    with_cp24: bool,
) -> Option<Seq<DataPoint>> {
    let e: int = if with_time {
        12
    } else if with_cp24 {
        8
    } else {
        5
    };
    if d.len() < spec_needed(count, sequence, e) {
        None
    } else {
        Some(
            Seq::new(
                count as nat,
                |i: int| spec_measured_float_at(d, sequence, with_time, with_cp24, i),
            ),
        )
    }
}

fn parse_measured_float(
    data: &[u8],
    count: usize,
    sequence: bool,
    with_time: bool,
    with_cp24: bool,
) -> (r: Result<
    Vec<DataPoint>,
    Iec104Error,
>)
    requires
        count <= 255,
        !(with_time && with_cp24),
    ensures
        r is Ok <==> spec_measured_float_points(
            data@,
            count as int,
            sequence,
            with_time,
            with_cp24,
        ) is Some,
        r matches Ok(points) ==> Some(points@) == spec_measured_float_points(
            data@,
            count as int,
            sequence,
            with_time,
            with_cp24,
        ),
        r matches Err(e) ==> e is InvalidAsdu,
{
    let esize: usize = if with_time {
        12
    } else if with_cp24 {
        8
    } else {
        5
    };
    proof {
        lemma_mul_upper_bound(count as int, 255, esize as int, 16);
        lemma_mul_upper_bound(count as int, 255, 3 + esize as int, 19);
        lemma_mul_nonnegative(count as int, esize as int);
        if count > 0 {
            lemma_mul_inequality(1, count as int, esize as int);
            lemma_mul_inequality(1, count as int, 3 + esize as int);
        }
    }
    let needed: usize = if count == 0 {
        3
    } else if sequence {
        3 + count * esize
    } else {
        count * (3 + esize)
    };
    if data.len() < needed {
        return Err(Iec104Error::invalid_asdu("Data too short"));
    }
    let first_ioa = read_ioa_le(data);
    let mut points: Vec<DataPoint> = Vec::new();
    let mut i: usize = 0;
    while i < count
        invariant
            count <= 255,
            esize == (if with_time {
                12int
            } else if with_cp24 {
                8int
            } else {
                5int
            }),
            !(with_time && with_cp24),
            needed == spec_needed(count as int, sequence, esize as int),
            needed <= data@.len(),
            first_ioa == spec_ioa_at(data@, 0),
            first_ioa <= 0xFFFFFF,
            points@.len() == i,
            i <= count,
            forall|j: int|
                0 <= j < i ==> points@[j] == spec_measured_float_at(
                    data@,
                    sequence,
                    with_time,
                    with_cp24,
                    j,
                ),
        decreases count - i,
    {
        proof {
            lemma_mul_inequality(i as int + 1, count as int, esize as int);
            lemma_mul_inequality(i as int + 1, count as int, 3 + esize as int);
            lemma_mul_is_distributive_add_other_way(i as int + 1, 1, esize as int);
            lemma_mul_is_distributive_add_other_way(i as int + 1, 1, 3 + esize as int);
            if !sequence {
                assert((i as int) * (3 + esize as int) + (3 + esize as int) == (i as int + 1) * (3
                    + esize as int)) by (nonlinear_arith);
                assert((i as int) * (3 + esize as int) + 3 <= needed);
            } else {
                assert((i as int) * (esize as int) + (esize as int) == (i as int + 1) * (
                esize as int)) by (nonlinear_arith);
                assert(3 + (i as int) * (esize as int) + (esize as int) <= needed);
            }
        }
        let ioa = point_ioa(data, first_ioa, sequence, esize, i);
        let off: usize = if sequence {
            3 + i * esize
        } else {
            i * (3 + esize) + 3
        };
        let value = read_u32_le(data, off);
        let qds = data[off + 4];
        let quality = Quality::from_qds(qds);
        let timestamp: Option<Cp56Time2a> = if with_time {
            let ts_slice = vstd::slice::slice_subrange(data, off + 5, off + 12);
            match Cp56Time2a::from_bytes(ts_slice) {
                Ok(ts) => Some(ts),
                Err(e) => {
                    return Err(e);
                },
            }
        } else {
            None
        };
        points.push(DataPoint { ioa, value: DataValue::Float(value), quality, timestamp });
        i = i + 1;
    }
    proof {
        assert(points@ =~= spec_measured_float_points(
            data@,
            count as int,
            sequence,
            with_time,
            with_cp24,
        )->0);
    }
    Ok(points)
}

/// Parse integrated totals (type 15).
///
/// Each element is a four-byte signed little-endian counter reading
/// followed by a flag byte: sequence in the low five bits, then carry,
/// adjusted and invalid.
pub open spec fn spec_integrated_totals_at(d: Seq<u8>, sequence: bool, i: int) -> DataPoint {
    let e: int = 5;
    let off = spec_eoff(sequence, e, i);
    let flags = d[off + 4];
    DataPoint {
        ioa: spec_pioa(d, sequence, e, i),
        value: DataValue::BinaryCounter {
            value: spec_u32_le(d[off], d[off + 1], d[off + 2], d[off + 3]) as i32,
            sequence: flags & 0x1F,
            carry: (flags & 0x20) != 0,
            adjusted: (flags & 0x40) != 0,
            invalid: (flags & 0x80) != 0,
        },
        quality: Quality(
            if (flags & 0x80) != 0 {
                0x10u8
            } else {
                0u8
            },
        ),
        timestamp: None,
    }
}

/// The points of such an ASDU, or `None` if the payload is too short.
pub open spec fn spec_integrated_totals_points(d: Seq<u8>, count: int, sequence: bool) -> Option<
    Seq<DataPoint>,
> {
    let e: int = 5;
    if d.len() < spec_needed(count, sequence, e) {
        None
    } else {
        Some(Seq::new(count as nat, |i: int| spec_integrated_totals_at(d, sequence, i)))
    }
}

fn parse_integrated_totals(data: &[u8], count: usize, sequence: bool) -> (r: Result<
    Vec<DataPoint>,
    Iec104Error,
>)
    requires
        count <= 255,
    ensures
        r is Ok <==> spec_integrated_totals_points(data@, count as int, sequence) is Some,
        r matches Ok(points) ==> Some(points@) == spec_integrated_totals_points(
            data@, count as int, sequence,
        ),
        r matches Err(e) ==> e is InvalidAsdu,
{
    let esize: usize = 5;
    proof {
        lemma_mul_upper_bound(count as int, 255, esize as int, 16);
        lemma_mul_upper_bound(count as int, 255, 3 + esize as int, 19);
        lemma_mul_nonnegative(count as int, esize as int);
        if count > 0 {
            lemma_mul_inequality(1, count as int, esize as int);
            lemma_mul_inequality(1, count as int, 3 + esize as int);
        }
    }
    let needed: usize = if count == 0 {
        3
    } else if sequence {
        3 + count * esize
    } else {
        count * (3 + esize)
    };
    if data.len() < needed {
        return Err(Iec104Error::invalid_asdu("Data too short"));
    }
    let first_ioa = read_ioa_le(data);
    let mut points: Vec<DataPoint> = Vec::new();
    let mut i: usize = 0;
    while i < count
        invariant
            count <= 255,
            esize == 5int,
            needed == spec_needed(count as int, sequence, esize as int),
            needed <= data@.len(),
            first_ioa == spec_ioa_at(data@, 0),
            first_ioa <= 0xFFFFFF,
            points@.len() == i,
            i <= count,
            forall|j: int|
                0 <= j < i ==> points@[j] == spec_integrated_totals_at(data@, sequence, j),
        decreases count - i,
    {
        proof {
            lemma_mul_inequality(i as int + 1, count as int, esize as int);
            lemma_mul_inequality(i as int + 1, count as int, 3 + esize as int);
            lemma_mul_is_distributive_add_other_way(i as int + 1, 1, esize as int);
            lemma_mul_is_distributive_add_other_way(i as int + 1, 1, 3 + esize as int);
        }
        let ioa = point_ioa(data, first_ioa, sequence, esize, i);
        let off: usize = if sequence {
            3 + i * esize
        } else {
            i * (3 + esize) + 3
        };
        let value = #[verifier::truncate] (read_u32_le(data, off) as i32);
        let flags = data[off + 4];
        let seq_number = flags & 0x1F;
        let carry = (flags & 0x20) != 0;
        let adjusted = (flags & 0x40) != 0;
        let invalid = (flags & 0x80) != 0;
        let quality = Quality::with_invalid(invalid);
        points.push(
            DataPoint {
                ioa,
                value: DataValue::BinaryCounter {
                    value,
                    sequence: seq_number,
                    carry,
                    adjusted,
                    invalid,
                },
                quality,
                timestamp: None,
            },
        );
        i = i + 1;
    }
    proof {
        assert(points@ =~= spec_integrated_totals_points(data@, count as int, sequence)->0);
    }
    Ok(points)
}

/// Parse an ASDU into a list of data points.
///
/// Extracts the information objects of the raw payload and converts them
/// into structured [`DataPoint`] values. Command and system types yield an
/// empty list; the caller keeps the raw ASDU for those.
pub fn parse_asdu(asdu: &Asdu) -> (r: Result<Vec<DataPoint>, Iec104Error>)
    ensures
        r is Ok <==> spec_parse_asdu(*asdu) is Some,
        r matches Ok(points) ==> Some(points@) == spec_parse_asdu(*asdu),
        r matches Err(e) ==> e is InvalidAsdu,
{
    let data = asdu.raw_data.as_slice();
    let type_id = asdu.header.type_id;
    let count = asdu.header.vsq.count as usize;
    let sequence = asdu.header.vsq.sequence;

    if data.len() == 0 && count > 0 {
        return Err(Iec104Error::invalid_asdu("Empty data for non-zero count"));
    }

    match type_id {
        crate::type_id::TypeId::SinglePoint => parse_single_point(data, count, sequence, false),
        crate::type_id::TypeId::SinglePointTime56 => parse_single_point(data, count, sequence, true),
        crate::type_id::TypeId::SinglePointTime24 => parse_single_point_time24(
            data,
            count,
            sequence,
        ),
        crate::type_id::TypeId::DoublePoint => parse_double_point(data, count, sequence, false),
        crate::type_id::TypeId::DoublePointTime56 => parse_double_point(data, count, sequence, true),
        crate::type_id::TypeId::DoublePointTime24 => parse_double_point_time24(
            data,
            count,
            sequence,
        ),
        crate::type_id::TypeId::StepPosition => parse_step_position(data, count, sequence),
        crate::type_id::TypeId::Bitstring32 => parse_bitstring(data, count, sequence),
        crate::type_id::TypeId::MeasuredNormalized => parse_measured_normalized(
            data,
            count,
            sequence,
            false,
        ),
        crate::type_id::TypeId::MeasuredNormalizedTime24 => parse_measured_normalized(
            data,
            count,
            sequence,
            true,
        ),
        crate::type_id::TypeId::MeasuredScaled => parse_measured_scaled(data, count, sequence, false),
        crate::type_id::TypeId::MeasuredScaledTime24 => parse_measured_scaled(
            data,
            count,
            sequence,
            true,
        ),
        crate::type_id::TypeId::MeasuredFloat => parse_measured_float(
            data,
            count,
            sequence,
            false,
            false,
        ),
        crate::type_id::TypeId::MeasuredFloatTime24 => parse_measured_float(
            data,
            count,
            sequence,
            false,
            true,
        ),
        crate::type_id::TypeId::MeasuredFloatTime56 => parse_measured_float(
            data,
            count,
            sequence,
            true,
            false,
        ),
        crate::type_id::TypeId::IntegratedTotals => parse_integrated_totals(data, count, sequence),
        _ => Ok(Vec::new()),
    }
}

/// The parse result of a whole ASDU over its raw payload, or `None` on a
/// payload too short for its declared object count.
pub open spec fn spec_parse_asdu(a: Asdu) -> Option<Seq<DataPoint>> {
    let d = a.raw_data@;
    let count = a.header.vsq.count as int;
    let sequence = a.header.vsq.sequence;
    if d.len() == 0 && a.header.vsq.count > 0 {
        None
    } else {
        match a.header.type_id {
            crate::type_id::TypeId::SinglePoint => spec_single_points(d, count, sequence, false),
            crate::type_id::TypeId::SinglePointTime56 => spec_single_points(d, count, sequence, true),
            crate::type_id::TypeId::SinglePointTime24 => spec_single_point_t24_points(
                d,
                count,
                sequence,
            ),
            crate::type_id::TypeId::DoublePoint => spec_double_points(d, count, sequence, false),
            crate::type_id::TypeId::DoublePointTime56 => spec_double_points(d, count, sequence, true),
            crate::type_id::TypeId::DoublePointTime24 => spec_double_point_t24_points(
                d,
                count,
                sequence,
            ),
            crate::type_id::TypeId::StepPosition => spec_step_position_points(d, count, sequence),
            crate::type_id::TypeId::Bitstring32 => spec_bitstring_points(d, count, sequence),
            crate::type_id::TypeId::MeasuredNormalized => spec_measured_normalized_points(
                d,
                count,
                sequence,
                false,
            ),
            crate::type_id::TypeId::MeasuredNormalizedTime24 => spec_measured_normalized_points(
                d,
                count,
                sequence,
                true,
            ),
            crate::type_id::TypeId::MeasuredScaled => spec_measured_scaled_points(
                d,
                count,
                sequence,
                false,
            ),
            crate::type_id::TypeId::MeasuredScaledTime24 => spec_measured_scaled_points(
                d,
                count,
                sequence,
                true,
            ),
            crate::type_id::TypeId::MeasuredFloat => spec_measured_float_points(
                d,
                count,
                sequence,
                false,
                false,
            ),
            crate::type_id::TypeId::MeasuredFloatTime24 => spec_measured_float_points(
                d,
                count,
                sequence,
                false,
                true,
            ),
            crate::type_id::TypeId::MeasuredFloatTime56 => spec_measured_float_points(
                d,
                count,
                sequence,
                true,
                false,
            ),
            crate::type_id::TypeId::IntegratedTotals => spec_integrated_totals_points(
                d,
                count,
                sequence,
            ),
            _ => Some(Seq::empty()),
        }
    }
}

/// VSQ counting law: in a sequenced ASDU that parses successfully, the
/// addresses of the parsed points are exactly base, base+1, ..., base+N-1,
/// where base is the address stored at the front of the payload.
pub proof fn lemma_sequenced_ioas(a: Asdu)
    requires
        a.header.vsq.sequence,
        spec_parse_asdu(a) is Some,
    ensures
        forall|i: int|
            0 <= i < spec_parse_asdu(a)->0.len() ==> (#[trigger] spec_parse_asdu(a)->0[i]).ioa
                == spec_ioa_at(a.raw_data@, 0) + i,
{
    let d = a.raw_data@;
    let points = spec_parse_asdu(a)->0;
    assert forall|i: int| 0 <= i < points.len() implies (#[trigger] points[i]).ioa == spec_ioa_at(
        d,
        0,
    ) + i by {
        lemma_ioa_at_range(d, 0);
    }
}

/// The address stored at an offset is within the 24-bit range.
pub proof fn lemma_ioa_at_range(d: Seq<u8>, off: int)
    ensures
        0 <= spec_ioa_at(d, off) <= 0xFFFFFF,
{
    let b0 = d[off];
    let b1 = d[off + 1];
    let b2 = d[off + 2];
    assert((b0 as u32) | ((b1 as u32) << 8) | ((b2 as u32) << 16) <= 0xFFFFFF) by (bit_vector);
}


} // verus!
