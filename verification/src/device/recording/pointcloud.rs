//! The point cloud of one angle of a sonar sweep.
//!
//! Every sample along the beam whose echo is at or above the noise floor
//! becomes one point. The place of a point is worked out by the caller in
//! floating point; this file takes the three coordinates as the bits of
//! three 32-bit floats, selects the samples and packs the points.
use super::text::Timestamp;
use crate::device::devices::{AutoDeviceDataStruct, DeviceDataStruct};
use vstd::prelude::*;
use vstd::string::StringExecFns;

verus! {

/// The echo strength below which a sample counts as noise.
pub const NOISE_FLOOR: u8 = 5;

/// The bytes that one packed point takes.
pub const POINT_STRIDE: u32 = 16;

/// The numeric type of a packed field: an unsigned byte.
pub const UINT8: i32 = 1;

/// The numeric type of a packed field: a 32-bit float.
pub const FLOAT32: i32 = 7;

/// The place of a sample: the bits of its three coordinates as 32-bit floats.
#[derive(Debug, Clone, Copy, PartialEq, Eq, Structural)]
pub struct Position {
    pub x: u32,
    pub y: u32,
    pub z: u32,
}

/// Where one field of a point lies in the packed point, and its numeric type.
#[derive(Debug)]
pub struct PackedElementField {
    pub name: String,
    pub offset: u32,
    pub numeric_type: i32,
}

pub struct PackedElementFieldView {
    pub name: Seq<char>,
    pub offset: u32,
    pub numeric_type: i32,
}

impl View for PackedElementField {
    type V = PackedElementFieldView;

    open spec fn view(&self) -> PackedElementFieldView {
        PackedElementFieldView {
            name: self.name@,
            offset: self.offset,
            numeric_type: self.numeric_type,
        }
    }
}

/// The instant of a point cloud: seconds and nanoseconds.
#[derive(Debug, Clone, Copy, PartialEq, Eq, Structural)]
pub struct CloudTime {
    pub sec: u32,
    pub nsec: u32,
}

/// The points of one angle of a sweep, packed, with the layout that a
/// reader needs to take them apart.
#[derive(Debug)]
pub struct PointCloud {
    pub timestamp: CloudTime,
    pub frame_id: String,
    pub point_stride: u32,
    pub fields: Vec<PackedElementField>,
    pub data: Vec<u8>,
}

pub struct PointCloudView {
    pub timestamp: CloudTime,
    pub frame_id: Seq<char>,
    pub point_stride: u32,
    pub fields: Seq<PackedElementFieldView>,
    pub data: Seq<u8>,
}

impl View for PointCloud {
    type V = PointCloudView;

    open spec fn view(&self) -> PointCloudView {
        PointCloudView {
            timestamp: self.timestamp,
            frame_id: self.frame_id@,
            point_stride: self.point_stride,
            fields: self.fields@.map_values(|f: PackedElementField| f@),
            data: self.data@,
        }
    }
}

/// A point cloud that may be absent, seen through its view.
pub open spec fn cloud_view(cloud: Option<PointCloud>) -> Option<PointCloudView> {
    match cloud {
        Some(c) => Some(c@),
        None => None,
    }
}

/// The four bytes of `v`, the low byte first.
pub open spec fn le_bytes(v: u32) -> Seq<u8> {
    seq![
        (v % 256) as u8,
        (v / 256 % 256) as u8,
        (v / 65536 % 256) as u8,
        (v / 16777216) as u8,
    ]
}

/// One packed point: the three coordinates, each in four bytes with the low
/// byte first, then the echo strength, then three bytes of padding.
pub open spec fn point_bytes(position: Position, intensity: u8) -> Seq<u8> {
    le_bytes(position.x) + le_bytes(position.y) + le_bytes(position.z) + seq![
        intensity,
        0u8,
        0u8,
        0u8,
    ]
}

/// The packed points of a beam: one point for each sample at or above the
/// noise floor, in the order of the samples, at the place of the sample.
pub open spec fn packed(samples: Seq<u8>, positions: Seq<Position>) -> Seq<u8>
    recommends
        positions.len() == samples.len(),
    decreases samples.len(),
{
    if samples.len() == 0 {
        Seq::empty()
    } else {
        let before = packed(samples.drop_last(), positions.drop_last());
        if samples.last() >= NOISE_FLOOR {
            before + point_bytes(positions.last(), samples.last())
        } else {
            before
        }
    }
}

/// The number of samples at or above the noise floor.
pub open spec fn count_points(samples: Seq<u8>) -> nat
    decreases samples.len(),
{
    if samples.len() == 0 {
        0
    } else {
        count_points(samples.drop_last()) + if samples.last() >= NOISE_FLOOR {
            1nat
        } else {
            0nat
        }
    }
}

/// The layout of a packed point.
pub open spec fn cloud_fields() -> Seq<PackedElementFieldView> {
    seq![
        PackedElementFieldView { name: "x"@, offset: 0, numeric_type: FLOAT32 },
        PackedElementFieldView { name: "y"@, offset: 4, numeric_type: FLOAT32 },
        PackedElementFieldView { name: "z"@, offset: 8, numeric_type: FLOAT32 },
        PackedElementFieldView { name: "intensity"@, offset: 12, numeric_type: UINT8 },
    ]
}

/// The time of a cloud that is made at `now`: the low 32 bits of the
/// seconds, and the nanoseconds.
pub open spec fn cloud_time(now: Timestamp) -> CloudTime {
    CloudTime { sec: now.secs as u32, nsec: now.nanos }
}

/// The point cloud of a beam, made at `now`. There is none where the
/// places are not one for each sample.
pub open spec fn point_cloud(
    data: Seq<u8>,
    positions: Seq<Position>,
    now: Timestamp,
) -> Option<PointCloudView> {
    if positions.len() == data.len() {
        Some(
            PointCloudView {
                timestamp: cloud_time(now),
                frame_id: "device"@,
                point_stride: POINT_STRIDE,
                fields: cloud_fields(),
                data: packed(data, positions),
            },
        )
    } else {
        None
    }
}

/// The packed points of a beam are whole points: their length is the
/// stride times the number of samples at or above the noise floor.
pub proof fn law_cloud_is_whole_points(samples: Seq<u8>, positions: Seq<Position>)
    ensures
        packed(samples, positions).len() == POINT_STRIDE * count_points(samples),
        packed(samples, positions).len() % (POINT_STRIDE as nat) == 0,
    decreases samples.len(),
{
    if samples.len() > 0 {
        law_cloud_is_whole_points(samples.drop_last(), positions.drop_last());
    }
    let n = count_points(samples);
    assert((16 * n) % 16 == 0) by (nonlinear_arith);
}

/// A beam of noise alone gives no point, and every sample at or above
/// the noise floor adds its point behind the points of the samples before
/// it.
pub proof fn law_cloud_holds_the_echoes(samples: Seq<u8>, positions: Seq<Position>, i: int)
    requires
        positions.len() == samples.len(),
        0 <= i < samples.len(),
    ensures
        ({
            let before = packed(samples.take(i), positions.take(i));
            let with = packed(samples.take(i + 1), positions.take(i + 1));
            if samples[i] >= NOISE_FLOOR {
                with == before + point_bytes(positions[i], samples[i])
            } else {
                with == before
            }
        }),
{
    assert(samples.take(i + 1).drop_last() == samples.take(i));
    assert(positions.take(i + 1).drop_last() == positions.take(i));
}

fn push_le(bytes: &mut Vec<u8>, v: u32)
    ensures
        final(bytes)@ == old(bytes)@ + le_bytes(v),
{
    bytes.push((v % 256) as u8);
    bytes.push((v / 256 % 256) as u8);
    bytes.push((v / 65536 % 256) as u8);
    bytes.push((v / 16777216) as u8);
    assert(bytes@ =~= old(bytes)@ + le_bytes(v));
}

fn field(name: &str, offset: u32, numeric_type: i32) -> (field: PackedElementField)
    ensures
        field@ == (PackedElementFieldView { name: name@, offset, numeric_type }),
{
    PackedElementField { name: String::from_str(name), offset, numeric_type }
}

/// The sweep data that a Ping360 sends on request, in the form of the
/// data that it sends while it scans on its own: one step of a scan over
/// the whole circle.
pub fn auto_device_data(data: DeviceDataStruct) -> (auto: AutoDeviceDataStruct)
    ensures
        auto.mode == data.mode,
        auto.gain_setting == data.gain_setting,
        auto.angle == data.angle,
        auto.transmit_duration == data.transmit_duration,
        auto.sample_period == data.sample_period,
        auto.transmit_frequency == data.transmit_frequency,
        auto.start_angle == 0,
        auto.stop_angle == 399,
        auto.num_steps == 1,
        auto.delay == 0,
        auto.number_of_samples == data.number_of_samples,
        auto.data_length == data.number_of_samples,
        auto.data@ == data.data@,
{
    AutoDeviceDataStruct {
        mode: data.mode,
        gain_setting: data.gain_setting,
        angle: data.angle,
        transmit_duration: data.transmit_duration,
        sample_period: data.sample_period,
        transmit_frequency: data.transmit_frequency,
        start_angle: 0,
        stop_angle: 399,
        num_steps: 1,
        delay: 0,
        number_of_samples: data.number_of_samples,
        data_length: data.number_of_samples,
        data: data.data,
    }
}

/// The point cloud of one angle of a sweep, made at `now`, with the
/// sample `i` at `positions[i]`.
pub fn convert_to_point_cloud(
    data: &AutoDeviceDataStruct,
    positions: &Vec<Position>,
    now: Timestamp,
) -> (cloud: Option<PointCloud>)
    ensures
        cloud_view(cloud) == point_cloud(data.data@, positions@, now),
{
    if positions.len() != data.data.len() {
        return None;
    }
    let mut fields: Vec<PackedElementField> = Vec::new();
    fields.push(field("x", 0, FLOAT32));
    fields.push(field("y", 4, FLOAT32));
    fields.push(field("z", 8, FLOAT32));
    fields.push(field("intensity", 12, UINT8));
    assert(fields@.map_values(|f: PackedElementField| f@) =~= cloud_fields());

    let mut points: Vec<u8> = Vec::new();
    let mut i: usize = 0;
    assert(data.data@.take(0) =~= Seq::<u8>::empty());
    while i < data.data.len()
        invariant
            i <= data.data.len(),
            positions.len() == data.data.len(),
            points@ == packed(data.data@.take(i as int), positions@.take(i as int)),
        decreases data.data.len() - i,
    {
        let intensity = data.data[i];
        proof {
            law_cloud_holds_the_echoes(data.data@, positions@, i as int);
        }
        if intensity >= NOISE_FLOOR {
            let position = positions[i];
            let ghost before = points@;
            push_le(&mut points, position.x);
            push_le(&mut points, position.y);
            push_le(&mut points, position.z);
            points.push(intensity);
            points.push(0u8);
            points.push(0u8);
            points.push(0u8);
            assert(points@ =~= before + point_bytes(position, intensity));
        }
        i = i + 1;
    }
    assert(data.data@.take(data.data@.len() as int) == data.data@);
    assert(positions@.take(positions@.len() as int) == positions@);
    Some(
        PointCloud {
            timestamp: CloudTime { sec: #[verifier::truncate] (now.secs as u32), nsec: now.nanos },
            frame_id: String::from_str("device"),
            point_stride: POINT_STRIDE,
            fields,
            data: points,
        },
    )
}

} // verus!
