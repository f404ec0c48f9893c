//! What a recording says of itself in its first record.
use super::text::{format_rfc3339, format_uuid, utc_rfc3339, uuid_text, Timestamp};
use crate::device::manager::{DeviceInfo as DeviceProperties, DeviceInfoView as DevicePropertiesView};
use vstd::prelude::*;
use vstd::string::StringExecFns;

verus! {

/// The device of a recording: its identity and the start of the
/// recording as texts, and what the fleet holds of the device.
#[derive(Debug)]
pub struct DeviceInfo {
    pub device_id: String,
    pub start_time: String,
    pub device_properties: DeviceProperties,
}

pub struct DeviceInfoView {
    pub device_id: Seq<char>,
    pub start_time: Seq<char>,
    pub device_properties: DevicePropertiesView,
}

impl View for DeviceInfo {
    type V = DeviceInfoView;

    open spec fn view(&self) -> DeviceInfoView {
        DeviceInfoView {
            device_id: self.device_id@,
            start_time: self.start_time@,
            device_properties: self.device_properties@,
        }
    }
}

/// The first record of a recording.
#[derive(Debug)]
pub struct RecordingHeader {
    pub version: String,
    pub device_info: DeviceInfo,
    pub file_format: String,
}

pub struct RecordingHeaderView {
    pub version: Seq<char>,
    pub device_info: DeviceInfoView,
    pub file_format: Seq<char>,
}

impl View for RecordingHeader {
    type V = RecordingHeaderView;

    open spec fn view(&self) -> RecordingHeaderView {
        RecordingHeaderView {
            version: self.version@,
            device_info: self.device_info@,
            file_format: self.file_format@,
        }
    }
}

/// A header that may be absent, seen through its view.
pub open spec fn header_view(header: Option<RecordingHeader>) -> Option<RecordingHeaderView> {
    match header {
        Some(h) => Some(h@),
        None => None,
    }
}

/// The header of a recording of `device` that started at `start`. There
/// is none for a start that has no text.
pub open spec fn header_of(device: DevicePropertiesView, start: Timestamp) -> Option<
    RecordingHeaderView,
> {
    match utc_rfc3339(start.secs, start.nanos) {
        Some(start_time) => Some(
            RecordingHeaderView {
                version: "1.0"@,
                device_info: DeviceInfoView {
                    device_id: uuid_text(device.id),
                    start_time,
                    device_properties: device,
                },
                file_format: "mcap"@,
            },
        ),
        None => None,
    }
}

/// The header of a recording of `device` that started at `start`.
pub fn recording_header(device: DeviceProperties, start: Timestamp) -> (header: Option<
    RecordingHeader,
>)
    ensures
        header_view(header) == header_of(device@, start),
{
    match format_rfc3339(start.secs, start.nanos) {
        Some(start_time) => Some(
            RecordingHeader {
                version: String::from_str("1.0"),
                device_info: DeviceInfo {
                    device_id: format_uuid(device.id),
                    start_time,
                    device_properties: device,
                },
                file_format: String::from_str("mcap"),
            },
        ),
        None => None,
    }
}

} // verus!
