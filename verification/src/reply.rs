//! What the native subsystem hands back, turned into the result of the
//! operation that asked for it.
//!
//! Every function here takes the status of a native call and the values that
//! the call wrote, as plain values. On the success sentinel the result is
//! `Ok` with those values in the form that callers want; on any other status
//! it is `Err` with that very status, and the values are not looked at. No
//! status is ever dropped.

use vstd::prelude::*;
use vstd::utf8::encode_utf8;
use crate::dsp::{from_ptr, Dsp, DspState};
use crate::dsp_connection::DspConnection;
use crate::native::{flag_is_on, native_flag, DspType, FmodMemoryUsageDetails, Float32};
use crate::status::Status;
use crate::text::{import_text_within, imported_within};

verus! {

/// The outcome of a query for a number: the number on success, the status
/// otherwise.
pub open spec fn count_outcome(status: Status, value: i32) -> Result<i32, Status> {
    if status.is_ok() {
        Ok(value)
    } else {
        Err(status)
    }
}

/// The outcome of a query for a switch: on success whether the native value
/// is 1, the status otherwise.
pub open spec fn flag_outcome(status: Status, value: i32) -> Result<bool, Status> {
    if status.is_ok() {
        Ok(flag_is_on(value))
    } else {
        Err(status)
    }
}

/// The outcome of a query for the type of a unit: on success the tag that
/// was reported, or the tag for an unknown type where none was; the status
/// otherwise.
pub open spec fn dsp_type_outcome(status: Status, reported: Option<DspType>) -> Result<
    DspType,
    Status,
> {
    if !status.is_ok() {
        Err(status)
    } else {
        match reported {
            Some(tag) => Ok(tag),
            None => Ok(DspType::unknown()),
        }
    }
}

/// The result of a query for a number: of inputs, of outputs or of
/// parameters.
pub fn count(status: Status, value: i32) -> (result: Result<i32, Status>)
    ensures
        result == count_outcome(status, value),
{
    if status.is_ok() {
        Ok(value)
    } else {
        Err(status)
    }
}

/// The result of a query for a switch: whether the node is active, whether
/// it is bypassed, whether one of its output channels is active. The native
/// value 1 is on, every other value is off.
pub fn flag(status: Status, value: i32) -> (result: Result<bool, Status>)
    ensures
        result == flag_outcome(status, value),
{
    if status.is_ok() {
        Ok(value == 1i32)
    } else {
        Err(status)
    }
}

/// The result of attaching an input: the new connection, whose handle the
/// native call wrote.
pub fn connection(status: Status, handle: usize) -> (result: Result<DspConnection, Status>)
    ensures
        status.is_ok() ==> (result matches Ok(edge) && edge@ == handle),
        !status.is_ok() ==> (result matches Err(e) && e == status),
{
    if status.is_ok() {
        Ok(crate::dsp_connection::from_ptr(handle))
    } else {
        Err(status)
    }
}

/// The result of a query for the input or the output at a position: the node
/// found there, borrowed, and the connection to it.
pub fn neighbour(status: Status, dsp: usize, connection: usize) -> (result: Result<
    (Dsp, DspConnection),
    Status,
>)
    ensures
        status.is_ok() ==> (result matches Ok(found) && found.0@ == (DspState {
            handle: dsp,
            owned: false,
        }) && found.1@ == connection),
        !status.is_ok() ==> (result matches Err(e) && e == status),
{
    if status.is_ok() {
        Ok((from_ptr(dsp), crate::dsp_connection::from_ptr(connection)))
    } else {
        Err(status)
    }
}

/// The result of a query for a parameter: its value as it came, and its
/// display text, read from the storage `value_str` that the native call
/// filled and cut to the `value_str_len` bytes that were asked for. The text
/// is never longer than that.
pub fn parameter(status: Status, value: Float32, value_str: &[u8], value_str_len: u32) -> (result:
    Result<(Float32, String), Status>)
    ensures
        status.is_ok() ==> (result matches Ok(found) && found.0 == value && found.1@
            == imported_within(value_str@, value_str_len as nat) && encode_utf8(found.1@).len()
            <= value_str_len),
        !status.is_ok() ==> (result matches Err(e) && e == status),
{
    if status.is_ok() {
        Ok((value, import_text_within(value_str, value_str_len as usize)))
    } else {
        Err(status)
    }
}

/// What is known of a parameter: its range and its texts.
#[derive(Debug, PartialEq, Eq)]
pub struct DspParameterInfo {
    pub name: String,
    pub label: String,
    pub description: String,
    pub min: Float32,
    pub max: Float32,
}

/// The result of a query for what is known of a parameter. Each text is read
/// from the storage that the native call filled and cut to the number of
/// bytes that was asked for it, each for itself; the range is as it came.
pub fn parameter_info(
    status: Status,
    name: &[u8],
    name_len: u32,
    label: &[u8],
    label_len: u32,
    description: &[u8],
    description_len: u32,
    min: Float32,
    max: Float32,
) -> (result: Result<DspParameterInfo, Status>)
    ensures
        status.is_ok() ==> (result matches Ok(found) && {
            &&& found.name@ == imported_within(name@, name_len as nat)
            &&& found.label@ == imported_within(label@, label_len as nat)
            &&& found.description@ == imported_within(description@, description_len as nat)
            &&& found.min == min
            &&& found.max == max
            &&& encode_utf8(found.name@).len() <= name_len
            &&& encode_utf8(found.label@).len() <= label_len
            &&& encode_utf8(found.description@).len() <= description_len
        }),
        !status.is_ok() ==> (result matches Err(e) && e == status),
{
    if status.is_ok() {
        Ok(
            DspParameterInfo {
                name: import_text_within(name, name_len as usize),
                label: import_text_within(label, label_len as usize),
                description: import_text_within(description, description_len as usize),
                min,
                max,
            },
        )
    } else {
        Err(status)
    }
}

/// What is known of a unit: its name, version, number of channels and the
/// size of its configuration dialog.
#[derive(Debug, PartialEq, Eq)]
pub struct DspInfo {
    pub name: String,
    pub version: u32,
    pub channels: i32,
    pub config_width: i32,
    pub config_height: i32,
}

/// The result of a query for what is known of a unit. The name is read from
/// the storage that the native call filled and cut to the `name_len` bytes
/// that were asked for; the numbers are as they came.
pub fn info(
    status: Status,
    name: &[u8],
    name_len: u32,
    version: u32,
    channels: i32,
    config_width: i32,
    config_height: i32,
) -> (result: Result<DspInfo, Status>)
    ensures
        status.is_ok() ==> (result matches Ok(found) && {
            &&& found.name@ == imported_within(name@, name_len as nat)
            &&& found.version == version
            &&& found.channels == channels
            &&& found.config_width == config_width
            &&& found.config_height == config_height
            &&& encode_utf8(found.name@).len() <= name_len
        }),
        !status.is_ok() ==> (result matches Err(e) && e == status),
{
    if status.is_ok() {
        Ok(
            DspInfo {
                name: import_text_within(name, name_len as usize),
                version,
                channels,
                config_width,
                config_height,
            },
        )
    } else {
        Err(status)
    }
}

/// The result of a query for the type of a unit. Where the native call
/// reported no type, the type is unknown.
pub fn dsp_type(status: Status, reported: Option<DspType>) -> (result: Result<DspType, Status>)
    ensures
        result == dsp_type_outcome(status, reported),
{
    if !status.is_ok() {
        Err(status)
    } else {
        match reported {
            Some(tag) => Ok(tag),
            None => Ok(DspType::unknown()),
        }
    }
}

/// The result of a query for the defaults of a unit: frequency, volume, pan
/// and priority, as they came.
pub fn defaults(status: Status, frequency: Float32, volume: Float32, pan: Float32, priority: i32)
    -> (result: Result<(Float32, Float32, Float32, i32), Status>)
    ensures
        status.is_ok() ==> result == Ok::<(Float32, Float32, Float32, i32), Status>(
            (frequency, volume, pan, priority),
        ),
        !status.is_ok() ==> result == Err::<(Float32, Float32, Float32, i32), Status>(status),
{
    if status.is_ok() {
        Ok((frequency, volume, pan, priority))
    } else {
        Err(status)
    }
}

/// The result of a query for the memory in use: the total in bytes and the
/// numbers for each category, as they came.
pub fn memory_info(status: Status, memory_used: u32, details: FmodMemoryUsageDetails) -> (result:
    Result<(u32, FmodMemoryUsageDetails), Status>)
    ensures
        status.is_ok() ==> (result matches Ok(found) && found.0 == memory_used && found.1
            == details),
        !status.is_ok() ==> (result matches Err(e) && e == status),
{
    if status.is_ok() {
        Ok((memory_used, details))
    } else {
        Err(status)
    }
}

/// A switch that the native subsystem keeps as it was set reads back as it
/// was set: the value that setting a switch hands to the native subsystem
/// is read as that switch when it comes back with success.
pub proof fn lemma_switch_reads_back(on: bool)
    ensures
        flag_outcome(Status::ok(), native_flag(on)) == Ok::<bool, Status>(on),
{
}

} // verus!
