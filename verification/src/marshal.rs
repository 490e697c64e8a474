//! Texts as they are handed to a host that reads C strings: the bytes of
//! the text and a closing NUL, in a buffer of limited size.

use crate::error::MidiError;
use crate::lv_midi::{message_type_name, message_type_text};
use crate::names::{get_note_name, note_name};
use vstd::prelude::*;
use vstd::utf8::encode_utf8;

verus! {

/// What is written to a buffer of `buffer_size` bytes for a text with the
/// given bytes: the bytes and a closing NUL. A buffer without room gives
/// `CapacityExceeded`; a text that holds a NUL byte has no C form and
/// gives `NotPresent`.
pub open spec fn marshalled(bytes: Seq<u8>, buffer_size: i32) -> Result<Seq<u8>, MidiError> {
    if buffer_size <= 0 {
        Err(MidiError::CapacityExceeded)
    } else if bytes.contains(0u8) {
        Err(MidiError::NotPresent)
    } else if bytes.len() + 1 > buffer_size {
        Err(MidiError::CapacityExceeded)
    } else {
        Ok(bytes.push(0u8))
    }
}

/// Whether the outcome of a call is the expected one: the same error, or
/// bytes with the expected value.
pub open spec fn same_outcome(
    r: Result<Vec<u8>, MidiError>,
    expected: Result<Seq<u8>, MidiError>,
) -> bool {
    match r {
        Ok(bytes) => expected == Ok::<Seq<u8>, MidiError>(bytes@),
        Err(e) => expected == Err::<Seq<u8>, MidiError>(e),
    }
}

/// The bytes to write to a buffer of `buffer_size` bytes for a text.
pub fn c_string_bytes(text: &str, buffer_size: i32) -> (r: Result<Vec<u8>, MidiError>)
    ensures
        same_outcome(r, marshalled(encode_utf8(text@), buffer_size)),
{
    if buffer_size <= 0 {
        return Err(MidiError::CapacityExceeded);
    }
    let bytes = text.as_bytes();
    let mut out: Vec<u8> = Vec::new();
    let mut i: usize = 0;
    while i < bytes.len()
        invariant
            i <= bytes.len(),
            buffer_size > 0,
            bytes@ == encode_utf8(text@),
            out@ == bytes@.take(i as int),
            forall|k: int| 0 <= k < i ==> bytes[k] != 0,
        decreases bytes.len() - i,
    {
        if bytes[i] == 0 {
            assert(bytes@.contains(0u8));
            return Err(MidiError::NotPresent);
        }
        out.push(bytes[i]);
        assert(out@ =~= bytes@.take(i + 1));
        i += 1;
    }
    assert(bytes@.take(bytes.len() as int) =~= bytes@);
    assert(!bytes@.contains(0u8));
    if bytes.len() >= buffer_size as usize {
        return Err(MidiError::CapacityExceeded);
    }
    out.push(0);
    Ok(out)
}

/// What the request for the name of a device writes: nothing fits a
/// buffer without room, an index outside the devices gives
/// `IndexOutOfRange`, and the name is written as any text is.
pub open spec fn marshalled_device_name(
    devices: Seq<String>,
    device_index: i32,
    buffer_size: i32,
) -> Result<Seq<u8>, MidiError> {
    if buffer_size <= 0 {
        Err(MidiError::CapacityExceeded)
    } else if device_index < 0 || device_index >= devices.len() {
        Err(MidiError::IndexOutOfRange)
    } else {
        marshalled(encode_utf8(devices[device_index as int]@), buffer_size)
    }
}

fn device_name(devices: &Vec<String>, device_index: i32, buffer_size: i32) -> (r: Result<
    Vec<u8>,
    MidiError,
>)
    ensures
        same_outcome(r, marshalled_device_name(devices@, device_index, buffer_size)),
{
    if buffer_size <= 0 {
        return Err(MidiError::CapacityExceeded);
    }
    if device_index < 0 || device_index as usize >= devices.len() {
        return Err(MidiError::IndexOutOfRange);
    }
    c_string_bytes(devices[device_index as usize].as_str(), buffer_size)
}

/// The name of an input device as a C string, where `devices` are the
/// names of the input devices present, in their order.
pub fn midi_get_input_device_name(devices: &Vec<String>, device_index: i32, buffer_size: i32) -> (r:
    Result<Vec<u8>, MidiError>)
    ensures
        same_outcome(r, marshalled_device_name(devices@, device_index, buffer_size)),
{
    device_name(devices, device_index, buffer_size)
}

/// The name of an output device as a C string, where `devices` are the
/// names of the output devices present, in their order.
pub fn midi_get_output_device_name(devices: &Vec<String>, device_index: i32, buffer_size: i32) -> (r:
    Result<Vec<u8>, MidiError>)
    ensures
        same_outcome(r, marshalled_device_name(devices@, device_index, buffer_size)),
{
    device_name(devices, device_index, buffer_size)
}

/// The number of devices as the host counts them.
pub fn device_count(devices: &Vec<String>) -> (r: i32)
    ensures
        r == if devices.len() <= i32::MAX {
            devices.len() as int
        } else {
            i32::MAX as int
        },
{
    if devices.len() <= i32::MAX as usize {
        devices.len() as i32
    } else {
        i32::MAX
    }
}

/// What the request for the name of a note writes: a buffer of fewer than
/// four bytes gives `CapacityExceeded`, a note above 127
/// `IndexOutOfRange`.
pub open spec fn marshalled_note_name(note: u8, buffer_size: i32) -> Result<Seq<u8>, MidiError> {
    if buffer_size < 4 {
        Err(MidiError::CapacityExceeded)
    } else if note > 127 {
        Err(MidiError::IndexOutOfRange)
    } else {
        marshalled(encode_utf8(note_name(note)), buffer_size)
    }
}

/// The name of a note as a C string.
pub fn midi_note_to_name(note: u8, buffer_size: i32) -> (r: Result<Vec<u8>, MidiError>)
    ensures
        same_outcome(r, marshalled_note_name(note, buffer_size)),
{
    if buffer_size < 4 {
        return Err(MidiError::CapacityExceeded);
    }
    if note > 127 {
        return Err(MidiError::IndexOutOfRange);
    }
    let name = get_note_name(note);
    c_string_bytes(name.as_str(), buffer_size)
}

/// The name of a message type as a C string.
pub fn midi_get_message_type_name(message_type: u8, buffer_size: i32) -> (r: Result<
    Vec<u8>,
    MidiError,
>)
    ensures
        same_outcome(r, marshalled(encode_utf8(message_type_name(message_type)), buffer_size)),
{
    c_string_bytes(message_type_text(message_type), buffer_size)
}

} // verus!
