//! Decoding of heart-rate measurement notification frames.
//!
//! A notification frame carries a flag byte followed by the measurement.
//! Byte 0 is the flag field; when its 16-bit-value bit is clear, byte 1
//! holds the heart rate as an 8-bit value. Frames that use the 16-bit
//! encoding are not handled correctly: byte 1 is still read, a known
//! limitation of the bridge.

use vstd::prelude::*;

verus! {

/// The well-known identifier of the heart-rate measurement
/// characteristic, the one point a supported sensor must expose.
pub const HEART_RATE_MEASUREMENT_UUID: u128 = 0x00002a37_0000_1000_8000_00805f9b34fb;

/// Searches a device's exposed characteristics for the heart-rate
/// measurement characteristic: the position of the first one carrying
/// the well-known identifier, or `None` when the device is not a
/// supported sensor.
pub fn select_heart_rate_characteristic(characteristic_uuids: &Vec<u128>) -> (r: Option<usize>)
    ensures
        match r {
            Some(i) => i < characteristic_uuids@.len() && characteristic_uuids@[i as int]
                == HEART_RATE_MEASUREMENT_UUID && forall|j: int|
                0 <= j < i ==> characteristic_uuids@[j] != HEART_RATE_MEASUREMENT_UUID,
            None => forall|j: int|
                0 <= j < characteristic_uuids@.len() ==> characteristic_uuids@[j]
                    != HEART_RATE_MEASUREMENT_UUID,
        },
{
    let mut i: usize = 0;
    while i < characteristic_uuids.len()
        invariant
            i <= characteristic_uuids@.len(),
            forall|j: int| 0 <= j < i ==> characteristic_uuids@[j] != HEART_RATE_MEASUREMENT_UUID,
        decreases characteristic_uuids@.len() - i,
    {
        if characteristic_uuids[i] == HEART_RATE_MEASUREMENT_UUID {
            return Some(i);
        }
        i += 1;
    }
    None
}

/// The heart-rate value a frame carries: its second byte.
pub open spec fn sample_of_frame(frame: Seq<u8>) -> u8 {
    frame[1]
}

/// Decodes one notification frame into a heart-rate sample.
pub fn decode_frame(frame: &Vec<u8>) -> (bpm: u8)
    requires
        frame@.len() >= 2,
    ensures
        bpm == sample_of_frame(frame@),
{
    frame[1]
}

/// Decodes a whole run of notification frames, in arrival order: one
/// emission per frame, no buffering, batching, or deduplication, each
/// emission the decoded sample of its source frame.
pub fn forward_frames(frames: &Vec<Vec<u8>>) -> (emissions: Vec<u8>)
    requires
        forall|i: int| 0 <= i < frames@.len() ==> (#[trigger] frames@[i])@.len() >= 2,
    ensures
        emissions@.len() == frames@.len(),
        forall|i: int|
            0 <= i < frames@.len() ==> emissions@[i] == sample_of_frame((#[trigger] frames@[i])@),
{
    let mut emissions: Vec<u8> = Vec::new();
    let mut i: usize = 0;
    while i < frames.len()
        invariant
            i <= frames@.len(),
            emissions@.len() == i,
            forall|k: int| 0 <= k < frames@.len() ==> (#[trigger] frames@[k])@.len() >= 2,
            forall|k: int|
                0 <= k < i ==> emissions@[k] == sample_of_frame((#[trigger] frames@[k])@),
        decreases frames@.len() - i,
    {
        let bpm = decode_frame(&frames[i]);
        emissions.push(bpm);
        i += 1;
    }
    emissions
}

} // verus!
