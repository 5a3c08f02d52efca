//! Firmware identification from the charge port's hello frame.
use vstd::prelude::*;
use crate::types::{CPState, CPVerEnum, CpLink};

verus! {

/// Identifier of the charge port's hello frame.
pub const CP_HELLO_ID: u32 = 0x00E;

/// Application hashes of the 2020 firmware.
pub const FW_2020_VERSIONS: [u32; 3] = [0x5860BCDF, 0xBB6B3E7E, 0x4B773D16];

/// Application hashes of the 2019 firmware.
pub const FW_2019_VERSIONS: [u32; 1] = [0x27CE851A];

/// Application hashes of the 2018 firmware.
pub const FW_2018_VERSIONS: [u32; 1] = [0xAC5A15C4];

/// Every data byte that version detection reads for this frame is present.
pub open spec fn version_frame_readable(id: u32, data: Seq<u8>) -> bool {
    id != CP_HELLO_ID || (data.len() >= 1 && (data[0] == 0 ==> data.len() >= 8))
}

/// Bytes 4..8 of a frame read as a little-endian number.
pub open spec fn le_word(data: Seq<u8>) -> int {
    data[4] + data[5] * 0x100 + data[6] * 0x10000 + data[7] * 0x1000000
}

/// The firmware generation that application hash `hash` identifies, or `current`
/// when the hash is not a known one.
pub open spec fn fw_for_hash(hash: u32, current: CPVerEnum) -> CPVerEnum {
    if hash == 0x5860BCDF || hash == 0xBB6B3E7E || hash == 0x4B773D16 {
        CPVerEnum::Fw2020
    } else if hash == 0x27CE851A {
        CPVerEnum::Fw2019
    } else if hash == 0xAC5A15C4 {
        CPVerEnum::Fw2018
    } else {
        current
    }
}

/// The state after version detection has seen frame `id` with `data`.
pub open spec fn spec_process_version(s: CPState, id: u32, data: Seq<u8>) -> CPState {
    if id == CP_HELLO_ID {
        let hash: u32 = if data[0] == 0 {
            le_word(data) as u32
        } else {
            s.link.app_hash
        };
        CPState {
            link: CpLink { app_hash: hash, fw_ver: fw_for_hash(hash, s.link.fw_ver), ..s.link },
            ..s
        }
    } else {
        s
    }
}

/// `hash` is one of `list`.
fn listed(list: &[u32], hash: u32) -> (r: bool)
    ensures
        r == list@.contains(hash),
{
    let mut i: usize = 0;
    while i < list.len()
        invariant
            i <= list@.len(),
            forall|j: int| 0 <= j < i ==> list@[j] != hash,
        decreases list@.len() - i,
    {
        if list[i] == hash {
            assert(list@[i as int] == hash);
            return true;
        }
        i = i + 1;
    }
    false
}

/// Bytes `b4..b7` read as a little-endian number.
fn le_u32(b4: u8, b5: u8, b6: u8, b7: u8) -> (r: u32)
    ensures
        r == b4 + b5 * 0x100 + b6 * 0x10000 + b7 * 0x1000000,
{
    let r: u32 = (b7 as u32) << 24 | (b6 as u32) << 16 | (b5 as u32) << 8 | b4 as u32;
    assert(r == b4 + b5 * 0x100 + b6 * 0x10000 + b7 * 0x1000000) by (bit_vector)
        requires
            r == (b7 as u32) << 24 | (b6 as u32) << 16 | (b5 as u32) << 8 | b4 as u32,
    ;
    r
}

/// The firmware generation of application hash `hash`; `current` when unknown.
fn identify_firmware(hash: u32, current: CPVerEnum) -> (v: CPVerEnum)
    ensures
        v == fw_for_hash(hash, current),
{
    let fw_2020_versions: [u32; 3] = FW_2020_VERSIONS;
    let fw_2019_versions: [u32; 1] = FW_2019_VERSIONS;
    let fw_2018_versions: [u32; 1] = FW_2018_VERSIONS;
    assert(fw_2020_versions@ =~= seq![0x5860BCDFu32, 0xBB6B3E7Eu32, 0x4B773D16u32]);
    assert(fw_2019_versions@ =~= seq![0x27CE851Au32]);
    assert(fw_2018_versions@ =~= seq![0xAC5A15C4u32]);
    if listed(fw_2020_versions.as_slice(), hash) {
        CPVerEnum::Fw2020
    } else if listed(fw_2019_versions.as_slice(), hash) {
        CPVerEnum::Fw2019
    } else if listed(fw_2018_versions.as_slice(), hash) {
        CPVerEnum::Fw2018
    } else {
        current
    }
}

/// Reads the application hash from a hello frame and identifies the firmware.
pub fn init(cp_state: &mut CPState, id: u32, data: &[u8])
    requires
        version_frame_readable(id, data@),
    ensures
        *final(cp_state) == spec_process_version(*old(cp_state), id, data@),
{
    if id == 0x00E {
        if data[0] == 0x00 {
            let app_crc: u32 = le_u32(data[4], data[5], data[6], data[7]);
            cp_state.link.app_hash = app_crc;
        }
        cp_state.link.fw_ver = identify_firmware(cp_state.link.app_hash, cp_state.link.fw_ver);
    }
}

} // verus!
