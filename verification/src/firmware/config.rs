//! Configuration of the device, kept in a flash partition as a magic number, the length of the
//! JSON text in little-endian order, and the JSON text.

use vstd::prelude::*;
use vstd::string::*;

use crate::text::{hex, hex_text};

verus! {

/// Bytes in front of the JSON text.
pub const HEADER_SIZE: usize = 8;

/// The longest JSON text that is kept.
pub const MAX_JSON: usize = 512;

/// The size of the flash sector that is erased before writing.
pub const SECTOR_SIZE: usize = 4096;

/// Whether the LED fires during a capture where the configuration does not say.
pub fn default_flash() -> (r: bool)
    ensures
        r,
{
    true
}

/// What the partition says.
#[derive(Clone, Debug)]
pub struct Config {
    pub wifi_ssid: String,
    pub wifi_pass: String,
    pub mqtt_host: String,
    pub mqtt_port: u16,
    pub mqtt_user: String,
    pub mqtt_pass: String,
    pub device_id: String,
    pub framesize: u8,
    /// 0 to 63, lower is better.
    pub jpeg_quality: u8,
    /// 0 to 6.
    pub gain_ceiling: u8,
    /// Whether the LED fires during a capture.
    pub flash: bool,
    pub upload_host: String,
    pub upload_port: u16,
}

impl Default for Config {
    /// No network and no names, the usual ports and camera settings.
    fn default() -> (r: Self)
        ensures
            r.wifi_ssid@.len() == 0,
            r.wifi_pass@.len() == 0,
            r.mqtt_host@.len() == 0,
            r.mqtt_port == 1883,
            r.mqtt_user@.len() == 0,
            r.mqtt_pass@.len() == 0,
            r.device_id@.len() == 0,
            r.framesize == 6,
            r.jpeg_quality == 10,
            r.gain_ceiling == 0,
            r.flash,
            r.upload_host@.len() == 0,
            r.upload_port == 8765,
    {
        Config {
            wifi_ssid: String::new(),
            wifi_pass: String::new(),
            mqtt_host: String::new(),
            mqtt_port: 1883,
            mqtt_user: String::new(),
            mqtt_pass: String::new(),
            device_id: String::new(),
            framesize: 6,
            jpeg_quality: 10,
            gain_ceiling: 0,
            flash: true,
            upload_host: String::new(),
            upload_port: 8765,
        }
    }
}

/// The bytes that mark a partition as written.
pub open spec fn magic() -> Seq<u8> {
    seq![0xFAu8, 0x12u8, 0xC3u8, 0x7Au8]
}

/// The number that four bytes denote in little-endian order.
pub open spec fn le_number(b: Seq<u8>) -> int {
    b[0] + b[1] * 0x100 + b[2] * 0x1_0000 + b[3] * 0x100_0000
}

/// A number in four bytes in little-endian order.
pub open spec fn le_bytes(n: int) -> Seq<u8> {
    seq![
        (n % 0x100) as u8,
        (n / 0x100 % 0x100) as u8,
        (n / 0x1_0000 % 0x100) as u8,
        (n / 0x100_0000 % 0x100) as u8,
    ]
}

/// The JSON text in the first bytes of the partition, if they hold one.
pub open spec fn stored_json(buf: Seq<u8>) -> Option<Seq<u8>> {
    let len = le_number(buf.subrange(4, 8));
    if buf.take(4) == magic() && 0 < len <= MAX_JSON {
        Some(buf.subrange(HEADER_SIZE as int, HEADER_SIZE + len))
    } else {
        None
    }
}

/// What reading the first bytes of the partition gave.
#[derive(Clone, Copy, Debug)]
pub enum FlashRead<'a> {
    /// There is no such partition.
    NoPartition,
    /// Reading failed with an error code.
    Failed(i32),
    /// The bytes.
    Data(&'a [u8; 520]),
}

/// The JSON text of the configuration, if the partition could be read and holds one.
pub fn load(read: FlashRead) -> (r: Option<Vec<u8>>)
    ensures
        (match r {
            Some(json) => read matches FlashRead::Data(buf) && stored_json(buf@) == Some(json@),
            None => read matches FlashRead::Data(buf) ==> stored_json(buf@) is None,
        }),
{
    let buf: &[u8; 520] = match read {
        FlashRead::NoPartition => return None,
        FlashRead::Failed(_) => return None,
        FlashRead::Data(buf) => buf,
    };
    let marked = buf[0] == 0xFA && buf[1] == 0x12 && buf[2] == 0xC3 && buf[3] == 0x7A;
    proof {
        let head = buf@.take(4);
        assert(head[0] == buf@[0] && head[1] == buf@[1] && head[2] == buf@[2] && head[3] == buf@[3]);
        if marked {
            assert(head =~= magic());
        } else {
            assert(magic()[0] == 0xFA && magic()[1] == 0x12 && magic()[2] == 0xC3 && magic()[3]
                == 0x7A);
        }
    }
    if !marked {
        return None;
    }
    let len: u64 = buf[4] as u64 + buf[5] as u64 * 0x100 + buf[6] as u64 * 0x1_0000 + buf[7] as u64
        * 0x100_0000;
    proof {
        let b = buf@.subrange(4, 8);
        assert(b[0] == buf@[4] && b[1] == buf@[5] && b[2] == buf@[6] && b[3] == buf@[7]);
        assert(len == le_number(b));
    }
    if len == 0 || len > MAX_JSON as u64 {
        return None;
    }
    let end: usize = HEADER_SIZE + len as usize;
    let mut json: Vec<u8> = Vec::new();
    let mut i: usize = HEADER_SIZE;
    while i < end
        invariant
            HEADER_SIZE <= i <= end <= 520,
            json@ == buf@.subrange(HEADER_SIZE as int, i as int),
        decreases end - i,
    {
        json.push(buf[i]);
        proof {
            assert(buf@.subrange(HEADER_SIZE as int, i + 1) =~= buf@.subrange(
                HEADER_SIZE as int,
                i as int,
            ).push(buf@[i as int]));
        }
        i = i + 1;
    }
    Some(json)
}

/// Why a configuration was not kept.
#[derive(Clone, Copy, Debug, PartialEq, Eq, Structural)]
pub enum SaveError {
    TooLarge,
    NoPartition,
    EraseFailed(i32),
    WriteFailed(i32),
}

impl SaveError {
    /// What is said of the error.
    pub open spec fn text(self) -> Seq<char> {
        match self {
            SaveError::TooLarge => "config JSON too large"@,
            SaveError::NoPartition => "config partition not found"@,
            SaveError::EraseFailed(e) => "partition erase failed: 0x"@ + hex((e as u32) as nat),
            SaveError::WriteFailed(e) => "partition write failed: 0x"@ + hex((e as u32) as nat),
        }
    }

    /// What is said of the error.
    pub fn message(self) -> (r: String)
        ensures
            r@ == self.text(),
    {
        match self {
            SaveError::TooLarge => "config JSON too large".to_owned(),
            SaveError::NoPartition => "config partition not found".to_owned(),
            SaveError::EraseFailed(e) => {
                let mut t = "partition erase failed: 0x".to_owned();
                t.append(hex_text((e as u32) as u64).as_str());
                t
            },
            SaveError::WriteFailed(e) => {
                let mut t = "partition write failed: 0x".to_owned();
                t.append(hex_text((e as u32) as u64).as_str());
                t
            },
        }
    }
}

/// The length of the header and a JSON text, rounded up to a multiple of four.
pub open spec fn image_len(json_len: int) -> int {
    (HEADER_SIZE + json_len + 3) / 4 * 4
}

/// What is written for a JSON text: header, text, and up to three bytes that leave the flash
/// erased.
pub open spec fn image(json: Seq<u8>) -> Seq<u8> {
    let kept = magic() + le_bytes(json.len() as int) + json;
    kept + Seq::new((image_len(json.len() as int) - kept.len()) as nat, |i: int| 0xFFu8)
}

/// Prepares the bytes to write for the JSON text of a configuration, once the sector is erased.
pub fn save(json: &[u8], partition_found: bool) -> (r: Result<Vec<u8>, SaveError>)
    ensures
        (match r {
            Ok(bytes) => json@.len() <= MAX_JSON && partition_found && bytes@ == image(json@),
            Err(e) => {
                ||| json@.len() > MAX_JSON && e == SaveError::TooLarge
                ||| json@.len() <= MAX_JSON && !partition_found && e == SaveError::NoPartition
            },
        }),
{
    let n: usize = json.len();
    if n > MAX_JSON {
        return Err(SaveError::TooLarge);
    }
    if !partition_found {
        return Err(SaveError::NoPartition);
    }
    let mut out: Vec<u8> = Vec::new();
    out.push(0xFA);
    out.push(0x12);
    out.push(0xC3);
    out.push(0x7A);
    out.push((n % 0x100) as u8);
    out.push((n / 0x100 % 0x100) as u8);
    out.push((n / 0x1_0000 % 0x100) as u8);
    out.push((n / 0x100_0000 % 0x100) as u8);
    let ghost head = magic() + le_bytes(n as int);
    proof {
        assert(out@ =~= head);
    }
    let mut i: usize = 0;
    while i < n
        invariant
            n == json@.len(),
            i <= n,
            out@ == head + json@.take(i as int),
        decreases n - i,
    {
        out.push(json[i]);
        proof {
            assert(head + json@.take(i + 1) =~= (head + json@.take(i as int)).push(json@[i as int]));
        }
        i = i + 1;
    }
    let ghost kept = head + json@;
    proof {
        assert(json@.take(n as int) =~= json@);
        assert(kept.len() == HEADER_SIZE + n);
    }
    let aligned: usize = (HEADER_SIZE + n + 3) / 4 * 4;
    let mut fill: usize = 0;
    while HEADER_SIZE + n + fill < aligned
        invariant
            n <= MAX_JSON,
            kept.len() == HEADER_SIZE + n,
            HEADER_SIZE + n + fill <= aligned <= 1000,
            out@ == kept + Seq::new(fill as nat, |i: int| 0xFFu8),
        decreases aligned - fill,
    {
        out.push(0xFF);
        fill = fill + 1;
        proof {
            assert(out@ =~= kept + Seq::new(fill as nat, |i: int| 0xFFu8));
        }
    }
    Ok(out)
}

/// Judges the error code of erasing the sector.
pub fn erase_result(err: i32) -> (r: Result<(), SaveError>)
    ensures
        r == (if err == 0 {
            Ok::<(), SaveError>(())
        } else {
            Err(SaveError::EraseFailed(err))
        }),
{
    if err == 0 {
        Ok(())
    } else {
        Err(SaveError::EraseFailed(err))
    }
}

/// Judges the error code of writing the bytes.
pub fn write_result(err: i32) -> (r: Result<(), SaveError>)
    ensures
        r == (if err == 0 {
            Ok::<(), SaveError>(())
        } else {
            Err(SaveError::WriteFailed(err))
        }),
{
    if err == 0 {
        Ok(())
    } else {
        Err(SaveError::WriteFailed(err))
    }
}

/// An erased sector after bytes were written to its beginning.
pub open spec fn sector_with(bytes: Seq<u8>) -> Seq<u8> {
    bytes + Seq::new((SECTOR_SIZE - bytes.len()) as nat, |i: int| 0xFFu8)
}

proof fn lemma_le_round_trip(n: int)
    requires
        0 <= n < 0x1_0000_0000,
    ensures
        le_number(le_bytes(n)) == n,
{
}

/// What was saved is loaded again: the JSON text read from the sector is the one that was
/// written to it.
pub proof fn law_saved_is_loaded(json: Seq<u8>)
    requires
        0 < json.len() <= MAX_JSON,
    ensures
        image(json).len() <= HEADER_SIZE + MAX_JSON + 3,
        image(json).len() % 4 == 0,
        stored_json(sector_with(image(json)).take(HEADER_SIZE + MAX_JSON)) == Some(json),
{
    let n = json.len() as int;
    let buf = sector_with(image(json)).take(HEADER_SIZE + MAX_JSON);
    lemma_le_round_trip(n);
    assert(buf.take(4) =~= magic());
    assert(buf.subrange(4, 8) =~= le_bytes(n));
    assert(buf.subrange(HEADER_SIZE as int, HEADER_SIZE + n) =~= json);
}

/// An erased partition holds no configuration.
pub proof fn law_erased_holds_nothing()
    ensures
        stored_json(sector_with(Seq::empty()).take(HEADER_SIZE + MAX_JSON)) is None,
{
    let buf = sector_with(Seq::empty()).take(HEADER_SIZE + MAX_JSON);
    assert(buf.take(4)[0] == 0xFF);
    assert(magic()[0] == 0xFA);
}

} // verus!
