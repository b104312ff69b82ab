//! Device model and update configuration: the bootloader's commands, its
//! packed info block, the update options, and the firmware image builder.

use vstd::prelude::*;
use vstd::pervasive::VecAdditionalExecFns;
use crate::apl::le32;
use crate::error::Error;
use crate::lpl::le16;

verus! {

/// The bootloader commands carried in the `command` field of a request.
#[derive(Clone, Copy, Debug, PartialEq, Eq, Structural)]
pub enum Command {
    ReadBootloaderInfo,
    ReadProgramCrc,
    BootloaderQuit,
    WriteProgramMemory,
}

/// The wire value of a command; other values are reserved.
pub open spec fn command_code(c: Command) -> u8 {
    match c {
        Command::ReadBootloaderInfo => 0,
        Command::ReadProgramCrc => 3,
        Command::BootloaderQuit => 5,
        Command::WriteProgramMemory => 6,
    }
}

impl Command {
    /// The wire value of this command.
    pub fn code(&self) -> (r: u8)
        ensures
            r == command_code(*self),
    {
        match self {
            Command::ReadBootloaderInfo => 0,
            Command::ReadProgramCrc => 3,
            Command::BootloaderQuit => 5,
            Command::WriteProgramMemory => 6,
        }
    }
}

/// Size and checksum of a stored image, as the device's metadata area
/// describes it.
#[derive(Clone, Copy, Debug, PartialEq, Eq, Structural)]
pub struct FirmwareMetadata {
    pub image_size: u32,
    pub image_crc: u32,
}

/// One region of the device's memory map: how many blocks it has and how
/// large each is.
#[derive(Clone, Copy, Debug, PartialEq, Eq, Structural)]
pub struct Region {
    pub count: u32,
    pub size: u32,
}

/// The device's identity: numeric id, revision, and a 16-byte unique id.
#[derive(Clone, Copy, Debug, PartialEq, Eq)]
pub struct DeviceId {
    pub id: u16,
    pub rev: u16,
    pub uid: [u8; 16],
}

/// The device's memory map as the info block reports it.
#[derive(Clone, Copy, Debug, PartialEq, Eq)]
pub struct DeviceMemoryMap {
    pub metadata_address: u32,
    pub metadata_size: u32,
    pub firmware_address: u32,
    pub firmware_size: u32,
    pub flash_address: u32,
    pub flash_size: u32,
    pub flash_write_blocksize: u16,
    pub regions: [Region; 5],
}

/// The info block a device returns for `ReadBootloaderInfo`: version,
/// maximum block size, identity, reserved bytes, and the memory map, in a
/// packed little-endian layout of 107 bytes.
#[derive(Clone, Copy, Debug, PartialEq, Eq)]
pub struct InfoBlockV2 {
    pub version: u8,
    pub max_block_size: u16,
    pub device: DeviceId,
    pub unused: [u8; 18],
    pub memmap: DeviceMemoryMap,
}

/// The packed size of the info block on the wire.
pub const INFO_BLOCK_SIZE: usize = 107;

/// A 32-bit little-endian read at offset `i` of `s`.
pub open spec fn le32_at(s: Seq<u8>, i: int) -> u32 {
    le32(s[i], s[i + 1], s[i + 2], s[i + 3])
}

/// Whether `info` is exactly what the packed bytes `s` describe.
pub open spec fn info_block_matches(info: InfoBlockV2, s: Seq<u8>) -> bool {
    &&& info.version == s[0]
    &&& info.max_block_size == le16(s[1], s[2])
    &&& info.device.id == le16(s[3], s[4])
    &&& info.device.rev == le16(s[5], s[6])
    &&& info.device.uid@ == s.subrange(7, 23)
    &&& info.unused@ == s.subrange(23, 41)
    &&& info.memmap.metadata_address == le32_at(s, 41)
    &&& info.memmap.metadata_size == le32_at(s, 45)
    &&& info.memmap.firmware_address == le32_at(s, 49)
    &&& info.memmap.firmware_size == le32_at(s, 53)
    &&& info.memmap.flash_address == le32_at(s, 57)
    &&& info.memmap.flash_size == le32_at(s, 61)
    &&& info.memmap.flash_write_blocksize == le16(s[65], s[66])
    &&& forall|r: int|
        0 <= r < 5 ==> (#[trigger] info.memmap.regions@[r]).count == le32_at(s, 67 + 8 * r)
            && info.memmap.regions@[r].size == le32_at(s, 71 + 8 * r)
}

fn read_u16_at(bytes: &[u8], i: usize) -> (r: u16)
    requires
        i + 2 <= bytes@.len(),
    ensures
        r == le16(bytes@[i as int], bytes@[i as int + 1]),
{
    (bytes[i] as u16) | ((bytes[i + 1] as u16) << 8)
}

fn read_u32_at(bytes: &[u8], i: usize) -> (r: u32)
    requires
        i + 4 <= bytes@.len(),
    ensures
        r == le32_at(bytes@, i as int),
{
    (bytes[i] as u32) | ((bytes[i + 1] as u32) << 8) | ((bytes[i + 2] as u32) << 16) | ((bytes[i
        + 3] as u32) << 24)
}

fn read_region(bytes: &[u8], i: usize) -> (r: Region)
    requires
        i + 8 <= bytes@.len(),
    ensures
        r.count == le32_at(bytes@, i as int),
        r.size == le32_at(bytes@, i as int + 4),
{
    let _n = bytes.len();
    Region { count: read_u32_at(bytes, i), size: read_u32_at(bytes, i + 4) }
}

/// Parse the packed info block; anything shorter than its 107 bytes is a
/// protocol error.
pub fn parse_info_block(bytes: &[u8]) -> (r: Result<InfoBlockV2, Error>)
    ensures
        match r {
            Ok(info) => bytes@.len() >= INFO_BLOCK_SIZE && info_block_matches(info, bytes@),
            Err(e) => bytes@.len() < INFO_BLOCK_SIZE && e is Protocol,
        },
{
    if bytes.len() < INFO_BLOCK_SIZE {
        return Err(Error::Protocol(String::from_str("info block too short")));
    }
    let uid: [u8; 16] = [
        bytes[7],
        bytes[8],
        bytes[9],
        bytes[10],
        bytes[11],
        bytes[12],
        bytes[13],
        bytes[14],
        bytes[15],
        bytes[16],
        bytes[17],
        bytes[18],
        bytes[19],
        bytes[20],
        bytes[21],
        bytes[22],
    ];
    let unused: [u8; 18] = [
        bytes[23],
        bytes[24],
        bytes[25],
        bytes[26],
        bytes[27],
        bytes[28],
        bytes[29],
        bytes[30],
        bytes[31],
        bytes[32],
        bytes[33],
        bytes[34],
        bytes[35],
        bytes[36],
        bytes[37],
        bytes[38],
        bytes[39],
        bytes[40],
    ];
    let regions: [Region; 5] = [
        read_region(bytes, 67),
        read_region(bytes, 75),
        read_region(bytes, 83),
        read_region(bytes, 91),
        read_region(bytes, 99),
    ];
    let info = InfoBlockV2 {
        version: bytes[0],
        max_block_size: read_u16_at(bytes, 1),
        device: DeviceId { id: read_u16_at(bytes, 3), rev: read_u16_at(bytes, 5), uid },
        unused,
        memmap: DeviceMemoryMap {
            metadata_address: read_u32_at(bytes, 41),
            metadata_size: read_u32_at(bytes, 45),
            firmware_address: read_u32_at(bytes, 49),
            firmware_size: read_u32_at(bytes, 53),
            flash_address: read_u32_at(bytes, 57),
            flash_size: read_u32_at(bytes, 61),
            flash_write_blocksize: read_u16_at(bytes, 65),
            regions,
        },
    };
    proof {
        assert(info.device.uid@ =~= bytes@.subrange(7, 23));
        assert(info.unused@ =~= bytes@.subrange(23, 41));
        assert forall|r: int| 0 <= r < 5 implies (#[trigger] info.memmap.regions@[r]).count
            == le32_at(bytes@, 67 + 8 * r) && info.memmap.regions@[r].size == le32_at(
            bytes@,
            71 + 8 * r,
        ) by {
            if r == 0 {
            } else if r == 1 {
            } else if r == 2 {
            } else if r == 3 {
            } else {
                assert(r == 4);
            }
        }
    }
    Ok(info)
}

/// Whether the engine enters and leaves bootloader mode on its own, and via
/// which path.
#[derive(Clone, Copy, Debug, PartialEq, Eq, Structural)]
pub enum UpdateMode {
    Off,
    Direct,
    Link,
}

/// The update options: transport selection, firmware source, stage
/// selectors and link parameters.
#[derive(Debug, Clone, PartialEq, Eq)]
pub struct DfuConfig {
    pub uri: String,
    pub filename: Option<String>,
    pub block_size: usize,
    pub get_info: bool,
    pub update: bool,
    pub overwrite: bool,
    pub verify: bool,
    pub quit: bool,
    pub dev_netid: usize,
    pub dev_speed: usize,
    pub upd_speed: usize,
    pub lnk_speed: usize,
    pub upd_mode: UpdateMode,
    pub gap_filling: u8,
}

/// All fields of `c` besides the stage selectors and inputs named here keep
/// their defaults.
pub open spec fn config_defaults(c: DfuConfig) -> bool {
    &&& c.block_size == 1024
    &&& c.dev_netid == 0
    &&& c.dev_speed == 9600
    &&& c.upd_speed == 115200
    &&& c.lnk_speed == 9600
    &&& c.upd_mode == UpdateMode::Off
    &&& c.gap_filling == 0xFF
}

impl Default for DfuConfig {
    /// An empty configuration: no transport, no firmware, no stage
    /// selected, 1024-byte blocks, 9600/115200 baud, no automatic
    /// bootloader handling, gaps filled with 0xFF.
    fn default() -> (r: DfuConfig)
        ensures
            r.uri@.len() == 0,
            r.filename is None,
            !r.get_info && !r.update && !r.overwrite && !r.verify && !r.quit,
            config_defaults(r),
    {
        DfuConfig {
            uri: String::new(),
            filename: None,
            block_size: 1024,
            get_info: false,
            update: false,
            overwrite: false,
            verify: false,
            quit: false,
            dev_netid: 0,
            dev_speed: 9600,
            upd_speed: 115200,
            lnk_speed: 9600,
            upd_mode: UpdateMode::Off,
            gap_filling: 0xFF,
        }
    }
}

impl DfuConfig {
    /// A fresh configuration with every option at its default.
    pub fn new() -> (r: DfuConfig)
        ensures
            r.uri@.len() == 0,
            r.filename is None,
            !r.get_info && !r.update && !r.overwrite && !r.verify && !r.quit,
            config_defaults(r),
    {
        Self::default()
    }

    pub fn with_uri(self, uri: String) -> (r: DfuConfig)
        ensures
            r == (DfuConfig { uri: uri, ..self }),
    {
        DfuConfig { uri, ..self }
    }

    pub fn with_firmware(self, filename: String) -> (r: DfuConfig)
        ensures
            r == (DfuConfig { filename: Some(filename), ..self }),
    {
        DfuConfig { filename: Some(filename), ..self }
    }

    pub fn with_block_size(self, size: usize) -> (r: DfuConfig)
        ensures
            r == (DfuConfig { block_size: size, ..self }),
    {
        DfuConfig { block_size: size, ..self }
    }

    pub fn with_update_mode(self, mode: UpdateMode) -> (r: DfuConfig)
        ensures
            r == (DfuConfig { upd_mode: mode, ..self }),
    {
        DfuConfig { upd_mode: mode, ..self }
    }

    pub fn with_device_speed(self, speed: usize) -> (r: DfuConfig)
        ensures
            r == (DfuConfig { dev_speed: speed, ..self }),
    {
        DfuConfig { dev_speed: speed, ..self }
    }

    pub fn with_update_speed(self, speed: usize) -> (r: DfuConfig)
        ensures
            r == (DfuConfig { upd_speed: speed, ..self }),
    {
        DfuConfig { upd_speed: speed, ..self }
    }

    pub fn with_link_speed(self, speed: usize) -> (r: DfuConfig)
        ensures
            r == (DfuConfig { lnk_speed: speed, ..self }),
    {
        DfuConfig { lnk_speed: speed, ..self }
    }

    /// Select the info-reading stage.
    pub fn get_info(self) -> (r: DfuConfig)
        ensures
            r == (DfuConfig { get_info: true, ..self }),
    {
        DfuConfig { get_info: true, ..self }
    }

    /// Select the writing stage.
    pub fn update(self) -> (r: DfuConfig)
        ensures
            r == (DfuConfig { update: true, ..self }),
    {
        DfuConfig { update: true, ..self }
    }

    /// Select the verification stage.
    pub fn verify(self) -> (r: DfuConfig)
        ensures
            r == (DfuConfig { verify: true, ..self }),
    {
        DfuConfig { verify: true, ..self }
    }

    /// Write even when the device already holds an image with the same CRC.
    pub fn overwrite(self) -> (r: DfuConfig)
        ensures
            r == (DfuConfig { overwrite: true, ..self }),
    {
        DfuConfig { overwrite: true, ..self }
    }

    /// A configuration is usable when a transport is named, and a firmware
    /// file is named whenever the writing stage is selected.
    pub fn validate(&self) -> (r: Result<(), &'static str>)
        ensures
            r is Ok <==> (self.uri@.len() > 0 && (self.update ==> self.filename is Some)),
            r is Err ==> (self.uri@.len() == 0 || (self.update && self.filename is None)),
            r matches Err(m) ==> m@ == (if self.uri@.len() == 0 {
                "URI must be specified"@
            } else {
                "Firmware file must be specified for update"@
            }),
    {
        if self.uri.as_str().is_empty() {
            return Err("URI must be specified");
        }
        if self.update && self.filename.is_none() {
            return Err("Firmware file must be specified for update");
        }
        Ok(())
    }
}

/// One data record of a firmware file: the load offset and the bytes to
/// place there.
#[derive(Debug, Clone, PartialEq, Eq)]
pub struct HexRecord {
    pub offset: u32,
    pub data: Vec<u8>,
}

/// The buffer sized for the largest loadable image.
pub const MAX_FIRMWARE_SIZE: usize = 1048576;

/// `buf` with one record's bytes overwritten at its offset.
pub open spec fn apply_record(buf: Seq<u8>, off: int, data: Seq<u8>) -> Seq<u8> {
    Seq::new(
        buf.len(),
        |i: int|
            if off <= i < off + data.len() {
                data[i - off]
            } else {
                buf[i]
            },
    )
}

/// `buf` with all records overwritten in order; a later record wins where
/// two overlap.
pub open spec fn apply_records(buf: Seq<u8>, recs: Seq<HexRecord>) -> Seq<u8>
    decreases recs.len(),
{
    if recs.len() == 0 {
        buf
    } else {
        apply_record(
            apply_records(buf, recs.drop_last()),
            recs.last().offset as int,
            recs.last().data@,
        )
    }
}

/// Whether every record lies inside a buffer of `size` bytes.
pub open spec fn records_fit(recs: Seq<HexRecord>, size: int) -> bool {
    forall|r: int|
        0 <= r < recs.len() ==> (#[trigger] recs[r]).offset + recs[r].data@.len() <= size
}

/// Build the padded firmware image: a buffer of `size` bytes filled with
/// `gap`, overwritten by each record in order. A record that runs past the
/// end of the buffer is an error.
pub fn load_firmware_image(records: &Vec<HexRecord>, size: usize, gap: u8) -> (r: Result<
    Vec<u8>,
    Error,
>)
    ensures
        match r {
            Ok(v) => {
                &&& records_fit(records@, size as int)
                &&& v@.len() == size
                &&& v@ == apply_records(Seq::new(size as nat, |i: int| gap), records@)
            },
            Err(e) => {
                &&& !records_fit(records@, size as int)
                &&& e is HexFileError
            },
        },
{
    let ghost fill = Seq::new(size as nat, |i: int| gap);
    let mut image: Vec<u8> = vec![gap; size];
    proof {
        assert(image@ =~= fill);
        assert(records@.take(0) =~= Seq::<HexRecord>::empty());
    }
    let mut i: usize = 0;
    while i < records.len()
        invariant
            0 <= i <= records@.len(),
            records_fit(records@.take(i as int), size as int),
            image@.len() == size,
            image@ == apply_records(fill, records@.take(i as int)),
            fill == Seq::new(size as nat, |j: int| gap),
        decreases records@.len() - i,
    {
        let off_u32 = records[i].offset;
        let len = records[i].data.len();
        let off = off_u32 as usize;
        if off > size || size - off < len {
            proof {
                assert((records@[i as int]).offset + records@[i as int].data@.len()
                    > size as int);
            }
            return Err(Error::HexFileError(String::from_str("record outside firmware area")));
        }
        let ghost before = image@;
        let mut j: usize = 0;
        while j < len
            invariant
                0 <= j <= len,
                i < records@.len(),
                off + len <= size,
                len == records@[i as int].data@.len(),
                off == records@[i as int].offset,
                image@.len() == size,
                before.len() == size,
                forall|t: int|
                    0 <= t < size && !(off <= t < off + j) ==> image@[t] == before[t],
                forall|t: int| off <= t < off + j ==> image@[t] == records@[i as int].data@[t - off],
            decreases len - j,
        {
            image.set(off + j, records[i].data[j]);
            j = j + 1;
        }
        proof {
            assert(image@ =~= apply_record(before, off as int, records@[i as int].data@));
            assert(records@.take(i as int + 1).drop_last() =~= records@.take(i as int));
            assert(records@.take(i as int + 1).last() == records@[i as int]);
        }
        i = i + 1;
    }
    proof {
        assert(records@.take(records@.len() as int) =~= records@);
    }
    Ok(image)
}

/// Applying records never changes the buffer's length.
pub proof fn lemma_apply_records_len(buf: Seq<u8>, recs: Seq<HexRecord>)
    ensures
        apply_records(buf, recs).len() == buf.len(),
    decreases recs.len(),
{
    if recs.len() > 0 {
        lemma_apply_records_len(buf, recs.drop_last());
    }
}

/// Gap fill: a byte of the image that no record covers keeps the fill
/// value.
pub proof fn lemma_gap_fill(recs: Seq<HexRecord>, size: nat, gap: u8, addr: int)
    requires
        0 <= addr < size,
        forall|r: int|
            0 <= r < recs.len() ==> !((#[trigger] recs[r]).offset <= addr < recs[r].offset
                + recs[r].data@.len()),
    ensures
        apply_records(Seq::new(size, |i: int| gap), recs)[addr] == gap,
    decreases recs.len(),
{
    let fill = Seq::new(size, |i: int| gap);
    if recs.len() > 0 {
        assert(recs[recs.len() - 1] == recs.last());
        assert forall|r: int| 0 <= r < recs.drop_last().len() implies !((#[trigger] recs.drop_last()[r]).offset
            <= addr < recs.drop_last()[r].offset + recs.drop_last()[r].data@.len()) by {
            assert(recs.drop_last()[r] == recs[r]);
        }
        lemma_gap_fill(recs.drop_last(), size, gap, addr);
        lemma_apply_records_len(fill, recs.drop_last());
        let inner = apply_records(fill, recs.drop_last());
        assert(apply_records(fill, recs) == apply_record(
            inner,
            recs.last().offset as int,
            recs.last().data@,
        ));
        assert(apply_record(inner, recs.last().offset as int, recs.last().data@)[addr]
            == inner[addr]);
    }
}

/// The block size used on the wire: the configured size clamped by what the
/// device allows.
pub fn clamp_block_size(config_block_size: usize, max_block_size: u16) -> (r: usize)
    ensures
        r == if config_block_size <= max_block_size as usize {
            config_block_size
        } else {
            max_block_size as usize
        },
{
    if config_block_size <= max_block_size as usize {
        config_block_size
    } else {
        max_block_size as usize
    }
}

/// Whether the write stage is skipped: the device already holds the image
/// and overwriting was not requested.
pub fn should_skip_write(device_crc: u32, image_crc: u32, overwrite: bool) -> (r: bool)
    ensures
        r == (device_crc == image_crc && !overwrite),
{
    device_crc == image_crc && !overwrite
}

/// The number of blocks an image of `len` bytes occupies at `block_size`
/// bytes each, the last block possibly short.
pub open spec fn blocks_of(len: int, block_size: int) -> int {
    (len + block_size - 1) / block_size
}

/// Count the blocks of an image.
pub fn total_blocks(len: usize, block_size: usize) -> (r: usize)
    requires
        block_size >= 1,
    ensures
        r == blocks_of(len as int, block_size as int),
        len > 0 ==> r >= 1,
        r <= len,
{
    if len == 0 {
        proof {
            assert((0 + block_size - 1) / (block_size as int) == 0) by (nonlinear_arith)
                requires
                    block_size >= 1,
            ;
        }
        0
    } else {
        let r = 1 + (len - 1) / block_size;
        proof {
            assert(1 + (len - 1) / (block_size as int) == (len + block_size - 1) / (
            block_size as int) && (len - 1) / (block_size as int) <= len - 1) by (nonlinear_arith)
                requires
                    block_size >= 1,
                    len >= 1,
            ;
        }
        r
    }
}

/// The progress report after block `i` of `total` has been written, in
/// whole percent, rounded down.
pub fn progress_percent(i: usize, total: usize) -> (r: usize)
    requires
        i < total,
        total <= 0xFFFF_FFFF,
    ensures
        r == ((i + 1) * 100) / (total as int),
        r <= 100,
{
    let q: u64 = ((i as u64) + 1) * 100 / (total as u64);
    proof {
        assert((i + 1) * 100 / (total as int) <= 100) by (nonlinear_arith)
            requires
                0 <= i < total,
        ;
    }
    q as usize
}

/// Check an image against the device: it must fit the firmware area, and
/// from bootloader version 0x30 on, unless overwriting was requested, it
/// must embed the device's unique id.
pub fn validate_firmware(firmware: &[u8], info: &InfoBlockV2, overwrite: bool) -> (r: Result<
    (),
    Error,
>)
    ensures
        match r {
            Ok(()) => {
                &&& firmware@.len() <= info.memmap.firmware_size
                &&& (info.version >= 0x30 && !overwrite) ==> uid_present(
                    firmware@,
                    info.device.uid@,
                )
            },
            Err(e) => {
                &&& e == Error::FirmwareTooLarge ==> firmware@.len() > info.memmap.firmware_size
                &&& e == Error::InvalidDeviceId ==> (firmware@.len() <= info.memmap.firmware_size
                    && info.version >= 0x30 && !overwrite && !uid_present(
                    firmware@,
                    info.device.uid@,
                ))
                &&& (e == Error::FirmwareTooLarge || e == Error::InvalidDeviceId)
            },
        },
{
    if firmware.len() > info.memmap.firmware_size as usize {
        return Err(Error::FirmwareTooLarge);
    }
    if info.version >= 0x30 && !overwrite {
        let uid: [u8; 16] = info.device.uid;
        match verify_device_id(firmware, uid.as_slice()) {
            Ok(()) => Ok(()),
            Err(e) => Err(e),
        }
    } else {
        Ok(())
    }
}

/// Whether `uid` occurs contiguously somewhere in `fw`.
pub open spec fn uid_present(fw: Seq<u8>, uid: Seq<u8>) -> bool {
    exists|w: int| 0 <= w <= fw.len() - uid.len() && #[trigger] fw.subrange(w, w + uid.len()) == uid
}

/// Search the image for the device's unique id; its absence means the image
/// was built for another device.
pub fn verify_device_id(firmware: &[u8], device_uid: &[u8]) -> (r: Result<(), Error>)
    requires
        device_uid@.len() >= 1,
    ensures
        match r {
            Ok(()) => uid_present(firmware@, device_uid@),
            Err(e) => e == Error::InvalidDeviceId && !uid_present(firmware@, device_uid@),
        },
{
    let m = device_uid.len();
    let n = firmware.len();
    if m > n {
        return Err(Error::InvalidDeviceId);
    }
    let mut w: usize = 0;
    while w <= n - m
        invariant
            m == device_uid@.len(),
            n == firmware@.len(),
            1 <= m <= n,
            0 <= w <= n - m + 1,
            forall|v: int|
                0 <= v < w ==> #[trigger] firmware@.subrange(v, v + device_uid@.len())
                    != device_uid@,
        decreases n - m - w + 1,
    {
        let mut j: usize = 0;
        let mut matched = true;
        while j < m
            invariant
                m == device_uid@.len(),
                n == firmware@.len(),
                w + m <= n,
                0 <= j <= m,
                matched <==> (forall|t: int|
                    0 <= t < j ==> firmware@[w + t] == device_uid@[t]),
            decreases m - j,
        {
            if firmware[w + j] != device_uid[j] {
                matched = false;
                proof {
                    assert(firmware@[w + j] != device_uid@[j as int]);
                }
                j = m;
            } else {
                j = j + 1;
            }
        }
        if matched {
            proof {
                assert(firmware@.subrange(w as int, w + device_uid@.len()) =~= device_uid@);
            }
            return Ok(());
        }
        proof {
            assert(firmware@.subrange(w as int, w + device_uid@.len()) != device_uid@) by {
                if firmware@.subrange(w as int, w + device_uid@.len()) == device_uid@ {
                    assert(forall|t: int|
                        0 <= t < m ==> firmware@.subrange(w as int, w + device_uid@.len())[t]
                            == device_uid@[t]);
                    assert(forall|t: int| 0 <= t < m ==> firmware@[w + t] == device_uid@[t]);
                }
            }
        }
        w = w + 1;
    }
    Err(Error::InvalidDeviceId)
}

} // verus!
