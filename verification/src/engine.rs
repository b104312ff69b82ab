//! The update engine: a pure state machine over the protocol stack.
//!
//! The engine consumes events — a decoded link-layer payload, a timeout, a
//! completion notice from the transport — and returns the one action the
//! transport loop must perform next: send bytes, change speed, sleep,
//! reboot the device, or stop. All protocol decisions are made here; the
//! loop around it only moves bytes and waits.
//!
//! The stages run in a fixed order, each selected by the configuration:
//! enter the bootloader (probe, reboot, re-probe), read the info block,
//! write the image block by block, verify its CRC-32, quit the bootloader,
//! restore the link speed.

use vstd::prelude::*;
use crate::apl::{
    apl_on_ack,
    header_byte,
    le16_bytes,
    le32,
    lemma_le16_bytes_inverse,
    packet_matches,
    request_packet_bytes,
    AplHeader,
    AplMessage,
    AplOutcome,
    AplRequestPacket,
    AplRequestType,
    AplStream,
};
use crate::crc::{calculate_crc32, crc32};
use crate::dfu::{
    apply_records,
    blocks_of,
    clamp_block_size,
    info_block_matches,
    load_firmware_image,
    parse_info_block,
    progress_percent,
    records_fit,
    should_skip_write,
    total_blocks,
    uid_present,
    validate_firmware,
    Command,
    DfuConfig,
    HexRecord,
    InfoBlockV2,
    UpdateMode,
    INFO_BLOCK_SIZE,
    MAX_FIRMWARE_SIZE,
};
use crate::error::Error;
use crate::lpl::{encode_frame, lpl_encode_spec};

verus! {

/// The read deadline, in milliseconds, of the short bootloader probe.
pub const PROBE_TIMEOUT_MS: usize = 100;

/// The grace period, in milliseconds, after the reboot command.
pub const REBOOT_GRACE_MS: u32 = 1000;

/// The largest data chunk that still fits a link-layer frame together with
/// its packet header.
pub const MAX_CHUNK_SIZE: usize = 1014;

/// What the engine waits for or has reached.
#[derive(Clone, Copy, Debug, PartialEq, Eq, Structural)]
pub enum DfuPhase {
    /// Not started yet.
    Idle,
    /// Waiting for the transport speed to be set before probing.
    EnterSpeed,
    /// First bootloader probe sent; waiting for its reply.
    ProbeFirst,
    /// Reboot command handed to the transport; waiting for completion.
    RebootSent,
    /// Waiting out the grace period after the reboot command.
    Sleeping,
    /// Second probe sent; waiting for its reply.
    ProbeSecond,
    /// Info request sent; waiting for the info data packet.
    InfoWait,
    /// Pre-write CRC query sent; waiting for the device's CRC.
    CrcPreWait,
    /// A write exchange for the current block is outstanding.
    WriteWait,
    /// Verify CRC query sent; waiting for the device's CRC.
    VerifyWait,
    /// Quit request sent; waiting for the transport to flush it.
    QuitSent,
    /// Last bytes being flushed; the engine finishes when they are out.
    FlushFinish,
    /// Last bytes being flushed; the speed is restored when they are out.
    FlushExit,
    /// Waiting for the transport speed to be restored.
    ExitSpeed,
    /// The update finished.
    Finished,
    /// The update failed.
    Failed,
}

/// What happened outside: the input of one engine step.
#[derive(Debug, Clone, PartialEq, Eq)]
pub enum DfuEvent {
    /// Begin the update.
    Start,
    /// The previous Send or Reboot action completed.
    Sent,
    /// The previous SetSpeed action completed.
    SpeedSet,
    /// The previous SleepMs action completed.
    Slept,
    /// One decoded link-layer payload arrived.
    Payload(Vec<u8>),
    /// The read deadline of the outstanding request passed.
    TimedOut,
    /// The transport broke down.
    ConnectionLost,
    /// The transport was rebuilt after a Reconnect action.
    Reconnected,
}

/// What the transport loop must do next: the output of one engine step.
#[derive(Debug, Clone, PartialEq, Eq)]
pub enum DfuAction {
    /// Wait for the next payload or the deadline.
    Await,
    /// Write these bytes to the transport, then report back Sent.
    Send(Vec<u8>),
    /// Set the transport speed, then report back SpeedSet.
    SetSpeed(usize),
    /// Issue the device-specific reboot-into-bootloader command, then
    /// report back Sent.
    Reboot,
    /// Sleep this many milliseconds, then report back Slept.
    SleepMs(u32),
    /// Rebuild the transport, then report back Reconnected.
    Reconnect,
    /// The update completed.
    Finish,
    /// The update failed; the bootloader is left as it is so a retry stays
    /// possible.
    Fail(Error),
}

/// The complete wire frame of one request packet, as the engine sends it.
pub open spec fn request_frame_spec(
    t: AplRequestType,
    block_size: u16,
    timeout: u16,
    command: u8,
    offset: u32,
    length: u32,
) -> Seq<u8> {
    lpl_encode_spec(
        request_packet_bytes(
            AplRequestPacket {
                header: AplHeader { type_id: header_byte(t, 0) },
                block_size,
                timeout,
                command,
                offset,
                length,
            },
        ),
    )
}

/// The short-deadline bootloader probe: a `ReadBootloaderInfo` request over
/// the whole info block.
pub open spec fn probe_frame_spec() -> Seq<u8> {
    request_frame_spec(
        AplRequestType::ReadRequest,
        INFO_BLOCK_SIZE as u16,
        PROBE_TIMEOUT_MS as u16,
        0,
        0,
        INFO_BLOCK_SIZE as u32,
    )
}

/// The info request: `ReadBootloaderInfo` with offset zero and the info
/// block's 107 bytes as the length.
pub open spec fn info_request_frame_spec() -> Seq<u8> {
    request_frame_spec(
        AplRequestType::ReadRequest,
        INFO_BLOCK_SIZE as u16,
        0,
        0,
        0,
        INFO_BLOCK_SIZE as u32,
    )
}

/// The CRC query: `ReadProgramCrc` over the device's whole firmware area,
/// expecting a four-byte answer.
pub open spec fn crc_query_frame_spec(info: InfoBlockV2) -> Seq<u8> {
    request_frame_spec(
        AplRequestType::ReadRequest,
        4,
        0,
        3,
        info.memmap.firmware_address,
        info.memmap.firmware_size,
    )
}

/// The quit request: `BootloaderQuit` with every field zero.
pub open spec fn quit_frame_spec() -> Seq<u8> {
    request_frame_spec(AplRequestType::WriteRequest, 0, 0, 5, 0, 0)
}

/// The acknowledgement frame for `block`.
pub open spec fn ack_frame_spec(block: u16) -> Seq<u8> {
    lpl_encode_spec(
        seq![header_byte(AplRequestType::Ack, 0)] + le16_bytes(block) + Seq::<u8>::empty(),
    )
}

/// The bytes of the image that block `i` carries: a full block, or the
/// image's tail for the last one.
pub open spec fn chunk_spec(image: Seq<u8>, bs: int, i: int) -> Seq<u8> {
    image.subrange(
        i * bs,
        if (i + 1) * bs <= image.len() {
            (i + 1) * bs
        } else {
            image.len() as int
        },
    )
}

/// The two frames of one write exchange: the `WriteProgramMemory` request
/// addressed at block `i` of the firmware area, then the Data packet that
/// carries the block under the session counter.
pub open spec fn write_exchange_spec(
    info: InfoBlockV2,
    image: Seq<u8>,
    bs: int,
    i: int,
    block: u16,
) -> Seq<u8> {
    let chunk = chunk_spec(image, bs, i);
    request_frame_spec(
        AplRequestType::WriteRequest,
        chunk.len() as u16,
        0,
        6,
        (info.memmap.firmware_address + i * bs) as u32,
        chunk.len() as u32,
    ) + lpl_encode_spec(seq![header_byte(AplRequestType::Data, 0)] + le16_bytes(block) + chunk)
}

/// The size of the image buffer for `info`: the firmware area's size,
/// capped by the largest loadable image.
pub open spec fn image_size_spec(info: InfoBlockV2) -> int {
    if info.memmap.firmware_size <= MAX_FIRMWARE_SIZE {
        info.memmap.firmware_size as int
    } else {
        MAX_FIRMWARE_SIZE as int
    }
}

/// The padded image the engine builds for `info`: the buffer filled with
/// the gap byte, overwritten by the records in order.
pub open spec fn built_image_spec(info: InfoBlockV2, gap: u8, recs: Seq<HexRecord>) -> Seq<u8> {
    apply_records(Seq::new(image_size_spec(info) as nat, |i: int| gap), recs)
}

/// Where the engine goes once every selected stage before the closing ones
/// is done and `prefix` still has to be flushed: restore the link speed
/// when it entered the bootloader on its own, then finish.
pub open spec fn exit_route(cfg: DfuConfig, prefix: Seq<u8>, post: DfuEngine, r: DfuAction) -> bool {
    if cfg.upd_mode != UpdateMode::Off {
        if prefix.len() == 0 {
            post.phase == DfuPhase::ExitSpeed && r == DfuAction::SetSpeed(cfg.lnk_speed)
        } else {
            post.phase == DfuPhase::FlushExit && (r matches DfuAction::Send(b) && b@ == prefix)
        }
    } else {
        if prefix.len() == 0 {
            post.phase == DfuPhase::Finished && r == DfuAction::Finish
        } else {
            post.phase == DfuPhase::FlushFinish && (r matches DfuAction::Send(b) && b@ == prefix)
        }
    }
}

/// Where the engine goes after the verify stage: the quit request when
/// selected, else the closing stages.
pub open spec fn closing_route(
    cfg: DfuConfig,
    prefix: Seq<u8>,
    post: DfuEngine,
    r: DfuAction,
) -> bool {
    if cfg.quit {
        &&& post.phase == DfuPhase::QuitSent
        &&& r matches DfuAction::Send(b) && b@ == prefix + quit_frame_spec()
        &&& post.last_request@ == quit_frame_spec()
    } else {
        exit_route(cfg, prefix, post, r)
    }
}

/// Where the engine goes after the write stage: the verify CRC query when
/// selected, else onwards.
pub open spec fn after_write_route(
    cfg: DfuConfig,
    info: InfoBlockV2,
    prefix: Seq<u8>,
    post: DfuEngine,
    r: DfuAction,
) -> bool {
    if cfg.verify {
        &&& post.phase == DfuPhase::VerifyWait
        &&& r matches DfuAction::Send(b) && b@ == prefix + crc_query_frame_spec(info)
        &&& post.last_request@ == crc_query_frame_spec(info)
    } else {
        closing_route(cfg, prefix, post, r)
    }
}

/// Where the engine goes once the info block `info` is parsed: straight to
/// the closing stages when no firmware stage is selected; otherwise the
/// image is built and checked, its faults surfacing in order — an unusable
/// block size, a missing firmware source, a record outside the image, a
/// missing device id — and only then does the CRC query go out.
pub open spec fn after_info_route(
    pre: DfuEngine,
    info: InfoBlockV2,
    prefix: Seq<u8>,
    post: DfuEngine,
    r: DfuAction,
) -> bool {
    let cfg = pre.config;
    let bs: int = if cfg.block_size <= info.max_block_size as int {
        cfg.block_size as int
    } else {
        info.max_block_size as int
    };
    if !(cfg.update || cfg.verify) {
        closing_route(cfg, prefix, post, r)
    } else if bs < 1 || bs > MAX_CHUNK_SIZE {
        r matches DfuAction::Fail(e) && e is Configuration
    } else if pre.records is None {
        r == DfuAction::Fail(Error::NoFirmwareFile)
    } else if !records_fit(pre.records->Some_0@, image_size_spec(info)) {
        r matches DfuAction::Fail(e) && e is HexFileError
    } else if info.version >= 0x30 && !cfg.overwrite && !uid_present(
        built_image_spec(info, cfg.gap_filling, pre.records->Some_0@),
        info.device.uid@,
    ) {
        r == DfuAction::Fail(Error::InvalidDeviceId)
    } else {
        &&& (post.image matches Some(img) && img@ == built_image_spec(
            info,
            cfg.gap_filling,
            pre.records->Some_0@,
        ))
        &&& post.image_crc == crc32(built_image_spec(info, cfg.gap_filling, pre.records->Some_0@))
        &&& post.phase == (if cfg.update {
            DfuPhase::CrcPreWait
        } else {
            DfuPhase::VerifyWait
        })
        &&& r matches DfuAction::Send(b) && b@ == prefix + crc_query_frame_spec(info)
        &&& post.last_request@ == crc_query_frame_spec(info)
    }
}

/// The update engine.
pub struct DfuEngine {
    /// The options the engine was started with; never changed.
    pub config: DfuConfig,
    /// The firmware file's data records, when one was loaded.
    pub records: Option<Vec<HexRecord>>,
    /// The session counters of the application layer.
    pub apl: AplStream,
    /// What the engine currently waits for.
    pub phase: DfuPhase,
    /// The device's info block, once read; read-only afterwards.
    pub info: Option<InfoBlockV2>,
    /// The padded firmware image, once built.
    pub image: Option<Vec<u8>>,
    /// CRC-32 of the padded image.
    pub image_crc: u32,
    /// The CRC-32 the device reported for its firmware area.
    pub device_crc: Option<u32>,
    /// The block being written.
    pub block_index: usize,
    /// How many blocks the image spans.
    pub blocks_total: usize,
    /// The block size used on the wire: the configured size clamped by the
    /// device's maximum.
    pub block_size: usize,
    /// The last request sent, kept for retries.
    pub last_request: Vec<u8>,
    /// How many times the transport was rebuilt this session.
    pub reconnects: usize,
    /// The progress, in percent, after the last acknowledged block.
    pub progress: usize,
}

impl DfuEngine {
    /// The session block size once the info block is known.
    pub open spec fn clamped_block_size(self) -> int {
        if self.config.block_size <= self.info->Some_0.max_block_size as int {
            self.config.block_size as int
        } else {
            self.info->Some_0.max_block_size as int
        }
    }

    /// What must hold between steps.
    ///
    /// In every phase that handles firmware data the info block and the
    /// image exist, the block size on the wire is the configured size
    /// clamped by the device's maximum, and the stored CRC-32 is the
    /// image's. While a write exchange is outstanding, the block index is
    /// in range and — the skip rule — either overwriting was requested or
    /// the device's CRC differs from the image's.
    pub open spec fn wf(self) -> bool {
        &&& (self.phase == DfuPhase::Idle || self.phase == DfuPhase::EnterSpeed || self.phase
            == DfuPhase::ProbeFirst || self.phase == DfuPhase::RebootSent || self.phase
            == DfuPhase::Sleeping || self.phase == DfuPhase::ProbeSecond || self.phase
            == DfuPhase::InfoWait) ==> self.info is None
        &&& self.info is Some ==> self.block_size == self.clamped_block_size()
        &&& (self.phase == DfuPhase::CrcPreWait || self.phase == DfuPhase::WriteWait
            || self.phase == DfuPhase::VerifyWait) ==> {
            &&& self.info is Some
            &&& self.image is Some
            &&& self.block_size == self.clamped_block_size()
            &&& 1 <= self.block_size <= MAX_CHUNK_SIZE
            &&& self.image_crc == crc32(self.image->Some_0@)
            &&& self.image->Some_0@.len() <= MAX_FIRMWARE_SIZE
            &&& self.blocks_total == blocks_of(
                self.image->Some_0@.len() as int,
                self.block_size as int,
            )
            &&& self.blocks_total <= self.image->Some_0@.len()
        }
        &&& self.phase == DfuPhase::WriteWait ==> {
            &&& self.block_index < self.blocks_total
            &&& self.device_crc is Some
            &&& (self.config.overwrite || self.device_crc != Some(self.image_crc))
        }
    }

    /// Set up an engine for one update run. The configuration must name a
    /// transport, and a firmware file whenever writing is selected.
    pub fn new(config: DfuConfig, records: Option<Vec<HexRecord>>) -> (r: Result<DfuEngine, Error>)
        ensures
            match r {
                Ok(e) => {
                    &&& config.uri@.len() > 0
                    &&& (config.update ==> config.filename is Some)
                    &&& e.phase == DfuPhase::Idle
                    &&& e.config == config
                    &&& e.apl.block_number == 0
                    &&& e.apl.retries == 0
                    &&& e.reconnects == 0
                    &&& e.progress == 0
                    &&& e.wf()
                },
                Err(e) => e is Configuration && (config.uri@.len() == 0 || (config.update
                    && config.filename is None)),
            },
    {
        match config.validate() {
            Ok(()) => {},
            Err(msg) => {
                return Err(Error::Configuration(String::from_str(msg)));
            },
        }
        Ok(
            DfuEngine {
                config,
                records,
                apl: AplStream::new(),
                phase: DfuPhase::Idle,
                info: None,
                image: None,
                image_crc: 0,
                device_crc: None,
                block_index: 0,
                blocks_total: 0,
                block_size: 0,
                last_request: Vec::new(),
                reconnects: 0,
                progress: 0,
            },
        )
    }

    fn fail(&mut self, e: Error) -> (r: DfuAction)
        requires
            old(self).info is Some ==> old(self).block_size == old(self).clamped_block_size(),
        ensures
            final(self).phase == DfuPhase::Failed,
            final(self).config == old(self).config,
            final(self).info == old(self).info,
            final(self).image == old(self).image,
            final(self).image_crc == old(self).image_crc,
            final(self).device_crc == old(self).device_crc,
            final(self).block_index == old(self).block_index,
            final(self).blocks_total == old(self).blocks_total,
            final(self).block_size == old(self).block_size,
            final(self).progress == old(self).progress,
            final(self).wf(),
            r == DfuAction::Fail(e),
    {
        self.phase = DfuPhase::Failed;
        DfuAction::Fail(e)
    }

    /// Build and register the probe request: a `ReadBootloaderInfo` with a
    /// short timeout.
    fn probe_frame(&mut self) -> (r: Vec<u8>)
        ensures
            final(self).config == old(self).config,
            final(self).info == old(self).info,
            final(self).phase == old(self).phase,
            final(self).image == old(self).image,
            final(self).image_crc == old(self).image_crc,
            final(self).device_crc == old(self).device_crc,
            final(self).block_index == old(self).block_index,
            final(self).blocks_total == old(self).blocks_total,
            final(self).block_size == old(self).block_size,
            r@ == probe_frame_spec(),
            final(self).last_request@ == probe_frame_spec(),
    {
        let req = self.apl.create_request(
            AplRequestType::ReadRequest,
            INFO_BLOCK_SIZE,
            PROBE_TIMEOUT_MS,
            Command::ReadBootloaderInfo.code(),
            0,
            INFO_BLOCK_SIZE,
        );
        let frame = encode_frame(req.as_slice());
        self.last_request = vstd::slice::slice_to_vec(frame.as_slice());
        frame
    }

    /// Continue after the bootloader is entered: read the info block when
    /// any stage needs it, otherwise fall through to the closing stages.
    fn proceed_after_enter(&mut self, prefix: Vec<u8>) -> (r: DfuAction)
        requires
            old(self).info is None,
        ensures
            r != DfuAction::Fail(Error::VerificationFailed),
            final(self).config == old(self).config,
            final(self).info == old(self).info,
            final(self).wf(),
            r is Fail ==> final(self).phase == DfuPhase::Failed,
            r is Finish ==> final(self).phase == DfuPhase::Finished,
            (old(self).config.get_info || old(self).config.update || old(self).config.verify)
                ==> ({
                &&& final(self).phase == DfuPhase::InfoWait
                &&& r matches DfuAction::Send(b) && b@ == prefix@ + info_request_frame_spec()
                &&& final(self).last_request@ == info_request_frame_spec()
            }),
            !(old(self).config.get_info || old(self).config.update || old(self).config.verify)
                ==> closing_route(old(self).config, prefix@, *final(self), r),
    {
        if self.config.get_info || self.config.update || self.config.verify {
            let req = self.apl.create_request(
                AplRequestType::ReadRequest,
                INFO_BLOCK_SIZE,
                0,
                Command::ReadBootloaderInfo.code(),
                0,
                INFO_BLOCK_SIZE,
            );
            let frame = encode_frame(req.as_slice());
            self.last_request = vstd::slice::slice_to_vec(frame.as_slice());
            let mut out = prefix;
            out.extend_from_slice(frame.as_slice());
            self.phase = DfuPhase::InfoWait;
            DfuAction::Send(out)
        } else {
            self.proceed_after_verify(prefix)
        }
    }

    /// Record the parsed info block, then continue: build and check the
    /// image if a write or verification follows, then query the device's
    /// CRC or fall through.
    fn proceed_after_info(&mut self, prefix: Vec<u8>, info: InfoBlockV2) -> (r: DfuAction)
        requires
            old(self).info is None,
        ensures
            r != DfuAction::Fail(Error::VerificationFailed),
            final(self).config == old(self).config,
            final(self).info == Some(info),
            final(self).wf(),
            r is Fail ==> final(self).phase == DfuPhase::Failed,
            r is Finish ==> final(self).phase == DfuPhase::Finished,
            after_info_route(*old(self), info, prefix@, *final(self), r),
    {
        self.info = Some(info);
        self.block_size = clamp_block_size(self.config.block_size, info.max_block_size);
        if !(self.config.update || self.config.verify) {
            return self.proceed_after_verify(prefix);
        }
        if self.block_size == 0 {
            return self.fail(Error::Configuration(String::from_str("block size is zero")));
        }
        if self.block_size > MAX_CHUNK_SIZE {
            return self.fail(
                Error::Configuration(String::from_str("block size exceeds the frame limit")),
            );
        }
        // Build the padded image: the firmware area's size, capped by the
        // largest loadable image.
        let size = if (info.memmap.firmware_size as usize) <= MAX_FIRMWARE_SIZE {
            info.memmap.firmware_size as usize
        } else {
            MAX_FIRMWARE_SIZE
        };
        let records = match &self.records {
            Some(r) => r,
            None => {
                return self.fail(Error::NoFirmwareFile);
            },
        };
        let image = match load_firmware_image(records, size, self.config.gap_filling) {
            Ok(v) => v,
            Err(e) => {
                return self.fail(e);
            },
        };
        match validate_firmware(image.as_slice(), &info, self.config.overwrite) {
            Ok(()) => {},
            Err(e) => {
                return self.fail(e);
            },
        }
        self.image_crc = calculate_crc32(image.as_slice());
        self.blocks_total = total_blocks(image.len(), self.block_size);
        self.image = Some(image);
        // Ask the device for the CRC of its firmware area; writing is
        // decided against it, and verification compares to it.
        let before_write = self.config.update;
        self.send_crc_query(prefix, before_write)
    }

    /// Send a `ReadProgramCrc` query over the firmware area.
    fn send_crc_query(&mut self, prefix: Vec<u8>, before_write: bool) -> (r: DfuAction)
        requires
            old(self).info is Some,
            old(self).image is Some,
            old(self).block_size == old(self).clamped_block_size(),
            1 <= old(self).block_size <= MAX_CHUNK_SIZE,
            old(self).image_crc == crc32(old(self).image->Some_0@),
            old(self).image->Some_0@.len() <= MAX_FIRMWARE_SIZE,
            old(self).blocks_total == blocks_of(
                old(self).image->Some_0@.len() as int,
                old(self).block_size as int,
            ),
            old(self).blocks_total <= old(self).image->Some_0@.len(),
        ensures
            final(self).config == old(self).config,
            final(self).info == old(self).info,
            final(self).wf(),
            !(r is Fail) && !(r is Finish),
            final(self).phase == if before_write {
                DfuPhase::CrcPreWait
            } else {
                DfuPhase::VerifyWait
            },
            r matches DfuAction::Send(b) && b@ == prefix@ + crc_query_frame_spec(
                old(self).info->Some_0,
            ),
            final(self).last_request@ == crc_query_frame_spec(old(self).info->Some_0),
            final(self).image == old(self).image,
            final(self).image_crc == old(self).image_crc,
            final(self).device_crc == old(self).device_crc,
            final(self).block_index == old(self).block_index,
            final(self).blocks_total == old(self).blocks_total,
            final(self).block_size == old(self).block_size,
            final(self).progress == old(self).progress,
            final(self).apl == old(self).apl,
    {
        let info = match &self.info {
            Some(i) => *i,
            None => {
                // Unreachable under the precondition; kept for totality.
                proof {
                    assert(false);
                }
                return DfuAction::Await;
            },
        };
        let req = self.apl.create_request(
            AplRequestType::ReadRequest,
            4,
            0,
            Command::ReadProgramCrc.code(),
            info.memmap.firmware_address as usize,
            info.memmap.firmware_size as usize,
        );
        let frame = encode_frame(req.as_slice());
        self.last_request = vstd::slice::slice_to_vec(frame.as_slice());
        let mut out = prefix;
        out.extend_from_slice(frame.as_slice());
        self.phase = if before_write {
            DfuPhase::CrcPreWait
        } else {
            DfuPhase::VerifyWait
        };
        DfuAction::Send(out)
    }

    /// Continue after the write stage: verify when selected, otherwise fall
    /// through.
    fn proceed_after_write(&mut self, prefix: Vec<u8>) -> (r: DfuAction)
        requires
            old(self).info is Some,
            old(self).image is Some,
            old(self).block_size == old(self).clamped_block_size(),
            1 <= old(self).block_size <= MAX_CHUNK_SIZE,
            old(self).image_crc == crc32(old(self).image->Some_0@),
            old(self).image->Some_0@.len() <= MAX_FIRMWARE_SIZE,
            old(self).blocks_total == blocks_of(
                old(self).image->Some_0@.len() as int,
                old(self).block_size as int,
            ),
            old(self).blocks_total <= old(self).image->Some_0@.len(),
        ensures
            r != DfuAction::Fail(Error::VerificationFailed),
            final(self).config == old(self).config,
            final(self).info == old(self).info,
            final(self).wf(),
            r is Fail ==> final(self).phase == DfuPhase::Failed,
            r is Finish ==> final(self).phase == DfuPhase::Finished,
            after_write_route(
                old(self).config,
                old(self).info->Some_0,
                prefix@,
                *final(self),
                r,
            ),
            final(self).image == old(self).image,
            final(self).image_crc == old(self).image_crc,
            final(self).device_crc == old(self).device_crc,
            final(self).block_index == old(self).block_index,
            final(self).blocks_total == old(self).blocks_total,
            final(self).block_size == old(self).block_size,
            final(self).progress == old(self).progress,
    {
        if self.config.verify {
            self.send_crc_query(prefix, false)
        } else {
            self.proceed_after_verify(prefix)
        }
    }

    /// Continue after verification: quit the bootloader when selected,
    /// otherwise close the session.
    fn proceed_after_verify(&mut self, prefix: Vec<u8>) -> (r: DfuAction)
        requires
            old(self).info is Some ==> old(self).block_size == old(self).clamped_block_size(),
        ensures
            r != DfuAction::Fail(Error::VerificationFailed),
            final(self).config == old(self).config,
            final(self).info == old(self).info,
            final(self).wf(),
            r is Fail ==> final(self).phase == DfuPhase::Failed,
            r is Finish ==> final(self).phase == DfuPhase::Finished,
            closing_route(old(self).config, prefix@, *final(self), r),
            final(self).image == old(self).image,
            final(self).image_crc == old(self).image_crc,
            final(self).device_crc == old(self).device_crc,
            final(self).block_index == old(self).block_index,
            final(self).blocks_total == old(self).blocks_total,
            final(self).block_size == old(self).block_size,
            final(self).progress == old(self).progress,
    {
        if self.config.quit {
            let req = self.apl.create_request(
                AplRequestType::WriteRequest,
                0,
                0,
                Command::BootloaderQuit.code(),
                0,
                0,
            );
            let frame = encode_frame(req.as_slice());
            self.last_request = vstd::slice::slice_to_vec(frame.as_slice());
            let mut out = prefix;
            out.extend_from_slice(frame.as_slice());
            self.phase = DfuPhase::QuitSent;
            proof {
                assert(req@ == request_packet_bytes(
                    AplRequestPacket {
                        header: AplHeader {
                            type_id: header_byte(AplRequestType::WriteRequest, 0),
                        },
                        block_size: 0,
                        timeout: 0,
                        command: 5,
                        offset: 0,
                        length: 0,
                    },
                ));
                assert(frame@ == quit_frame_spec());
            }
            let act = DfuAction::Send(out);
            proof {
                assert(self.phase == DfuPhase::QuitSent);
                assert(self.last_request@ == quit_frame_spec());
                assert(act matches DfuAction::Send(b) && b@ == prefix@ + quit_frame_spec());
                assert(closing_route(old(self).config, prefix@, *self, act));
            }
            act
        } else {
            self.proceed_after_quit(prefix)
        }
    }

    /// Close the session: restore the link speed when the engine entered
    /// the bootloader on its own, then finish.
    fn proceed_after_quit(&mut self, prefix: Vec<u8>) -> (r: DfuAction)
        requires
            old(self).info is Some ==> old(self).block_size == old(self).clamped_block_size(),
        ensures
            r != DfuAction::Fail(Error::VerificationFailed),
            final(self).config == old(self).config,
            final(self).info == old(self).info,
            final(self).wf(),
            r is Fail ==> final(self).phase == DfuPhase::Failed,
            r is Finish ==> final(self).phase == DfuPhase::Finished,
            exit_route(old(self).config, prefix@, *final(self), r),
            final(self).image == old(self).image,
            final(self).image_crc == old(self).image_crc,
            final(self).device_crc == old(self).device_crc,
            final(self).block_index == old(self).block_index,
            final(self).blocks_total == old(self).blocks_total,
            final(self).block_size == old(self).block_size,
            final(self).progress == old(self).progress,
    {
        if prefix.len() > 0 {
            if !matches!(self.config.upd_mode, UpdateMode::Off) {
                self.phase = DfuPhase::FlushExit;
            } else {
                self.phase = DfuPhase::FlushFinish;
            }
            return DfuAction::Send(prefix);
        }
        if !matches!(self.config.upd_mode, UpdateMode::Off) {
            self.phase = DfuPhase::ExitSpeed;
            DfuAction::SetSpeed(self.config.lnk_speed)
        } else {
            self.phase = DfuPhase::Finished;
            DfuAction::Finish
        }
    }

    /// Build and send the write exchange for the current block: the
    /// `WriteProgramMemory` request, followed by a Data packet carrying the
    /// block, numbered with the session counter.
    fn send_write_block(&mut self, prefix: Vec<u8>) -> (r: DfuAction)
        requires
            old(self).info is Some,
            old(self).image is Some,
            old(self).block_size == old(self).clamped_block_size(),
            1 <= old(self).block_size <= MAX_CHUNK_SIZE,
            old(self).image_crc == crc32(old(self).image->Some_0@),
            old(self).image->Some_0@.len() <= MAX_FIRMWARE_SIZE,
            old(self).blocks_total == blocks_of(
                old(self).image->Some_0@.len() as int,
                old(self).block_size as int,
            ),
            old(self).blocks_total <= old(self).image->Some_0@.len(),
            old(self).block_index < old(self).blocks_total,
            old(self).device_crc is Some,
            old(self).config.overwrite || old(self).device_crc != Some(old(self).image_crc),
        ensures
            final(self).config == old(self).config,
            final(self).info == old(self).info,
            final(self).wf(),
            final(self).phase == DfuPhase::WriteWait,
            !(r is Fail) && !(r is Finish),
            r matches DfuAction::Send(b) && b@ == prefix@ + write_exchange_spec(
                old(self).info->Some_0,
                old(self).image->Some_0@,
                old(self).block_size as int,
                old(self).block_index as int,
                old(self).apl.block_number,
            ),
            final(self).last_request@ == write_exchange_spec(
                old(self).info->Some_0,
                old(self).image->Some_0@,
                old(self).block_size as int,
                old(self).block_index as int,
                old(self).apl.block_number,
            ),
            final(self).block_index == old(self).block_index,
            final(self).apl == old(self).apl,
            final(self).image == old(self).image,
            final(self).image_crc == old(self).image_crc,
            final(self).device_crc == old(self).device_crc,
            final(self).blocks_total == old(self).blocks_total,
            final(self).block_size == old(self).block_size,
            final(self).progress == old(self).progress,
    {
        let info = match &self.info {
            Some(i) => *i,
            None => {
                proof {
                    assert(false);
                }
                return DfuAction::Await;
            },
        };
        let image_len = match &self.image {
            Some(v) => v.len(),
            None => {
                proof {
                    assert(false);
                }
                return DfuAction::Await;
            },
        };
        let bs = self.block_size;
        let i = self.block_index;
        proof {
            assert(i * bs < image_len && i * bs + bs < image_len + bs && (i + 1) * bs == i * bs
                + bs) by (nonlinear_arith)
                requires
                    bs >= 1,
                    0 <= i,
                    i < (image_len + bs - 1) / (bs as int),
            ;
        }
        let start = i * bs;
        let chunk_len = if image_len - start < bs {
            image_len - start
        } else {
            bs
        };
        let chunk = match &self.image {
            Some(v) => vstd::slice::slice_to_vec(
                vstd::slice::slice_subrange(v.as_slice(), start, start + chunk_len),
            ),
            None => {
                proof {
                    assert(false);
                }
                return DfuAction::Await;
            },
        };
        let ghost chunk_ghost = chunk_spec(
            self.image->Some_0@,
            bs as int,
            i as int,
        );
        proof {
            assert(chunk@ =~= chunk_ghost);
        }
        let target: u64 = (info.memmap.firmware_address as u64) + (start as u64);
        let addr32: u32 = #[verifier::truncate] (target as u32);
        let req = self.apl.create_request(
            AplRequestType::WriteRequest,
            chunk_len,
            0,
            Command::WriteProgramMemory.code(),
            addr32 as usize,
            chunk_len,
        );
        let req_frame = encode_frame(req.as_slice());
        let data_msg = AplMessage {
            packet_type: AplRequestType::Data,
            block_number: self.apl.block_number,
            data: chunk,
        };
        let data_bytes = data_msg.to_bytes();
        let data_frame = encode_frame(data_bytes.as_slice());
        let mut exchange = vstd::slice::slice_to_vec(req_frame.as_slice());
        exchange.extend_from_slice(data_frame.as_slice());
        self.last_request = vstd::slice::slice_to_vec(exchange.as_slice());
        let mut out = prefix;
        out.extend_from_slice(exchange.as_slice());
        self.phase = DfuPhase::WriteWait;
        let ghost ex_spec = write_exchange_spec(
            old(self).info->Some_0,
            old(self).image->Some_0@,
            old(self).block_size as int,
            old(self).block_index as int,
            old(self).apl.block_number,
        );
        proof {
            assert(req_frame@ == request_frame_spec(
                AplRequestType::WriteRequest,
                chunk_ghost.len() as u16,
                0,
                6,
                (info.memmap.firmware_address + i * bs) as u32,
                chunk_ghost.len() as u32,
            ));
            assert(data_frame@ == lpl_encode_spec(
                seq![header_byte(AplRequestType::Data, 0)] + le16_bytes(self.apl.block_number)
                    + chunk_ghost,
            ));
            assert(exchange@ == ex_spec);
            assert(out@ == prefix@ + ex_spec);
        }
        DfuAction::Send(out)
    }

    /// Re-send the last request, unchanged, for a retry.
    fn resend_last(&mut self) -> (r: DfuAction)
        ensures
            final(self).config == old(self).config,
            final(self).info == old(self).info,
            final(self).phase == old(self).phase,
            final(self).image == old(self).image,
            final(self).image_crc == old(self).image_crc,
            final(self).device_crc == old(self).device_crc,
            final(self).block_index == old(self).block_index,
            final(self).blocks_total == old(self).blocks_total,
            final(self).block_size == old(self).block_size,
            final(self).progress == old(self).progress,
            !(r is Fail) && !(r is Finish),
    {
        let frame = vstd::slice::slice_to_vec(self.last_request.as_slice());
        DfuAction::Send(frame)
    }

    /// A matching data packet during a probe: the bootloader answered, so
    /// acknowledge and move on — into the info read when any stage needs
    /// it, else towards the closing stages.
    fn on_probe_payload(&mut self, bytes: &[u8]) -> (r: DfuAction)
        requires
            old(self).wf(),
            old(self).phase == DfuPhase::ProbeFirst || old(self).phase == DfuPhase::ProbeSecond,
        ensures
            r != DfuAction::Fail(Error::VerificationFailed),
            final(self).config == old(self).config,
            final(self).wf(),
            r is Fail ==> final(self).phase == DfuPhase::Failed,
            r is Finish ==> final(self).phase == DfuPhase::Finished,
            (packet_matches(bytes@, 3, old(self).apl.block_number) && old(self).apl.block_number
                < 0xFFFF) ==> ({
                if old(self).config.get_info || old(self).config.update || old(self).config.verify {
                    &&& final(self).phase == DfuPhase::InfoWait
                    &&& r matches DfuAction::Send(b) && b@ == ack_frame_spec(
                        old(self).apl.block_number,
                    ) + info_request_frame_spec()
                    &&& final(self).last_request@ == info_request_frame_spec()
                } else {
                    closing_route(
                        old(self).config,
                        ack_frame_spec(old(self).apl.block_number),
                        *final(self),
                        r,
                    )
                }
            }),
    {
        match self.accept_data(bytes) {
            Ok(Some((ack, _payload))) => self.proceed_after_enter(ack),
            Ok(None) => self.resend_last(),
            Err(e) => self.fail(e),
        }
    }

    /// The info data packet: acknowledge, parse the 107-byte block, record
    /// it, and continue into the firmware stages.
    fn on_info_payload(&mut self, bytes: &[u8]) -> (r: DfuAction)
        requires
            old(self).wf(),
            old(self).phase == DfuPhase::InfoWait,
        ensures
            r != DfuAction::Fail(Error::VerificationFailed),
            final(self).config == old(self).config,
            final(self).wf(),
            r is Fail ==> final(self).phase == DfuPhase::Failed,
            r is Finish ==> final(self).phase == DfuPhase::Finished,
            (packet_matches(bytes@, 3, old(self).apl.block_number) && old(self).apl.block_number
                < 0xFFFF && bytes@.len() >= 110) ==> ({
                &&& final(self).info matches Some(inf) && info_block_matches(inf, bytes@.skip(3))
                    && after_info_route(
                    *old(self),
                    inf,
                    ack_frame_spec(old(self).apl.block_number),
                    *final(self),
                    r,
                )
            }),
    {
        match self.accept_data(bytes) {
            Ok(Some((ack, payload))) => {
                let info = match parse_info_block(payload.as_slice()) {
                    Ok(i) => i,
                    Err(e) => {
                        return self.fail(e);
                    },
                };
                self.proceed_after_info(ack, info)
            },
            Ok(None) => self.resend_last(),
            Err(e) => self.fail(e),
        }
    }

    /// The device's CRC before writing: acknowledge, record it, and either
    /// skip the write stage — the device already holds the image — or
    /// start streaming at block zero.
    fn on_crc_pre_payload(&mut self, bytes: &[u8]) -> (r: DfuAction)
        requires
            old(self).wf(),
            old(self).phase == DfuPhase::CrcPreWait,
        ensures
            r != DfuAction::Fail(Error::VerificationFailed),
            final(self).config == old(self).config,
            final(self).info == old(self).info,
            final(self).wf(),
            r is Fail ==> final(self).phase == DfuPhase::Failed,
            r is Finish ==> final(self).phase == DfuPhase::Finished,
            (packet_matches(bytes@, 3, old(self).apl.block_number) && old(self).apl.block_number
                < 0xFFFF && bytes@.len() >= 7) ==> ({
                let c = le32(bytes@[3], bytes@[4], bytes@[5], bytes@[6]);
                &&& final(self).device_crc == Some(c)
                &&& (c == old(self).image_crc && !old(self).config.overwrite) ==> after_write_route(
                    old(self).config,
                    old(self).info->Some_0,
                    ack_frame_spec(old(self).apl.block_number),
                    *final(self),
                    r,
                )
                &&& (!(c == old(self).image_crc && !old(self).config.overwrite) && old(self).blocks_total > 0) ==> ({
                    &&& final(self).phase == DfuPhase::WriteWait
                    &&& final(self).block_index == 0
                    &&& r matches DfuAction::Send(b) && b@ == ack_frame_spec(
                        old(self).apl.block_number,
                    ) + write_exchange_spec(
                        old(self).info->Some_0,
                        old(self).image->Some_0@,
                        old(self).block_size as int,
                        0,
                        (old(self).apl.block_number + 1) as u16,
                    )
                })
            }),
    {
        match self.accept_data(bytes) {
            Ok(Some((ack, payload))) => {
                let device_crc = match read_crc_payload(payload.as_slice()) {
                    Ok(c) => c,
                    Err(e) => {
                        return self.fail(e);
                    },
                };
                self.device_crc = Some(device_crc);
                if should_skip_write(device_crc, self.image_crc, self.config.overwrite) {
                    // The device already holds this image: no write request
                    // is issued.
                    self.proceed_after_write(ack)
                } else if self.blocks_total == 0 {
                    self.proceed_after_write(ack)
                } else {
                    self.block_index = 0;
                    self.send_write_block(ack)
                }
            },
            Ok(None) => self.resend_last(),
            Err(e) => self.fail(e),
        }
    }

    /// The device acknowledged the outstanding write exchange: record the
    /// progress and stream the next block, or move past the write stage
    /// after the last one.
    fn on_write_payload(&mut self, bytes: &[u8]) -> (r: DfuAction)
        requires
            old(self).wf(),
            old(self).phase == DfuPhase::WriteWait,
        ensures
            r != DfuAction::Fail(Error::VerificationFailed),
            final(self).config == old(self).config,
            final(self).info == old(self).info,
            final(self).wf(),
            r is Fail ==> final(self).phase == DfuPhase::Failed,
            r is Finish ==> final(self).phase == DfuPhase::Finished,
            (packet_matches(bytes@, 4, old(self).apl.block_number) && old(self).apl.block_number
                < 0xFFFF) ==> ({
                &&& final(self).progress == ((old(self).block_index + 1) * 100) / (old(self).blocks_total as int)
                &&& (old(self).block_index + 1 < old(self).blocks_total) ==> ({
                    &&& final(self).phase == DfuPhase::WriteWait
                    &&& final(self).block_index == old(self).block_index + 1
                    &&& r matches DfuAction::Send(b) && b@ == write_exchange_spec(
                        old(self).info->Some_0,
                        old(self).image->Some_0@,
                        old(self).block_size as int,
                        old(self).block_index + 1,
                        (old(self).apl.block_number + 1) as u16,
                    )
                })
                &&& (old(self).block_index + 1 >= old(self).blocks_total) ==> after_write_route(
                    old(self).config,
                    old(self).info->Some_0,
                    Seq::<u8>::empty(),
                    *final(self),
                    r,
                )
            }),
    {
        let msg = match AplMessage::from_bytes(bytes) {
            Ok(m) => m,
            Err(e) => {
                proof {
                    if packet_matches(bytes@, 4, self.apl.block_number) {
                        assert(bytes@[0] >> 5 == 4);
                        assert(false);
                    }
                }
                return self.fail(e);
            },
        };
        proof {
            lemma_le16_bytes_inverse(msg.block_number);
            if packet_matches(bytes@, 4, self.apl.block_number) {
                assert(msg.packet_type is Ack);
                assert(msg.block_number == self.apl.block_number);
            }
        }
        if self.apl.block_number == 0xFFFF {
            return self.fail(Error::Protocol(String::from_str("block counter exhausted")));
        }
        match self.apl.process_message(msg) {
            Ok(AplOutcome::AckAccepted) => {
                self.progress = progress_percent_checked(self.block_index, self.blocks_total);
                if self.block_index + 1 < self.blocks_total {
                    self.block_index = self.block_index + 1;
                    let ghost ex = write_exchange_spec(
                        self.info->Some_0,
                        self.image->Some_0@,
                        self.block_size as int,
                        self.block_index as int,
                        self.apl.block_number,
                    );
                    let act = self.send_write_block(Vec::new());
                    proof {
                        assert(Seq::<u8>::empty() + ex =~= ex);
                    }
                    act
                } else {
                    self.proceed_after_write(Vec::new())
                }
            },
            Ok(AplOutcome::Retry { code: _, message: _ }) => self.resend_last(),
            Ok(AplOutcome::DataAccepted { .. }) => self.fail(
                Error::Protocol(String::from_str("unexpected data packet during write")),
            ),
            Err(e) => self.fail(e),
        }
    }

    /// The device's CRC after writing: a mismatch fails the update — the
    /// bootloader is not quit, so a retry stays possible — and a match
    /// acknowledges and closes the session.
    fn on_verify_payload(&mut self, bytes: &[u8]) -> (r: DfuAction)
        requires
            old(self).wf(),
            old(self).phase == DfuPhase::VerifyWait,
        ensures
            final(self).config == old(self).config,
            final(self).info == old(self).info,
            final(self).wf(),
            r is Fail ==> final(self).phase == DfuPhase::Failed,
            r is Finish ==> final(self).phase == DfuPhase::Finished,
            (packet_matches(bytes@, 3, old(self).apl.block_number) && old(self).apl.block_number
                < 0xFFFF && bytes@.len() >= 7) ==> ({
                let c = le32(bytes@[3], bytes@[4], bytes@[5], bytes@[6]);
                &&& (c != old(self).image_crc) ==> (r == DfuAction::Fail(Error::VerificationFailed)
                    && final(self).phase == DfuPhase::Failed)
                &&& (c == old(self).image_crc) ==> closing_route(
                    old(self).config,
                    ack_frame_spec(old(self).apl.block_number),
                    *final(self),
                    r,
                )
            }),
    {
        match self.accept_data(bytes) {
            Ok(Some((ack, payload))) => {
                let device_crc = match read_crc_payload(payload.as_slice()) {
                    Ok(c) => c,
                    Err(e) => {
                        return self.fail(e);
                    },
                };
                if device_crc != self.image_crc {
                    // The flashed image differs: fail without quitting the
                    // bootloader.
                    self.fail(Error::VerificationFailed)
                } else {
                    self.proceed_after_verify(ack)
                }
            },
            Ok(None) => self.resend_last(),
            Err(e) => self.fail(e),
        }
    }

    /// One step of the update: consume an event, return the next action.
    ///
    /// The contract pins the whole orchestration down: the configuration
    /// never changes; the info block never changes once read; the stages
    /// run in their fixed order, each selected by its flag; the bytes of
    /// every request the engine sends are stated exactly; a verification
    /// mismatch fails the update and can arise nowhere else; and from the
    /// terminal phases, as well as after the quit request, nothing is sent
    /// any more.
    #[verifier::rlimit(100)]
    pub fn step(&mut self, event: DfuEvent) -> (r: DfuAction)
        requires
            old(self).wf(),
        ensures
            final(self).config == old(self).config,
            old(self).info is Some ==> final(self).info == old(self).info,
            final(self).wf(),
            r is Fail ==> final(self).phase == DfuPhase::Failed,
            r is Finish ==> final(self).phase == DfuPhase::Finished,
            final(self).phase == DfuPhase::WriteWait ==> (final(self).config.overwrite
                || final(self).device_crc != Some(final(self).image_crc)),
            // A verification failure can only come out of the verify stage.
            r == DfuAction::Fail(Error::VerificationFailed) ==> old(self).phase
                == DfuPhase::VerifyWait,
            // The terminal phases are absorbing, and no request follows the
            // quit request or the speed restoration.
            old(self).phase == DfuPhase::Failed ==> (r is Fail && final(self).phase
                == DfuPhase::Failed),
            old(self).phase == DfuPhase::Finished ==> r == DfuAction::Finish,
            (old(self).phase == DfuPhase::QuitSent || old(self).phase == DfuPhase::FlushFinish
                || old(self).phase == DfuPhase::FlushExit || old(self).phase
                == DfuPhase::ExitSpeed) ==> !(r is Send),
            // Starting without automatic bootloader entry: the info request
            // goes out when any stage needs the device, else the session
            // closes at once.
            (old(self).phase == DfuPhase::Idle && event == DfuEvent::Start && old(self).config.upd_mode == UpdateMode::Off) ==> ({
                if old(self).config.get_info || old(self).config.update || old(self).config.verify {
                    &&& final(self).phase == DfuPhase::InfoWait
                    &&& r matches DfuAction::Send(b) && b@ == info_request_frame_spec()
                    &&& final(self).last_request@ == info_request_frame_spec()
                } else {
                    closing_route(old(self).config, Seq::<u8>::empty(), *final(self), r)
                }
            }),
            // The automatic bootloader entry runs exactly as specified:
            // speed, probe, reboot on silence, a one-second grace, a second
            // probe, and only its silence is fatal.
            (old(self).phase == DfuPhase::Idle && event == DfuEvent::Start
                && old(self).config.upd_mode != UpdateMode::Off) ==> (final(self).phase
                == DfuPhase::EnterSpeed && r == DfuAction::SetSpeed(old(self).config.lnk_speed)),
            (old(self).phase == DfuPhase::EnterSpeed && event == DfuEvent::SpeedSet)
                ==> (final(self).phase == DfuPhase::ProbeFirst && (r matches DfuAction::Send(b)
                && b@ == probe_frame_spec()) && final(self).last_request@ == probe_frame_spec()),
            (old(self).phase == DfuPhase::ProbeFirst && event == DfuEvent::TimedOut)
                ==> (final(self).phase == DfuPhase::RebootSent && r == DfuAction::Reboot),
            (old(self).phase == DfuPhase::RebootSent && event == DfuEvent::Sent)
                ==> (final(self).phase == DfuPhase::Sleeping
                && r == DfuAction::SleepMs(REBOOT_GRACE_MS)),
            (old(self).phase == DfuPhase::Sleeping && event == DfuEvent::Slept)
                ==> (final(self).phase == DfuPhase::ProbeSecond && (r matches DfuAction::Send(b)
                && b@ == probe_frame_spec()) && final(self).last_request@ == probe_frame_spec()),
            (old(self).phase == DfuPhase::ProbeSecond && event == DfuEvent::TimedOut) ==> r
                == DfuAction::Fail(Error::BootloaderNotDetected),
            // The closing stages.
            (old(self).phase == DfuPhase::QuitSent && event == DfuEvent::Sent) ==> exit_route(
                old(self).config,
                Seq::<u8>::empty(),
                *final(self),
                r,
            ),
            (old(self).phase == DfuPhase::FlushFinish && event == DfuEvent::Sent) ==> r
                == DfuAction::Finish,
            (old(self).phase == DfuPhase::FlushExit && event == DfuEvent::Sent) ==> (final(self).phase == DfuPhase::ExitSpeed && r == DfuAction::SetSpeed(old(self).config.lnk_speed)),
            (old(self).phase == DfuPhase::ExitSpeed && event == DfuEvent::SpeedSet) ==> r
                == DfuAction::Finish,
            // The request/response stages, clause by clause, for a payload
            // that answers the outstanding exchange.
            event matches DfuEvent::Payload(p) ==> ({
                let block = old(self).apl.block_number;
                &&& ((old(self).phase == DfuPhase::ProbeFirst || old(self).phase
                    == DfuPhase::ProbeSecond) && packet_matches(p@, 3, block) && block < 0xFFFF)
                    ==> ({
                    if old(self).config.get_info || old(self).config.update || old(self).config.verify {
                        &&& final(self).phase == DfuPhase::InfoWait
                        &&& r matches DfuAction::Send(b) && b@ == ack_frame_spec(block)
                            + info_request_frame_spec()
                    } else {
                        closing_route(old(self).config, ack_frame_spec(block), *final(self), r)
                    }
                })
                &&& (old(self).phase == DfuPhase::InfoWait && packet_matches(p@, 3, block)
                    && block < 0xFFFF && p@.len() >= 110) ==> (final(self).info matches Some(inf)
                    && info_block_matches(inf, p@.skip(3)) && after_info_route(
                    *old(self),
                    inf,
                    ack_frame_spec(block),
                    *final(self),
                    r,
                ))
                &&& (old(self).phase == DfuPhase::CrcPreWait && packet_matches(p@, 3, block)
                    && block < 0xFFFF && p@.len() >= 7) ==> ({
                    let c = le32(p@[3], p@[4], p@[5], p@[6]);
                    &&& final(self).device_crc == Some(c)
                    &&& (c == old(self).image_crc && !old(self).config.overwrite)
                        ==> after_write_route(
                        old(self).config,
                        old(self).info->Some_0,
                        ack_frame_spec(block),
                        *final(self),
                        r,
                    )
                    &&& (!(c == old(self).image_crc && !old(self).config.overwrite) && old(self).blocks_total > 0) ==> ({
                        &&& final(self).phase == DfuPhase::WriteWait
                        &&& final(self).block_index == 0
                        &&& r matches DfuAction::Send(b) && b@ == ack_frame_spec(block)
                            + write_exchange_spec(
                            old(self).info->Some_0,
                            old(self).image->Some_0@,
                            old(self).block_size as int,
                            0,
                            (block + 1) as u16,
                        )
                    })
                })
                &&& (old(self).phase == DfuPhase::WriteWait && packet_matches(p@, 4, block)
                    && block < 0xFFFF) ==> ({
                    &&& final(self).progress == ((old(self).block_index + 1) * 100) / (old(self).blocks_total as int)
                    &&& (old(self).block_index + 1 < old(self).blocks_total) ==> ({
                        &&& final(self).phase == DfuPhase::WriteWait
                        &&& final(self).block_index == old(self).block_index + 1
                        &&& r matches DfuAction::Send(b) && b@ == write_exchange_spec(
                            old(self).info->Some_0,
                            old(self).image->Some_0@,
                            old(self).block_size as int,
                            old(self).block_index + 1,
                            (block + 1) as u16,
                        )
                    })
                    &&& (old(self).block_index + 1 >= old(self).blocks_total)
                        ==> after_write_route(
                        old(self).config,
                        old(self).info->Some_0,
                        Seq::<u8>::empty(),
                        *final(self),
                        r,
                    )
                })
                &&& (old(self).phase == DfuPhase::VerifyWait && packet_matches(p@, 3, block)
                    && block < 0xFFFF && p@.len() >= 7) ==> ({
                    let c = le32(p@[3], p@[4], p@[5], p@[6]);
                    &&& (c != old(self).image_crc) ==> (r == DfuAction::Fail(
                        Error::VerificationFailed,
                    ) && final(self).phase == DfuPhase::Failed)
                    &&& (c == old(self).image_crc) ==> closing_route(
                        old(self).config,
                        ack_frame_spec(block),
                        *final(self),
                        r,
                    )
                })
            }),
    {
        if matches!(self.phase, DfuPhase::Failed) {
            return DfuAction::Fail(Error::Protocol(String::from_str("update already failed")));
        }
        if matches!(self.phase, DfuPhase::Finished) {
            return DfuAction::Finish;
        }
        if matches!(event, DfuEvent::ConnectionLost) {
            // A broken transport costs one of the session's reconnects;
            // past the budget it is fatal.
            if self.reconnects >= self.apl.max_reconnects {
                return self.fail(
                    Error::Connection(String::from_str("reconnect budget exhausted")),
                );
            }
            self.reconnects = self.reconnects + 1;
            return DfuAction::Reconnect;
        }
        if matches!(event, DfuEvent::Reconnected) {
            // The stream was rebuilt: restart the current exchange by
            // re-sending the outstanding request, where one exists.
            return match self.phase {
                DfuPhase::ProbeFirst
                | DfuPhase::ProbeSecond
                | DfuPhase::InfoWait
                | DfuPhase::CrcPreWait
                | DfuPhase::WriteWait
                | DfuPhase::VerifyWait => self.resend_last(),
                _ => DfuAction::Await,
            };
        }
        match self.phase {
            DfuPhase::Idle => {
                if !matches!(event, DfuEvent::Start) {
                    return DfuAction::Await;
                }
                if !matches!(self.config.upd_mode, UpdateMode::Off) {
                    self.phase = DfuPhase::EnterSpeed;
                    DfuAction::SetSpeed(self.config.lnk_speed)
                } else {
                    let act = self.proceed_after_enter(Vec::new());
                    proof {
                        assert(Seq::<u8>::empty() + info_request_frame_spec()
                            =~= info_request_frame_spec());
                    }
                    act
                }
            },
            DfuPhase::EnterSpeed => {
                if !matches!(event, DfuEvent::SpeedSet) {
                    return DfuAction::Await;
                }
                let frame = self.probe_frame();
                self.phase = DfuPhase::ProbeFirst;
                DfuAction::Send(frame)
            },
            DfuPhase::ProbeFirst => {
                match event {
                    DfuEvent::Payload(bytes) => self.on_probe_payload(bytes.as_slice()),
                    DfuEvent::TimedOut => {
                        // The bootloader did not answer: reboot into it.
                        self.phase = DfuPhase::RebootSent;
                        DfuAction::Reboot
                    },
                    _ => DfuAction::Await,
                }
            },
            DfuPhase::RebootSent => {
                if !matches!(event, DfuEvent::Sent) {
                    return DfuAction::Await;
                }
                self.phase = DfuPhase::Sleeping;
                DfuAction::SleepMs(REBOOT_GRACE_MS)
            },
            DfuPhase::Sleeping => {
                if !matches!(event, DfuEvent::Slept) {
                    return DfuAction::Await;
                }
                let frame = self.probe_frame();
                self.phase = DfuPhase::ProbeSecond;
                DfuAction::Send(frame)
            },
            DfuPhase::ProbeSecond => {
                match event {
                    DfuEvent::Payload(bytes) => self.on_probe_payload(bytes.as_slice()),
                    DfuEvent::TimedOut => self.fail(Error::BootloaderNotDetected),
                    _ => DfuAction::Await,
                }
            },
            DfuPhase::InfoWait => {
                match event {
                    DfuEvent::Payload(bytes) => self.on_info_payload(bytes.as_slice()),
                    DfuEvent::TimedOut => self.retry_or_fail(),
                    _ => DfuAction::Await,
                }
            },
            DfuPhase::CrcPreWait => {
                match event {
                    DfuEvent::Payload(bytes) => self.on_crc_pre_payload(bytes.as_slice()),
                    DfuEvent::TimedOut => self.retry_or_fail(),
                    _ => DfuAction::Await,
                }
            },
            DfuPhase::WriteWait => {
                match event {
                    DfuEvent::Payload(bytes) => self.on_write_payload(bytes.as_slice()),
                    DfuEvent::TimedOut => self.retry_or_fail(),
                    _ => DfuAction::Await,
                }
            },
            DfuPhase::VerifyWait => {
                match event {
                    DfuEvent::Payload(bytes) => self.on_verify_payload(bytes.as_slice()),
                    DfuEvent::TimedOut => self.retry_or_fail(),
                    _ => DfuAction::Await,
                }
            },
            DfuPhase::QuitSent => {
                if !matches!(event, DfuEvent::Sent) {
                    return DfuAction::Await;
                }
                self.proceed_after_quit(Vec::new())
            },
            DfuPhase::FlushFinish => {
                if !matches!(event, DfuEvent::Sent) {
                    return DfuAction::Await;
                }
                self.phase = DfuPhase::Finished;
                DfuAction::Finish
            },
            DfuPhase::FlushExit => {
                if !matches!(event, DfuEvent::Sent) {
                    return DfuAction::Await;
                }
                self.phase = DfuPhase::ExitSpeed;
                DfuAction::SetSpeed(self.config.lnk_speed)
            },
            DfuPhase::ExitSpeed => {
                if !matches!(event, DfuEvent::SpeedSet) {
                    return DfuAction::Await;
                }
                self.phase = DfuPhase::Finished;
                DfuAction::Finish
            },
            DfuPhase::Finished => DfuAction::Finish,
            DfuPhase::Failed => DfuAction::Fail(
                Error::Protocol(String::from_str("update already failed")),
            ),
        }
    }

    /// Parse an incoming payload and run it through the session: a Data
    /// packet with the expected block number yields the acknowledgement
    /// frame to send and the carried bytes; a retryable error yields
    /// nothing; everything else is fatal.
    fn accept_data(&mut self, bytes: &[u8]) -> (r: Result<Option<(Vec<u8>, Vec<u8>)>, Error>)
        ensures
            r matches Err(e) ==> (e is Protocol || e is InvalidPacket),
            final(self).config == old(self).config,
            final(self).info == old(self).info,
            final(self).phase == old(self).phase,
            final(self).image == old(self).image,
            final(self).image_crc == old(self).image_crc,
            final(self).device_crc == old(self).device_crc,
            final(self).block_index == old(self).block_index,
            final(self).blocks_total == old(self).blocks_total,
            final(self).block_size == old(self).block_size,
            final(self).records == old(self).records,
            final(self).last_request == old(self).last_request,
            final(self).progress == old(self).progress,
            final(self).reconnects == old(self).reconnects,
            r matches Ok(Some(pair)) ==> ({
                &&& packet_matches(bytes@, 3, old(self).apl.block_number)
                &&& pair.0@ == ack_frame_spec(old(self).apl.block_number)
                &&& pair.1@ == bytes@.skip(3)
                &&& final(self).apl == apl_on_ack(old(self).apl)
            }),
            (packet_matches(bytes@, 3, old(self).apl.block_number) && old(self).apl.block_number
                < 0xFFFF) ==> r matches Ok(Some(_)),
    {
        let msg = match AplMessage::from_bytes(bytes) {
            Ok(m) => m,
            Err(e) => {
                proof {
                    if packet_matches(bytes@, 3, self.apl.block_number) {
                        assert(bytes@[0] >> 5 == 3);
                        assert(false);
                    }
                }
                return Err(e);
            },
        };
        proof {
            lemma_le16_bytes_inverse(msg.block_number);
            if packet_matches(bytes@, 3, self.apl.block_number) {
                assert(msg.packet_type is Data);
                assert(msg.block_number == self.apl.block_number);
            }
        }
        if self.apl.block_number == 0xFFFF {
            return Err(Error::Protocol(String::from_str("block counter exhausted")));
        }
        match self.apl.process_message(msg) {
            Ok(AplOutcome::DataAccepted { ack, payload }) => {
                let ack_bytes = ack.to_bytes();
                let ack_frame = encode_frame(ack_bytes.as_slice());
                proof {
                    assert(crate::apl::message_bytes(ack) == seq![
                        header_byte(AplRequestType::Ack, 0),
                    ] + le16_bytes(old(self).apl.block_number) + Seq::<u8>::empty());
                    assert(bytes@[0] >> 5 == 3);
                    lemma_le16_bytes_inverse(msg.block_number);
                }
                Ok(Some((ack_frame, payload)))
            },
            Ok(AplOutcome::Retry { code: _, message: _ }) => Ok(None),
            Ok(AplOutcome::AckAccepted) => Err(
                Error::Protocol(String::from_str("unexpected ack packet")),
            ),
            Err(e) => Err(e),
        }
    }

    /// Count a timeout against the retry budget and re-send, or fail once
    /// the budget is spent.
    fn retry_or_fail(&mut self) -> (r: DfuAction)
        requires
            old(self).wf(),
        ensures
            r != DfuAction::Fail(Error::VerificationFailed),
            final(self).config == old(self).config,
            final(self).info == old(self).info,
            final(self).wf(),
            r is Fail ==> final(self).phase == DfuPhase::Failed,
            !(r is Finish),
            final(self).phase == DfuPhase::WriteWait ==> old(self).phase == DfuPhase::WriteWait,
            final(self).image == old(self).image,
            final(self).image_crc == old(self).image_crc,
            final(self).device_crc == old(self).device_crc,
    {
        match self.apl.register_timeout() {
            Ok(()) => self.resend_last(),
            Err(e) => self.fail(e),
        }
    }
}

/// Interpret a Data payload as a little-endian CRC-32.
fn read_crc_payload(payload: &[u8]) -> (r: Result<u32, Error>)
    ensures
        match r {
            Ok(c) => payload@.len() >= 4 && c == crate::apl::le32(
                payload@[0],
                payload@[1],
                payload@[2],
                payload@[3],
            ),
            Err(e) => payload@.len() < 4 && e is Protocol,
        },
{
    if payload.len() < 4 {
        return Err(Error::Protocol(String::from_str("crc response too short")));
    }
    Ok(
        (payload[0] as u32) | ((payload[1] as u32) << 8) | ((payload[2] as u32) << 16) | ((
        payload[3] as u32) << 24),
    )
}

/// The progress after block `i` of `total`, guarded for arbitrary counters.
fn progress_percent_checked(i: usize, total: usize) -> (r: usize)
    ensures
        r <= 100,
        (i < total && total <= 0xFFFF_FFFF) ==> r == ((i + 1) * 100) / (total as int),
{
    if i < total && total <= 0xFFFF_FFFF {
        progress_percent(i, total)
    } else {
        100
    }
}

} // verus!
