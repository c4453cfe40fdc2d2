//! Structs and methods for working with Nintendo DS(i) ROM images.
//!
//! The header occupies the first `HEADER_LEN` bytes of an image file.
//! Multi-byte fields are little-endian at fixed offsets. A header is valid
//! iff the checksum of its first `HEADER_CRC_RANGE` bytes equals the
//! `header_crc` field and the checksum of the logo region equals the fixed
//! constant `LOGO_CRC`. The caller performs all file I/O and hands this
//! module the bytes it read.

use vstd::prelude::*;

use crate::crc;
use crate::crc::spec_checksum;

verus! {

/// Total header length in bytes.
pub const HEADER_LEN: usize = 0x1000;

/// Length of the leading byte range covered by the header checksum.
pub const HEADER_CRC_RANGE: usize = 0x15e;

/// Offset of the unit code, which discriminates NTR-only from dual-mode images.
pub const UNITCODE_OFFSET: usize = 0x12;

/// Offset of the declared content size of an NTR-only image.
pub const NTR_ROM_SIZE_OFFSET: usize = 0x80;

/// Offset of the logo image.
pub const LOGO_OFFSET: usize = 0xc0;

/// Length of the logo image in bytes.
pub const LOGO_LEN: usize = 156;

/// Offset of the checksum the header claims for its logo region.
pub const LOGO_CRC_OFFSET: usize = 0x15c;

/// Offset of the checksum the header claims for its leading byte range.
pub const HEADER_CRC_OFFSET: usize = 0x15e;

/// Offset of the declared content size of a dual-mode image.
pub const TWL_ROM_SIZE_OFFSET: usize = 0x210;

/// The checksum every valid logo region has.
pub const LOGO_CRC: u16 = 0xcf56;

/// Bytes appended to the trimmed size when a certificate marker is present,
/// preserving the certificate region that Download Play needs.
pub const RSA_SIZE: u64 = 0x88;

/// A list of errors that may originate in this module.
#[derive(Clone, Copy, Debug, PartialEq, Eq, Structural)]
pub enum Error {
    /// An error occurred during I/O operations.
    Io,
    /// The header in the NDS file is malformed.
    BadHeader,
    /// The NDS file is already trimmed.
    AlreadyTrimmed,
}

impl Error {
    /// A short description of the error.
    pub fn message(&self) -> (r: &'static str)
        ensures
            *self == Error::Io ==> r@ == "I/O error"@,
            *self == Error::BadHeader ==> r@ == "invalid header"@,
            *self == Error::AlreadyTrimmed ==> r@ == "already trimmed"@,
    {
        match self {
            Error::Io => "I/O error",
            Error::BadHeader => "invalid header",
            Error::AlreadyTrimmed => "already trimmed",
        }
    }
}

/// The 16-bit little-endian integer at offset `off` of `b`.
pub open spec fn spec_le_u16(b: Seq<u8>, off: int) -> u16 {
    (b[off] as u16) | ((b[off + 1] as u16) << 8u16)
}

/// The 32-bit little-endian integer at offset `off` of `b`.
pub open spec fn spec_le_u32(b: Seq<u8>, off: int) -> u32 {
    (b[off] as u32) | ((b[off + 1] as u32) << 8u32) | ((b[off + 2] as u32) << 16u32) | ((
    b[off + 3] as u32) << 24u32)
}

fn read_le_u16(buf: &[u8], off: usize) -> (r: u16)
    requires
        off + 2 <= buf@.len() <= usize::MAX,
    ensures
        r == spec_le_u16(buf@, off as int),
{
    let b0 = *vstd::slice::slice_index_get(buf, off);
    let b1 = *vstd::slice::slice_index_get(buf, off + 1);
    (b0 as u16) | ((b1 as u16) << 8u16)
}

fn read_le_u32(buf: &[u8], off: usize) -> (r: u32)
    requires
        off + 4 <= buf@.len() <= usize::MAX,
    ensures
        r == spec_le_u32(buf@, off as int),
{
    let b0 = *vstd::slice::slice_index_get(buf, off);
    let b1 = *vstd::slice::slice_index_get(buf, off + 1);
    let b2 = *vstd::slice::slice_index_get(buf, off + 2);
    let b3 = *vstd::slice::slice_index_get(buf, off + 3);
    (b0 as u32) | ((b1 as u32) << 8u32) | ((b2 as u32) << 16u32) | ((b3 as u32) << 24u32)
}

/// A header is valid iff the checksum of its first `HEADER_CRC_RANGE` bytes
/// equals the `header_crc` field and the checksum of its logo region equals
/// the fixed constant `LOGO_CRC`. The header's self-reported logo checksum
/// field takes no part in this.
pub open spec fn spec_header_valid(b: Seq<u8>) -> bool {
    &&& spec_checksum(b.subrange(0, HEADER_CRC_RANGE as int)) == spec_le_u16(
        b,
        HEADER_CRC_OFFSET as int,
    )
    &&& spec_checksum(b.subrange(LOGO_OFFSET as int, LOGO_OFFSET + LOGO_LEN)) == LOGO_CRC
}

/// The fields of an NDS ROM header that the trimming logic reads.
#[derive(Debug)]
pub struct NtrTwlHeader {
    /// 0 for NTR-only images, any other value for dual-mode images.
    pub unitcode: u8,
    /// Declared content size of an NTR-only image.
    pub ntr_rom_size: u32,
    /// The logo image.
    pub nintendo_logo: Vec<u8>,
    /// The checksum the header claims for the logo region (recorded, unused).
    pub nintendo_logo_crc: u16,
    /// The checksum the header claims for its leading byte range.
    pub header_crc: u16,
    /// Declared content size of a dual-mode image.
    pub ntr_twl_rom_size: u32,
}

impl NtrTwlHeader {
    /// The logo region has its exact fixed length.
    pub open spec fn wf(self) -> bool {
        self.nintendo_logo@.len() == LOGO_LEN
    }

    /// `self` holds exactly the fields of the header bytes `b`.
    pub open spec fn spec_parsed_from(self, b: Seq<u8>) -> bool {
        &&& self.unitcode == b[UNITCODE_OFFSET as int]
        &&& self.ntr_rom_size == spec_le_u32(b, NTR_ROM_SIZE_OFFSET as int)
        &&& self.nintendo_logo@ == b.subrange(LOGO_OFFSET as int, LOGO_OFFSET + LOGO_LEN)
        &&& self.nintendo_logo_crc == spec_le_u16(b, LOGO_CRC_OFFSET as int)
        &&& self.header_crc == spec_le_u16(b, HEADER_CRC_OFFSET as int)
        &&& self.ntr_twl_rom_size == spec_le_u32(b, TWL_ROM_SIZE_OFFSET as int)
    }

    /// Parses a header from the first `HEADER_LEN` bytes of `buf` and
    /// verifies it. Fails with `Error::Io` when fewer bytes are available
    /// (the read fell short of one header), and with `Error::BadHeader`
    /// when either checksum comparison fails.
    pub fn from_bytes(buf: &[u8]) -> (r: Result<NtrTwlHeader, Error>)
        ensures
            r is Ok <==> buf@.len() >= HEADER_LEN && spec_header_valid(buf@),
            match r {
                Ok(h) => h.wf() && h.spec_parsed_from(buf@),
                Err(e) => (e == Error::Io && buf@.len() < HEADER_LEN) || (e == Error::BadHeader
                    && buf@.len() >= HEADER_LEN && !spec_header_valid(buf@)),
            },
    {
        if buf.len() < HEADER_LEN {
            return Err(Error::Io);
        }
        let crc = crc::checksum(vstd::slice::slice_subrange(buf, 0, HEADER_CRC_RANGE));
        let logo_slice = vstd::slice::slice_subrange(buf, LOGO_OFFSET, LOGO_OFFSET + LOGO_LEN);
        let header = NtrTwlHeader {
            unitcode: *vstd::slice::slice_index_get(buf, UNITCODE_OFFSET),
            ntr_rom_size: read_le_u32(buf, NTR_ROM_SIZE_OFFSET),
            nintendo_logo: vstd::slice::slice_to_vec(logo_slice),
            nintendo_logo_crc: read_le_u16(buf, LOGO_CRC_OFFSET),
            header_crc: read_le_u16(buf, HEADER_CRC_OFFSET),
            ntr_twl_rom_size: read_le_u32(buf, TWL_ROM_SIZE_OFFSET),
        };
        if header.header_crc != crc || !header.is_logo_valid() {
            return Err(Error::BadHeader);
        }
        Ok(header)
    }

    /// Verifies the logo region of `self`.
    pub fn is_logo_valid(&self) -> (r: bool)
        ensures
            r == (spec_checksum(self.nintendo_logo@) == LOGO_CRC),
    {
        crc::checksum(self.nintendo_logo.as_slice()) == LOGO_CRC
    }

    /// Checks whether `self` belongs to an NTR-only ROM.
    pub fn is_ntr_only(&self) -> (r: bool)
        ensures
            r == (self.unitcode == 0),
    {
        self.unitcode == 0x00
    }
}

/// The outcome the caller observed when reading the two certificate-marker
/// bytes at offset `ntr_rom_size` of an NTR-only image.
#[derive(Clone, Copy, Debug, PartialEq, Eq, Structural)]
pub enum ProbeOutcome {
    /// Exactly two bytes were read.
    Bytes(u8, u8),
    /// End-of-file was reached before two bytes were available.
    UnexpectedEof,
    /// The read failed for any other reason.
    Failed,
}

/// The two bytes are the certificate marker (the bytes "ac").
pub open spec fn spec_is_cert_marker(b0: u8, b1: u8) -> bool {
    b0 == 0x61 && b1 == 0x63
}

/// Checks whether two bytes read from the ROM are the RSA certificate magic
/// bytes, relevant in certain ROMs for Download Play functionality.
pub fn is_cert_marker(b0: u8, b1: u8) -> (r: bool)
    ensures
        r == spec_is_cert_marker(b0, b1),
{
    b0 == 0x61 && b1 == 0x63
}

/// The size of the ROM contents, given the header and the marker probe's
/// outcome. Dual-mode images use the dual-mode size field verbatim and
/// ignore the probe. NTR-only images start from `ntr_rom_size` and keep
/// `RSA_SIZE` more bytes when the marker is present; end-of-file at the
/// probe means the file is already trimmed, and any other failed probe is
/// an I/O error.
pub open spec fn spec_trimmed_size(h: NtrTwlHeader, probe: ProbeOutcome) -> Result<u64, Error> {
    if h.unitcode != 0 {
        Ok(h.ntr_twl_rom_size as u64)
    } else {
        match probe {
            ProbeOutcome::Bytes(b0, b1) => if spec_is_cert_marker(b0, b1) {
                Ok((h.ntr_rom_size + RSA_SIZE) as u64)
            } else {
                Ok(h.ntr_rom_size as u64)
            },
            ProbeOutcome::UnexpectedEof => Err(Error::AlreadyTrimmed),
            ProbeOutcome::Failed => Err(Error::Io),
        }
    }
}

/// A dual-mode header's trimmed size is `ntr_twl_rom_size` verbatim and does
/// not depend on the marker probe in any way, so no probe read is needed
/// for it.
pub proof fn lemma_dual_mode_ignores_probe(h: NtrTwlHeader, p1: ProbeOutcome, p2: ProbeOutcome)
    requires
        h.unitcode != 0,
    ensures
        spec_trimmed_size(h, p1) == spec_trimmed_size(h, p2),
        spec_trimmed_size(h, p1) == Ok::<u64, Error>(h.ntr_twl_rom_size as u64),
{
}

/// A validated NDS file: its on-disk size and its computed content size.
/// The caller keeps the open file handle and performs the actual resize
/// or copy with these sizes.
#[derive(Debug)]
pub struct NdsFile {
    /// The file's on-disk size.
    pub file_size: u64,
    /// The size of the ROM data.
    pub trimmed_size: u64,
}

impl NdsFile {
    /// There are padding bytes to remove.
    pub open spec fn wf(self) -> bool {
        self.trimmed_size < self.file_size
    }

    /// Computes the size of the ROM contents.
    ///
    /// Generally, this matches the size reported in the header, unless the
    /// ROM contains an RSA certificate. In such a case, the size includes
    /// `RSA_SIZE` more bytes to preserve Download Play. The probe is
    /// consulted only for NTR-only headers: a dual-mode header's result
    /// is the same whatever the probe holds.
    pub fn compute_trimmed_size(header: &NtrTwlHeader, probe: &ProbeOutcome) -> (r: Result<
        u64,
        Error,
    >)
        ensures
            r == spec_trimmed_size(*header, *probe),
            header.unitcode != 0 ==> r == Ok::<u64, Error>(header.ntr_twl_rom_size as u64),
            header.unitcode == 0 && (*probe matches ProbeOutcome::Bytes(b0, b1)
                && spec_is_cert_marker(b0, b1)) ==> r == Ok::<u64, Error>(
                (header.ntr_rom_size + RSA_SIZE) as u64,
            ),
            header.unitcode == 0 && (*probe matches ProbeOutcome::Bytes(b0, b1)
                && !spec_is_cert_marker(b0, b1)) ==> r == Ok::<u64, Error>(
                header.ntr_rom_size as u64,
            ),
            header.unitcode == 0 && *probe == ProbeOutcome::UnexpectedEof ==> r == Err::<
                u64,
                Error,
            >(Error::AlreadyTrimmed),
            header.unitcode == 0 && *probe == ProbeOutcome::Failed ==> r == Err::<u64, Error>(
                Error::Io,
            ),
    {
        if !header.is_ntr_only() {
            return Ok(header.ntr_twl_rom_size as u64);
        }
        let mut trimsize: u64 = header.ntr_rom_size as u64;
        match probe {
            ProbeOutcome::Bytes(b0, b1) => {
                if is_cert_marker(*b0, *b1) {
                    trimsize = trimsize + RSA_SIZE;
                }
                Ok(trimsize)
            },
            ProbeOutcome::UnexpectedEof => Err(Error::AlreadyTrimmed),
            ProbeOutcome::Failed => Err(Error::Io),
        }
    }

    /// Validates an opened file's sizes: computes the trimmed size from the
    /// header and the probe outcome, and fails with `Error::AlreadyTrimmed`
    /// when the on-disk size leaves nothing to remove (it is equal to or
    /// smaller than the trimmed size).
    pub fn open(header: &NtrTwlHeader, file_size: u64, probe: &ProbeOutcome) -> (r: Result<
        NdsFile,
        Error,
    >)
        ensures
            r is Ok <==> (spec_trimmed_size(*header, *probe) is Ok && spec_trimmed_size(
                *header,
                *probe,
            )->Ok_0 < file_size),
            match r {
                Ok(f) => f.file_size == file_size && Ok::<u64, Error>(f.trimmed_size)
                    == spec_trimmed_size(*header, *probe) && f.wf(),
                Err(e) => (Err::<u64, Error>(e) == spec_trimmed_size(*header, *probe)) || (e
                    == Error::AlreadyTrimmed && spec_trimmed_size(*header, *probe) is Ok
                    && file_size <= spec_trimmed_size(*header, *probe)->Ok_0),
            },
    {
        let trimmed_size = Self::compute_trimmed_size(header, probe)?;
        if file_size <= trimmed_size {
            return Err(Error::AlreadyTrimmed);
        }
        Ok(NdsFile { file_size, trimmed_size })
    }

    /// Returns `self`'s on-disk file size.
    pub fn file_size(&self) -> (r: u64)
        ensures
            r == self.file_size,
    {
        self.file_size
    }

    /// Returns `self`'s content size.
    pub fn trimmed_size(&self) -> (r: u64)
        ensures
            r == self.trimmed_size,
    {
        self.trimmed_size
    }
}

} // verus!
