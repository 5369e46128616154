//! HFE floppy disk images: the file header, the entries of the track list and
//! the blocks of track data, read from bytes. Numbers of two bytes are little
//! endian.

use vstd::prelude::*;

verus! {

/// Why bytes could not be read.
#[derive(Copy, Clone, Debug, PartialEq, Eq, Structural)]
pub enum HfeError {
    /// The bytes ended before the value did.
    TooShort,
    /// The file does not start with `HXCPICFE`.
    BadMagic,
    /// The byte at this position names none of the values it may name.
    NoVariantMatch(usize),
}

/// Whether to use the alternate encoding for a side of track 0.
#[derive(Copy, Clone, Debug, PartialEq, Eq, Structural)]
pub enum UseAltEncoding {
    /// `0x00`.
    Yes,
    /// `0xFF`.
    No,
}

/// How the drive steps between tracks.
#[derive(Copy, Clone, Debug, PartialEq, Eq, Structural)]
pub enum StepMode {
    /// `0x00`.
    Double,
    /// `0xFF`.
    Single,
}

/// The floppy interface the image is for.
#[derive(Copy, Clone, Debug, PartialEq, Eq, Structural)]
pub enum InterfaceMode {
    /// `0x00`.
    IBMPCDD,
    /// `0x01`.
    IBMPCHD,
    /// `0x02`.
    AtariSTDD,
    /// `0x03`.
    AtariSTHD,
    /// `0x04`.
    AmigaDD,
    /// `0x05`.
    AmigaHD,
    /// `0x06`.
    CPCDD,
    /// `0x07`.
    GenericShuggartDD,
    /// `0x08`.
    IBMPCED,
    /// `0x09`.
    MSX2DD,
    /// `0x0A`.
    C64DD,
    /// `0x0B`.
    EmuShugart,
    /// `0x0C`.
    S950DD,
    /// `0x0D`.
    S950HD,
    /// `0xFE`.
    Disable,
}

/// How a track is encoded.
#[derive(Copy, Clone, Debug, PartialEq, Eq, Structural)]
pub enum TrackEncoding {
    /// `0x00`.
    ISOIBMMFM,
    /// `0x01`.
    AmigaMFM,
    /// `0x02`.
    ISOIBMFM,
    /// `0x03`.
    EmuFM,
    /// `0xFF`.
    Unknown,
}

/// The first bytes of every HFE file: `HXCPICFE`.
pub open spec fn magic() -> Seq<u8> {
    seq![0x48u8, 0x58, 0x43, 0x50, 0x49, 0x43, 0x46, 0x45]
}

/// The number of bytes of a header.
pub open spec fn header_len() -> nat {
    25
}

/// The alternate-encoding flag a byte names.
pub open spec fn alt_of(b: u8) -> Option<UseAltEncoding> {
    if b == 0x00 {
        Some(UseAltEncoding::Yes)
    } else if b == 0xFF {
        Some(UseAltEncoding::No)
    } else {
        None
    }
}

/// The step mode a byte names.
pub open spec fn step_of(b: u8) -> Option<StepMode> {
    if b == 0x00 {
        Some(StepMode::Double)
    } else if b == 0xFF {
        Some(StepMode::Single)
    } else {
        None
    }
}

/// The interface mode a byte names.
pub open spec fn mode_of(b: u8) -> Option<InterfaceMode> {
    if b == 0x00 {
        Some(InterfaceMode::IBMPCDD)
    } else if b == 0x01 {
        Some(InterfaceMode::IBMPCHD)
    } else if b == 0x02 {
        Some(InterfaceMode::AtariSTDD)
    } else if b == 0x03 {
        Some(InterfaceMode::AtariSTHD)
    } else if b == 0x04 {
        Some(InterfaceMode::AmigaDD)
    } else if b == 0x05 {
        Some(InterfaceMode::AmigaHD)
    } else if b == 0x06 {
        Some(InterfaceMode::CPCDD)
    } else if b == 0x07 {
        Some(InterfaceMode::GenericShuggartDD)
    } else if b == 0x08 {
        Some(InterfaceMode::IBMPCED)
    } else if b == 0x09 {
        Some(InterfaceMode::MSX2DD)
    } else if b == 0x0A {
        Some(InterfaceMode::C64DD)
    } else if b == 0x0B {
        Some(InterfaceMode::EmuShugart)
    } else if b == 0x0C {
        Some(InterfaceMode::S950DD)
    } else if b == 0x0D {
        Some(InterfaceMode::S950HD)
    } else if b == 0xFE {
        Some(InterfaceMode::Disable)
    } else {
        None
    }
}

/// The track encoding a byte names.
pub open spec fn encoding_of(b: u8) -> Option<TrackEncoding> {
    if b == 0x00 {
        Some(TrackEncoding::ISOIBMMFM)
    } else if b == 0x01 {
        Some(TrackEncoding::AmigaMFM)
    } else if b == 0x02 {
        Some(TrackEncoding::ISOIBMFM)
    } else if b == 0x03 {
        Some(TrackEncoding::EmuFM)
    } else if b == 0xFF {
        Some(TrackEncoding::Unknown)
    } else {
        None
    }
}

/// The number of two bytes, the low one first.
pub open spec fn le16(lo: u8, hi: u8) -> u16 {
    (lo + 256 * hi) as u16
}

impl UseAltEncoding {
    /// The flag a byte names, if any.
    pub fn from_byte(b: u8) -> (r: Option<Self>)
        ensures
            r == alt_of(b),
    {
        if b == 0x00 {
            Some(UseAltEncoding::Yes)
        } else if b == 0xFF {
            Some(UseAltEncoding::No)
        } else {
            None
        }
    }
}

impl StepMode {
    /// The step mode a byte names, if any.
    pub fn from_byte(b: u8) -> (r: Option<Self>)
        ensures
            r == step_of(b),
    {
        if b == 0x00 {
            Some(StepMode::Double)
        } else if b == 0xFF {
            Some(StepMode::Single)
        } else {
            None
        }
    }
}

impl InterfaceMode {
    /// The interface mode a byte names, if any.
    pub fn from_byte(b: u8) -> (r: Option<Self>)
        ensures
            r == mode_of(b),
    {
        match b {
            0x00 => Some(InterfaceMode::IBMPCDD),
            0x01 => Some(InterfaceMode::IBMPCHD),
            0x02 => Some(InterfaceMode::AtariSTDD),
            0x03 => Some(InterfaceMode::AtariSTHD),
            0x04 => Some(InterfaceMode::AmigaDD),
            0x05 => Some(InterfaceMode::AmigaHD),
            0x06 => Some(InterfaceMode::CPCDD),
            0x07 => Some(InterfaceMode::GenericShuggartDD),
            0x08 => Some(InterfaceMode::IBMPCED),
            0x09 => Some(InterfaceMode::MSX2DD),
            0x0A => Some(InterfaceMode::C64DD),
            0x0B => Some(InterfaceMode::EmuShugart),
            0x0C => Some(InterfaceMode::S950DD),
            0x0D => Some(InterfaceMode::S950HD),
            0xFE => Some(InterfaceMode::Disable),
            _ => None,
        }
    }
}

impl TrackEncoding {
    /// The track encoding a byte names, if any.
    pub fn from_byte(b: u8) -> (r: Option<Self>)
        ensures
            r == encoding_of(b),
    {
        match b {
            0x00 => Some(TrackEncoding::ISOIBMMFM),
            0x01 => Some(TrackEncoding::AmigaMFM),
            0x02 => Some(TrackEncoding::ISOIBMFM),
            0x03 => Some(TrackEncoding::EmuFM),
            0xFF => Some(TrackEncoding::Unknown),
            _ => None,
        }
    }
}

/// The header of an HFE file.
#[derive(Copy, Clone, Debug, PartialEq, Eq, Structural)]
pub struct Header {
    /// Revision 0.
    pub format_revision: u8,
    /// Number of tracks in the file.
    pub tracks: u8,
    /// Number of valid sides.
    pub sides: u8,
    /// Track encoding mode.
    pub encoding: TrackEncoding,
    /// Bitrate in Kbit/s, e.g. 250 = 250000b/s; at most 500.
    pub bitrate: u16,
    /// Rotations per minute.
    pub rpm: u16,
    /// Floppy interface mode.
    pub mode: InterfaceMode,
    /// Free.
    pub dnu: u8,
    /// Offset of the track list in blocks of 512 bytes (e.g. 1 = 0x200).
    pub track_list_offset: u8,
    /// Whether the image may be written.
    pub writable: u8,
    /// `0xFF`: single step, `0x00`: double step.
    pub step: StepMode,
    /// `0x00`: use the alternate encoding for side 0.
    pub track0_s0_altencoding: UseAltEncoding,
    /// Alternate encoding for side 0.
    pub track0_s0_encoding: TrackEncoding,
    /// `0x00`: use the alternate encoding for side 1.
    pub track0_s1_altencoding: UseAltEncoding,
    /// Alternate encoding for side 1.
    pub track0_s1_encoding: TrackEncoding,
}

/// Why a header cannot be read from `b`, if it cannot: its fields are read in
/// turn, and the first that the bytes do not hold, or hold no value of, says.
pub open spec fn header_error(b: Seq<u8>) -> Option<HfeError> {
    if b.len() < 8 {
        Some(HfeError::TooShort)
    } else if b.subrange(0, 8) != magic() {
        Some(HfeError::BadMagic)
    } else if b.len() < 12 {
        Some(HfeError::TooShort)
    } else if encoding_of(b[11]) is None {
        Some(HfeError::NoVariantMatch(11))
    } else if b.len() < 17 {
        Some(HfeError::TooShort)
    } else if mode_of(b[16]) is None {
        Some(HfeError::NoVariantMatch(16))
    } else if b.len() < 21 {
        Some(HfeError::TooShort)
    } else if step_of(b[20]) is None {
        Some(HfeError::NoVariantMatch(20))
    } else if b.len() < 22 {
        Some(HfeError::TooShort)
    } else if alt_of(b[21]) is None {
        Some(HfeError::NoVariantMatch(21))
    } else if b.len() < 23 {
        Some(HfeError::TooShort)
    } else if encoding_of(b[22]) is None {
        Some(HfeError::NoVariantMatch(22))
    } else if b.len() < 24 {
        Some(HfeError::TooShort)
    } else if alt_of(b[23]) is None {
        Some(HfeError::NoVariantMatch(23))
    } else if b.len() < 25 {
        Some(HfeError::TooShort)
    } else if encoding_of(b[24]) is None {
        Some(HfeError::NoVariantMatch(24))
    } else {
        None
    }
}

/// The header that the first 25 bytes of `b` hold, where they hold one.
pub open spec fn header_at(b: Seq<u8>) -> Header {
    Header {
        format_revision: b[8],
        tracks: b[9],
        sides: b[10],
        encoding: encoding_of(b[11])->0,
        bitrate: le16(b[12], b[13]),
        rpm: le16(b[14], b[15]),
        mode: mode_of(b[16])->0,
        dnu: b[17],
        track_list_offset: b[18],
        writable: b[19],
        step: step_of(b[20])->0,
        track0_s0_altencoding: alt_of(b[21])->0,
        track0_s0_encoding: encoding_of(b[22])->0,
        track0_s1_altencoding: alt_of(b[23])->0,
        track0_s1_encoding: encoding_of(b[24])->0,
    }
}

/// The byte an interface mode is stored as.
pub open spec fn mode_code(m: InterfaceMode) -> u8 {
    match m {
        InterfaceMode::IBMPCDD => 0x00,
        InterfaceMode::IBMPCHD => 0x01,
        InterfaceMode::AtariSTDD => 0x02,
        InterfaceMode::AtariSTHD => 0x03,
        InterfaceMode::AmigaDD => 0x04,
        InterfaceMode::AmigaHD => 0x05,
        InterfaceMode::CPCDD => 0x06,
        InterfaceMode::GenericShuggartDD => 0x07,
        InterfaceMode::IBMPCED => 0x08,
        InterfaceMode::MSX2DD => 0x09,
        InterfaceMode::C64DD => 0x0A,
        InterfaceMode::EmuShugart => 0x0B,
        InterfaceMode::S950DD => 0x0C,
        InterfaceMode::S950HD => 0x0D,
        InterfaceMode::Disable => 0xFE,
    }
}

/// The byte a track encoding is stored as.
pub open spec fn encoding_code(e: TrackEncoding) -> u8 {
    match e {
        TrackEncoding::ISOIBMMFM => 0x00,
        TrackEncoding::AmigaMFM => 0x01,
        TrackEncoding::ISOIBMFM => 0x02,
        TrackEncoding::EmuFM => 0x03,
        TrackEncoding::Unknown => 0xFF,
    }
}

/// A byte names an interface mode exactly when it is the byte that mode is
/// stored as: every mode is read back from its own byte, and no two bytes
/// name the same mode.
pub proof fn law_mode_bytes_name_their_modes()
    ensures
        forall|b: u8, m: InterfaceMode| #[trigger] mode_of(b) == Some(m) <==> #[trigger] mode_code(m) == b,
        forall|a: u8, b: u8| #[trigger] mode_of(a) is Some && #[trigger] mode_of(b) == mode_of(a) ==> a == b,
{
    assert forall|b: u8, m: InterfaceMode| #[trigger] mode_of(b) == Some(m) <==> #[trigger] mode_code(m) == b by {
        match m {
            InterfaceMode::IBMPCDD => {},
            InterfaceMode::IBMPCHD => {},
            InterfaceMode::AtariSTDD => {},
            InterfaceMode::AtariSTHD => {},
            InterfaceMode::AmigaDD => {},
            InterfaceMode::AmigaHD => {},
            InterfaceMode::CPCDD => {},
            InterfaceMode::GenericShuggartDD => {},
            InterfaceMode::IBMPCED => {},
            InterfaceMode::MSX2DD => {},
            InterfaceMode::C64DD => {},
            InterfaceMode::EmuShugart => {},
            InterfaceMode::S950DD => {},
            InterfaceMode::S950HD => {},
            InterfaceMode::Disable => {},
        }
    }
    assert forall|a: u8, b: u8| #[trigger] mode_of(a) is Some && #[trigger] mode_of(b) == mode_of(a) implies a
        == b by {
        let m = mode_of(a)->0;
        assert(mode_code(m) == a);
        assert(mode_code(m) == b);
    }
}

/// A byte names a track encoding exactly when it is the byte that encoding
/// is stored as; the two flag bytes name two different settings.
pub proof fn law_flag_bytes_name_their_settings()
    ensures
        forall|b: u8, e: TrackEncoding| #[trigger] encoding_of(b) == Some(e) <==> #[trigger] encoding_code(e) == b,
        alt_of(0x00) == Some(UseAltEncoding::Yes) && alt_of(0xFF) == Some(UseAltEncoding::No),
        forall|b: u8| #[trigger] alt_of(b) is Some <==> (b == 0x00 || b == 0xFF),
        step_of(0x00) == Some(StepMode::Double) && step_of(0xFF) == Some(StepMode::Single),
        forall|b: u8| #[trigger] step_of(b) is Some <==> (b == 0x00 || b == 0xFF),
{
    assert forall|b: u8, e: TrackEncoding| #[trigger] encoding_of(b) == Some(e) <==> #[trigger] encoding_code(e)
        == b by {
        match e {
            TrackEncoding::ISOIBMMFM => {},
            TrackEncoding::AmigaMFM => {},
            TrackEncoding::ISOIBMFM => {},
            TrackEncoding::EmuFM => {},
            TrackEncoding::Unknown => {},
        }
    }
}

/// The byte a step mode is stored as.
pub open spec fn step_code(m: StepMode) -> u8 {
    match m {
        StepMode::Double => 0x00,
        StepMode::Single => 0xFF,
    }
}

/// The byte an alternate-encoding flag is stored as.
pub open spec fn alt_code(a: UseAltEncoding) -> u8 {
    match a {
        UseAltEncoding::Yes => 0x00,
        UseAltEncoding::No => 0xFF,
    }
}

/// The 25 bytes a header is stored as: the magic, then its fields in order,
/// the numbers of two bytes low byte first.
pub open spec fn header_bytes(h: Header) -> Seq<u8> {
    magic() + seq![
        h.format_revision,
        h.tracks,
        h.sides,
        encoding_code(h.encoding),
        (h.bitrate % 256) as u8,
        (h.bitrate / 256) as u8,
        (h.rpm % 256) as u8,
        (h.rpm / 256) as u8,
        mode_code(h.mode),
        h.dnu,
        h.track_list_offset,
        h.writable,
        step_code(h.step),
        alt_code(h.track0_s0_altencoding),
        encoding_code(h.track0_s0_encoding),
        alt_code(h.track0_s1_altencoding),
        encoding_code(h.track0_s1_encoding),
    ]
}

/// A number of two bytes is read back from its low and high bytes.
proof fn lemma_le16_round_trip(v: u16)
    ensures
        le16((v % 256) as u8, (v / 256) as u8) == v,
{
    assert((v % 256) + 256 * (v / 256) == v) by (nonlinear_arith);
}

/// Reading a header back from the bytes it is stored as gives the same
/// header: every field is read from the place it is stored at.
pub proof fn law_header_round_trip(h: Header)
    ensures
        header_bytes(h).len() == header_len(),
        header_error(header_bytes(h)) is None,
        header_at(header_bytes(h)) == h,
{
    let b = header_bytes(h);
    assert(b.subrange(0, 8) =~= magic());
    lemma_le16_round_trip(h.bitrate);
    lemma_le16_round_trip(h.rpm);
    law_mode_bytes_name_their_modes();
    law_flag_bytes_name_their_settings();
    assert(encoding_of(encoding_code(h.encoding)) == Some(h.encoding));
    assert(encoding_of(encoding_code(h.track0_s0_encoding)) == Some(h.track0_s0_encoding));
    assert(encoding_of(encoding_code(h.track0_s1_encoding)) == Some(h.track0_s1_encoding));
    assert(mode_of(mode_code(h.mode)) == Some(h.mode));
    assert(step_of(step_code(h.step)) == Some(h.step)) by {
        match h.step {
            StepMode::Double => {},
            StepMode::Single => {},
        }
    }
    assert(alt_of(alt_code(h.track0_s0_altencoding)) == Some(h.track0_s0_altencoding)) by {
        match h.track0_s0_altencoding {
            UseAltEncoding::Yes => {},
            UseAltEncoding::No => {},
        }
    }
    assert(alt_of(alt_code(h.track0_s1_altencoding)) == Some(h.track0_s1_altencoding)) by {
        match h.track0_s1_altencoding {
            UseAltEncoding::Yes => {},
            UseAltEncoding::No => {},
        }
    }
}

/// Reading a header looks at its 25 bytes only: whatever follows them, the
/// result is the one the 25 bytes give.
pub proof fn law_header_reads_only_its_bytes(b: Seq<u8>)
    requires
        b.len() >= header_len(),
    ensures
        header_error(b) == header_error(b.subrange(0, 25)),
        header_error(b) is None ==> header_at(b) == header_at(b.subrange(0, 25)),
{
    let h = b.subrange(0, 25);
    assert(h.subrange(0, 8) =~= b.subrange(0, 8));
}

/// The number of two bytes of `b` at `i`, the low one first.
fn read_u16(b: &[u8], i: usize) -> (r: u16)
    requires
        i + 1 < b@.len(),
    ensures
        r == le16(b@[i as int], b@[i + 1]),
{
    let lo = b[i] as u16;
    let hi = b[i + 1] as u16;
    lo + 256 * hi
}

impl Header {
    /// Reads a header from the start of `bytes`.
    pub fn read(bytes: &[u8]) -> (r: Result<Header, HfeError>)
        ensures
            r == match header_error(bytes@) {
                Some(e) => Err(e),
                None => Ok(header_at(bytes@)),
            },
    {
        let n = bytes.len();
        if n < 8 {
            return Err(HfeError::TooShort);
        }
        let signature: [u8; 8] = [0x48, 0x58, 0x43, 0x50, 0x49, 0x43, 0x46, 0x45];
        let mut i: usize = 0;
        while i < 8
            invariant
                i <= 8,
                n == bytes@.len(),
                n >= 8,
                signature@ == magic(),
                forall|j: int| 0 <= j < i ==> bytes@[j] == signature@[j],
            decreases 8 - i,
        {
            if bytes[i] != signature[i] {
                assert(bytes@.subrange(0, 8)[i as int] != magic()[i as int]);
                return Err(HfeError::BadMagic);
            }
            i = i + 1;
        }
        assert(bytes@.subrange(0, 8) =~= magic());
        if n < 12 {
            return Err(HfeError::TooShort);
        }
        let encoding = match TrackEncoding::from_byte(bytes[11]) {
            Some(e) => e,
            None => return Err(HfeError::NoVariantMatch(11)),
        };
        if n < 17 {
            return Err(HfeError::TooShort);
        }
        let mode = match InterfaceMode::from_byte(bytes[16]) {
            Some(m) => m,
            None => return Err(HfeError::NoVariantMatch(16)),
        };
        if n < 21 {
            return Err(HfeError::TooShort);
        }
        let step = match StepMode::from_byte(bytes[20]) {
            Some(s) => s,
            None => return Err(HfeError::NoVariantMatch(20)),
        };
        if n < 22 {
            return Err(HfeError::TooShort);
        }
        let track0_s0_altencoding = match UseAltEncoding::from_byte(bytes[21]) {
            Some(a) => a,
            None => return Err(HfeError::NoVariantMatch(21)),
        };
        if n < 23 {
            return Err(HfeError::TooShort);
        }
        let track0_s0_encoding = match TrackEncoding::from_byte(bytes[22]) {
            Some(e) => e,
            None => return Err(HfeError::NoVariantMatch(22)),
        };
        if n < 24 {
            return Err(HfeError::TooShort);
        }
        let track0_s1_altencoding = match UseAltEncoding::from_byte(bytes[23]) {
            Some(a) => a,
            None => return Err(HfeError::NoVariantMatch(23)),
        };
        if n < 25 {
            return Err(HfeError::TooShort);
        }
        let track0_s1_encoding = match TrackEncoding::from_byte(bytes[24]) {
            Some(e) => e,
            None => return Err(HfeError::NoVariantMatch(24)),
        };
        Ok(Header {
            format_revision: bytes[8],
            tracks: bytes[9],
            sides: bytes[10],
            encoding,
            bitrate: read_u16(bytes, 12),
            rpm: read_u16(bytes, 14),
            mode,
            dnu: bytes[17],
            track_list_offset: bytes[18],
            writable: bytes[19],
            step,
            track0_s0_altencoding,
            track0_s0_encoding,
            track0_s1_altencoding,
            track0_s1_encoding,
        })
    }
}

/// An entry of the track list.
#[derive(Copy, Clone, Debug, PartialEq, Eq, Structural)]
pub struct TrackInfo {
    /// Offset of the track data in blocks of 512 bytes (e.g. 2 = 0x400).
    pub offset: u16,
    /// Length of the track data in bytes.
    pub length: u16,
}

impl TrackInfo {
    /// Reads an entry of the track list from the start of `bytes`.
    pub fn read(bytes: &[u8]) -> (r: Result<TrackInfo, HfeError>)
        ensures
            r == if bytes@.len() < 4 {
                Err(HfeError::TooShort)
            } else {
                Ok(TrackInfo { offset: le16(bytes@[0], bytes@[1]), length: le16(bytes@[2], bytes@[3]) })
            },
    {
        if bytes.len() < 4 {
            return Err(HfeError::TooShort);
        }
        Ok(TrackInfo { offset: read_u16(bytes, 0), length: read_u16(bytes, 2) })
    }
}

/// A block of track data: 512 bytes of side 0, then 512 bytes of side 1.
#[derive(Clone, Debug, PartialEq, Eq)]
pub struct TrackBlock {
    pub side_0: Vec<u8>,
    pub side_1: Vec<u8>,
}

/// The `n` bytes of `b` from `start` on.
fn copy_bytes(b: &[u8], start: usize, n: usize) -> (r: Vec<u8>)
    requires
        start + n <= b@.len(),
    ensures
        r@ == b@.subrange(start as int, start + n),
{
    let mut r: Vec<u8> = Vec::new();
    let mut i: usize = 0;
    while i < n
        invariant
            i <= n,
            start + n <= b@.len(),
            r@ == b@.subrange(start as int, start + i),
        decreases n - i,
    {
        assert(start + i < b.len());
        r.push(b[start + i]);
        assert(b@.subrange(start as int, start + i + 1) =~= b@.subrange(start as int, start + i).push(
            b@[start + i],
        ));
        i = i + 1;
    }
    r
}

impl TrackBlock {
    /// Reads a block of track data from the start of `bytes`.
    pub fn read(bytes: &[u8]) -> (r: Result<TrackBlock, HfeError>)
        ensures
            bytes@.len() < 1024 ==> r == Err::<TrackBlock, HfeError>(HfeError::TooShort),
            bytes@.len() >= 1024 ==> (r matches Ok(t) && t.side_0@ == bytes@.subrange(0, 512)
                && t.side_1@ == bytes@.subrange(512, 1024)),
    {
        if bytes.len() < 1024 {
            return Err(HfeError::TooShort);
        }
        Ok(TrackBlock { side_0: copy_bytes(bytes, 0, 512), side_1: copy_bytes(bytes, 512, 512) })
    }
}

/// A track: its entry in the track list and its blocks of data.
#[derive(Clone, Debug)]
pub struct Track {
    pub info: TrackInfo,
    pub blocks: Vec<TrackBlock>,
}

} // verus!
