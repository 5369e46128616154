//! AKAI S900/S2000/S3000 floppy disk images: the sections of a blank disk, and
//! the character set of names on the disk.

use vstd::prelude::*;

verus! {

/// The characters of names on AKAI disks, by code.
pub open spec fn charset() -> Seq<char> {
    seq![
        '0', '1', '2', '3', '4', '5', '6', '7', '8', '9',
        ' ',
        'A', 'B', 'C', 'D', 'E', 'F', 'G', 'H', 'I', 'J',
        'K', 'L', 'M', 'N', 'O', 'P', 'Q', 'R', 'S', 'T',
        'U', 'V', 'W', 'X', 'Y', 'Z', '#', '+', '-', '.',
    ]
}

/// The code of the space in the AKAI character set.
pub open spec fn akai_space() -> u8 {
    10
}

/// The character of each code of the AKAI character set.
pub fn characters() -> (r: [char; 41])
    ensures
        r@ == charset(),
{
    let r = [
        '0', '1', '2', '3', '4', '5', '6', '7', '8', '9',
        ' ',
        'A', 'B', 'C', 'D', 'E', 'F', 'G', 'H', 'I', 'J',
        'K', 'L', 'M', 'N', 'O', 'P', 'Q', 'R', 'S', 'T',
        'U', 'V', 'W', 'X', 'Y', 'Z', '#', '+', '-', '.',
    ];
    assert(r@ =~= charset());
    r
}

/// The AKAI code of an ASCII byte: its position in the character set; a byte
/// that is not in the set becomes a space.
pub open spec fn akai_code(b: u8) -> u8 {
    if 48 <= b <= 57 {
        (b - 48) as u8
    } else if 65 <= b <= 90 {
        (b - 65 + 11) as u8
    } else if b == 35 {
        37
    } else if b == 43 {
        38
    } else if b == 45 {
        39
    } else if b == 46 {
        40
    } else {
        akai_space()
    }
}

/// The ASCII byte of an AKAI code: the character at that position in the
/// set; a code past the set becomes a space.
pub open spec fn ascii_byte(c: u8) -> u8 {
    if c <= 9 {
        (c + 48) as u8
    } else if 11 <= c <= 36 {
        (c - 11 + 65) as u8
    } else if c == 37 {
        35
    } else if c == 38 {
        43
    } else if c == 39 {
        45
    } else if c == 40 {
        46
    } else {
        32
    }
}

/// The AKAI code of an ASCII byte.
fn to_akai(b: u8) -> (r: u8)
    ensures
        r == akai_code(b),
{
    if 48 <= b && b <= 57 {
        b - 48
    } else if 65 <= b && b <= 90 {
        b - 65 + 11
    } else if b == 35 {
        37
    } else if b == 43 {
        38
    } else if b == 45 {
        39
    } else if b == 46 {
        40
    } else {
        10
    }
}

/// The ASCII byte of an AKAI code.
fn to_ascii(c: u8) -> (r: u8)
    ensures
        r == ascii_byte(c),
{
    if c <= 9 {
        c + 48
    } else if 11 <= c && c <= 36 {
        c - 11 + 65
    } else if c == 37 {
        35
    } else if c == 38 {
        43
    } else if c == 39 {
        45
    } else if c == 40 {
        46
    } else {
        32
    }
}

/// ASCII text in the AKAI character set, byte by byte.
pub fn ascii2akai(inp: Vec<u8>) -> (r: Vec<u8>)
    ensures
        r@ == inp@.map_values(|b: u8| akai_code(b)),
{
    let mut r: Vec<u8> = Vec::new();
    let mut i: usize = 0;
    while i < inp.len()
        invariant
            i <= inp.len(),
            r@ == inp@.subrange(0, i as int).map_values(|b: u8| akai_code(b)),
        decreases inp.len() - i,
    {
        r.push(to_akai(inp[i]));
        assert(inp@.subrange(0, (i + 1) as int) =~= inp@.subrange(0, i as int).push(inp@[i as int]));
        i = i + 1;
    }
    assert(inp@.subrange(0, inp.len() as int) =~= inp@);
    r
}

/// Text in the AKAI character set as ASCII, byte by byte.
pub fn akai2ascii(inp: Vec<u8>) -> (r: Vec<u8>)
    ensures
        r@ == inp@.map_values(|c: u8| ascii_byte(c)),
{
    let mut r: Vec<u8> = Vec::new();
    let mut i: usize = 0;
    while i < inp.len()
        invariant
            i <= inp.len(),
            r@ == inp@.subrange(0, i as int).map_values(|c: u8| ascii_byte(c)),
        decreases inp.len() - i,
    {
        r.push(to_ascii(inp[i]));
        assert(inp@.subrange(0, (i + 1) as int) =~= inp@.subrange(0, i as int).push(inp@[i as int]));
        i = i + 1;
    }
    assert(inp@.subrange(0, inp.len() as int) =~= inp@);
    r
}

/// Each code of the set stands for the character at its position in
/// `characters()`, and that character's code is the position again.
pub proof fn lemma_codes_are_positions(c: u8)
    requires
        c < 41,
    ensures
        ascii_byte(c) as char == charset()[c as int],
        akai_code(ascii_byte(c)) == c,
{
    assert(charset().len() == 41);
    if c < 10 {
        assert(charset()[c as int] == ((c + 48) as u8) as char);
    }
}

/// A byte of the character set comes back from its code unchanged.
pub proof fn lemma_ascii_round_trip(b: u8)
    requires
        akai_code(b) != akai_space() || b == 32,
    ensures
        ascii_byte(akai_code(b)) == b,
{
}

/// A code of the set comes back from its byte unchanged.
pub proof fn lemma_akai_round_trip(c: u8)
    requires
        c < 41,
    ensures
        akai_code(ascii_byte(c)) == c,
{
}

/// The sampler models.
#[derive(Copy, Clone, Debug, PartialEq, Eq, Structural)]
pub enum DeviceModel {
    S900,
    S2000,
    S3000,
}

/// A sampler.
#[derive(Copy, Clone, Debug, PartialEq, Eq, Structural)]
pub struct Device {
    pub model: DeviceModel,
}

impl Device {
    /// An S900.
    pub fn s900() -> (r: Device)
        ensures
            r.model == DeviceModel::S900,
    {
        Device { model: DeviceModel::S900 }
    }

    /// An S2000.
    pub fn s2000() -> (r: Device)
        ensures
            r.model == DeviceModel::S2000,
    {
        Device { model: DeviceModel::S2000 }
    }

    /// An S3000.
    pub fn s3000() -> (r: Device)
        ensures
            r.model == DeviceModel::S3000,
    {
        Device { model: DeviceModel::S3000 }
    }
}

/// `n` zero bytes.
pub open spec fn zeros(n: nat) -> Seq<u8> {
    Seq::new(n, |i: int| 0u8)
}

/// `s`, `n` times over.
pub open spec fn repeated(s: Seq<u8>, n: nat) -> Seq<u8>
    decreases n,
{
    if n == 0 {
        Seq::empty()
    } else {
        repeated(s, (n - 1) as nat) + s
    }
}

/// The number that names the model in the disk header.
pub open spec fn model_id(model: DeviceModel) -> u8 {
    match model {
        DeviceModel::S900 => 0,
        DeviceModel::S2000 => 17,
        DeviceModel::S3000 => 16,
    }
}

/// One record of the disk header; only the first is marked with `0xFF`.
pub open spec fn header_record(model: DeviceModel, first: bool) -> Seq<u8> {
    seq![
        0x0Au8, 0x0A, 0x0A, 0x0A, 0x0A, 0x0A, 0x0A, 0x0A,
        0x0A, 0x0A, 0x0A, 0x0A, 0x00, 0x00, 0x06, 0x0A,
        if first { 0xFFu8 } else { 0x00u8 }, 0x00, 0x00, 0x04, 0x00, 0x00, 0x00, model_id(model),
    ]
}

/// The disk header: the first record, 63 more, and 17 times `00 40`.
pub open spec fn header_section(model: DeviceModel) -> Seq<u8> {
    header_record(model, true) + repeated(header_record(model, false), 63) + repeated(seq![0x00u8, 0x40u8], 17)
}

/// The volume name: "NOT NAMED" in the AKAI character set, padded with spaces.
pub open spec fn volume_name() -> Seq<u8> {
    seq![0x18u8, 0x19, 0x1E, 0x0A, 0x18, 0x0B, 0x17, 0x0F, 0x0E, 0x0A, 0x0A, 0x0A]
}

/// The start of the settings section, which the S900 does not have.
pub open spec fn settings_start(model: DeviceModel) -> Seq<u8> {
    match model {
        DeviceModel::S3000 => seq![0x00u8, 0x00, 0x32, 0x10, 0x00, 0x01, 0x01, 0x00, 0x00, 0x00, 0x32, 0x09, 0x0C, 0xFF],
        _ => seq![0x00u8, 0x00, 0x00, 0x11, 0x00, 0x01, 0x01, 0x23, 0x00, 0x00, 0x32, 0x09, 0x0C, 0xFF],
    }
}

/// The settings section.
pub open spec fn settings_section(model: DeviceModel) -> Seq<u8> {
    settings_start(model) + zeros(358)
}

/// A blank disk of a model: header, free space, volume name, settings, 512
/// empty directory entries of 24 bytes, and 1583 empty sectors of 1024 bytes.
pub open spec fn blank_disk(model: DeviceModel) -> Seq<u8> {
    header_section(model) + zeros(3166) + volume_name() + settings_section(model) + zeros(12288)
        + zeros(1620992)
}

/// `s`, `n` times over, is `n` times as long as `s`.
pub proof fn lemma_repeated_len(s: Seq<u8>, n: nat)
    ensures
        repeated(s, n).len() == n * s.len(),
    decreases n,
{
    if n > 0 {
        lemma_repeated_len(s, (n - 1) as nat);
        assert(repeated(s, n).len() == repeated(s, (n - 1) as nat).len() + s.len());
        assert((n - 1) * s.len() + s.len() == n * s.len()) by (nonlinear_arith)
            requires
                n > 0,
        ;
    } else {
        assert(0 * s.len() == 0);
    }
}

/// A blank disk holds 1638400 bytes: a header of 1570 bytes, the volume name
/// at offset 4736, the settings after it, 512 empty directory entries from
/// offset 5120 and the empty data sectors from offset 17408.
pub proof fn lemma_blank_disk_layout(model: DeviceModel)
    ensures
        header_section(model).len() == 1570,
        blank_disk(model).len() == 1638400,
        blank_disk(model).subrange(0, 1570) == header_section(model),
        blank_disk(model).subrange(1570, 4736) == zeros(3166),
        blank_disk(model).subrange(4736, 4748) == volume_name(),
        blank_disk(model).subrange(4748, 5120) == settings_section(model),
        blank_disk(model).subrange(5120, 17408) == zeros(12288),
        blank_disk(model).subrange(17408, 1638400) == zeros(1620992),
{
    lemma_repeated_len(header_record(model, false), 63);
    lemma_repeated_len(seq![0x00u8, 0x40u8], 17);
    let d = blank_disk(model);
    let h = header_section(model);
    assert(d.subrange(0, 1570) =~= h);
    assert(d.subrange(1570, 4736) =~= zeros(3166));
    assert(d.subrange(4736, 4748) =~= volume_name());
    assert(d.subrange(4748, 5120) =~= settings_section(model));
    assert(d.subrange(5120, 17408) =~= zeros(12288));
    assert(d.subrange(17408, 1638400) =~= zeros(1620992));
}

/// Appends `n` copies of `s` to `out`.
fn push_repeated(out: &mut Vec<u8>, s: &Vec<u8>, n: usize)
    ensures
        final(out)@ == old(out)@ + repeated(s@, n as nat),
{
    let ghost start = out@;
    let mut k: usize = 0;
    assert(start + repeated(s@, 0) =~= start);
    while k < n
        invariant
            k <= n,
            out@ == start + repeated(s@, k as nat),
        decreases n - k,
    {
        let mut j: usize = 0;
        let ghost before = out@;
        while j < s.len()
            invariant
                j <= s.len(),
                out@ == before + s@.subrange(0, j as int),
            decreases s.len() - j,
        {
            out.push(s[j]);
            assert(s@.subrange(0, (j + 1) as int) =~= s@.subrange(0, j as int).push(s@[j as int]));
            j = j + 1;
        }
        assert(s@.subrange(0, s.len() as int) =~= s@);
        assert(start + repeated(s@, (k + 1) as nat) =~= start + repeated(s@, k as nat) + s@);
        k = k + 1;
    }
}

/// Appends `n` zero bytes to `out`.
fn push_zeros(out: &mut Vec<u8>, n: usize)
    ensures
        final(out)@ == old(out)@ + zeros(n as nat),
{
    let ghost start = out@;
    let mut k: usize = 0;
    while k < n
        invariant
            k <= n,
            out@ == start + zeros(k as nat),
        decreases n - k,
    {
        out.push(0);
        assert(start + zeros((k + 1) as nat) =~= (start + zeros(k as nat)).push(0u8));
        k = k + 1;
    }
    assert(start + zeros(n as nat) =~= out@);
}

/// The bytes of a header record.
fn header_record_bytes(model: DeviceModel, first: bool) -> (r: Vec<u8>)
    ensures
        r@ == header_record(model, first),
{
    let id: u8 = match model {
        DeviceModel::S900 => 0,
        DeviceModel::S2000 => 17,
        DeviceModel::S3000 => 16,
    };
    let mark: u8 = if first { 0xFF } else { 0x00 };
    let r = vec![
        0x0Au8, 0x0A, 0x0A, 0x0A, 0x0A, 0x0A, 0x0A, 0x0A,
        0x0A, 0x0A, 0x0A, 0x0A, 0x00, 0x00, 0x06, 0x0A,
        mark, 0x00, 0x00, 0x04, 0x00, 0x00, 0x00, id,
    ];
    assert(r@ =~= header_record(model, first));
    r
}

/// The sections of a blank disk, each as its own bytes.
pub trait DiskSections {
    /// Whether the disk has a settings section.
    spec fn has_settings(&self) -> bool;

    /// The disk header.
    fn dp1(&self) -> Vec<u8>;

    /// Free space after the header.
    fn dp2(&self) -> Vec<u8>;

    /// The volume name in the AKAI character set, at offset 4736.
    fn dp3(&self) -> Vec<u8>;

    /// The settings, which differ between the S2000 and the S3000.
    fn dp4(&self) -> Vec<u8>
        requires
            self.has_settings(),
    ;

    /// 512 empty directory entries, at offset 5120.
    fn dp5(&self) -> Vec<u8>;

    /// 1583 empty sectors of 1024 bytes for data, at offset 17408.
    fn dp6(&self) -> Vec<u8>;
}

impl DiskSections for DeviceModel {
    /// Every model but the S900 has settings.
    open spec fn has_settings(&self) -> bool {
        *self != DeviceModel::S900
    }

    fn dp1(&self) -> (r: Vec<u8>)
        ensures
            r@ == header_section(*self),
    {
        let mut r = header_record_bytes(*self, true);
        let rest = header_record_bytes(*self, false);
        push_repeated(&mut r, &rest, 63);
        let tail: Vec<u8> = vec![0x00, 0x40];
        assert(tail@ =~= seq![0x00u8, 0x40u8]);
        push_repeated(&mut r, &tail, 17);
        r
    }

    fn dp2(&self) -> (r: Vec<u8>)
        ensures
            r@ == zeros(3166),
    {
        let mut r: Vec<u8> = Vec::new();
        push_zeros(&mut r, 3166);
        assert(r@ =~= zeros(3166));
        r
    }

    fn dp3(&self) -> (r: Vec<u8>)
        ensures
            r@ == volume_name(),
    {
        let r: Vec<u8> = vec![0x18, 0x19, 0x1E, 0x0A, 0x18, 0x0B, 0x17, 0x0F, 0x0E, 0x0A, 0x0A, 0x0A];
        assert(r@ =~= volume_name());
        r
    }

    fn dp4(&self) -> (r: Vec<u8>)
        ensures
            r@ == settings_section(*self),
    {
        let mut r: Vec<u8> = match self {
            DeviceModel::S3000 => vec![0x00, 0x00, 0x32, 0x10, 0x00, 0x01, 0x01, 0x00, 0x00, 0x00, 0x32, 0x09, 0x0C, 0xFF],
            _ => vec![0x00, 0x00, 0x00, 0x11, 0x00, 0x01, 0x01, 0x23, 0x00, 0x00, 0x32, 0x09, 0x0C, 0xFF],
        };
        assert(r@ =~= settings_start(*self));
        push_zeros(&mut r, 358);
        r
    }

    fn dp5(&self) -> (r: Vec<u8>)
        ensures
            r@ == zeros(12288),
    {
        let mut r: Vec<u8> = Vec::new();
        push_zeros(&mut r, 12288);
        assert(r@ =~= zeros(12288));
        r
    }

    fn dp6(&self) -> (r: Vec<u8>)
        ensures
            r@ == zeros(1620992),
    {
        let mut r: Vec<u8> = Vec::new();
        push_zeros(&mut r, 1620992);
        assert(r@ =~= zeros(1620992));
        r
    }
}

/// The image of a disk of a sampler.
#[derive(Clone, Debug)]
pub struct DiskImage {
    pub model: DeviceModel,
    pub data: Vec<u8>,
}

/// What a sampler can make of a disk.
pub trait DeviceDisk {
    /// Whether the sampler can make a blank disk.
    spec fn has_blank_disk(&self) -> bool;

    /// A blank disk for the sampler.
    fn create_blank_disk(&self) -> DiskImage
        requires
            self.has_blank_disk(),
    ;
}

impl DeviceDisk for Device {
    /// The S900 has no settings section, and so no blank disk.
    open spec fn has_blank_disk(&self) -> bool {
        self.model != DeviceModel::S900
    }

    fn create_blank_disk(&self) -> (r: DiskImage)
        ensures
            r.model == self.model,
            r.data@ == blank_disk(self.model),
    {
        let model = self.model;
        let mut data = model.dp1();
        let mut part = model.dp2();
        data.append(&mut part);
        let mut part = model.dp3();
        data.append(&mut part);
        let mut part = model.dp4();
        data.append(&mut part);
        let mut part = model.dp5();
        data.append(&mut part);
        let mut part = model.dp6();
        data.append(&mut part);
        DiskImage { model, data }
    }
}

/// The kinds of files on a disk.
#[derive(Copy, Clone, Debug, PartialEq, Eq, Structural)]
pub enum DataTypes {
    Program,
    Sample,
    Effects,
    Multi,
    OS,
    Deleted,
}

impl DataTypes {
    /// The number that stands for the kind of file.
    pub fn code(&self) -> (r: u16)
        ensures
            r == match *self {
                DataTypes::Program => 240u16,
                DataTypes::Sample => 243,
                DataTypes::Effects => 130,
                DataTypes::Multi => 2378,
                DataTypes::OS => 99,
                DataTypes::Deleted => 0,
            },
    {
        match self {
            DataTypes::Program => 240,
            DataTypes::Sample => 243,
            DataTypes::Effects => 130,
            DataTypes::Multi => 2378,
            DataTypes::OS => 99,
            DataTypes::Deleted => 0,
        }
    }
}

} // verus!
