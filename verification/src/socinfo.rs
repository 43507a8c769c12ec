//! The Qualcomm SoC information block (`struct socinfo` in shared memory): its layout, how a
//! possibly short copy of it is read, and which of its fields exist for a given format version.
//!
//! The block is held as its byte image. Every multi-byte field is little endian.

use vstd::prelude::*;
use crate::data::SocId;
use crate::error::{Error, EINVAL};
use crate::soc::DeviceAttribute;
use crate::text::{dec, until_nul, bytes_until_nul, push_dec, push_str};
use vstd::string::StringSliceAdditionalSpecFns;

verus! {

/// Size of `struct socinfo` up to and including the last field this driver reads.
pub const SOCINFO_SIZE: usize = 216;

/// Offset of `fmt`, the format version of the block.
pub const FMT: usize = 0;
/// Offset of `id`.
pub const ID: usize = 4;
/// Offset of `ver`.
pub const VER: usize = 8;
/// Offset of `build_id`.
pub const BUILD_ID: usize = 12;
/// Length of `build_id`.
pub const BUILD_ID_LEN: usize = 32;
/// Offset of `raw_ver` (format 2).
pub const RAW_VER: usize = 48;
/// Offset of `hw_plat` (format 3).
pub const HW_PLAT: usize = 52;
/// Offset of `plat_ver` (format 4).
pub const PLAT_VER: usize = 56;
/// Offset of `accessory_chip` (format 5).
pub const ACCESSORY_CHIP: usize = 60;
/// Offset of `hw_plat_subtype` (format 6).
pub const HW_PLAT_SUBTYPE: usize = 64;
/// Offset of `pmic_model` (format 7).
pub const PMIC_MODEL: usize = 68;
/// Offset of `pmic_die_rev` (format 7).
pub const PMIC_DIE_REV: usize = 72;
/// Offset of `foundry_id` (format 9).
pub const FOUNDRY_ID: usize = 92;
/// Offset of `serial_num` (format 10).
pub const SERIAL_NUM: usize = 96;
/// Offset of `num_pmics` (format 11).
pub const NUM_PMICS: usize = 100;
/// Offset of `pmic_array_offset` (format 11).
pub const PMIC_ARRAY_OFFSET: usize = 104;
/// Offset of `chip_family` (format 12).
pub const CHIP_FAMILY: usize = 108;
/// Offset of `raw_device_family` (format 12).
pub const RAW_DEVICE_FAMILY: usize = 112;
/// Offset of `raw_device_num` (format 12).
pub const RAW_DEVICE_NUM: usize = 116;
/// Offset of `nproduct_id` (format 13).
pub const NPRODUCT_ID: usize = 120;
/// Offset of `chip_id` (format 13).
pub const CHIP_ID: usize = 124;
/// Length of `chip_id`.
pub const CHIP_ID_LEN: usize = 32;
/// Offset of `num_clusters` (format 14).
pub const NUM_CLUSTERS: usize = 156;
/// Offset of `ncluster_array_offset` (format 14).
pub const NCLUSTER_ARRAY_OFFSET: usize = 160;
/// Offset of `num_subset_parts` (format 14).
pub const NUM_SUBSET_PARTS: usize = 164;
/// Offset of `nsubset_parts_array_offset` (format 14).
pub const NSUBSET_PARTS_ARRAY_OFFSET: usize = 168;
/// Offset of `nmodem_supported` (format 15).
pub const NMODEM_SUPPORTED: usize = 172;
/// Offset of `feature_code` (format 16).
pub const FEATURE_CODE: usize = 176;
/// Offset of `pcode` (format 16).
pub const PCODE: usize = 180;
/// Offset of `oem_variant` (format 17).
pub const OEM_VARIANT: usize = 192;
/// Offset of `num_func_clusters` (format 19).
pub const NUM_FUNC_CLUSTERS: usize = 204;
/// Offset of `boot_cluster` (format 19).
pub const BOOT_CLUSTER: usize = 208;
/// Offset of `boot_core` (format 19).
pub const BOOT_CORE: usize = 212;

/// Size of one PMIC entry (`model`, `die_rev`).
pub const PMIC_ENTRY_SIZE: usize = 8;
/// Alignment of one PMIC entry.
pub const PMIC_ENTRY_ALIGN: usize = 4;
/// Size of one image-version record.
pub const IMAGE_VERSION_SIZE: usize = 128;
/// Length of the image name.
pub const IMAGE_NAME_LEN: usize = 75;
/// Offset and length of the image variant.
pub const IMAGE_VARIANT: usize = 75;
/// Length of the image variant.
pub const IMAGE_VARIANT_LEN: usize = 20;
/// Offset of the OEM string (after one pad byte).
pub const IMAGE_OEM: usize = 96;
/// Length of the OEM string.
pub const IMAGE_OEM_LEN: usize = 32;

/// The little-endian `u32` at `off` in `s`.
pub open spec fn le32(s: Seq<u8>, off: int) -> u32 {
    (s[off] as int + 256 * (s[off + 1] as int) + 65536 * (s[off + 2] as int) + 16777216 * (
    s[off + 3] as int)) as u32
}

/// The block as the driver sees it after copying at most `SOCINFO_SIZE` bytes of `mem` into a
/// zeroed block: byte `i` is `mem[i]` where `mem` is long enough, and zero past its end.
pub open spec fn partial_image(mem: Seq<u8>) -> Seq<u8> {
    Seq::new(SOCINFO_SIZE as nat, |i: int| if i < mem.len() { mem[i] } else { 0u8 })
}

/// The field at `off` if the format version `fmt` is at least `since`, else `None`.
pub open spec fn versioned(img: Seq<u8>, since: u32, off: int) -> Option<u32> {
    if le32(img, FMT as int) >= since {
        Some(le32(img, off))
    } else {
        None
    }
}

/// A version word's major (high half) and minor (low half) parts.
pub open spec fn version_split_spec(ver: u32) -> (u16, u16) {
    ((ver / 0x10000) as u16, (ver % 0x10000) as u16)
}

/// The version word with major part `major` and minor part `minor`.
pub open spec fn version_fuse_spec(major: u16, minor: u16) -> u32 {
    (major * 0x10000 + minor) as u32
}

/// Splitting a fused version gives back its parts, and fusing the parts of a version word gives
/// back the word.
pub proof fn lemma_version_roundtrip(major: u16, minor: u16, ver: u32)
    ensures
        version_split_spec(version_fuse_spec(major, minor)) == (major, minor),
        version_fuse_spec(version_split_spec(ver).0, version_split_spec(ver).1) == ver,
{
    let f = major * 0x10000 + minor;
    assert(f < 0x1_0000_0000) by (nonlinear_arith)
        requires
            f == major * 0x10000 + minor,
            major < 0x10000,
            minor < 0x10000,
    ;
    assert(f / 0x10000 == major && f % 0x10000 == minor) by (nonlinear_arith)
        requires
            f == major * 0x10000 + minor,
            minor < 0x10000,
            major >= 0,
    ;
    assert((ver / 0x10000) * 0x10000 + ver % 0x10000 == ver) by (nonlinear_arith);
    assert(ver / 0x10000 < 0x10000) by (nonlinear_arith)
        requires
            ver < 0x1_0000_0000,
    ;
}

/// Reading a field of the copied block gives the field of the memory it was copied from when
/// the memory holds the whole field, and zero when the memory ends before the field starts.
pub proof fn lemma_partial_image_field(mem: Seq<u8>, off: int)
    requires
        0 <= off,
        off + 4 <= SOCINFO_SIZE,
    ensures
        off + 4 <= mem.len() ==> le32(partial_image(mem), off) == le32(mem, off),
        mem.len() <= off ==> le32(partial_image(mem), off) == 0,
{
}

/// Copies the start of `soc_info_mem` into a zeroed block: as many bytes as both have.
pub fn soc_info_from_partial_bytes(soc_info_mem: &[u8]) -> (r: Vec<u8>)
    ensures
        r@ == partial_image(soc_info_mem@),
{
    let len = if soc_info_mem.len() < SOCINFO_SIZE {
        soc_info_mem.len()
    } else {
        SOCINFO_SIZE
    };
    let mut v: Vec<u8> = Vec::new();
    let mut i: usize = 0;
    while i < SOCINFO_SIZE
        invariant
            i <= SOCINFO_SIZE,
            len <= soc_info_mem@.len(),
            len == soc_info_mem@.len() || len == SOCINFO_SIZE,
            v@.len() == i,
            forall|j: int| 0 <= j < i ==> v@[j] == partial_image(soc_info_mem@)[j],
        decreases SOCINFO_SIZE - i,
    {
        if i < len {
            v.push(soc_info_mem[i]);
        } else {
            v.push(0);
        }
        i += 1;
    }
    assert(v@ =~= partial_image(soc_info_mem@));
    v
}

/// Reads the little-endian `u32` at `off`.
pub fn read_le32(s: &[u8], off: usize) -> (r: u32)
    requires
        off + 4 <= s@.len(),
    ensures
        r == le32(s@, off as int),
{
    (s[off] as u32) + (s[off + 1] as u32) * 256 + (s[off + 2] as u32) * 65536 + (s[off + 3] as u32)
        * 16777216
}

/// The tail of `s` from `start` on (`&s[start..]`).
pub fn slice_from(s: &[u8], start: usize) -> (r: &[u8])
    requires
        start <= s@.len(),
    ensures
        r@ == s@.subrange(start as int, s@.len() as int),
{
    let (_, tail) = s.split_at(start);
    tail
}

/// Adding with wraparound does not change an address's alignment for PMIC entries.
proof fn lemma_wrapping_add_align(a: usize, b: usize)
    ensures
        (a.wrapping_add(b) as int) % (PMIC_ENTRY_ALIGN as int) == (a + b) % (PMIC_ENTRY_ALIGN as int),
{
    let m = usize::MAX as int + 1;
    assert(m % 4 == 0) by {
        assert(usize::MAX == 0xffff_ffff || usize::MAX == 0xffff_ffff_ffff_ffff);
    }
    if a + b > usize::MAX {
        assert(a.wrapping_add(b) as int == a + b - m);
        assert((a + b - m) % 4 == (a + b) % 4) by (nonlinear_arith)
            requires
                m % 4 == 0,
        ;
    } else {
        assert(a.wrapping_add(b) as int == a + b);
    }
}

/// One PMIC entry of the block's PMIC array.
#[derive(Clone, Copy, PartialEq, Eq, Structural)]
pub struct PmicEntry {
    /// Model, packed as a version word; its minor half indexes the PMIC model table.
    pub model: u32,
    /// Die revision, packed as major/minor.
    pub die_rev: u32,
}

/// PMIC entry `i` of an array laid out from the start of `bytes`.
pub open spec fn pmic_entry_spec(bytes: Seq<u8>, i: int) -> PmicEntry {
    PmicEntry {
        model: le32(bytes, PMIC_ENTRY_SIZE * i),
        die_rev: le32(bytes, PMIC_ENTRY_SIZE * i + 4),
    }
}

/// The PMIC array of a SoC information block.
pub struct PmicArray(pub Vec<PmicEntry>);

impl PmicArray {
    /// Views the first `count` PMIC entries of `bytes`, which start at address `addr`: `None`
    /// when that address is not aligned for PMIC entries.
    pub fn from_bytes(bytes: &[u8], count: usize, addr: usize) -> (r: Option<Self>)
        requires
            count * PMIC_ENTRY_SIZE <= bytes@.len(),
        ensures
            r is Some <==> addr % PMIC_ENTRY_ALIGN == 0,
            r matches Some(a) ==> a.0@.len() == count && forall|i: int|
                0 <= i < count ==> #[trigger] a.0@[i] == pmic_entry_spec(bytes@, i),
    {
        if addr % PMIC_ENTRY_ALIGN != 0 {
            return None;
        }
        let blen = bytes.len();
        let mut v: Vec<PmicEntry> = Vec::new();
        let mut i: usize = 0;
        while i < count
            invariant
                i <= count,
                blen == bytes@.len(),
                count * PMIC_ENTRY_SIZE <= bytes@.len(),
                v@.len() == i,
                forall|j: int| 0 <= j < i ==> #[trigger] v@[j] == pmic_entry_spec(bytes@, j),
            decreases count - i,
        {
            assert(i * 8 + 8 <= count * 8) by (nonlinear_arith)
                requires
                    i < count,
            ;
            let base = i * PMIC_ENTRY_SIZE;
            let model = read_le32(bytes, base);
            let die_rev = read_le32(bytes, base + 4);
            v.push(PmicEntry { model, die_rev });
            i += 1;
        }
        Some(PmicArray(v))
    }
}

/// One record of the image-version table.
pub struct ImageVersion {
    /// Image name buffer (NUL terminated when it holds a string).
    pub name: Vec<u8>,
    /// Image variant buffer.
    pub variant: Vec<u8>,
    /// OEM buffer.
    pub oem: Vec<u8>,
}

/// Record `i` of an image-version table laid out from the start of `bytes` has these buffers.
pub open spec fn image_version_matches(v: ImageVersion, bytes: Seq<u8>, i: int) -> bool {
    let base = IMAGE_VERSION_SIZE * i;
    &&& v.name@ == bytes.subrange(base, base + IMAGE_NAME_LEN)
    &&& v.variant@ == bytes.subrange(base + IMAGE_VARIANT, base + IMAGE_VARIANT + IMAGE_VARIANT_LEN)
    &&& v.oem@ == bytes.subrange(base + IMAGE_OEM, base + IMAGE_OEM + IMAGE_OEM_LEN)
}

/// The image-version table.
pub struct ImageVersions(pub Vec<ImageVersion>);

fn copy_range(bytes: &[u8], start: usize, len: usize) -> (r: Vec<u8>)
    requires
        start + len <= bytes@.len(),
    ensures
        r@ == bytes@.subrange(start as int, start + len),
{
    let blen = bytes.len();
    let mut v: Vec<u8> = Vec::new();
    let mut i: usize = 0;
    while i < len
        invariant
            i <= len,
            start + len <= bytes@.len(),
            blen == bytes@.len(),
            v@ == bytes@.subrange(start as int, start + i),
        decreases len - i,
    {
        v.push(bytes[start + i]);
        i += 1;
        assert(v@ =~= bytes@.subrange(start as int, start + i));
    }
    v
}

impl ImageVersions {
    /// Views `bytes` as a table of image-version records: `None` unless the length is a whole
    /// number of records.
    pub fn from_bytes(bytes: &[u8]) -> (r: Option<Self>)
        ensures
            r is Some <==> bytes@.len() % (IMAGE_VERSION_SIZE as nat) == 0,
            r matches Some(t) ==> {
                &&& t.0@.len() == bytes@.len() / (IMAGE_VERSION_SIZE as nat)
                &&& forall|i: int|
                    0 <= i < t.0@.len() ==> image_version_matches(#[trigger] t.0@[i], bytes@, i)
            },
    {
        if bytes.len() % IMAGE_VERSION_SIZE != 0 {
            return None;
        }
        let blen = bytes.len();
        let n = blen / IMAGE_VERSION_SIZE;
        let mut v: Vec<ImageVersion> = Vec::new();
        let mut i: usize = 0;
        while i < n
            invariant
                i <= n,
                n == bytes@.len() / (IMAGE_VERSION_SIZE as nat),
                blen == bytes@.len(),
                v@.len() == i,
                forall|j: int| 0 <= j < i ==> image_version_matches(#[trigger] v@[j], bytes@, j),
            decreases n - i,
        {
            assert(i * 128 + 128 <= bytes@.len()) by (nonlinear_arith)
                requires
                    i < n,
                    n == bytes@.len() / 128,
            ;
            let base = i * IMAGE_VERSION_SIZE;
            let name = copy_range(bytes, base, IMAGE_NAME_LEN);
            let variant = copy_range(bytes, base + IMAGE_VARIANT, IMAGE_VARIANT_LEN);
            let oem = copy_range(bytes, base + IMAGE_OEM, IMAGE_OEM_LEN);
            v.push(ImageVersion { name, variant, oem });
            i += 1;
        }
        Some(ImageVersions(v))
    }
}

/// A PMIC model, shown through the PMIC model table.
#[derive(Clone, Copy, PartialEq, Eq, Structural)]
pub struct PmicModel(pub u32);

/// A PMIC die revision, shown as `major.minor`.
#[derive(Clone, Copy, PartialEq, Eq, Structural)]
pub struct PmicDieRev(pub u32);

/// A `u32` shown in hexadecimal as `0x` and eight digits.
#[derive(Clone, Copy, PartialEq, Eq, Structural)]
pub struct X32(pub u32);

/// The values the driver exports, read from a SoC information block.
pub struct Params {
    /// Format version of the block.
    pub info_fmt: u32,
    /// Build id.
    pub build_id: Vec<u8>,
    /// Raw version (format 2).
    pub raw_version: Option<u32>,
    /// Hardware platform (format 3).
    pub hardware_platform: Option<u32>,
    /// Platform version (format 4).
    pub platform_version: Option<u32>,
    /// Accessory chip (format 5).
    pub accessory_chip: Option<u32>,
    /// Hardware platform subtype (format 6).
    pub hardware_platform_subtype: Option<u32>,
    /// PMIC model (format 7).
    pub pmic_model: Option<PmicModel>,
    /// PMIC die revision (format 7).
    pub pmic_die_rev: Option<PmicDieRev>,
    /// Foundry id (format 9).
    pub foundry_id: Option<u32>,
    /// PMIC array (format 11).
    pub pmic_model_array: Option<PmicArray>,
    /// Chip family (format 12).
    pub chip_family: Option<X32>,
    /// Raw device family (format 12).
    pub raw_device_family: Option<X32>,
    /// Raw device number (format 12).
    pub raw_device_number: Option<X32>,
    /// Product id (format 13).
    pub nproduct_id: Option<u32>,
    /// Chip id (format 13).
    pub chip_id: Option<Vec<u8>>,
    /// Number of clusters (format 14).
    pub num_clusters: Option<u32>,
    /// Offset of the cluster array (format 14).
    pub ncluster_array_offset: Option<u32>,
    /// Number of subset parts (format 14).
    pub num_subset_parts: Option<u32>,
    /// Offset of the subset-part array (format 14).
    pub nsubset_parts_array_offset: Option<u32>,
    /// Number of supported modems (format 15).
    pub nmodem_supported: Option<u32>,
    /// Feature code (format 16).
    pub feature_code: Option<u32>,
    /// Product code (format 16).
    pub pcode: Option<u32>,
    /// OEM variant (format 17).
    pub oem_variant: Option<u32>,
    /// Boot core (format 19).
    pub boot_core: Option<u32>,
    /// Boot cluster (format 19).
    pub boot_cluster: Option<u32>,
    /// Number of functional clusters (format 19).
    pub num_func_clusters: Option<u32>,
    /// Image-version table.
    pub versions: Option<ImageVersions>,
}

/// The inner value of an optional `PmicModel`.
pub open spec fn model_value(o: Option<PmicModel>) -> Option<u32> {
    match o {
        Some(m) => Some(m.0),
        None => None,
    }
}

/// The inner value of an optional `PmicDieRev`.
pub open spec fn die_rev_value(o: Option<PmicDieRev>) -> Option<u32> {
    match o {
        Some(m) => Some(m.0),
        None => None,
    }
}

/// The inner value of an optional `X32`.
pub open spec fn x32_value(o: Option<X32>) -> Option<u32> {
    match o {
        Some(m) => Some(m.0),
        None => None,
    }
}

/// The block's PMIC array lies within `mem`: it is only read for format 11 and later.
pub open spec fn pmic_array_fits(img: Seq<u8>, mem: Seq<u8>) -> bool {
    le32(img, FMT as int) >= 11 ==> {
        &&& le32(img, PMIC_ARRAY_OFFSET as int) <= mem.len()
        &&& le32(img, NUM_PMICS as int) * PMIC_ENTRY_SIZE <= mem.len() - le32(
            img,
            PMIC_ARRAY_OFFSET as int,
        )
    }
}

/// `build_params` fails exactly when the build id, or (from format 13) the chip id, holds no
/// NUL.
pub open spec fn params_fail(img: Seq<u8>) -> bool {
    ||| until_nul(img.subrange(BUILD_ID as int, (BUILD_ID + BUILD_ID_LEN) as int)) is None
    ||| (le32(img, FMT as int) >= 13 && until_nul(
        img.subrange(CHIP_ID as int, (CHIP_ID + CHIP_ID_LEN) as int),
    ) is None)
}

/// The values exported for a block with byte image `img`, read from `mem` (which starts at
/// address `addr`), with image-version table `vmem`: each field present exactly from its format
/// version on, the PMIC array only where it is aligned.
pub open spec fn params_spec(p: Params, img: Seq<u8>, mem: Seq<u8>, addr: usize, vmem: Seq<u8>) -> bool {
    let fmt = le32(img, FMT as int);
    &&& p.info_fmt == fmt
    &&& Some(p.build_id@) == until_nul(img.subrange(BUILD_ID as int, (BUILD_ID + BUILD_ID_LEN) as int))
    &&& p.raw_version == versioned(img, 2, RAW_VER as int)
    &&& p.hardware_platform == versioned(img, 3, HW_PLAT as int)
    &&& p.platform_version == versioned(img, 4, PLAT_VER as int)
    &&& p.accessory_chip == versioned(img, 5, ACCESSORY_CHIP as int)
    &&& p.hardware_platform_subtype == versioned(img, 6, HW_PLAT_SUBTYPE as int)
    &&& model_value(p.pmic_model) == versioned(img, 7, PMIC_MODEL as int)
    &&& die_rev_value(p.pmic_die_rev) == versioned(img, 7, PMIC_DIE_REV as int)
    &&& p.foundry_id == versioned(img, 9, FOUNDRY_ID as int)
    &&& x32_value(p.chip_family) == versioned(img, 12, CHIP_FAMILY as int)
    &&& x32_value(p.raw_device_family) == versioned(img, 12, RAW_DEVICE_FAMILY as int)
    &&& x32_value(p.raw_device_number) == versioned(img, 12, RAW_DEVICE_NUM as int)
    &&& p.nproduct_id == versioned(img, 13, NPRODUCT_ID as int)
    &&& p.num_clusters == versioned(img, 14, NUM_CLUSTERS as int)
    &&& p.ncluster_array_offset == versioned(img, 14, NCLUSTER_ARRAY_OFFSET as int)
    &&& p.num_subset_parts == versioned(img, 14, NUM_SUBSET_PARTS as int)
    &&& p.nsubset_parts_array_offset == versioned(img, 14, NSUBSET_PARTS_ARRAY_OFFSET as int)
    &&& p.nmodem_supported == versioned(img, 15, NMODEM_SUPPORTED as int)
    &&& p.feature_code == versioned(img, 16, FEATURE_CODE as int)
    &&& p.pcode == versioned(img, 16, PCODE as int)
    &&& p.oem_variant == versioned(img, 17, OEM_VARIANT as int)
    &&& p.boot_core == versioned(img, 19, BOOT_CORE as int)
    &&& p.boot_cluster == versioned(img, 19, BOOT_CLUSTER as int)
    &&& p.num_func_clusters == versioned(img, 19, NUM_FUNC_CLUSTERS as int)
    &&& (p.pmic_model_array is Some <==> (fmt >= 11 && (addr + le32(img, PMIC_ARRAY_OFFSET as int))
        % (PMIC_ENTRY_ALIGN as int) == 0))
    &&& (p.pmic_model_array matches Some(a) ==> {
        let off = le32(img, PMIC_ARRAY_OFFSET as int) as int;
        &&& a.0@.len() == le32(img, NUM_PMICS as int)
        &&& forall|i: int|
            0 <= i < a.0@.len() ==> #[trigger] a.0@[i] == pmic_entry_spec(mem.subrange(off, mem.len() as int), i)
    })
    &&& (p.chip_id is Some <==> fmt >= 13)
    &&& (p.chip_id matches Some(c) ==> Some(c@) == until_nul(
        img.subrange(CHIP_ID as int, (CHIP_ID + CHIP_ID_LEN) as int),
    ))
    &&& (p.versions is Some <==> vmem.len() % (IMAGE_VERSION_SIZE as nat) == 0)
    &&& (p.versions matches Some(t) ==> {
        &&& t.0@.len() == vmem.len() / (IMAGE_VERSION_SIZE as nat)
        &&& forall|i: int|
            0 <= i < t.0@.len() ==> image_version_matches(#[trigger] t.0@[i], vmem, i)
    })
}

/// Which word of the block each exported value is: every value is the little-endian word at
/// its own offset of the block (`raw_version` at 48, `hardware_platform` at 52, ..., `pcode` at
/// 180, ..., `boot_core` at 212), present exactly when the block's format (the word at offset 0)
/// is at least the version that introduced it. The build id is the C string at 12..44, the chip
/// id (format 13) the one at 124..156, and the PMIC array (format 11, when aligned) the
/// `num_pmics` (offset 100) entries of `mem` from `pmic_array_offset` (offset 104) on.
pub proof fn lemma_params_fields(p: Params, img: Seq<u8>, mem: Seq<u8>, addr: usize, vmem: Seq<u8>)
    requires
        params_spec(p, img, mem, addr, vmem),
        pmic_array_fits(img, mem),
    ensures
        p.info_fmt == le32(img, 0),
        Some(p.build_id@) == until_nul(img.subrange(12, 44)),
        le32(img, 0) >= 13 ==> (p.chip_id matches Some(c) && Some(c@) == until_nul(img.subrange(124, 156))),
        le32(img, 0) < 13 ==> p.chip_id is None,
        p.pmic_model_array is Some <==> (le32(img, 0) >= 11 && (addr + le32(img, 104)) % 4 == 0),
        p.pmic_model_array matches Some(a) ==> a.0@.len() == le32(img, 100) && forall|i: int|
            0 <= i < a.0@.len() ==> #[trigger] a.0@[i] == (PmicEntry {
                model: le32(mem, le32(img, 104) + 8 * i),
                die_rev: le32(mem, le32(img, 104) + 8 * i + 4),
            }),
        le32(img, 0) >= 2 ==> p.raw_version == Some(le32(img, 48)),
        le32(img, 0) < 2 ==> p.raw_version is None,
        le32(img, 0) >= 3 ==> p.hardware_platform == Some(le32(img, 52)),
        le32(img, 0) < 3 ==> p.hardware_platform is None,
        le32(img, 0) >= 4 ==> p.platform_version == Some(le32(img, 56)),
        le32(img, 0) < 4 ==> p.platform_version is None,
        le32(img, 0) >= 5 ==> p.accessory_chip == Some(le32(img, 60)),
        le32(img, 0) < 5 ==> p.accessory_chip is None,
        le32(img, 0) >= 6 ==> p.hardware_platform_subtype == Some(le32(img, 64)),
        le32(img, 0) < 6 ==> p.hardware_platform_subtype is None,
        le32(img, 0) >= 9 ==> p.foundry_id == Some(le32(img, 92)),
        le32(img, 0) < 9 ==> p.foundry_id is None,
        le32(img, 0) >= 13 ==> p.nproduct_id == Some(le32(img, 120)),
        le32(img, 0) < 13 ==> p.nproduct_id is None,
        le32(img, 0) >= 14 ==> p.num_clusters == Some(le32(img, 156)),
        le32(img, 0) < 14 ==> p.num_clusters is None,
        le32(img, 0) >= 14 ==> p.ncluster_array_offset == Some(le32(img, 160)),
        le32(img, 0) < 14 ==> p.ncluster_array_offset is None,
        le32(img, 0) >= 14 ==> p.num_subset_parts == Some(le32(img, 164)),
        le32(img, 0) < 14 ==> p.num_subset_parts is None,
        le32(img, 0) >= 14 ==> p.nsubset_parts_array_offset == Some(le32(img, 168)),
        le32(img, 0) < 14 ==> p.nsubset_parts_array_offset is None,
        le32(img, 0) >= 15 ==> p.nmodem_supported == Some(le32(img, 172)),
        le32(img, 0) < 15 ==> p.nmodem_supported is None,
        le32(img, 0) >= 16 ==> p.feature_code == Some(le32(img, 176)),
        le32(img, 0) < 16 ==> p.feature_code is None,
        le32(img, 0) >= 16 ==> p.pcode == Some(le32(img, 180)),
        le32(img, 0) < 16 ==> p.pcode is None,
        le32(img, 0) >= 17 ==> p.oem_variant == Some(le32(img, 192)),
        le32(img, 0) < 17 ==> p.oem_variant is None,
        le32(img, 0) >= 19 ==> p.num_func_clusters == Some(le32(img, 204)),
        le32(img, 0) < 19 ==> p.num_func_clusters is None,
        le32(img, 0) >= 19 ==> p.boot_cluster == Some(le32(img, 208)),
        le32(img, 0) < 19 ==> p.boot_cluster is None,
        le32(img, 0) >= 19 ==> p.boot_core == Some(le32(img, 212)),
        le32(img, 0) < 19 ==> p.boot_core is None,
        le32(img, 0) >= 7 ==> model_value(p.pmic_model) == Some(le32(img, 68)),
        le32(img, 0) < 7 ==> p.pmic_model is None,
        le32(img, 0) >= 7 ==> die_rev_value(p.pmic_die_rev) == Some(le32(img, 72)),
        le32(img, 0) < 7 ==> p.pmic_die_rev is None,
        le32(img, 0) >= 12 ==> x32_value(p.chip_family) == Some(le32(img, 108)),
        le32(img, 0) < 12 ==> p.chip_family is None,
        le32(img, 0) >= 12 ==> x32_value(p.raw_device_family) == Some(le32(img, 112)),
        le32(img, 0) < 12 ==> p.raw_device_family is None,
        le32(img, 0) >= 12 ==> x32_value(p.raw_device_number) == Some(le32(img, 116)),
        le32(img, 0) < 12 ==> p.raw_device_number is None,
{
}

/// Index of the first entry of `table` at or after `i` whose id is `id`, or `-1`.
pub open spec fn soc_index_from(table: Seq<SocId>, id: u32, i: int) -> int
    decreases table.len() - i,
{
    if i < 0 || i >= table.len() {
        -1
    } else if table[i].id == id {
        i
    } else {
        soc_index_from(table, id, i + 1)
    }
}

/// Name of the first entry of `table` with id `id`, or `None`.
pub open spec fn machine_spec(table: Seq<SocId>, id: u32) -> Option<Seq<u8>> {
    let k = soc_index_from(table, id, 0);
    if k < 0 {
        None
    } else {
        Some(table[k].name.spec_bytes())
    }
}

/// `soc_index_from` lands on a matching entry, or on `-1`.
pub proof fn lemma_soc_index_from(table: Seq<SocId>, id: u32, i: int)
    requires
        0 <= i,
    ensures
        soc_index_from(table, id, i) == -1 || (i <= soc_index_from(table, id, i) < table.len()
            && table[soc_index_from(table, id, i)].id == id),
    decreases table.len() - i,
{
    if i < table.len() && table[i].id != id {
        lemma_soc_index_from(table, id, i + 1);
    }
}

/// The attributes the minimal driver registers its SoC device with: family `Snapdragon` and
/// nothing else.
pub fn basic_device_attribute() -> (r: DeviceAttribute)
    ensures
        r.family matches Some(f) && f@ == "Snapdragon".spec_bytes(),
        r.machine is None,
        r.revision is None,
        r.serial_number is None,
        r.soc_id is None,
{
    let mut family: Vec<u8> = Vec::new();
    push_str(&mut family, "Snapdragon");
    assert(family@ =~= "Snapdragon".spec_bytes());
    DeviceAttribute { family: Some(family), machine: None, revision: None, serial_number: None, soc_id: None }
}

/// A SoC information block together with the raw memory it was read from and the raw
/// image-version table.
pub struct SocInfo<'a> {
    soc_info: Vec<u8>,
    soc_info_mem: &'a [u8],
    soc_info_addr: usize,
    version_mem: &'a [u8],
}

impl<'a> SocInfo<'a> {
    #[verifier::type_invariant]
    spec fn inv(self) -> bool {
        self.soc_info@.len() == SOCINFO_SIZE
    }

    /// The block's byte image.
    pub closed spec fn image(self) -> Seq<u8> {
        self.soc_info@
    }

    /// The raw memory the block was read from.
    pub closed spec fn mem(self) -> Seq<u8> {
        self.soc_info_mem@
    }

    /// Address of the raw memory the block was read from.
    pub closed spec fn addr(self) -> usize {
        self.soc_info_addr
    }

    /// The raw image-version table.
    pub closed spec fn version_mem(self) -> Seq<u8> {
        self.version_mem@
    }

    /// Reads a block from `soc_info_mem`, which may be shorter than the block (missing bytes
    /// read as zero) or longer (extra bytes are kept for the PMIC array).
    pub fn from_mem(soc_info_mem: &'a [u8], version_mem: &'a [u8], soc_info_addr: usize) -> (r:
        Self)
        ensures
            r.image() == partial_image(soc_info_mem@),
            r.mem() == soc_info_mem@,
            r.addr() == soc_info_addr,
            r.version_mem() == version_mem@,
    {
        SocInfo {
            soc_info: soc_info_from_partial_bytes(soc_info_mem),
            soc_info_mem,
            soc_info_addr,
            version_mem,
        }
    }

    fn field(&self, off: usize) -> (r: u32)
        requires
            off + 4 <= SOCINFO_SIZE,
        ensures
            r == le32(self.image(), off as int),
    {
        proof {
            use_type_invariant(self);
        }
        read_le32(self.soc_info.as_slice(), off)
    }

    /// SoC id.
    pub fn id(&self) -> (r: u32)
        ensures
            r == le32(self.image(), ID as int),
    {
        self.field(ID)
    }

    /// Splits a version word into its major (high half) and minor (low half) parts.
    pub fn version_split(ver: u32) -> (r: (u16, u16))
        ensures
            r == version_split_spec(ver),
            r.0 == ver / 0x10000,
            r.1 == ver % 0x10000,
    {
        let major = (ver >> 16) as u16;
        let minor = (ver & 0xFFFF) as u16;
        assert(major == ver / 0x10000 && minor == ver % 0x10000) by (bit_vector)
            requires
                major == ((ver >> 16) as u16),
                minor == ((ver & 0xFFFF) as u16),
        ;
        (major, minor)
    }

    /// Packs a major and a minor part into a version word.
    pub fn version_fuse(major: u16, minor: u16) -> (r: u32)
        ensures
            r == version_fuse_spec(major, minor),
            r == major * 0x10000 + minor,
    {
        let r = ((major as u32) << 16) | minor as u32;
        assert(r == major * 0x10000 + minor) by (bit_vector)
            requires
                r == ((major as u32) << 16) | minor as u32,
        ;
        r
    }

    /// SoC version, split into major and minor.
    pub fn version(&self) -> (r: (u16, u16))
        ensures
            r.0 == le32(self.image(), VER as int) / 0x10000,
            r.1 == le32(self.image(), VER as int) % 0x10000,
    {
        Self::version_split(self.field(VER))
    }

    /// Serial number: the block's `serial_num` field (zero where the memory ends before it).
    pub fn serial(&self) -> (r: u32)
        ensures
            r == le32(self.image(), SERIAL_NUM as int),
    {
        self.field(SERIAL_NUM)
    }

    /// Whether the PMIC array the block points at lies within the memory it was read from;
    /// `build_params` may only be called when it does.
    pub fn pmic_array_in_bounds(&self) -> (r: bool)
        ensures
            r == pmic_array_fits(self.image(), self.mem()),
    {
        let fmt = self.field(FMT);
        if fmt < 11 {
            return true;
        }
        let offset = self.field(PMIC_ARRAY_OFFSET) as usize;
        let num_pmics = self.field(NUM_PMICS) as usize;
        let len = self.soc_info_mem.len();
        if offset > len {
            return false;
        }
        num_pmics <= (len - offset) / PMIC_ENTRY_SIZE
    }

    fn versioned_field(&self, fmt: u32, since: u32, off: usize) -> (r: Option<u32>)
        requires
            off + 4 <= SOCINFO_SIZE,
            fmt == le32(self.image(), FMT as int),
        ensures
            r == versioned(self.image(), since, off as int),
    {
        if fmt >= since {
            Some(self.field(off))
        } else {
            None
        }
    }

    /// Reads every exported value from the block. Fails with `EINVAL` when the build id, or
    /// from format 13 the chip id, is not NUL terminated.
    pub fn build_params(&self) -> (r: Result<Params, Error>)
        requires
            pmic_array_fits(self.image(), self.mem()),
        ensures
            r is Err <==> params_fail(self.image()),
            r matches Err(e) ==> e.wf() && e.errno() == -EINVAL,
            r matches Ok(p) ==> params_spec(p, self.image(), self.mem(), self.addr(), self.version_mem()),
    {
        proof {
            use_type_invariant(self);
        }
        let img = self.soc_info.as_slice();
        let build_id = match bytes_until_nul(&img[BUILD_ID..BUILD_ID + BUILD_ID_LEN]) {
            Some(b) => b,
            None => {
                return Err(Error::code(EINVAL));
            },
        };
        let fmt = self.field(FMT);
        let raw_version = self.versioned_field(fmt, Self::version_fuse(0, 2), RAW_VER);
        let hardware_platform = self.versioned_field(fmt, Self::version_fuse(0, 3), HW_PLAT);
        let platform_version = self.versioned_field(fmt, Self::version_fuse(0, 4), PLAT_VER);
        let accessory_chip = self.versioned_field(fmt, Self::version_fuse(0, 5), ACCESSORY_CHIP);
        let hardware_platform_subtype = self.versioned_field(
            fmt,
            Self::version_fuse(0, 6),
            HW_PLAT_SUBTYPE,
        );
        let pmic_model = match self.versioned_field(fmt, Self::version_fuse(0, 7), PMIC_MODEL) {
            Some(v) => Some(PmicModel(v)),
            None => None,
        };
        let pmic_die_rev = match self.versioned_field(fmt, Self::version_fuse(0, 7), PMIC_DIE_REV) {
            Some(v) => Some(PmicDieRev(v)),
            None => None,
        };
        let foundry_id = self.versioned_field(fmt, Self::version_fuse(0, 9), FOUNDRY_ID);
        let chip_family = match self.versioned_field(fmt, Self::version_fuse(0, 12), CHIP_FAMILY) {
            Some(v) => Some(X32(v)),
            None => None,
        };
        let raw_device_family = match self.versioned_field(
            fmt,
            Self::version_fuse(0, 12),
            RAW_DEVICE_FAMILY,
        ) {
            Some(v) => Some(X32(v)),
            None => None,
        };
        let raw_device_number = match self.versioned_field(
            fmt,
            Self::version_fuse(0, 12),
            RAW_DEVICE_NUM,
        ) {
            Some(v) => Some(X32(v)),
            None => None,
        };
        let nproduct_id = self.versioned_field(fmt, Self::version_fuse(0, 13), NPRODUCT_ID);
        let num_clusters = self.versioned_field(fmt, Self::version_fuse(0, 14), NUM_CLUSTERS);
        let ncluster_array_offset = self.versioned_field(
            fmt,
            Self::version_fuse(0, 14),
            NCLUSTER_ARRAY_OFFSET,
        );
        let num_subset_parts = self.versioned_field(fmt, Self::version_fuse(0, 14), NUM_SUBSET_PARTS);
        let nsubset_parts_array_offset = self.versioned_field(
            fmt,
            Self::version_fuse(0, 14),
            NSUBSET_PARTS_ARRAY_OFFSET,
        );
        let nmodem_supported = self.versioned_field(fmt, Self::version_fuse(0, 15), NMODEM_SUPPORTED);
        let feature_code = self.versioned_field(fmt, Self::version_fuse(0, 16), FEATURE_CODE);
        let pcode = self.versioned_field(fmt, Self::version_fuse(0, 16), PCODE);
        let oem_variant = self.versioned_field(fmt, Self::version_fuse(0, 17), OEM_VARIANT);
        let boot_core = self.versioned_field(fmt, Self::version_fuse(0, 19), BOOT_CORE);
        let boot_cluster = self.versioned_field(fmt, Self::version_fuse(0, 19), BOOT_CLUSTER);
        let num_func_clusters = self.versioned_field(
            fmt,
            Self::version_fuse(0, 19),
            NUM_FUNC_CLUSTERS,
        );
        let pmic_model_array = if fmt >= Self::version_fuse(0, 11) {
            let offset = self.field(PMIC_ARRAY_OFFSET) as usize;
            let num_pmics = self.field(NUM_PMICS) as usize;
            let mem = self.soc_info_mem;
            let rest = slice_from(mem, offset);
            let tail_addr = self.soc_info_addr.wrapping_add(offset);
            proof {
                lemma_wrapping_add_align(self.soc_info_addr, offset);
            }
            PmicArray::from_bytes(rest, num_pmics, tail_addr)
        } else {
            None
        };
        let chip_id = if fmt >= Self::version_fuse(0, 13) {
            match bytes_until_nul(&img[CHIP_ID..CHIP_ID + CHIP_ID_LEN]) {
                Some(c) => Some(c),
                None => {
                    return Err(Error::code(EINVAL));
                },
            }
        } else {
            None
        };
        let versions = ImageVersions::from_bytes(self.version_mem);
        Ok(Params {
            info_fmt: fmt,
            build_id,
            raw_version,
            hardware_platform,
            platform_version,
            accessory_chip,
            hardware_platform_subtype,
            pmic_model,
            pmic_die_rev,
            foundry_id,
            pmic_model_array,
            chip_family,
            raw_device_family,
            raw_device_number,
            nproduct_id,
            chip_id,
            num_clusters,
            ncluster_array_offset,
            num_subset_parts,
            nsubset_parts_array_offset,
            nmodem_supported,
            feature_code,
            pcode,
            oem_variant,
            boot_core,
            boot_cluster,
            num_func_clusters,
            versions,
        })
    }

    /// Name of the machine: the first entry of `table` whose id is this block's SoC id.
    pub fn machine(&self, table: &[SocId]) -> (r: Option<Vec<u8>>)
        ensures
            match r {
                Some(v) => machine_spec(table@, le32(self.image(), ID as int)) == Some(v@),
                None => machine_spec(table@, le32(self.image(), ID as int)) is None,
            },
    {
        let id = self.id();
        let mut i: usize = 0;
        while i < table.len()
            invariant
                i <= table@.len(),
                id == le32(self.image(), ID as int),
                soc_index_from(table@, id, 0) == soc_index_from(table@, id, i as int),
            decreases table@.len() - i,
        {
            if table[i].id == id {
                let mut name: Vec<u8> = Vec::new();
                push_str(&mut name, table[i].name);
                assert(name@ =~= table@[i as int].name.spec_bytes());
                return Some(name);
            }
            i += 1;
        }
        None
    }

    /// The attributes the SoC device is registered with: machine from `table`, family
    /// `Snapdragon`, revision `major.minor`, and serial number and SoC id in decimal.
    pub fn device_attribute(&self, table: &[SocId]) -> (r: DeviceAttribute)
        ensures
            match r.machine {
                Some(v) => machine_spec(table@, le32(self.image(), ID as int)) == Some(v@),
                None => machine_spec(table@, le32(self.image(), ID as int)) is None,
            },
            r.family matches Some(f) && f@ == "Snapdragon".spec_bytes(),
            r.revision matches Some(v) && v@ == dec(
                (le32(self.image(), VER as int) / 0x10000) as nat,
            ) + ".".spec_bytes() + dec((le32(self.image(), VER as int) % 0x10000) as nat),
            r.serial_number matches Some(v) && v@ == dec(le32(self.image(), SERIAL_NUM as int) as nat),
            r.soc_id matches Some(v) && v@ == dec(le32(self.image(), ID as int) as nat),
    {
        let mut family: Vec<u8> = Vec::new();
        push_str(&mut family, "Snapdragon");
        assert(family@ =~= "Snapdragon".spec_bytes());
        let machine = self.machine(table);
        let (major, minor) = self.version();
        let mut revision: Vec<u8> = Vec::new();
        push_dec(&mut revision, major as u64);
        push_str(&mut revision, ".");
        push_dec(&mut revision, minor as u64);
        assert(revision@ =~= dec(major as nat) + ".".spec_bytes() + dec(minor as nat));
        let mut serial: Vec<u8> = Vec::new();
        push_dec(&mut serial, self.serial() as u64);
        assert(serial@ =~= dec(le32(self.image(), SERIAL_NUM as int) as nat));
        let serial_number = Some(serial);
        let mut soc_id: Vec<u8> = Vec::new();
        push_dec(&mut soc_id, self.id() as u64);
        assert(soc_id@ =~= dec(le32(self.image(), ID as int) as nat));
        DeviceAttribute {
            family: Some(family),
            machine,
            revision: Some(revision),
            serial_number,
            soc_id: Some(soc_id),
        }
    }
}

} // verus!
