//! What the SoC information driver exports to DebugFS: how each value is shown, and the full
//! list of files (directory, name, contents) for a set of `Params`.

use vstd::prelude::*;
use vstd::string::StringSliceAdditionalSpecFns;
use crate::debugfs::Show;
use crate::data::{pmic_model, pmic_model_spec, image_name, image_name_spec, IMAGE_NAMES_LEN};
use crate::socinfo::{
    ImageVersion,
    ImageVersions,
    Params,
    PmicArray,
    PmicDieRev,
    PmicEntry,
    PmicModel,
    SocInfo,
    X32,
    model_value,
    die_rev_value,
    x32_value,
    version_fuse_spec,
    lemma_version_roundtrip,
};
use crate::text::{
    dec,
    escape,
    hex_u32,
    until_nul,
    push_dec,
    push_escaped,
    push_hex_u32,
    push_str,
    bytes_until_nul,
};

verus! {

/// How a PMIC model word is shown: the table name of its minor half, or `unknown (N)` with
/// that minor half in decimal.
pub open spec fn pmic_model_text(v: u32) -> Seq<u8> {
    let m = v % 0x10000;
    match pmic_model_spec(m as int) {
        Some(name) => name.spec_bytes(),
        None => "unknown (".spec_bytes() + dec(m as nat) + ")".spec_bytes(),
    }
}

/// How a PMIC die revision word is shown: `major.minor` in decimal.
pub open spec fn pmic_die_rev_text(v: u32) -> Seq<u8> {
    dec((v / 0x10000) as nat) + ".".spec_bytes() + dec((v % 0x10000) as nat)
}

/// A die revision word made of `major` and `minor` is shown as `major.minor`, and a PMIC model
/// word is shown by its minor half alone, whatever its major half.
pub proof fn lemma_pmic_word_text(major: u16, minor: u16)
    ensures
        pmic_die_rev_text(version_fuse_spec(major, minor)) == dec(major as nat) + ".".spec_bytes()
            + dec(minor as nat),
        pmic_model_text(version_fuse_spec(major, minor)) == pmic_model_text(minor as u32),
{
    lemma_version_roundtrip(major, minor, 0);
}

/// How one entry of the PMIC array is shown: `NAME major.minor`, or `unknown (MODEL)` with
/// the whole model word in decimal.
pub open spec fn pmic_entry_text(e: PmicEntry) -> Seq<u8> {
    match pmic_model_spec((e.model % 0x10000) as int) {
        Some(name) => name.spec_bytes() + " ".spec_bytes() + pmic_die_rev_text(e.die_rev),
        None => "unknown (".spec_bytes() + dec(e.model as nat) + ")".spec_bytes(),
    }
}

/// How the PMIC array is shown: its entries, separated by newlines.
pub open spec fn pmic_array_text(s: Seq<PmicEntry>) -> Seq<u8>
    decreases s.len(),
{
    if s.len() == 0 {
        Seq::empty()
    } else if s.len() == 1 {
        pmic_entry_text(s[0])
    } else {
        pmic_array_text(s.drop_last()) + "\n".spec_bytes() + pmic_entry_text(s.last())
    }
}

/// How a fixed-size string buffer of an image-version record is shown: nothing for an empty
/// string, the string and a newline otherwise, and `Unterminated String` when the buffer holds
/// no NUL.
pub open spec fn char_array_text(buf: Seq<u8>) -> Seq<u8> {
    match until_nul(buf) {
        Some(cs) => if cs.len() == 0 {
            Seq::empty()
        } else {
            escape(cs) + "\n".spec_bytes()
        },
        None => "Unterminated String\n".spec_bytes(),
    }
}

impl PmicModel {
    /// Appends this model as it is shown.
    pub fn fmt(&self, f: &mut Vec<u8>)
        ensures
            final(f)@ == old(f)@ + pmic_model_text(self.0),
    {
        let model = SocInfo::version_split(self.0).1;
        match pmic_model(model as usize) {
            Some(name) => {
                push_str(f, name);
            },
            None => {
                push_str(f, "unknown (");
                push_dec(f, model as u64);
                push_str(f, ")");
            },
        }
        assert(final(f)@ =~= old(f)@ + pmic_model_text(self.0));
    }
}

impl PmicDieRev {
    /// Appends this revision as it is shown.
    pub fn fmt(&self, f: &mut Vec<u8>)
        ensures
            final(f)@ == old(f)@ + pmic_die_rev_text(self.0),
    {
        let (major, minor) = SocInfo::version_split(self.0);
        push_dec(f, major as u64);
        push_str(f, ".");
        push_dec(f, minor as u64);
        assert(final(f)@ =~= old(f)@ + pmic_die_rev_text(self.0));
    }
}

fn fmt_pmic_entry(e: &PmicEntry, f: &mut Vec<u8>)
    ensures
        final(f)@ == old(f)@ + pmic_entry_text(*e),
{
    let (die_rev_major, die_rev_minor) = SocInfo::version_split(e.die_rev);
    let model = e.model;
    let model_idx = SocInfo::version_split(model).1 as usize;
    match pmic_model(model_idx) {
        Some(name) => {
            push_str(f, name);
            push_str(f, " ");
            push_dec(f, die_rev_major as u64);
            push_str(f, ".");
            push_dec(f, die_rev_minor as u64);
        },
        None => {
            push_str(f, "unknown (");
            push_dec(f, model as u64);
            push_str(f, ")");
        },
    }
    assert(final(f)@ =~= old(f)@ + pmic_entry_text(*e));
}

impl PmicArray {
    /// Appends the array as it is shown.
    pub fn fmt(&self, f: &mut Vec<u8>)
        ensures
            final(f)@ == old(f)@ + pmic_array_text(self.0@),
    {
        let ghost start = f@;
        let n = self.0.len();
        let mut idx: usize = 0;
        assert(pmic_array_text(self.0@.take(0)) =~= Seq::<u8>::empty());
        assert(start + Seq::<u8>::empty() =~= start);
        while idx < n
            invariant
                n == self.0@.len(),
                idx <= n,
                f@ == start + pmic_array_text(self.0@.take(idx as int)),
            decreases n - idx,
        {
            let ghost before = f@;
            let ghost t = self.0@.take(idx + 1);
            assert(t.drop_last() =~= self.0@.take(idx as int));
            assert(t.last() == self.0@[idx as int]);
            if idx > 0 {
                push_str(f, "\n");
            }
            fmt_pmic_entry(&self.0[idx], f);
            proof {
                if idx == 0 {
                    assert(t =~= seq![self.0@[0]]);
                    assert(f@ =~= start + pmic_array_text(t));
                } else {
                    assert(f@ =~= start + pmic_array_text(t));
                }
            }
            idx += 1;
        }
        assert(self.0@.take(n as int) =~= self.0@);
    }
}

impl X32 {
    /// Appends the value as `0x` and eight hex digits.
    pub fn fmt(&self, f: &mut Vec<u8>)
        ensures
            final(f)@ == old(f)@ + hex_u32(self.0),
    {
        push_hex_u32(f, self.0);
    }
}

impl Show for PmicModel {
    open spec fn shown(&self) -> Seq<u8> {
        pmic_model_text(self.0)
    }

    fn show(&self, f: &mut Vec<u8>) {
        self.fmt(f);
    }
}

impl Show for PmicDieRev {
    open spec fn shown(&self) -> Seq<u8> {
        pmic_die_rev_text(self.0)
    }

    fn show(&self, f: &mut Vec<u8>) {
        self.fmt(f);
    }
}

impl Show for PmicArray {
    open spec fn shown(&self) -> Seq<u8> {
        pmic_array_text(self.0@)
    }

    fn show(&self, f: &mut Vec<u8>) {
        self.fmt(f);
    }
}

impl Show for X32 {
    open spec fn shown(&self) -> Seq<u8> {
        hex_u32(self.0)
    }

    fn show(&self, f: &mut Vec<u8>) {
        self.fmt(f);
    }
}

/// Appends a fixed-size string buffer as it is shown.
pub fn fmt_char_array(arr: &[u8], f: &mut Vec<u8>)
    ensures
        final(f)@ == old(f)@ + char_array_text(arr@),
{
    match bytes_until_nul(arr) {
        Some(cs) => {
            if cs.len() == 0 {
                assert(final(f)@ =~= old(f)@ + char_array_text(arr@));
            } else {
                push_escaped(f, cs.as_slice());
                push_str(f, "\n");
                assert(final(f)@ =~= old(f)@ + char_array_text(arr@));
            }
        },
        None => {
            push_str(f, "Unterminated String\n");
        },
    }
}

/// A file the driver exports: its directory under the driver's DebugFS directory (`None` for
/// the top level), its name, and what reading it yields.
pub struct DebugFsFile {
    /// Subdirectory, if any.
    pub dir: Option<&'static str>,
    /// File name.
    pub name: &'static str,
    /// Contents.
    pub contents: Vec<u8>,
}

/// The mathematical form of a `DebugFsFile`.
pub struct FileSpec {
    /// Subdirectory, if any.
    pub dir: Option<&'static str>,
    /// File name.
    pub name: &'static str,
    /// Contents.
    pub contents: Seq<u8>,
}

impl View for DebugFsFile {
    type V = FileSpec;

    open spec fn view(&self) -> FileSpec {
        FileSpec { dir: self.dir, name: self.name, contents: self.contents@ }
    }
}

/// The mathematical form of a list of files.
pub open spec fn views(s: Seq<DebugFsFile>) -> Seq<FileSpec> {
    s.map_values(|f: DebugFsFile| f@)
}

/// A file with the given directory, name and contents.
pub open spec fn file_spec(dir: Option<&'static str>, name: &'static str, contents: Seq<u8>) -> FileSpec {
    FileSpec { dir, name, contents }
}

/// A top-level file showing an optional `u32` in decimal, or no file.
pub open spec fn opt_dec_file(name: &'static str, o: Option<u32>) -> Seq<FileSpec> {
    match o {
        Some(v) => seq![file_spec(None, name, dec(v as nat))],
        None => Seq::empty(),
    }
}

/// A top-level file showing an optional `X32`, or no file.
pub open spec fn opt_x32_file(name: &'static str, o: Option<X32>) -> Seq<FileSpec> {
    match x32_value(o) {
        Some(v) => seq![file_spec(None, name, hex_u32(v))],
        None => Seq::empty(),
    }
}

/// A top-level file showing an optional C string, or no file.
pub open spec fn opt_cstr_file(name: &'static str, o: Option<Vec<u8>>) -> Seq<FileSpec> {
    match o {
        Some(v) => seq![file_spec(None, name, escape(v@))],
        None => Seq::empty(),
    }
}

/// A top-level file showing an optional PMIC model, or no file.
pub open spec fn opt_model_file(name: &'static str, o: Option<PmicModel>) -> Seq<FileSpec> {
    match model_value(o) {
        Some(v) => seq![file_spec(None, name, pmic_model_text(v))],
        None => Seq::empty(),
    }
}

/// A top-level file showing an optional PMIC die revision, or no file.
pub open spec fn opt_die_rev_file(name: &'static str, o: Option<PmicDieRev>) -> Seq<FileSpec> {
    match die_rev_value(o) {
        Some(v) => seq![file_spec(None, name, pmic_die_rev_text(v))],
        None => Seq::empty(),
    }
}

/// A top-level file showing an optional PMIC array, or no file.
pub open spec fn opt_array_file(name: &'static str, o: Option<PmicArray>) -> Seq<FileSpec> {
    match o {
        Some(a) => seq![file_spec(None, name, pmic_array_text(a.0@))],
        None => Seq::empty(),
    }
}

/// The three files (`name`, `variant`, `oem`) of image `j` of `IMAGE_NAMES`, in a directory
/// named after the image, when the version table has the image's slot.
pub open spec fn image_files(vs: Seq<ImageVersion>, j: int) -> Seq<FileSpec> {
    let (dir, idx) = image_name_spec(j);
    if idx < vs.len() {
        seq![
            file_spec(Some(dir), "name", char_array_text(vs[idx as int].name@)),
            file_spec(Some(dir), "variant", char_array_text(vs[idx as int].variant@)),
            file_spec(Some(dir), "oem", char_array_text(vs[idx as int].oem@)),
        ]
    } else {
        Seq::empty()
    }
}

/// The files of the first `k` images of `IMAGE_NAMES`.
pub open spec fn image_files_upto(vs: Seq<ImageVersion>, k: int) -> Seq<FileSpec>
    decreases k,
{
    if k <= 0 {
        Seq::empty()
    } else {
        image_files_upto(vs, k - 1) + image_files(vs, k - 1)
    }
}

/// The files of all images, when there is a version table.
pub open spec fn versions_files(o: Option<crate::socinfo::ImageVersions>) -> Seq<FileSpec> {
    match o {
        Some(t) => image_files_upto(t.0@, IMAGE_NAMES_LEN as int),
        None => Seq::empty(),
    }
}

/// Every file the driver exports for `p`, in the order it creates them.
pub open spec fn debugfs_listing(p: Params) -> Seq<FileSpec> {
    seq![
        file_spec(None, "info_fmt", hex_u32(p.info_fmt) + "\n".spec_bytes()),
        file_spec(None, "build_id", escape(p.build_id@)),
    ]
        + opt_dec_file("raw_version", p.raw_version)
        + opt_dec_file("hardware_platform", p.hardware_platform)
        + opt_dec_file("platform_version", p.platform_version)
        + opt_dec_file("accessory_chip", p.accessory_chip)
        + opt_dec_file("hardware_platform_subtype", p.hardware_platform_subtype)
        + opt_x32_file("raw_device_number", p.raw_device_number)
        + opt_x32_file("raw_device_family", p.raw_device_family)
        + opt_x32_file("chip_family", p.chip_family)
        + opt_dec_file("nproduct_id", p.nproduct_id)
        + opt_dec_file("nsubset_parts_array_offset", p.nsubset_parts_array_offset)
        + opt_dec_file("num_subset_parts", p.num_subset_parts)
        + opt_dec_file("ncluster_array_offset", p.ncluster_array_offset)
        + opt_dec_file("num_clusters", p.num_clusters)
        + opt_dec_file("nmodem_supported", p.nmodem_supported)
        + opt_dec_file("pcode", p.pcode)
        + opt_dec_file("feature_code", p.feature_code)
        + opt_dec_file("oem_variant", p.oem_variant)
        + opt_dec_file("boot_core", p.boot_core)
        + opt_dec_file("boot_cluster", p.boot_cluster)
        + opt_dec_file("num_func_clusters", p.num_func_clusters)
        + opt_dec_file("foundry_id", p.foundry_id)
        + opt_cstr_file("chip_id", p.chip_id)
        + opt_model_file("pmic_model", p.pmic_model)
        + opt_die_rev_file("pmic_die_rev", p.pmic_die_rev)
        + opt_array_file("pmic_model_array", p.pmic_model_array)
        + versions_files(p.versions)
}

/// `s` holds the file `f` (kept opaque so that a long listing is searched piece by piece).
#[verifier::opaque]
spec fn holds(s: Seq<FileSpec>, f: FileSpec) -> bool {
    s.contains(f)
}

/// A concatenation holds what either part holds.
broadcast proof fn lemma_holds_concat(a: Seq<FileSpec>, b: Seq<FileSpec>, f: FileSpec)
    ensures
        (holds(a, f) || holds(b, f)) ==> #[trigger] holds(a + b, f),
{
    reveal(holds);
    vstd::seq_lib::lemma_seq_concat_contains_all_elements(a, b, f);
}

/// A sequence holds what was pushed onto it, and what it held before.
broadcast proof fn lemma_holds_push(s: Seq<FileSpec>, x: FileSpec, f: FileSpec)
    ensures
        (x == f || holds(s, f)) ==> #[trigger] holds(s.push(x), f),
{
    reveal(holds);
    vstd::seq_lib::lemma_seq_contains_after_push(s, x, f);
}

/// A sequence holds each of its items.
proof fn lemma_holds_index(s: Seq<FileSpec>, i: int)
    requires
        0 <= i < s.len(),
    ensures
        holds(s, s[i]),
{
    reveal(holds);
}

/// What a sequence holds, it contains.
proof fn lemma_holds_contains(s: Seq<FileSpec>, f: FileSpec)
    requires
        holds(s, f),
    ensures
        s.contains(f),
{
    reveal(holds);
}

/// The files of the first values the block provides.
proof fn lemma_listing_board_files(p: Params)
    ensures
        p.raw_version matches Some(v) ==> debugfs_listing(p).contains(
            file_spec(None, "raw_version", dec(v as nat)),
        ),
        p.hardware_platform matches Some(v) ==> debugfs_listing(p).contains(
            file_spec(None, "hardware_platform", dec(v as nat)),
        ),
        p.platform_version matches Some(v) ==> debugfs_listing(p).contains(
            file_spec(None, "platform_version", dec(v as nat)),
        ),
        p.accessory_chip matches Some(v) ==> debugfs_listing(p).contains(
            file_spec(None, "accessory_chip", dec(v as nat)),
        ),
        p.hardware_platform_subtype matches Some(v) ==> debugfs_listing(p).contains(
            file_spec(None, "hardware_platform_subtype", dec(v as nat)),
        ),
        p.foundry_id matches Some(v) ==> debugfs_listing(p).contains(
            file_spec(None, "foundry_id", dec(v as nat)),
        ),
{
    broadcast use {lemma_holds_concat, lemma_holds_push};

    if let Some(v) = p.raw_version {
        lemma_holds_contains(debugfs_listing(p), file_spec(None, "raw_version", dec(v as nat)));
    }
    if let Some(v) = p.hardware_platform {
        lemma_holds_contains(
            debugfs_listing(p),
            file_spec(None, "hardware_platform", dec(v as nat)),
        );
    }
    if let Some(v) = p.platform_version {
        lemma_holds_contains(
            debugfs_listing(p),
            file_spec(None, "platform_version", dec(v as nat)),
        );
    }
    if let Some(v) = p.accessory_chip {
        lemma_holds_contains(debugfs_listing(p), file_spec(None, "accessory_chip", dec(v as nat)));
    }
    if let Some(v) = p.hardware_platform_subtype {
        lemma_holds_contains(
            debugfs_listing(p),
            file_spec(None, "hardware_platform_subtype", dec(v as nat)),
        );
    }
    if let Some(v) = p.foundry_id {
        lemma_holds_contains(debugfs_listing(p), file_spec(None, "foundry_id", dec(v as nat)));
    }
}

/// The files of the values that describe the chip's layout.
proof fn lemma_listing_layout_files(p: Params)
    ensures
        p.nproduct_id matches Some(v) ==> debugfs_listing(p).contains(
            file_spec(None, "nproduct_id", dec(v as nat)),
        ),
        p.nsubset_parts_array_offset matches Some(v) ==> debugfs_listing(p).contains(
            file_spec(None, "nsubset_parts_array_offset", dec(v as nat)),
        ),
        p.num_subset_parts matches Some(v) ==> debugfs_listing(p).contains(
            file_spec(None, "num_subset_parts", dec(v as nat)),
        ),
        p.ncluster_array_offset matches Some(v) ==> debugfs_listing(p).contains(
            file_spec(None, "ncluster_array_offset", dec(v as nat)),
        ),
        p.num_clusters matches Some(v) ==> debugfs_listing(p).contains(
            file_spec(None, "num_clusters", dec(v as nat)),
        ),
        p.nmodem_supported matches Some(v) ==> debugfs_listing(p).contains(
            file_spec(None, "nmodem_supported", dec(v as nat)),
        ),
{
    broadcast use {lemma_holds_concat, lemma_holds_push};

    if let Some(v) = p.nproduct_id {
        lemma_holds_contains(debugfs_listing(p), file_spec(None, "nproduct_id", dec(v as nat)));
    }
    if let Some(v) = p.nsubset_parts_array_offset {
        lemma_holds_contains(
            debugfs_listing(p),
            file_spec(None, "nsubset_parts_array_offset", dec(v as nat)),
        );
    }
    if let Some(v) = p.num_subset_parts {
        lemma_holds_contains(
            debugfs_listing(p),
            file_spec(None, "num_subset_parts", dec(v as nat)),
        );
    }
    if let Some(v) = p.ncluster_array_offset {
        lemma_holds_contains(
            debugfs_listing(p),
            file_spec(None, "ncluster_array_offset", dec(v as nat)),
        );
    }
    if let Some(v) = p.num_clusters {
        lemma_holds_contains(debugfs_listing(p), file_spec(None, "num_clusters", dec(v as nat)));
    }
    if let Some(v) = p.nmodem_supported {
        lemma_holds_contains(
            debugfs_listing(p),
            file_spec(None, "nmodem_supported", dec(v as nat)),
        );
    }
}

/// The files of the values of the later formats.
proof fn lemma_listing_later_files(p: Params)
    ensures
        p.pcode matches Some(v) ==> debugfs_listing(p).contains(
            file_spec(None, "pcode", dec(v as nat)),
        ),
        p.feature_code matches Some(v) ==> debugfs_listing(p).contains(
            file_spec(None, "feature_code", dec(v as nat)),
        ),
        p.oem_variant matches Some(v) ==> debugfs_listing(p).contains(
            file_spec(None, "oem_variant", dec(v as nat)),
        ),
        p.boot_core matches Some(v) ==> debugfs_listing(p).contains(
            file_spec(None, "boot_core", dec(v as nat)),
        ),
        p.boot_cluster matches Some(v) ==> debugfs_listing(p).contains(
            file_spec(None, "boot_cluster", dec(v as nat)),
        ),
        p.num_func_clusters matches Some(v) ==> debugfs_listing(p).contains(
            file_spec(None, "num_func_clusters", dec(v as nat)),
        ),
{
    broadcast use {lemma_holds_concat, lemma_holds_push};

    if let Some(v) = p.pcode {
        lemma_holds_contains(debugfs_listing(p), file_spec(None, "pcode", dec(v as nat)));
    }
    if let Some(v) = p.feature_code {
        lemma_holds_contains(debugfs_listing(p), file_spec(None, "feature_code", dec(v as nat)));
    }
    if let Some(v) = p.oem_variant {
        lemma_holds_contains(debugfs_listing(p), file_spec(None, "oem_variant", dec(v as nat)));
    }
    if let Some(v) = p.boot_core {
        lemma_holds_contains(debugfs_listing(p), file_spec(None, "boot_core", dec(v as nat)));
    }
    if let Some(v) = p.boot_cluster {
        lemma_holds_contains(debugfs_listing(p), file_spec(None, "boot_cluster", dec(v as nat)));
    }
    if let Some(v) = p.num_func_clusters {
        lemma_holds_contains(
            debugfs_listing(p),
            file_spec(None, "num_func_clusters", dec(v as nat)),
        );
    }
}

/// The files of the values shown in hex.
proof fn lemma_listing_hex_files(p: Params)
    ensures
        x32_value(p.raw_device_number) matches Some(v) ==> debugfs_listing(p).contains(
            file_spec(None, "raw_device_number", hex_u32(v)),
        ),
        x32_value(p.raw_device_family) matches Some(v) ==> debugfs_listing(p).contains(
            file_spec(None, "raw_device_family", hex_u32(v)),
        ),
        x32_value(p.chip_family) matches Some(v) ==> debugfs_listing(p).contains(
            file_spec(None, "chip_family", hex_u32(v)),
        ),
{
    broadcast use {lemma_holds_concat, lemma_holds_push};

    if let Some(v) = x32_value(p.raw_device_number) {
        lemma_holds_contains(debugfs_listing(p), file_spec(None, "raw_device_number", hex_u32(v)));
    }
    if let Some(v) = x32_value(p.raw_device_family) {
        lemma_holds_contains(debugfs_listing(p), file_spec(None, "raw_device_family", hex_u32(v)));
    }
    if let Some(v) = x32_value(p.chip_family) {
        lemma_holds_contains(debugfs_listing(p), file_spec(None, "chip_family", hex_u32(v)));
    }
}

/// The files of the chip id and the PMIC values.
proof fn lemma_listing_chip_files(p: Params)
    ensures
        p.chip_id matches Some(c) ==> debugfs_listing(p).contains(
            file_spec(None, "chip_id", escape(c@)),
        ),
        model_value(p.pmic_model) matches Some(v) ==> debugfs_listing(p).contains(
            file_spec(None, "pmic_model", pmic_model_text(v)),
        ),
        die_rev_value(p.pmic_die_rev) matches Some(v) ==> debugfs_listing(p).contains(
            file_spec(None, "pmic_die_rev", pmic_die_rev_text(v)),
        ),
        p.pmic_model_array matches Some(a) ==> debugfs_listing(p).contains(
            file_spec(None, "pmic_model_array", pmic_array_text(a.0@)),
        ),
{
    broadcast use {lemma_holds_concat, lemma_holds_push};

    if let Some(c) = p.chip_id {
        lemma_holds_contains(debugfs_listing(p), file_spec(None, "chip_id", escape(c@)));
    }
    if let Some(v) = model_value(p.pmic_model) {
        lemma_holds_contains(debugfs_listing(p), file_spec(None, "pmic_model", pmic_model_text(v)));
    }
    if let Some(v) = die_rev_value(p.pmic_die_rev) {
        lemma_holds_contains(
            debugfs_listing(p),
            file_spec(None, "pmic_die_rev", pmic_die_rev_text(v)),
        );
    }
    if let Some(a) = p.pmic_model_array {
        lemma_holds_contains(
            debugfs_listing(p),
            file_spec(None, "pmic_model_array", pmic_array_text(a.0@)),
        );
    }
}

/// Each top-level file is named after the value it shows: `info_fmt` shows the format word in
/// hex, `build_id` the build id, and for each value that `p` holds, the file of that value's
/// name shows that value (`boot_core` shows `p.boot_core` in decimal, `chip_family` shows
/// `p.chip_family` in hex, `chip_id` the chip id, and the PMIC files the model, the die
/// revision and the array).
pub proof fn lemma_listing_value_files(p: Params)
    ensures
        debugfs_listing(p).contains(
            file_spec(None, "info_fmt", hex_u32(p.info_fmt) + "\n".spec_bytes()),
        ),
        debugfs_listing(p).contains(file_spec(None, "build_id", escape(p.build_id@))),
        p.raw_version matches Some(v) ==> debugfs_listing(p).contains(
            file_spec(None, "raw_version", dec(v as nat)),
        ),
        p.hardware_platform matches Some(v) ==> debugfs_listing(p).contains(
            file_spec(None, "hardware_platform", dec(v as nat)),
        ),
        p.platform_version matches Some(v) ==> debugfs_listing(p).contains(
            file_spec(None, "platform_version", dec(v as nat)),
        ),
        p.accessory_chip matches Some(v) ==> debugfs_listing(p).contains(
            file_spec(None, "accessory_chip", dec(v as nat)),
        ),
        p.hardware_platform_subtype matches Some(v) ==> debugfs_listing(p).contains(
            file_spec(None, "hardware_platform_subtype", dec(v as nat)),
        ),
        x32_value(p.raw_device_number) matches Some(v) ==> debugfs_listing(p).contains(
            file_spec(None, "raw_device_number", hex_u32(v)),
        ),
        x32_value(p.raw_device_family) matches Some(v) ==> debugfs_listing(p).contains(
            file_spec(None, "raw_device_family", hex_u32(v)),
        ),
        x32_value(p.chip_family) matches Some(v) ==> debugfs_listing(p).contains(
            file_spec(None, "chip_family", hex_u32(v)),
        ),
        p.nproduct_id matches Some(v) ==> debugfs_listing(p).contains(
            file_spec(None, "nproduct_id", dec(v as nat)),
        ),
        p.nsubset_parts_array_offset matches Some(v) ==> debugfs_listing(p).contains(
            file_spec(None, "nsubset_parts_array_offset", dec(v as nat)),
        ),
        p.num_subset_parts matches Some(v) ==> debugfs_listing(p).contains(
            file_spec(None, "num_subset_parts", dec(v as nat)),
        ),
        p.ncluster_array_offset matches Some(v) ==> debugfs_listing(p).contains(
            file_spec(None, "ncluster_array_offset", dec(v as nat)),
        ),
        p.num_clusters matches Some(v) ==> debugfs_listing(p).contains(
            file_spec(None, "num_clusters", dec(v as nat)),
        ),
        p.nmodem_supported matches Some(v) ==> debugfs_listing(p).contains(
            file_spec(None, "nmodem_supported", dec(v as nat)),
        ),
        p.pcode matches Some(v) ==> debugfs_listing(p).contains(
            file_spec(None, "pcode", dec(v as nat)),
        ),
        p.feature_code matches Some(v) ==> debugfs_listing(p).contains(
            file_spec(None, "feature_code", dec(v as nat)),
        ),
        p.oem_variant matches Some(v) ==> debugfs_listing(p).contains(
            file_spec(None, "oem_variant", dec(v as nat)),
        ),
        p.boot_core matches Some(v) ==> debugfs_listing(p).contains(
            file_spec(None, "boot_core", dec(v as nat)),
        ),
        p.boot_cluster matches Some(v) ==> debugfs_listing(p).contains(
            file_spec(None, "boot_cluster", dec(v as nat)),
        ),
        p.num_func_clusters matches Some(v) ==> debugfs_listing(p).contains(
            file_spec(None, "num_func_clusters", dec(v as nat)),
        ),
        p.foundry_id matches Some(v) ==> debugfs_listing(p).contains(
            file_spec(None, "foundry_id", dec(v as nat)),
        ),
        p.chip_id matches Some(c) ==> debugfs_listing(p).contains(
            file_spec(None, "chip_id", escape(c@)),
        ),
        model_value(p.pmic_model) matches Some(v) ==> debugfs_listing(p).contains(
            file_spec(None, "pmic_model", pmic_model_text(v)),
        ),
        die_rev_value(p.pmic_die_rev) matches Some(v) ==> debugfs_listing(p).contains(
            file_spec(None, "pmic_die_rev", pmic_die_rev_text(v)),
        ),
        p.pmic_model_array matches Some(a) ==> debugfs_listing(p).contains(
            file_spec(None, "pmic_model_array", pmic_array_text(a.0@)),
        ),
{
    broadcast use {lemma_holds_concat, lemma_holds_push};

    let info = file_spec(None, "info_fmt", hex_u32(p.info_fmt) + "\n".spec_bytes());
    let build = file_spec(None, "build_id", escape(p.build_id@));
    lemma_holds_index(seq![info, build], 0);
    lemma_holds_index(seq![info, build], 1);
    lemma_holds_contains(debugfs_listing(p), info);
    lemma_holds_contains(debugfs_listing(p), build);
    lemma_listing_board_files(p);
    lemma_listing_layout_files(p);
    lemma_listing_later_files(p);
    lemma_listing_hex_files(p);
    lemma_listing_chip_files(p);
}

/// The files of image `j` are among those of the first `k` images, for every `k` past `j`,
/// when the table has the image's slot.
proof fn lemma_image_files_upto_holds(vs: Seq<ImageVersion>, k: int, j: int)
    requires
        0 <= j < k,
        image_name_spec(j).1 < vs.len(),
    ensures
        ({
            let (dir, idx) = image_name_spec(j);
            &&& holds(
                image_files_upto(vs, k),
                file_spec(Some(dir), "name", char_array_text(vs[idx as int].name@)),
            )
            &&& holds(
                image_files_upto(vs, k),
                file_spec(Some(dir), "variant", char_array_text(vs[idx as int].variant@)),
            )
            &&& holds(
                image_files_upto(vs, k),
                file_spec(Some(dir), "oem", char_array_text(vs[idx as int].oem@)),
            )
        }),
    decreases k,
{
    broadcast use lemma_holds_concat;

    if k - 1 == j {
        lemma_holds_index(image_files(vs, j), 0);
        lemma_holds_index(image_files(vs, j), 1);
        lemma_holds_index(image_files(vs, j), 2);
    } else {
        lemma_image_files_upto_holds(vs, k - 1, j);
    }
}

/// Every image of `IMAGE_NAMES` whose slot the version table has (the first, `adsp`, among
/// them) gets a directory named after the image, holding the files `name`, `variant` and
/// `oem`, which show the three strings of the record in that slot.
pub proof fn lemma_listing_image_files(p: Params, t: ImageVersions, j: int)
    requires
        p.versions == Some(t),
        0 <= j < IMAGE_NAMES_LEN,
        image_name_spec(j).1 < t.0@.len(),
    ensures
        ({
            let (dir, idx) = image_name_spec(j);
            let r = t.0@[idx as int];
            &&& debugfs_listing(p).contains(file_spec(Some(dir), "name", char_array_text(r.name@)))
            &&& debugfs_listing(p).contains(
                file_spec(Some(dir), "variant", char_array_text(r.variant@)),
            )
            &&& debugfs_listing(p).contains(file_spec(Some(dir), "oem", char_array_text(r.oem@)))
        }),
{
    broadcast use lemma_holds_concat;

    let (dir, idx) = image_name_spec(j);
    let r = t.0@[idx as int];
    lemma_image_files_upto_holds(t.0@, IMAGE_NAMES_LEN as int, j);
    lemma_holds_contains(
        debugfs_listing(p),
        file_spec(Some(dir), "name", char_array_text(r.name@)),
    );
    lemma_holds_contains(
        debugfs_listing(p),
        file_spec(Some(dir), "variant", char_array_text(r.variant@)),
    );
    lemma_holds_contains(debugfs_listing(p), file_spec(Some(dir), "oem", char_array_text(r.oem@)));
}

fn push_file(
    out: &mut Vec<DebugFsFile>,
    dir: Option<&'static str>,
    name: &'static str,
    contents: Vec<u8>,
)
    ensures
        views(final(out)@) == views(old(out)@).push(file_spec(dir, name, contents@)),
{
    let ghost c = contents@;
    out.push(DebugFsFile { dir, name, contents });
    assert(views(final(out)@) =~= views(old(out)@).push(file_spec(dir, name, c)));
}

fn push_opt_dec(out: &mut Vec<DebugFsFile>, name: &'static str, o: Option<u32>)
    ensures
        views(final(out)@) == views(old(out)@) + opt_dec_file(name, o),
{
    match o {
        Some(v) => {
            let mut c: Vec<u8> = Vec::new();
            push_dec(&mut c, v as u64);
            assert(c@ =~= dec(v as nat));
            push_file(out, None, name, c);
            assert(views(final(out)@) =~= views(old(out)@) + opt_dec_file(name, o));
        },
        None => {
            assert(views(final(out)@) =~= views(old(out)@) + opt_dec_file(name, o));
        },
    }
}

fn push_opt_x32(out: &mut Vec<DebugFsFile>, name: &'static str, o: Option<X32>)
    ensures
        views(final(out)@) == views(old(out)@) + opt_x32_file(name, o),
{
    match o {
        Some(v) => {
            let mut c: Vec<u8> = Vec::new();
            v.fmt(&mut c);
            assert(c@ =~= hex_u32(v.0));
            push_file(out, None, name, c);
            assert(views(final(out)@) =~= views(old(out)@) + opt_x32_file(name, o));
        },
        None => {
            assert(views(final(out)@) =~= views(old(out)@) + opt_x32_file(name, o));
        },
    }
}

fn push_opt_cstr(out: &mut Vec<DebugFsFile>, name: &'static str, o: &Option<Vec<u8>>)
    ensures
        views(final(out)@) == views(old(out)@) + opt_cstr_file(name, *o),
{
    match o {
        Some(v) => {
            let mut c: Vec<u8> = Vec::new();
            push_escaped(&mut c, v.as_slice());
            assert(c@ =~= escape(v@));
            push_file(out, None, name, c);
            assert(views(final(out)@) =~= views(old(out)@) + opt_cstr_file(name, *o));
        },
        None => {
            assert(views(final(out)@) =~= views(old(out)@) + opt_cstr_file(name, *o));
        },
    }
}

fn push_opt_model(out: &mut Vec<DebugFsFile>, name: &'static str, o: Option<PmicModel>)
    ensures
        views(final(out)@) == views(old(out)@) + opt_model_file(name, o),
{
    match o {
        Some(v) => {
            let mut c: Vec<u8> = Vec::new();
            v.fmt(&mut c);
            assert(c@ =~= pmic_model_text(v.0));
            push_file(out, None, name, c);
            assert(views(final(out)@) =~= views(old(out)@) + opt_model_file(name, o));
        },
        None => {
            assert(views(final(out)@) =~= views(old(out)@) + opt_model_file(name, o));
        },
    }
}

fn push_opt_die_rev(out: &mut Vec<DebugFsFile>, name: &'static str, o: Option<PmicDieRev>)
    ensures
        views(final(out)@) == views(old(out)@) + opt_die_rev_file(name, o),
{
    match o {
        Some(v) => {
            let mut c: Vec<u8> = Vec::new();
            v.fmt(&mut c);
            assert(c@ =~= pmic_die_rev_text(v.0));
            push_file(out, None, name, c);
            assert(views(final(out)@) =~= views(old(out)@) + opt_die_rev_file(name, o));
        },
        None => {
            assert(views(final(out)@) =~= views(old(out)@) + opt_die_rev_file(name, o));
        },
    }
}

fn push_opt_array(out: &mut Vec<DebugFsFile>, name: &'static str, o: &Option<PmicArray>)
    ensures
        views(final(out)@) == views(old(out)@) + opt_array_file(name, *o),
{
    match o {
        Some(v) => {
            let mut c: Vec<u8> = Vec::new();
            v.fmt(&mut c);
            assert(c@ =~= pmic_array_text(v.0@));
            push_file(out, None, name, c);
            assert(views(final(out)@) =~= views(old(out)@) + opt_array_file(name, *o));
        },
        None => {
            assert(views(final(out)@) =~= views(old(out)@) + opt_array_file(name, *o));
        },
    }
}

fn push_char_array_file(
    out: &mut Vec<DebugFsFile>,
    dir: &'static str,
    name: &'static str,
    buf: &[u8],
)
    ensures
        views(final(out)@) == views(old(out)@).push(
            file_spec(Some(dir), name, char_array_text(buf@)),
        ),
{
    let mut c: Vec<u8> = Vec::new();
    fmt_char_array(buf, &mut c);
    assert(c@ =~= char_array_text(buf@));
    push_file(out, Some(dir), name, c);
}

fn push_versions(out: &mut Vec<DebugFsFile>, o: &Option<crate::socinfo::ImageVersions>)
    ensures
        views(final(out)@) == views(old(out)@) + versions_files(*o),
{
    match o {
        None => {
            assert(views(final(out)@) =~= views(old(out)@) + versions_files(*o));
        },
        Some(versions) => {
            let ghost start = views(out@);
            let ghost vs = versions.0@;
            let mut k: usize = 0;
            assert(start + image_files_upto(vs, 0) =~= start);
            while k < IMAGE_NAMES_LEN
                invariant
                    k <= IMAGE_NAMES_LEN,
                    vs == versions.0@,
                    views(out@) == start + image_files_upto(vs, k as int),
                decreases IMAGE_NAMES_LEN - k,
            {
                let (image_name, idx) = image_name(k);
                let ghost before = views(out@);
                if idx < versions.0.len() {
                    let version = &versions.0[idx];
                    push_char_array_file(out, image_name, "name", version.name.as_slice());
                    push_char_array_file(out, image_name, "variant", version.variant.as_slice());
                    push_char_array_file(out, image_name, "oem", version.oem.as_slice());
                }
                assert(views(out@) =~= before + image_files(vs, k as int));
                assert(image_files_upto(vs, k + 1) == image_files_upto(vs, k as int) + image_files(vs, k as int));
                assert(views(out@) =~= start + image_files_upto(vs, k + 1));
                k += 1;
            }
        },
    }
}

/// Every file the driver exports for `params`: `info_fmt` and `build_id`, then one file per
/// value the block's format provides, then `name`, `variant` and `oem` for each image of the
/// version table.
pub fn build_debugfs(params: &Params) -> (r: Vec<DebugFsFile>)
    ensures
        views(r@) == debugfs_listing(*params),
{
    let mut out: Vec<DebugFsFile> = Vec::new();
    let mut c: Vec<u8> = Vec::new();
    push_hex_u32(&mut c, params.info_fmt);
    push_str(&mut c, "\n");
    push_file(&mut out, None, "info_fmt", c);
    let mut c: Vec<u8> = Vec::new();
    push_escaped(&mut c, params.build_id.as_slice());
    push_file(&mut out, None, "build_id", c);
    assert(views(out@) =~= seq![
        file_spec(None, "info_fmt", hex_u32(params.info_fmt) + "\n".spec_bytes()),
        file_spec(None, "build_id", escape(params.build_id@)),
    ]);
    push_opt_dec(&mut out, "raw_version", params.raw_version);
    push_opt_dec(&mut out, "hardware_platform", params.hardware_platform);
    push_opt_dec(&mut out, "platform_version", params.platform_version);
    push_opt_dec(&mut out, "accessory_chip", params.accessory_chip);
    push_opt_dec(&mut out, "hardware_platform_subtype", params.hardware_platform_subtype);
    push_opt_x32(&mut out, "raw_device_number", params.raw_device_number);
    push_opt_x32(&mut out, "raw_device_family", params.raw_device_family);
    push_opt_x32(&mut out, "chip_family", params.chip_family);
    push_opt_dec(&mut out, "nproduct_id", params.nproduct_id);
    push_opt_dec(&mut out, "nsubset_parts_array_offset", params.nsubset_parts_array_offset);
    push_opt_dec(&mut out, "num_subset_parts", params.num_subset_parts);
    push_opt_dec(&mut out, "ncluster_array_offset", params.ncluster_array_offset);
    push_opt_dec(&mut out, "num_clusters", params.num_clusters);
    push_opt_dec(&mut out, "nmodem_supported", params.nmodem_supported);
    push_opt_dec(&mut out, "pcode", params.pcode);
    push_opt_dec(&mut out, "feature_code", params.feature_code);
    push_opt_dec(&mut out, "oem_variant", params.oem_variant);
    push_opt_dec(&mut out, "boot_core", params.boot_core);
    push_opt_dec(&mut out, "boot_cluster", params.boot_cluster);
    push_opt_dec(&mut out, "num_func_clusters", params.num_func_clusters);
    push_opt_dec(&mut out, "foundry_id", params.foundry_id);
    push_opt_cstr(&mut out, "chip_id", &params.chip_id);
    push_opt_model(&mut out, "pmic_model", params.pmic_model);
    push_opt_die_rev(&mut out, "pmic_die_rev", params.pmic_die_rev);
    push_opt_array(&mut out, "pmic_model_array", &params.pmic_model_array);
    push_versions(&mut out, &params.versions);
    out
}

} // verus!
