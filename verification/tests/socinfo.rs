use qcom_socinfo::data::SocId;
use qcom_socinfo::export::{build_debugfs, fmt_char_array};
use qcom_socinfo::socinfo::{
    basic_device_attribute, soc_info_from_partial_bytes, ImageVersions, PmicArray, PmicDieRev, PmicEntry, PmicModel, SocInfo, X32,
    SOCINFO_SIZE,
};

fn put32(b: &mut [u8], off: usize, v: u32) {
    b[off..off + 4].copy_from_slice(&v.to_le_bytes());
}

fn put_str(b: &mut [u8], off: usize, s: &[u8]) {
    b[off..off + s.len()].copy_from_slice(s);
}

/// A block of format `fmt` with id 321, version 2.1 and build id "BUILD1".
fn block(fmt: u32, extra: usize) -> Vec<u8> {
    let mut b = vec![0u8; SOCINFO_SIZE + extra];
    put32(&mut b, 0, fmt);
    put32(&mut b, 4, 321);
    put32(&mut b, 8, 0x0002_0001);
    put_str(&mut b, 12, b"BUILD1\0");
    b
}

fn show(f: impl Fn(&mut Vec<u8>)) -> Vec<u8> {
    let mut v = Vec::new();
    f(&mut v);
    v
}

#[test]
fn version_split_and_fuse() {
    assert_eq!(SocInfo::version_split(0x0002_0001), (2, 1));
    assert_eq!(SocInfo::version_split(0xffff_0000), (0xffff, 0));
    assert_eq!(SocInfo::version_fuse(0, 13), 13);
    assert_eq!(SocInfo::version_fuse(3, 7), 0x0003_0007);
    let (a, b) = SocInfo::version_split(0x1234_5678);
    assert_eq!(SocInfo::version_fuse(a, b), 0x1234_5678);
}

#[test]
fn partial_copy_pads_with_zeros() {
    let img = soc_info_from_partial_bytes(&[1, 2, 3]);
    assert_eq!(img.len(), SOCINFO_SIZE);
    assert_eq!(&img[..3], &[1, 2, 3]);
    assert!(img[3..].iter().all(|&b| b == 0));
    let long = vec![7u8; SOCINFO_SIZE + 10];
    assert_eq!(soc_info_from_partial_bytes(&long), vec![7u8; SOCINFO_SIZE]);
}

#[test]
fn short_block_reads_missing_fields_as_zero() {
    let mut mem = vec![0u8; 8];
    put32(&mut mem, 0, 5);
    put32(&mut mem, 4, 99);
    let info = SocInfo::from_mem(&mem, &[], 0x1000);
    assert_eq!(info.id(), 99);
    assert_eq!(info.version(), (0, 0));
}

#[test]
fn identity_and_device_attribute() {
    let mut mem = block(2, 0);
    put32(&mut mem, 96, 777);
    let info = SocInfo::from_mem(&mem, &[], 0x1000);
    assert_eq!(info.id(), 321);
    assert_eq!(info.serial(), 777);
    assert_eq!(info.version(), (2, 1));
    let table = [SocId { id: 7, name: "MSM8960" }, SocId { id: 321, name: "SM8150" }, SocId { id: 321, name: "OTHER" }];
    assert_eq!(info.machine(&table), Some(b"SM8150".to_vec()));
    assert_eq!(info.machine(&table[..1]), None);
    let attr = info.device_attribute(&table);
    assert_eq!(attr.family, Some(b"Snapdragon".to_vec()));
    assert_eq!(attr.machine, Some(b"SM8150".to_vec()));
    assert_eq!(attr.revision, Some(b"2.1".to_vec()));
    assert_eq!(attr.serial_number, Some(b"777".to_vec()));
    assert_eq!(attr.soc_id, Some(b"321".to_vec()));
}

#[test]
fn params_follow_the_format_version() {
    let mut mem = block(6, 0);
    put32(&mut mem, 48, 11);
    put32(&mut mem, 52, 22);
    put32(&mut mem, 56, 33);
    put32(&mut mem, 60, 44);
    put32(&mut mem, 64, 55);
    put32(&mut mem, 68, 66);
    let info = SocInfo::from_mem(&mem, &[], 0x1000);
    assert!(info.pmic_array_in_bounds());
    let p = info.build_params().unwrap();
    assert_eq!(p.info_fmt, 6);
    assert_eq!(p.build_id, b"BUILD1".to_vec());
    assert_eq!(p.raw_version, Some(11));
    assert_eq!(p.hardware_platform, Some(22));
    assert_eq!(p.platform_version, Some(33));
    assert_eq!(p.accessory_chip, Some(44));
    assert_eq!(p.hardware_platform_subtype, Some(55));
    assert!(p.pmic_model.is_none());
    assert!(p.foundry_id.is_none());
    assert!(p.pmic_model_array.is_none());
    assert!(p.chip_id.is_none());
    assert!(p.versions.as_ref().map(|v| v.0.is_empty()).unwrap_or(false));
}

#[test]
fn params_of_a_recent_block() {
    let mut mem = block(19, 16);
    put32(&mut mem, 68, 0x0001_0001);
    put32(&mut mem, 72, 0x0002_0003);
    put32(&mut mem, 92, 9);
    put32(&mut mem, 100, 2);
    put32(&mut mem, 104, SOCINFO_SIZE as u32);
    put32(&mut mem, 108, 0xab);
    put32(&mut mem, 124, u32::from_le_bytes(*b"CHIP"));
    put32(&mut mem, 204, 8);
    put32(&mut mem, 208, 1);
    put32(&mut mem, 212, 4);
    put32(&mut mem, SOCINFO_SIZE, 0x0000_000b);
    put32(&mut mem, SOCINFO_SIZE + 4, 0x0001_0000);
    put32(&mut mem, SOCINFO_SIZE + 8, 0x0002_0063);
    put32(&mut mem, SOCINFO_SIZE + 12, 0);
    let mut versions = vec![0u8; 128];
    put_str(&mut versions, 0, b"boot.img\0");
    let info = SocInfo::from_mem(&mem, &versions, 0x1000);
    assert!(info.pmic_array_in_bounds());
    let p = info.build_params().unwrap();
    assert_eq!(p.pmic_model.map(|m| m.0), Some(0x0001_0001));
    assert_eq!(p.pmic_die_rev.map(|m| m.0), Some(0x0002_0003));
    assert_eq!(p.foundry_id, Some(9));
    assert_eq!(p.chip_family.map(|x| x.0), Some(0xab));
    assert_eq!(p.chip_id, Some(b"CHIP".to_vec()));
    assert_eq!(p.boot_core, Some(4));
    assert_eq!(p.boot_cluster, Some(1));
    assert_eq!(p.num_func_clusters, Some(8));
    let arr = p.pmic_model_array.as_ref().unwrap();
    assert_eq!(arr.0.len(), 2);
    assert!(arr.0[0] == PmicEntry { model: 11, die_rev: 0x0001_0000 });
    assert!(arr.0[1] == PmicEntry { model: 0x0002_0063, die_rev: 0 });
    let v = p.versions.as_ref().unwrap();
    assert_eq!(v.0.len(), 1);
    assert_eq!(&v.0[0].name[..9], b"boot.img\0");
    assert_eq!(v.0[0].name.len(), 75);
    assert_eq!(v.0[0].variant.len(), 20);
    assert_eq!(v.0[0].oem.len(), 32);
}

#[test]
fn pmic_array_out_of_bounds_is_detected() {
    let mut mem = block(11, 0);
    put32(&mut mem, 100, 1);
    put32(&mut mem, 104, SOCINFO_SIZE as u32);
    let info = SocInfo::from_mem(&mem, &[], 0x1000);
    assert!(!info.pmic_array_in_bounds());
    let mut mem2 = block(11, 8);
    put32(&mut mem2, 100, 1);
    put32(&mut mem2, 104, SOCINFO_SIZE as u32);
    assert!(SocInfo::from_mem(&mem2, &[], 0x1000).pmic_array_in_bounds());
}

#[test]
fn unterminated_build_id_is_einval() {
    let mut mem = block(2, 0);
    put_str(&mut mem, 12, &[b'x'; 32]);
    let info = SocInfo::from_mem(&mem, &[], 0x1000);
    let err = info.build_params().err().unwrap();
    assert_eq!(err.to_errno(), -22);
}

#[test]
fn unterminated_chip_id_is_einval_from_format_13() {
    let mut mem = block(12, 0);
    put_str(&mut mem, 124, &[b'y'; 32]);
    assert!(SocInfo::from_mem(&mem, &[], 0x1000).build_params().is_ok());
    put32(&mut mem, 0, 13);
    let err = SocInfo::from_mem(&mem, &[], 0x1000).build_params().err().unwrap();
    assert_eq!(err.to_errno(), -22);
}

#[test]
fn image_versions_need_whole_records() {
    assert!(ImageVersions::from_bytes(&[0u8; 100]).is_none());
    assert_eq!(ImageVersions::from_bytes(&[0u8; 256]).unwrap().0.len(), 2);
    assert_eq!(ImageVersions::from_bytes(&[]).unwrap().0.len(), 0);
}

#[test]
fn pmic_array_from_bytes_reads_count_entries() {
    let mut b = vec![0u8; 24];
    put32(&mut b, 0, 1);
    put32(&mut b, 4, 2);
    put32(&mut b, 8, 3);
    put32(&mut b, 12, 4);
    let a = PmicArray::from_bytes(&b, 2, 0).unwrap();
    assert!(a.0 == vec![PmicEntry { model: 1, die_rev: 2 }, PmicEntry { model: 3, die_rev: 4 }]);
    assert_eq!(PmicArray::from_bytes(&b, 0, 0).unwrap().0.len(), 0);
}

#[test]
fn pmic_model_text() {
    assert_eq!(show(|f| PmicModel(0x0001_0001).fmt(f)), b"PM8941".to_vec());
    assert_eq!(show(|f| PmicModel(0).fmt(f)), b"Unknown PMIC model".to_vec());
    assert_eq!(show(|f| PmicModel(83).fmt(f)), b"SMB2360".to_vec());
    assert_eq!(show(|f| PmicModel(28).fmt(f)), b"unknown (28)".to_vec());
    assert_eq!(show(|f| PmicModel(0x0005_0055).fmt(f)), b"unknown (85)".to_vec());
}

#[test]
fn pmic_die_rev_text() {
    assert_eq!(show(|f| PmicDieRev(0x0002_0001).fmt(f)), b"2.1".to_vec());
    assert_eq!(show(|f| PmicDieRev(0).fmt(f)), b"0.0".to_vec());
    assert_eq!(show(|f| PmicDieRev(0xffff_ffff).fmt(f)), b"65535.65535".to_vec());
}

#[test]
fn pmic_array_text() {
    let a = PmicArray(vec![
        PmicEntry { model: 1, die_rev: 0x0001_0002 },
        PmicEntry { model: 0x0002_0063, die_rev: 7 },
        PmicEntry { model: 0x0003_001b, die_rev: 0x0010_0000 },
    ]);
    assert_eq!(show(|f| a.fmt(f)), b"PM8941 1.2\nunknown (131171)\nPM660 16.0".to_vec());
    assert_eq!(show(|f| PmicArray(vec![]).fmt(f)), Vec::<u8>::new());
}

#[test]
fn x32_text() {
    assert_eq!(show(|f| X32(0xab).fmt(f)), b"0x000000ab".to_vec());
    assert_eq!(show(|f| X32(0xdead_beef).fmt(f)), b"0xdeadbeef".to_vec());
}

#[test]
fn char_array_text() {
    let mut buf = [0u8; 20];
    buf[..4].copy_from_slice(b"abc\0");
    assert_eq!(show(|f| fmt_char_array(&buf, f)), b"abc\n".to_vec());
    assert_eq!(show(|f| fmt_char_array(&[0u8; 5], f)), Vec::<u8>::new());
    assert_eq!(show(|f| fmt_char_array(b"abc", f)), b"Unterminated String\n".to_vec());
    assert_eq!(show(|f| fmt_char_array(&[1, b'A', 0x7f, 0], f)), b"\\x01A\\x7f\n".to_vec());
}

#[test]
fn debugfs_files_of_an_early_block() {
    let mut mem = block(2, 0);
    put32(&mut mem, 48, 42);
    put_str(&mut mem, 12, b"ID\x02\0");
    let p = SocInfo::from_mem(&mem, &[0u8; 5], 0x1000).build_params().unwrap();
    let files = build_debugfs(&p);
    let listing: Vec<(Option<&str>, &str, Vec<u8>)> = files.into_iter().map(|f| (f.dir, f.name, f.contents)).collect();
    assert_eq!(
        listing,
        vec![
            (None, "info_fmt", b"0x00000002\n".to_vec()),
            (None, "build_id", b"ID\\x02".to_vec()),
            (None, "raw_version", b"42".to_vec()),
        ]
    );
}

#[test]
fn debugfs_files_of_a_recent_block() {
    let mut mem = block(13, 0);
    put32(&mut mem, 52, 7);
    put32(&mut mem, 68, 0x0001_0001);
    put32(&mut mem, 72, 0x0002_0003);
    put32(&mut mem, 112, 0x10);
    put32(&mut mem, 124, u32::from_le_bytes(*b"SOC\0"));
    let mut versions = vec![0u8; 128 * 11];
    put_str(&mut versions, 0, b"boot\0");
    put_str(&mut versions, 75, b"v\0");
    put_str(&mut versions, 128 * 10, b"apps\0");
    put_str(&mut versions, 128 * 10 + 96, &[b'o'; 32]);
    let p = SocInfo::from_mem(&mem, &versions, 0x1000).build_params().unwrap();
    let files = build_debugfs(&p);
    let names: Vec<(Option<&str>, &str)> = files.iter().map(|f| (f.dir, f.name)).collect();
    assert_eq!(
        names,
        vec![
            (None, "info_fmt"),
            (None, "build_id"),
            (None, "raw_version"),
            (None, "hardware_platform"),
            (None, "platform_version"),
            (None, "accessory_chip"),
            (None, "hardware_platform_subtype"),
            (None, "raw_device_number"),
            (None, "raw_device_family"),
            (None, "chip_family"),
            (None, "nproduct_id"),
            (None, "foundry_id"),
            (None, "chip_id"),
            (None, "pmic_model"),
            (None, "pmic_die_rev"),
            (None, "pmic_model_array"),
            (Some("apps"), "name"),
            (Some("apps"), "variant"),
            (Some("apps"), "oem"),
            (Some("boot"), "name"),
            (Some("boot"), "variant"),
            (Some("boot"), "oem"),
            (Some("rpm"), "name"),
            (Some("rpm"), "variant"),
            (Some("rpm"), "oem"),
            (Some("tz"), "name"),
            (Some("tz"), "variant"),
            (Some("tz"), "oem"),
        ]
    );
    let get = |d: Option<&str>, n: &str| files.iter().find(|f| f.dir == d && f.name == n).unwrap().contents.clone();
    assert_eq!(get(None, "info_fmt"), b"0x0000000d\n".to_vec());
    assert_eq!(get(None, "hardware_platform"), b"7".to_vec());
    assert_eq!(get(None, "raw_device_family"), b"0x00000010".to_vec());
    assert_eq!(get(None, "chip_id"), b"SOC".to_vec());
    assert_eq!(get(None, "pmic_model"), b"PM8941".to_vec());
    assert_eq!(get(None, "pmic_die_rev"), b"2.3".to_vec());
    assert_eq!(get(None, "pmic_model_array"), Vec::<u8>::new());
    assert_eq!(get(Some("apps"), "name"), b"apps\n".to_vec());
    assert_eq!(get(Some("apps"), "variant"), Vec::<u8>::new());
    assert_eq!(get(Some("apps"), "oem"), b"Unterminated String\n".to_vec());
    assert_eq!(get(Some("boot"), "variant"), b"v\n".to_vec());
    assert_eq!(get(Some("rpm"), "name"), Vec::<u8>::new());
}

#[test]
fn minimal_driver_attributes() {
    let a = basic_device_attribute();
    assert_eq!(a.family, Some(b"Snapdragon".to_vec()));
    assert!(a.machine.is_none() && a.revision.is_none() && a.serial_number.is_none() && a.soc_id.is_none());
}

#[test]
fn printable_strings_show_unchanged() {
    let mut buf = [0u8; 12];
    buf[..11].copy_from_slice(b"Hello World");
    assert_eq!(show(|f| fmt_char_array(&buf, f)), b"Hello World\n".to_vec());
}

#[test]
fn serial_number_is_the_serial_field() {
    let mut mem = vec![0u8; 95];
    put32(&mut mem, 4, 5);
    let info = SocInfo::from_mem(&mem, &[], 0x1000);
    assert_eq!(info.serial(), 0);
    assert_eq!(info.device_attribute(&[]).serial_number, Some(b"0".to_vec()));
    let mut mem = vec![0u8; 100];
    put32(&mut mem, 96, 12);
    let info = SocInfo::from_mem(&mem, &[], 0x1000);
    assert_eq!(info.device_attribute(&[]).serial_number, Some(b"12".to_vec()));
}

#[test]
fn misaligned_pmic_array_is_absent() {
    let mut mem = block(11, 8);
    put32(&mut mem, 100, 1);
    put32(&mut mem, 104, SOCINFO_SIZE as u32);
    let p = SocInfo::from_mem(&mem, &[], 0x1001).build_params().unwrap();
    assert!(p.pmic_model_array.is_none());
    let p = SocInfo::from_mem(&mem, &[], 0x1000).build_params().unwrap();
    assert_eq!(p.pmic_model_array.unwrap().0.len(), 1);
    let b = [0u8; 8];
    assert!(PmicArray::from_bytes(&b, 1, 2).is_none());
}
