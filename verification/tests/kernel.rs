use qcom_socinfo::debugfs::{display_act, Dir, ForeignHolder, Render, DISPLAY_FILE_MODE};
use qcom_socinfo::error::{from_err_ptr, is_err_ptr, Error, EBADF, EINVAL, ENOMEM};
use qcom_socinfo::file::operations::{
    fops_ioctl, fops_open, fops_open_install, fops_release, ioctl_return, then_some, vtable_slots, CompatIoctl, Whence,
};
use qcom_socinfo::file::{BadFdError, FileDescriptorReservation, InitFile, LocalFile, Outlives, RawFile};
use qcom_socinfo::soc::{cstring_to_c, Device, DeviceAttribute, DeviceRegistration};

#[test]
fn errno_conversion() {
    assert_eq!(Error::from_errno(-5).to_errno(), -5);
    assert_eq!(Error::from_errno(-4095).to_errno(), -4095);
    assert_eq!(Error::from_errno(0).to_errno(), -EINVAL);
    assert_eq!(Error::from_errno(7).to_errno(), -EINVAL);
    assert_eq!(Error::from_errno(-4096).to_errno(), -EINVAL);
    assert_eq!(Error::code(ENOMEM).to_errno(), -12);
}

#[test]
fn error_pointers() {
    assert!(is_err_ptr(usize::MAX));
    assert!(is_err_ptr(usize::MAX - 4094));
    assert!(!is_err_ptr(usize::MAX - 4095));
    assert!(!is_err_ptr(0));
    assert_eq!(from_err_ptr(usize::MAX).err().unwrap().to_errno(), -1);
    assert_eq!(from_err_ptr(usize::MAX - 11).err().unwrap().to_errno(), -12);
    assert_eq!(from_err_ptr(usize::MAX - 4094).err().unwrap().to_errno(), -4095);
    assert_eq!(from_err_ptr(0x1000).ok(), Some(0x1000));
    assert_eq!(from_err_ptr(0).ok(), Some(0));
}

#[test]
fn bad_fd_is_ebadf() {
    let mut shown = Vec::new();
    BadFdError.fmt(&mut shown);
    assert_eq!(shown, b"EBADF".to_vec());
    let e: Error = BadFdError.into();
    assert_eq!(e.to_errno(), -EBADF);
    assert!(LocalFile::<()>::fget(0).is_err());
    let f = LocalFile::<()>::fget(0x5000).ok().unwrap();
    assert_eq!(f.as_raw().as_ptr(), 0x5000);
    let shared = LocalFile::assume_no_fdget_pos(f);
    assert_eq!(shared.as_local().as_raw().as_ptr(), 0x5000);
}

#[test]
fn fd_reservation() {
    let r = FileDescriptorReservation::get_unused_fd_flags(3).ok().unwrap();
    assert_eq!(r.reserved_fd(), 3);
    let file = LocalFile::assume_no_fdget_pos(LocalFile::<()>::from_raw_file(0x7000));
    assert_eq!(r.fd_install(file), (3, 0x7000));
    let e = FileDescriptorReservation::get_unused_fd_flags(-24).err().unwrap();
    assert_eq!(e.to_errno(), -24);
    let r = FileDescriptorReservation::get_unused_fd_flags(0).ok().unwrap();
    assert_eq!(r.release(), 0);
}

#[test]
fn init_file_private_data() {
    let f: InitFile<()> = InitFile::from_raw_file(0x100, 0);
    assert_eq!(f.private_data(), 0);
    let (f, old) = f.set_private::<u32>(0x200);
    assert_eq!(old, 0);
    assert_eq!(f.private_data(), 0x200);
    let (f, old) = f.set_private_outlives::<Outlives<u8>>(0x300);
    assert_eq!(old, 0x200);
    let f = f.overwrite_private::<u64>(0x400);
    assert_eq!(f.private_data(), 0x400);
    let f = f.overwrite_private_outlives::<Outlives<u16>>(0x500);
    assert_eq!(f.private_data(), 0x500);
    assert_eq!(f.as_raw().as_ptr(), 0x100);
    assert_eq!(f.init().as_raw().as_ptr(), 0x100);
    assert_eq!(RawFile::<()>::from_raw_file(0x42).as_ptr(), 0x42);
}

#[test]
fn vtable_slots_follow_the_operations() {
    let v = vtable_slots(false, false, false, false, false);
    assert!(v.open && !v.release && !v.unlocked_ioctl && !v.show_fdinfo);
    assert!(v.compat_ioctl == CompatIoctl::Empty);
    let v = vtable_slots(false, true, true, false, true);
    assert!(v.release && v.unlocked_ioctl && v.show_fdinfo);
    assert!(v.compat_ioctl == CompatIoctl::PtrIoctl);
    let v = vtable_slots(true, false, true, true, false);
    assert!(v.release);
    assert!(v.compat_ioctl == CompatIoctl::Own);
    assert_eq!(then_some(true, 5u8), Some(5));
    assert_eq!(then_some(false, 5u8), None);
    assert!(Whence(1) == Whence(1));
}

#[test]
fn ioctl_return_values() {
    assert_eq!(ioctl_return(Ok(7)), 7);
    assert_eq!(ioctl_return(Ok(usize::MAX)), -1);
    assert_eq!(ioctl_return(Err(Error::code(EINVAL))), -22);
}

#[test]
fn debugfs_directories() {
    assert_eq!(Dir::create_parent(None), Some(0));
    let root = Dir::new(0x1000);
    assert_eq!(Dir::create_parent(Some(&root)), Some(0x1000));
    let sub = root.subdir(0x2000);
    assert_eq!(Dir::create_parent(Some(&sub)), Some(0x2000));
    let req = sub.file_request(&ForeignHolder::new(0x99)).unwrap();
    assert_eq!(req.parent, 0x2000);
    assert_eq!(req.data, 0x99);
    assert_eq!(req.mode, DISPLAY_FILE_MODE);
    assert_eq!(DISPLAY_FILE_MODE, 0o444);
    let file = sub.display_file(ForeignHolder::new(0x99), 0x3000);
    assert_eq!(file.as_ptr(), 0x3000);
    assert_eq!(file.data_ptr(), 0x99);
}

#[test]
fn render_shows_debug_and_newline() {
    let mut v = Vec::new();
    200u32.render(&mut v);
    0usize.render(&mut v);
    true.render(&mut v);
    u64::MAX.render(&mut v);
    assert_eq!(v, b"200\n0\ntrue\n18446744073709551615\n".to_vec());
}

#[test]
fn soc_registration() {
    let attr = DeviceAttribute {
        machine: None,
        family: Some(b"Snapdragon".to_vec()),
        revision: Some(b"1.0".to_vec()),
        serial_number: None,
        soc_id: Some(b"5".to_vec()),
    };
    assert_eq!(cstring_to_c(&attr.family), Some(&b"Snapdragon"[..]));
    assert_eq!(cstring_to_c(&attr.machine), None);
    let built = attr.build();
    let (m, f, r, s, i) = built.c_fields();
    assert!(m.is_none() && s.is_none());
    assert_eq!(f, Some(&b"Snapdragon"[..]));
    assert_eq!(r, Some(&b"1.0"[..]));
    assert_eq!(i, Some(&b"5"[..]));
    let err = DeviceRegistration::register(built, usize::MAX - 11).err().unwrap();
    assert_eq!(err.to_errno(), -ENOMEM);
    let attr2 = DeviceAttribute { machine: None, family: None, revision: None, serial_number: None, soc_id: None };
    let reg = DeviceRegistration::register(attr2.build(), 0x8000).ok().unwrap();
    assert_eq!(reg.soc_dev(), 0x8000);
    assert!(reg.attributes().c_fields().0.is_none());
    assert_eq!(Device::register(0x9000).ok().unwrap().as_ptr(), 0x9000);
    assert!(Device::register(usize::MAX).is_err());
}

#[test]
fn display_file_shows_the_number() {
    let dir = Dir::new(0x10);
    let file = dir.display_file(ForeignHolder::new(0x20), 0x30);
    assert_eq!(file.as_ptr(), 0x30);
    let mut shown = Vec::new();
    display_act(&200u32, &mut shown);
    assert_eq!(shown, b"200".to_vec());
    let mut shown = Vec::new();
    display_act(&300u64, &mut shown);
    assert_eq!(shown, b"300".to_vec());
    let mut shown = Vec::new();
    display_act(&b"a\x01".to_vec(), &mut shown);
    assert_eq!(shown, b"a\\x01".to_vec());
    let mut shown = Vec::new();
    display_act(&qcom_socinfo::socinfo::X32(0x10), &mut shown);
    display_act(&qcom_socinfo::socinfo::PmicModel(2), &mut shown);
    assert_eq!(shown, b"0x00000010PM8841".to_vec());
}

#[test]
fn text_helpers() {
    let mut v = Vec::new();
    qcom_socinfo::text::push_hex_u32(&mut v, 0);
    qcom_socinfo::text::push_escaped(&mut v, b"a\tb");
    qcom_socinfo::text::push_hexs(&mut v, 0xbeef);
    assert_eq!(v, b"0x00000000a\\x09bbeef".to_vec());
    assert_eq!(qcom_socinfo::text::bytes_until_nul(b"xy\0z"), Some(b"xy".to_vec()));
    assert_eq!(qcom_socinfo::text::bytes_until_nul(b"xyz"), None);
    assert_eq!(qcom_socinfo::text::find_nul(b"\0"), Some(0));
}

struct Ops;

impl qcom_socinfo::file::operations::Operations for Ops {
    type State = u32;
    const HAS_RELEASE: bool = true;
    const HAS_IOCTL: bool = true;
    const HAS_COMPAT_IOCTL: bool = false;
    const HAS_SHOW_FDINFO: bool = false;

    fn open(_file: &RawFile<()>) -> Result<u32, Error> {
        Ok(7)
    }

    fn release(_file: &qcom_socinfo::file::File<u32>) {}

    fn ioctl(_file: &qcom_socinfo::file::File<u32>, cmd: u32, arg: usize) -> Result<usize, Error> {
        if cmd == 1 { Ok(arg) } else { Err(Error::code(EINVAL)) }
    }

    fn compat_ioctl(_file: &qcom_socinfo::file::File<u32>, _cmd: u32, _arg: usize) -> Result<usize, Error> {
        Err(Error::code(EINVAL))
    }
}

#[test]
fn file_operation_entries() {
    assert_eq!(fops_ioctl::<Ops>(0x10, 1, 5), 5);
    assert_eq!(fops_ioctl::<Ops>(0x10, 2, 5), -22);
    assert!(fops_open::<Ops>(-13, InitFile::from_raw_file(0x10, 0)).err() == Some(-13));
    let (file, state) = fops_open::<Ops>(0, InitFile::from_raw_file(0x10, 0x44)).ok().unwrap();
    assert_eq!(state, 7);
    let (ret, file, old) = fops_open_install::<Ops>(file, 0x88);
    assert_eq!((ret, file.private_data(), old), (0, 0x88, 0x44));
    assert_eq!(fops_release::<Ops>(0x10, 0x88), (0, 0x88));
}
