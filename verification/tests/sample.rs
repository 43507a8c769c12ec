use qcom_socinfo::sample::{
    command, create_dev_cmd, fmt_arc_backed, fmt_example, ioc_size, iow, remove_dev_cmd, set_dev_prop_cmd, Command,
    DevData, DynDebugFs,
};

#[test]
fn ioctl_numbers() {
    let w = std::mem::size_of::<usize>() as u32;
    assert_eq!(create_dev_cmd(), 0x4000_7c01 | (w << 16));
    assert_eq!(remove_dev_cmd(), 0x4000_7c02 | (w << 16));
    assert_eq!(set_dev_prop_cmd(), 0x4000_7c03 | ((3 * w) << 16));
    assert_eq!(ioc_size(iow(0x7c, 9, 0x123)), 0x123);
    assert_eq!(ioc_size(create_dev_cmd()), std::mem::size_of::<usize>());
    assert!(command(create_dev_cmd()) == Some(Command::CreateDev));
    assert!(command(remove_dev_cmd()) == Some(Command::RemoveDev));
    assert!(command(set_dev_prop_cmd()) == Some(Command::SetDevProp));
    assert!(command(0).is_none());
}

#[test]
fn device_lifecycle() {
    let mut t = DynDebugFs::new();
    assert_eq!(t.ioctl(create_dev_cmd(), &[4]).ok(), Some(0));
    assert!(t.get(4) == Some(DevData { atomic: 0, mutex: 0 }));
    assert_eq!(t.ioctl(create_dev_cmd(), &[4]).err().unwrap().to_errno(), -17);
    assert_eq!(t.ioctl(set_dev_prop_cmd(), &[4, 10, 20]).ok(), Some(0));
    assert!(t.get(4) == Some(DevData { atomic: 10, mutex: 20 }));
    assert_eq!(t.ioctl(set_dev_prop_cmd(), &[5, 1, 1]).err().unwrap().to_errno(), -2);
    assert_eq!(t.ioctl(remove_dev_cmd(), &[4]).ok(), Some(0));
    assert!(t.get(4).is_none());
    assert_eq!(t.ioctl(remove_dev_cmd(), &[4]).err().unwrap().to_errno(), -2);
    assert_eq!(t.ioctl(0x1234, &[4]).err().unwrap().to_errno(), -22);
    assert_eq!(t.ioctl(set_dev_prop_cmd(), &[4, 1]).err().unwrap().to_errno(), -14);
    assert_eq!(t.ioctl(create_dev_cmd(), &[]).err().unwrap().to_errno(), -14);
}

#[test]
fn direct_table_operations() {
    let mut t = DynDebugFs::new();
    assert_eq!(t.create_dev(1).ok(), Some(0));
    assert_eq!(t.set_dev_prop(1, 3, 4).ok(), Some(0));
    assert_eq!(t.remove_dev(2).err().unwrap().to_errno(), -2);
    assert_eq!(t.remove_dev(1).ok(), Some(0));
}

#[test]
fn device_file_texts() {
    let d = DevData { atomic: 5, mutex: 37 };
    let mut v = Vec::new();
    d.fmt_mutex(&mut v);
    assert_eq!(v, b"mutex: 37".to_vec());
    let mut v = Vec::new();
    d.fmt_atomic(&mut v);
    assert_eq!(v, b"atomic: 5".to_vec());
    let mut v = Vec::new();
    d.fmt_combined(&mut v);
    assert_eq!(v, b"combined: 42".to_vec());
}

#[test]
fn module_file_texts() {
    let mut v = Vec::new();
    fmt_example(8, &mut v);
    assert_eq!(v, b"Reading atomic: 8\n".to_vec());
    let mut v = Vec::new();
    fmt_arc_backed(99, &mut v);
    assert_eq!(v, b"locked value: 0x00000063\n".to_vec());
    let mut v = Vec::new();
    fmt_arc_backed(0x1_2345_6789, &mut v);
    assert_eq!(v, b"locked value: 0x123456789\n".to_vec());
}

#[test]
fn example_file_follows_the_counter() {
    let mut v = Vec::new();
    fmt_example(10, &mut v);
    assert_eq!(v, b"Reading atomic: 10\n".to_vec());
}
