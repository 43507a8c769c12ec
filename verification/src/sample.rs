//! The DebugFS sample: a directory of devices that user space creates, removes and updates
//! through ioctls, and the text each device's files show.
//!
//! Commands are encoded as `_IOW` ioctl numbers on `'|'`. The device table maps a device id to
//! its two properties (`atomic` and `mutex`).

use vstd::prelude::*;
use std::collections::BTreeMap;
use vstd::string::StringSliceAdditionalSpecFns;
use crate::error::{Error, EEXIST, EFAULT, EINVAL, ENOENT};
use crate::text::{dec, hex, hexs, push_dec, push_hex, push_hexs, push_str};

verus! {

broadcast use {vstd::std_specs::btree::group_btree_axioms, vstd::laws_cmp::group_laws_cmp};

/// Direction bits of an ioctl number that carries data from user space.
pub const IOC_WRITE: u32 = 1;
/// Largest argument size an ioctl number can encode.
pub const IOC_SIZEMASK: u32 = 0x3fff;
/// Ioctl type of the sample's commands (`'|'`).
pub const IOC_TYPE: u32 = 0x7c;

/// The ioctl number with direction `dir`, type `ty`, number `nr` and argument size `size`.
pub open spec fn ioc_spec(dir: u32, ty: u32, nr: u32, size: u32) -> u32 {
    (dir * 0x40000000 + size * 0x10000 + ty * 0x100 + nr) as u32
}

/// The argument size an ioctl number encodes (`_IOC_SIZE`).
pub open spec fn ioc_size_spec(cmd: u32) -> u32 {
    ((cmd / 0x10000) % 0x4000) as u32
}

/// `_IOC`: packs direction, type, number and argument size into an ioctl number.
pub fn ioc(dir: u32, ty: u32, nr: u32, size: u32) -> (r: u32)
    requires
        dir < 4,
        ty < 0x100,
        nr < 0x100,
        size <= IOC_SIZEMASK,
    ensures
        r == ioc_spec(dir, ty, nr, size),
{
    let r = (dir << 30) | (ty << 8) | nr | (size << 16);
    assert(r == ((dir * 0x40000000 + size * 0x10000 + ty * 0x100 + nr) as u32)) by (bit_vector)
        requires
            dir < 4,
            ty < 0x100,
            nr < 0x100,
            size <= 0x3fff,
            r == (dir << 30) | (ty << 8) | nr | (size << 16),
    ;
    r
}

/// `_IOW`: the ioctl number of a command that passes `size` bytes from user space.
pub fn iow(ty: u32, nr: u32, size: usize) -> (r: u32)
    requires
        ty < 0x100,
        nr < 0x100,
        size <= IOC_SIZEMASK,
    ensures
        r == ioc_spec(IOC_WRITE, ty, nr, size as u32),
{
    ioc(IOC_WRITE, ty, nr, size as u32)
}

/// `_IOC_SIZE`: the argument size an ioctl number encodes.
pub fn ioc_size(cmd: u32) -> (r: usize)
    ensures
        r == ioc_size_spec(cmd),
{
    let s = (cmd >> 16) & 0x3fff;
    assert(s == ((cmd / 0x10000) % 0x4000) as u32) by (bit_vector)
        requires
            s == (cmd >> 16) & 0x3fff,
    ;
    s as usize
}

/// The argument size of an `_IOW` number is the size it was made with.
pub proof fn lemma_ioc_size_of_iow(ty: u32, nr: u32, size: u32)
    requires
        ty < 0x100,
        nr < 0x100,
        size <= IOC_SIZEMASK,
    ensures
        ioc_size_spec(ioc_spec(IOC_WRITE, ty, nr, size)) == size,
{
    let c = ioc_spec(IOC_WRITE, ty, nr, size);
    assert(c == 0x40000000 + size * 0x10000 + ty * 0x100 + nr);
    assert(c / 0x10000 == 0x4000 + size) by (nonlinear_arith)
        requires
            c == 0x40000000 + size * 0x10000 + ty * 0x100 + nr,
            ty < 0x100,
            nr < 0x100,
    ;
}

/// Size of a `usize` in bytes.
pub open spec fn usize_bytes() -> nat {
    vstd::layout::size_of::<usize>()
}

/// Ioctl number of "create device" (argument: the device id).
pub open spec fn create_dev_cmd_spec() -> u32 {
    ioc_spec(IOC_WRITE, IOC_TYPE, 1, usize_bytes() as u32)
}

/// Ioctl number of "remove device" (argument: the device id).
pub open spec fn remove_dev_cmd_spec() -> u32 {
    ioc_spec(IOC_WRITE, IOC_TYPE, 2, usize_bytes() as u32)
}

/// Ioctl number of "set device properties" (argument: device id, `atomic`, `mutex`).
pub open spec fn set_dev_prop_cmd_spec() -> u32 {
    ioc_spec(IOC_WRITE, IOC_TYPE, 3, (3 * usize_bytes()) as u32)
}

proof fn lemma_usize_bytes()
    ensures
        usize_bytes() == 4 || usize_bytes() == 8,
{
    broadcast use vstd::layout::layout_of_primitives;

    assert(usize::BITS == 32 || usize::BITS == 64);
}

/// `CREATE_DEV`.
pub fn create_dev_cmd() -> (r: u32)
    ensures
        r == create_dev_cmd_spec(),
{
    proof {
        lemma_usize_bytes();
    }
    iow(IOC_TYPE, 1, core::mem::size_of::<usize>())
}

/// `REMOVE_DEV`.
pub fn remove_dev_cmd() -> (r: u32)
    ensures
        r == remove_dev_cmd_spec(),
{
    proof {
        lemma_usize_bytes();
    }
    iow(IOC_TYPE, 2, core::mem::size_of::<usize>())
}

/// `SET_DEV_PROP`.
pub fn set_dev_prop_cmd() -> (r: u32)
    ensures
        r == set_dev_prop_cmd_spec(),
{
    proof {
        lemma_usize_bytes();
    }
    iow(IOC_TYPE, 3, 3 * core::mem::size_of::<usize>())
}

/// A command of the sample's ioctl interface.
#[derive(Clone, Copy, PartialEq, Eq, Structural)]
pub enum Command {
    /// Create a device.
    CreateDev,
    /// Remove a device.
    RemoveDev,
    /// Set a device's properties.
    SetDevProp,
}

/// The command an ioctl number stands for.
pub open spec fn command_spec(cmd: u32) -> Option<Command> {
    if cmd == create_dev_cmd_spec() {
        Some(Command::CreateDev)
    } else if cmd == remove_dev_cmd_spec() {
        Some(Command::RemoveDev)
    } else if cmd == set_dev_prop_cmd_spec() {
        Some(Command::SetDevProp)
    } else {
        None
    }
}

/// How many `usize` values a command reads from its user-space argument.
pub open spec fn arg_count(c: Command) -> nat {
    match c {
        Command::SetDevProp => 3,
        _ => 1,
    }
}

/// Decodes an ioctl number.
pub fn command(cmd: u32) -> (r: Option<Command>)
    ensures
        r == command_spec(cmd),
        r is Some <==> (cmd == create_dev_cmd_spec() || cmd == remove_dev_cmd_spec() || cmd
            == set_dev_prop_cmd_spec()),
{
    if cmd == create_dev_cmd() {
        Some(Command::CreateDev)
    } else if cmd == remove_dev_cmd() {
        Some(Command::RemoveDev)
    } else if cmd == set_dev_prop_cmd() {
        Some(Command::SetDevProp)
    } else {
        None
    }
}

/// The properties of one device.
#[derive(Clone, Copy, PartialEq, Eq, Structural)]
pub struct DevData {
    /// The `atomic` property.
    pub atomic: usize,
    /// The `mutex` property.
    pub mutex: usize,
}

/// The sample's device table.
pub struct DynDebugFs {
    devs: BTreeMap<usize, DevData>,
}

/// What an ioctl does to the device table `devs`, given the values `args` read from its
/// user-space argument: the new table and the result.
pub open spec fn ioctl_spec(devs: Map<usize, DevData>, cmd: u32, args: Seq<usize>) -> (Map<
    usize,
    DevData,
>, Result<isize, int>) {
    match command_spec(cmd) {
        None => (devs, Err(-EINVAL)),
        Some(c) => if args.len() < arg_count(c) {
            (devs, Err(-EFAULT))
        } else {
            match c {
                Command::CreateDev => if devs.contains_key(args[0]) {
                    (devs, Err(-EEXIST))
                } else {
                    (devs.insert(args[0], DevData { atomic: 0, mutex: 0 }), Ok(0))
                },
                Command::RemoveDev => if devs.contains_key(args[0]) {
                    (devs.remove(args[0]), Ok(0))
                } else {
                    (devs, Err(-ENOENT))
                },
                Command::SetDevProp => if devs.contains_key(args[0]) {
                    (devs.insert(args[0], DevData { atomic: args[1], mutex: args[2] }), Ok(0))
                } else {
                    (devs, Err(-ENOENT))
                },
            }
        },
    }
}

/// The three commands have distinct ioctl numbers, each encoding the size of what the
/// command reads.
pub proof fn lemma_commands()
    ensures
        create_dev_cmd_spec() != remove_dev_cmd_spec(),
        create_dev_cmd_spec() != set_dev_prop_cmd_spec(),
        remove_dev_cmd_spec() != set_dev_prop_cmd_spec(),
        ioc_size_spec(create_dev_cmd_spec()) == usize_bytes(),
        ioc_size_spec(remove_dev_cmd_spec()) == usize_bytes(),
        ioc_size_spec(set_dev_prop_cmd_spec()) == 3 * usize_bytes(),
{
    lemma_usize_bytes();
    lemma_ioc_size_of_iow(IOC_TYPE, 1, usize_bytes() as u32);
    lemma_ioc_size_of_iow(IOC_TYPE, 2, usize_bytes() as u32);
    lemma_ioc_size_of_iow(IOC_TYPE, 3, (3 * usize_bytes()) as u32);
}

/// An ioctl number is a command exactly when it is one of the three `_IOW` numbers on `'|'`:
/// number 1 (create) and number 2 (remove), each with the size of one `usize`, and number 3
/// (set properties) with the size of three. Any other number, whatever its low byte, is refused
/// with `EINVAL` and leaves the device table as it was.
pub proof fn lemma_command_exact(devs: Map<usize, DevData>, cmd: u32, args: Seq<usize>)
    ensures
        command_spec(cmd) == Some(Command::CreateDev) <==> cmd == 0x4000_7c01 + usize_bytes()
            * 0x10000,
        command_spec(cmd) == Some(Command::RemoveDev) <==> cmd == 0x4000_7c02 + usize_bytes()
            * 0x10000,
        command_spec(cmd) == Some(Command::SetDevProp) <==> cmd == 0x4000_7c03 + 3
            * usize_bytes() * 0x10000,
        (cmd != 0x4000_7c01 + usize_bytes() * 0x10000 && cmd != 0x4000_7c02 + usize_bytes()
            * 0x10000 && cmd != 0x4000_7c03 + 3 * usize_bytes() * 0x10000) ==> ioctl_spec(
            devs,
            cmd,
            args,
        ) == (devs, Err::<isize, int>(-EINVAL)),
{
    lemma_usize_bytes();
}

/// Creating a device that does not exist and then removing it leaves the table as it was;
/// creating a device twice fails the second time with `EEXIST` and changes nothing.
pub proof fn lemma_create_then_remove_or_create(devs: Map<usize, DevData>, id: usize)
    requires
        !devs.contains_key(id),
    ensures
        ({
            let (after_create, r1) = ioctl_spec(devs, create_dev_cmd_spec(), seq![id]);
            &&& r1 == Ok::<isize, int>(0)
            &&& ioctl_spec(after_create, remove_dev_cmd_spec(), seq![id]) == (devs, Ok::<isize, int>(0))
            &&& ioctl_spec(after_create, create_dev_cmd_spec(), seq![id]) == (
                after_create,
                Err::<isize, int>(-EEXIST),
            )
        }),
{
    lemma_commands();
    let after_create = devs.insert(id, DevData { atomic: 0, mutex: 0 });
    assert(after_create.remove(id) =~= devs);
}

/// Removing or updating a device that does not exist fails with `ENOENT` and changes nothing.
pub proof fn lemma_missing_device(devs: Map<usize, DevData>, id: usize, a: usize, m: usize)
    requires
        !devs.contains_key(id),
    ensures
        ioctl_spec(devs, remove_dev_cmd_spec(), seq![id]) == (devs, Err::<isize, int>(-ENOENT)),
        ioctl_spec(devs, set_dev_prop_cmd_spec(), seq![id, a, m]) == (
            devs,
            Err::<isize, int>(-ENOENT),
        ),
{
    lemma_commands();
}

/// After the properties of an existing device are set, the device holds them and no other
/// device changes.
pub proof fn lemma_set_then_read(devs: Map<usize, DevData>, id: usize, a: usize, m: usize, other: usize)
    requires
        devs.contains_key(id),
        other != id,
    ensures
        ({
            let (after, r) = ioctl_spec(devs, set_dev_prop_cmd_spec(), seq![id, a, m]);
            &&& r == Ok::<isize, int>(0)
            &&& after[id] == DevData { atomic: a, mutex: m }
            &&& after.contains_key(other) == devs.contains_key(other)
            &&& devs.contains_key(other) ==> after[other] == devs[other]
        }),
{
    lemma_commands();
}

/// The errno of an ioctl result, or the value it returns.
pub open spec fn result_view(r: Result<isize, Error>) -> Result<isize, int> {
    match r {
        Ok(v) => Ok(v),
        Err(e) => Err(e.errno()),
    }
}

impl DynDebugFs {
    /// The device table: device id to properties.
    pub closed spec fn devs(&self) -> Map<usize, DevData> {
        self.devs@
    }

    /// An empty device table.
    pub fn new() -> (r: Self)
        ensures
            r.devs() == Map::<usize, DevData>::empty(),
    {
        DynDebugFs { devs: BTreeMap::new() }
    }

    /// The properties of device `dev_id`, if it exists.
    pub fn get(&self, dev_id: usize) -> (r: Option<DevData>)
        ensures
            r is Some <==> self.devs().contains_key(dev_id),
            r matches Some(d) ==> d == self.devs()[dev_id],
    {
        match self.devs.get(&dev_id) {
            Some(d) => Some(*d),
            None => None,
        }
    }

    /// Creates device `dev_id` with both properties zero; `EEXIST` if it exists already.
    pub fn create_dev(&mut self, dev_id: usize) -> (r: Result<isize, Error>)
        ensures
            old(self).devs().contains_key(dev_id) ==> final(self).devs() == old(self).devs()
                && (r matches Err(e) && e.errno() == -EEXIST),
            !old(self).devs().contains_key(dev_id) ==> final(self).devs() == old(
                self,
            ).devs().insert(dev_id, DevData { atomic: 0, mutex: 0 }) && r == Ok::<isize, Error>(
                0,
            ),
    {
        if self.devs.contains_key(&dev_id) {
            return Err(Error::code(EEXIST));
        }
        self.devs.insert(dev_id, DevData { atomic: 0, mutex: 0 });
        Ok(0)
    }

    /// Removes device `dev_id`; `ENOENT` if it does not exist.
    pub fn remove_dev(&mut self, dev_id: usize) -> (r: Result<isize, Error>)
        ensures
            old(self).devs().contains_key(dev_id) ==> final(self).devs() == old(self).devs().remove(
                dev_id,
            ) && r == Ok::<isize, Error>(0),
            !old(self).devs().contains_key(dev_id) ==> final(self).devs() == old(self).devs()
                && (r matches Err(e) && e.errno() == -ENOENT),
    {
        if self.devs.remove(&dev_id).is_none() {
            return Err(Error::code(ENOENT));
        }
        Ok(0)
    }

    /// Sets both properties of device `dev_id`; `ENOENT` if it does not exist.
    pub fn set_dev_prop(&mut self, dev_id: usize, prop_atomic: usize, prop_mutex: usize) -> (r:
        Result<isize, Error>)
        ensures
            old(self).devs().contains_key(dev_id) ==> final(self).devs() == old(self).devs().insert(
                dev_id,
                DevData { atomic: prop_atomic, mutex: prop_mutex },
            ) && r == Ok::<isize, Error>(0),
            !old(self).devs().contains_key(dev_id) ==> final(self).devs() == old(self).devs()
                && (r matches Err(e) && e.errno() == -ENOENT),
    {
        if !self.devs.contains_key(&dev_id) {
            return Err(Error::code(ENOENT));
        }
        self.devs.insert(dev_id, DevData { atomic: prop_atomic, mutex: prop_mutex });
        Ok(0)
    }

    /// Handles ioctl `cmd`, whose user-space argument yielded the values `args` (as many as the
    /// command reads, or fewer when reading faulted): unknown commands fail with `EINVAL`, a
    /// short argument with `EFAULT`.
    pub fn ioctl(&mut self, cmd: u32, args: &[usize]) -> (r: Result<isize, Error>)
        ensures
            (final(self).devs(), result_view(r)) == ioctl_spec(old(self).devs(), cmd, args@),
    {
        match command(cmd) {
            None => Err(Error::code(EINVAL)),
            Some(Command::CreateDev) => {
                if args.len() < 1 {
                    return Err(Error::code(EFAULT));
                }
                self.create_dev(args[0])
            },
            Some(Command::RemoveDev) => {
                if args.len() < 1 {
                    return Err(Error::code(EFAULT));
                }
                self.remove_dev(args[0])
            },
            Some(Command::SetDevProp) => {
                if args.len() < 3 {
                    return Err(Error::code(EFAULT));
                }
                self.set_dev_prop(args[0], args[1], args[2])
            },
        }
    }
}

/// What the `mutex` file of a device shows.
pub open spec fn mutex_text(d: DevData) -> Seq<u8> {
    "mutex: ".spec_bytes() + dec(d.mutex as nat)
}

/// What the `atomic` file of a device shows.
pub open spec fn atomic_text(d: DevData) -> Seq<u8> {
    "atomic: ".spec_bytes() + dec(d.atomic as nat)
}

/// What the `combined` file of a device shows: the sum of both properties.
pub open spec fn combined_text(d: DevData) -> Seq<u8> {
    "combined: ".spec_bytes() + dec((d.atomic + d.mutex) as nat)
}

impl DevData {
    /// Appends what the `mutex` file shows.
    pub fn fmt_mutex(&self, f: &mut Vec<u8>)
        ensures
            final(f)@ == old(f)@ + mutex_text(*self),
    {
        push_str(f, "mutex: ");
        push_dec(f, self.mutex as u64);
        assert(final(f)@ =~= old(f)@ + mutex_text(*self));
    }

    /// Appends what the `atomic` file shows.
    pub fn fmt_atomic(&self, f: &mut Vec<u8>)
        ensures
            final(f)@ == old(f)@ + atomic_text(*self),
    {
        push_str(f, "atomic: ");
        push_dec(f, self.atomic as u64);
        assert(final(f)@ =~= old(f)@ + atomic_text(*self));
    }

    /// Appends what the `combined` file shows; the sum must not overflow.
    pub fn fmt_combined(&self, f: &mut Vec<u8>)
        requires
            self.atomic + self.mutex <= usize::MAX,
        ensures
            final(f)@ == old(f)@ + combined_text(*self),
    {
        push_str(f, "combined: ");
        push_dec(f, (self.atomic + self.mutex) as u64);
        assert(final(f)@ =~= old(f)@ + combined_text(*self));
    }
}

/// What the `example` file shows for the value of the example counter.
pub open spec fn example_text(v: u32) -> Seq<u8> {
    "Reading atomic: ".spec_bytes() + dec(v as nat) + "\n".spec_bytes()
}

/// Appends what the `example` file shows.
pub fn fmt_example(v: u32, f: &mut Vec<u8>)
    ensures
        final(f)@ == old(f)@ + example_text(v),
{
    push_str(f, "Reading atomic: ");
    push_dec(f, v as u64);
    push_str(f, "\n");
    assert(final(f)@ =~= old(f)@ + example_text(v));
}

/// What `{:#010x}` prints for `n`: `0x` and its hex digits, zero padded to eight.
pub open spec fn hex_padded8(n: nat) -> Seq<u8> {
    if n < 0x1_0000_0000 {
        seq![48u8, 120u8] + hex(n, 8)
    } else {
        seq![48u8, 120u8] + hexs(n)
    }
}

/// What the `arc_backed` file shows for the locked value.
pub open spec fn arc_backed_text(v: usize) -> Seq<u8> {
    "locked value: ".spec_bytes() + hex_padded8(v as nat) + "\n".spec_bytes()
}

/// Appends what the `arc_backed` file shows.
pub fn fmt_arc_backed(v: usize, f: &mut Vec<u8>)
    ensures
        final(f)@ == old(f)@ + arc_backed_text(v),
{
    push_str(f, "locked value: ");
    f.push(48);
    f.push(120);
    if (v as u64) < 0x1_0000_0000 {
        push_hex(f, v as u64, 8);
    } else {
        push_hexs(f, v as u64);
    }
    push_str(f, "\n");
    assert(final(f)@ =~= old(f)@ + arc_backed_text(v));
}

} // verus!
