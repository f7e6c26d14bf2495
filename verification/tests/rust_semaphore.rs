use device_session::error::Error;
use device_session::file_operations::{FileOpener, FileOperations, IoctlCommand, IoctlHandler};
use device_session::file_operations::{direction, payload_size, IOC_NONE, IOC_READ, IOC_WRITE};
use device_session::iov_iter::IovIter;
use device_session::miscdev::{Registration, MISC_DYNAMIC_MINOR};
use device_session::rust_semaphore::{mk_file_state, FileState, RustSemaphore};
use device_session::rust_semaphore::{DEVICE_NAME, IOCTL_GET_READ_COUNT, IOCTL_SET_READ_COUNT};
use device_session::semaphore::{SemaphoreInner, Step, Wake};

fn buffer(len: usize) -> IovIter {
    let mut it = IovIter::new();
    it.push_segment(&vec![0xaau8; len], true);
    it
}

fn region_of(bytes: &[u8]) -> IovIter {
    let mut it = IovIter::new();
    it.push_segment(bytes, true);
    it
}

fn opened() -> (RustSemaphore, Box<FileState>) {
    let module = RustSemaphore::init(|_| 0).ok().unwrap();
    let session = mk_file_state::<SemaphoreInner, FileState>(&module.dev).ok().unwrap();
    (module, session)
}

#[test]
fn init_registers_the_device() {
    let mut offered_minor = 0;
    let module = RustSemaphore::init(|d| {
        offered_minor = d.minor;
        58
    })
    .ok()
    .unwrap();
    assert!(module.dev.is_registered());
    assert_eq!(module.dev.descriptor().name, Some(DEVICE_NAME));
    assert_eq!(DEVICE_NAME, "rust_semaphore");
    assert_eq!(offered_minor, 255);
    assert_eq!(module.dev.descriptor().minor, 58);
    assert_eq!(module.dev.context().count(), 0);
    assert_eq!(module.dev.context().max_seen(), 0);
    assert_eq!(RustSemaphore::init(|_| -19).err(), Some(Error::RegistryRejected(-19)));
}

#[test]
fn session_supports_read_write_and_ioctl() {
    let to_use = FileState::to_use();
    assert!(to_use.read && to_use.write && to_use.ioctl);
    let session = FileState::open(&SemaphoreInner::new()).ok().unwrap();
    assert_eq!(session.read_count, 0);
}

#[test]
fn write_then_three_reads_then_block() {
    let (mut module, mut a) = opened();
    let shared = module.dev.context_mut();
    assert_eq!(a.write(shared, &mut buffer(3), 0), Ok(3));
    assert_eq!(shared.count(), 3);
    assert_eq!(shared.max_seen(), 3);
    assert_eq!(a.read(shared, &mut buffer(128), 0, Wake::Clear), Step::Done(Ok(1)));
    assert_eq!(shared.count(), 2);
    assert_eq!(a.read(shared, &mut buffer(128), 0, Wake::Clear), Step::Done(Ok(1)));
    assert_eq!(a.read(shared, &mut buffer(128), 0, Wake::Clear), Step::Done(Ok(1)));
    assert_eq!(shared.count(), 0);
    assert_eq!(a.read_count, 3);
    // The fourth read has to wait, however often it is woken ...
    assert_eq!(a.read(shared, &mut buffer(128), 0, Wake::Clear), Step::Block);
    assert_eq!(a.read(shared, &mut buffer(128), 0, Wake::Clear), Step::Block);
    assert_eq!(a.read_count, 3);
    // ... until another write occurs.
    assert_eq!(a.write(shared, &mut buffer(1), 0), Ok(1));
    assert_eq!(a.read(shared, &mut buffer(128), 0, Wake::Clear), Step::Done(Ok(1)));
    assert_eq!(shared.count(), 0);
    assert_eq!(shared.max_seen(), 3);
    assert_eq!(a.read_count, 4);
}

#[test]
fn a_write_unblocks_a_reader_of_another_session() {
    let (mut module, mut a) = opened();
    let mut b = mk_file_state::<SemaphoreInner, FileState>(&module.dev).ok().unwrap();
    let shared = module.dev.context_mut();
    let mut out_a = buffer(16);
    assert_eq!(a.read(shared, &mut out_a, 0, Wake::Clear), Step::Block);
    assert_eq!(b.write(shared, &mut buffer(5), 0), Ok(5));
    assert_eq!(a.read(shared, &mut out_a, 0, Wake::Clear), Step::Done(Ok(1)));
    assert_eq!(shared.count(), 4);
    assert!(shared.max_seen() >= 5);
    assert_eq!(a.read_count, 1);
    assert_eq!(b.read_count, 0);
    assert_eq!(out_a.common_len(), 15);
}

#[test]
fn read_hands_out_one_zero_byte() {
    let (mut module, mut a) = opened();
    let shared = module.dev.context_mut();
    shared.produce(1);
    let mut out = buffer(4);
    assert_eq!(a.read(shared, &mut out, 0, Wake::Clear), Step::Done(Ok(1)));
    assert_eq!(out.to_vec(), vec![0, 0xaa, 0xaa, 0xaa]);
    assert_eq!(out.common_len(), 3);
}

#[test]
fn read_into_nothing_or_at_an_offset_is_a_no_op() {
    let (mut module, mut a) = opened();
    let shared = module.dev.context_mut();
    shared.produce(2);
    assert_eq!(a.read(shared, &mut buffer(0), 0, Wake::Clear), Step::Done(Ok(0)));
    let mut out = buffer(8);
    assert_eq!(a.read(shared, &mut out, 1, Wake::Clear), Step::Done(Ok(0)));
    assert_eq!(a.read(shared, &mut out, u64::MAX, Wake::Interrupted), Step::Done(Ok(0)));
    assert_eq!(shared.count(), 2);
    assert_eq!(a.read_count, 0);
    assert_eq!(out.common_len(), 8);
    assert_eq!(out.to_vec(), vec![0xaa; 8]);
    // With nothing to take, such a read does not wait either.
    let mut empty = SemaphoreInner::new();
    assert_eq!(a.read(&mut empty, &mut buffer(0), 0, Wake::Clear), Step::Done(Ok(0)));
    assert_eq!(a.read(&mut empty, &mut buffer(8), 3, Wake::Clear), Step::Done(Ok(0)));
}

#[test]
fn interrupted_read_takes_nothing() {
    let (mut module, mut a) = opened();
    let shared = module.dev.context_mut();
    let mut out = buffer(8);
    assert_eq!(a.read(shared, &mut out, 0, Wake::Clear), Step::Block);
    assert_eq!(a.read(shared, &mut out, 0, Wake::Interrupted), Step::Done(Err(Error::Interrupted)));
    assert_eq!(shared.count(), 0);
    assert_eq!(a.read_count, 0);
    assert_eq!(out.common_len(), 8);
}

#[test]
fn read_into_an_unmapped_buffer_faults_behind_the_consume() {
    let (mut module, mut a) = opened();
    let shared = module.dev.context_mut();
    shared.produce(2);
    let mut out = IovIter::new();
    out.push_segment(&[1, 2], false);
    assert_eq!(a.read(shared, &mut out, 0, Wake::Clear), Step::Done(Err(Error::Fault)));
    assert_eq!(shared.count(), 1);
    assert_eq!(a.read_count, 0);
    assert_eq!(out.common_len(), 2);
}

#[test]
fn write_counts_every_byte_and_reads_none() {
    let (mut module, mut a) = opened();
    let shared = module.dev.context_mut();
    let mut input = region_of(b"123");
    assert_eq!(a.write(shared, &mut input, 77), Ok(3));
    assert_eq!(shared.count(), 3);
    assert_eq!(input.common_len(), 3);
    assert_eq!(a.write(shared, &mut buffer(0), 0), Ok(0));
    assert_eq!(shared.count(), 3);
    assert_eq!(a.write(shared, &mut buffer(128), 0), Ok(128));
    assert_eq!(shared.count(), 131);
    assert_eq!(shared.max_seen(), 131);
}

#[test]
fn consume_is_the_semaphores_step() {
    let mut shared = SemaphoreInner::new();
    assert_eq!(FileState::consume(&mut shared, Wake::Clear), Step::Block);
    shared.produce(1);
    assert_eq!(FileState::consume(&mut shared, Wake::Clear), Step::Done(Ok(())));
    assert_eq!(FileState::consume(&mut shared, Wake::Interrupted), Step::Done(Err(Error::Interrupted)));
}

#[test]
fn command_codes_carry_direction_and_size() {
    assert_eq!(IOCTL_GET_READ_COUNT, 0x80086301);
    assert_eq!(IOCTL_SET_READ_COUNT, 0x40086301);
    assert_eq!(direction(IOCTL_GET_READ_COUNT), IOC_READ);
    assert_eq!(direction(IOCTL_SET_READ_COUNT), IOC_WRITE);
    assert_eq!(direction(0x00006301), IOC_NONE);
    assert_eq!(direction(0xc0086301), IOC_READ | IOC_WRITE);
    assert_eq!(payload_size(IOCTL_GET_READ_COUNT), 8);
    assert_eq!(payload_size(IOCTL_SET_READ_COUNT), 8);
    assert_eq!(payload_size(0xffffffff), 0x3fff);
    assert_eq!(payload_size(0x00006301), 0);
}

#[test]
fn get_read_count_after_reads() {
    let (mut module, mut a) = opened();
    let shared = module.dev.context_mut();
    shared.produce(5);
    for _ in 0..5 {
        assert_eq!(a.read(shared, &mut buffer(1), 0, Wake::Clear), Step::Done(Ok(1)));
    }
    let mut cmd = IoctlCommand::new(IOCTL_GET_READ_COUNT, 0, buffer(8));
    assert_eq!(a.ioctl(shared, &mut cmd), Ok(0));
    assert_eq!(cmd.user_slice().to_vec(), vec![5, 0, 0, 0, 0, 0, 0, 0]);
    assert_eq!(cmd.raw(), (IOCTL_GET_READ_COUNT, 0));
    assert_eq!(a.read_count, 5);
    assert_eq!(shared.count(), 0);
}

#[test]
fn set_then_get_read_count() {
    let (mut module, mut a) = opened();
    let shared = module.dev.context_mut();
    let value: u64 = 0x1122334455667788;
    let mut set = IoctlCommand::new(IOCTL_SET_READ_COUNT, 0, region_of(&value.to_le_bytes()));
    assert_eq!(a.ioctl(shared, &mut set), Ok(0));
    assert_eq!(a.read_count, value);
    let mut get = IoctlCommand::new(IOCTL_GET_READ_COUNT, 0, buffer(8));
    assert_eq!(a.ioctl(shared, &mut get), Ok(0));
    assert_eq!(get.user_slice().to_vec(), value.to_le_bytes().to_vec());
}

#[test]
fn read_count_starts_again_behind_its_largest_value() {
    let mut a = FileState { read_count: u64::MAX };
    let mut shared = SemaphoreInner::new();
    shared.produce(1);
    assert_eq!(a.read(&mut shared, &mut buffer(1), 0, Wake::Clear), Step::Done(Ok(1)));
    assert_eq!(a.read_count, 0);
}

#[test]
fn unknown_commands_are_invalid() {
    let (mut module, mut a) = opened();
    let shared = module.dev.context_mut();
    a.read_count = 3;
    for code in [0x80086302u32, 0x40086302, 0x00006301, 0xc0086301, 0x80046301, 0] {
        let mut cmd = IoctlCommand::new(code, 0, buffer(16));
        assert_eq!(a.ioctl(shared, &mut cmd), Err(Error::InvalidArgument));
        assert_eq!(cmd.user_slice().to_vec(), vec![0xaa; 16]);
        assert_eq!(a.read_count, 3);
    }
    // The session remains usable.
    let mut get = IoctlCommand::new(IOCTL_GET_READ_COUNT, 0, buffer(8));
    assert_eq!(a.ioctl(shared, &mut get), Ok(0));
    assert_eq!(get.user_slice().to_vec(), vec![3, 0, 0, 0, 0, 0, 0, 0]);
}

#[test]
fn handlers_get_exactly_the_declared_payload() {
    let mut a = FileState { read_count: 1 };
    // The region is longer than the command declares: it is held to 8 bytes.
    let cmd = IoctlCommand::new(IOCTL_GET_READ_COUNT, 0, buffer(32));
    assert_eq!(cmd.user_slice().common_len(), 8);
    // The region is shorter than the command declares: the handler faults.
    let mut short = IoctlCommand::new(IOCTL_GET_READ_COUNT, 0, buffer(4));
    assert_eq!(short.dispatch(&mut a), Err(Error::Fault));
    assert_eq!(short.user_slice().to_vec(), vec![1, 0, 0, 0]);
    let mut short = IoctlCommand::new(IOCTL_SET_READ_COUNT, 0, region_of(&[9, 9, 9]));
    assert_eq!(short.dispatch(&mut a), Err(Error::Fault));
    assert_eq!(a.read_count, 1);
}

#[test]
fn each_direction_reaches_its_handler() {
    let mut a = FileState { read_count: 2 };
    assert_eq!(a.handle_pure(IOCTL_GET_READ_COUNT, 0), Err(Error::InvalidArgument));
    assert_eq!(a.handle_read_write(IOCTL_GET_READ_COUNT, &mut buffer(8)), Err(Error::InvalidArgument));
    assert_eq!(a.handle_write(IOCTL_GET_READ_COUNT, &mut buffer(8)), Err(Error::InvalidArgument));
    assert_eq!(a.handle_read(IOCTL_SET_READ_COUNT, &mut buffer(8)), Err(Error::InvalidArgument));
    let mut out = buffer(8);
    assert_eq!(a.handle_read(IOCTL_GET_READ_COUNT, &mut out), Ok(0));
    assert_eq!(out.to_vec(), vec![2, 0, 0, 0, 0, 0, 0, 0]);
    assert_eq!(a.handle_write(IOCTL_SET_READ_COUNT, &mut region_of(&[7, 0, 0, 0, 0, 0, 0, 0])), Ok(0));
    assert_eq!(a.read_count, 7);
}

#[test]
fn scenario_register_write_three_read_four() {
    let mut registration = Registration::new(SemaphoreInner::new());
    assert!(!registration.is_registered());
    let mut asked_for = 0;
    let registered = registration.register::<FileState, _>("sem", None, |d| {
        asked_for = d.minor;
        17
    });
    assert_eq!(registered, Ok(()));
    assert!(registration.is_registered());
    assert_eq!(asked_for, MISC_DYNAMIC_MINOR);
    assert_eq!(registration.descriptor().minor, 17);
    assert_eq!(registration.descriptor().name, Some("sem"));

    let mut a = mk_file_state::<SemaphoreInner, FileState>(&registration).ok().unwrap();
    let shared = registration.context_mut();
    assert_eq!(a.write(shared, &mut region_of(&[1, 2, 3]), 0), Ok(3));
    assert_eq!((shared.count(), shared.max_seen()), (3, 3));
    assert_eq!(a.read(shared, &mut buffer(1), 0, Wake::Clear), Step::Done(Ok(1)));
    assert_eq!(shared.count(), 2);
    assert_eq!(a.read(shared, &mut buffer(1), 0, Wake::Clear), Step::Done(Ok(1)));
    assert_eq!(a.read(shared, &mut buffer(1), 0, Wake::Clear), Step::Done(Ok(1)));
    assert_eq!(shared.count(), 0);
    let mut out = buffer(1);
    assert_eq!(a.read(shared, &mut out, 0, Wake::Clear), Step::Block);
    assert_eq!(out.common_len(), 1);
    assert_eq!(a.write(shared, &mut region_of(&[0]), 0), Ok(1));
    assert_eq!(a.read(shared, &mut out, 0, Wake::Clear), Step::Done(Ok(1)));
    assert_eq!((shared.count(), shared.max_seen()), (0, 3));
    assert_eq!(a.read_count, 4);
}
