//! A counting semaphore as a device.
//!
//! The count grows by writes to the device: a write of `n` bytes adds `n`. It
//! falls by reads: each read takes one unit and hands out one byte. A read
//! that finds the count at zero waits until a write has raised it. Every
//! session counts its own successful reads and shows the number to, and takes
//! it from, two numbered commands.

use vstd::prelude::*;
use vstd::bytes::{
    lemma_auto_spec_u64_to_from_le_bytes,
    spec_u64_from_le_bytes,
    spec_u64_to_le_bytes,
};

use crate::error::Error;
use crate::file_operations::{
    ioc_dir,
    ioc_size,
    FileOpener,
    FileOperations,
    Handled,
    IoctlCommand,
    IoctlHandler,
    ToUse,
    IOC_READ,
    IOC_WRITE,
};
use crate::io_buffer::{IoBufferReader, IoBufferWriter};
use crate::iov_iter::{lemma_transferable_bounded, IovIter, IovIterView};
use crate::miscdev::{Descriptor, DescriptorView, Registration};
use crate::semaphore::{SemaphoreInner, SemaphoreView, Step, Wake};

verus! {

/// The command that reads a session's count of reads: its payload of eight
/// bytes comes from the device.
pub const IOCTL_GET_READ_COUNT: u32 = 0x80086301;

/// The command that sets a session's count of reads: its payload of eight
/// bytes goes to the device.
pub const IOCTL_SET_READ_COUNT: u32 = 0x40086301;

/// The state of one open of the semaphore device.
#[derive(Debug, PartialEq, Eq, Structural)]
pub struct FileState {
    /// How many reads of this session have succeeded, unless a command has
    /// set the number. It is telemetry and decides nothing.
    pub read_count: u64,
}

impl FileState {
    /// The session after one more successful read. The count starts again
    /// from zero behind the largest number that it can hold.
    pub open spec fn counted(self) -> FileState {
        FileState {
            read_count: if self.read_count == u64::MAX {
                0
            } else {
                (self.read_count + 1) as u64
            },
        }
    }

    /// The session after `reads` more successful reads.
    pub open spec fn after_reads(self, reads: nat) -> FileState
        decreases reads,
    {
        if reads == 0 {
            self
        } else {
            self.after_reads((reads - 1) as nat).counted()
        }
    }

    /// What a read that gets as far as the semaphore returns.
    pub open spec fn read_result(
        shared: SemaphoreView,
        writable: nat,
        wake: Wake,
    ) -> Step<Result<usize, Error>> {
        match shared.consume_step_result(wake) {
            Step::Block => Step::Block,
            Step::Done(Err(e)) => Step::Done(Err(e)),
            Step::Done(Ok(())) => if writable >= 1 {
                Step::Done(Ok(1))
            } else {
                Step::Done(Err(Error::Fault))
            },
        }
    }

    /// One step of a blocking consume on the shared semaphore: takes a unit,
    /// or asks to wait, or gives up after an interrupted wait.
    pub fn consume(shared: &mut SemaphoreInner, wake: Wake) -> (step: Step<Result<(), Error>>)
        ensures
            step == old(shared)@.consume_step_result(wake),
            final(shared)@ == old(shared)@.consume_step_state(wake),
            old(shared)@.inv(),
            final(shared)@.inv(),
    {
        shared.consume_step(wake)
    }
}

impl FileOpener<SemaphoreInner> for FileState {
    fn open(context: &SemaphoreInner) -> (r: Result<Box<FileState>, Error>)
        ensures
            r matches Ok(session) && session.read_count == 0,
    {
        Ok(Box::new(FileState { read_count: 0 }))
    }
}

impl FileOperations for FileState {
    type Shared = SemaphoreInner;

    open spec fn supported() -> ToUse {
        ToUse { read: true, write: true, ioctl: true }
    }

    fn to_use() -> (to_use: ToUse) {
        ToUse { read: true, write: true, ioctl: true }
    }

    /// Takes one unit from the semaphore and hands out one zero byte.
    ///
    /// With nowhere to put the byte, or at an offset behind the start, the
    /// read transfers nothing and touches nothing. Otherwise it takes the
    /// step of a blocking consume; a unit that was taken stays taken where
    /// the byte cannot be written.
    fn read<W: IoBufferWriter>(
        &mut self,
        shared: &mut SemaphoreInner,
        data: &mut W,
        offset: u64,
        wake: Wake,
    ) -> (r: Step<Result<usize, Error>>)
        ensures
            old(data).writer().unwritten == 0 || offset > 0 ==> {
                &&& r == Step::Done(Ok::<usize, Error>(0))
                &&& *final(self) == *old(self)
                &&& final(shared)@ == old(shared)@
                &&& *final(data) == *old(data)
            },
            old(data).writer().unwritten > 0 && offset == 0 ==> {
                &&& r == FileState::read_result(old(shared)@, old(data).writer().writable, wake)
                &&& final(shared)@ == old(shared)@.consume_step_state(wake)
                &&& old(shared)@.inv()
                &&& final(shared)@.inv()
                &&& *final(self) == if r == Step::Done(Ok::<usize, Error>(1)) {
                    old(self).counted()
                } else {
                    *old(self)
                }
                &&& final(data).writer() == if r == Step::Done(Ok::<usize, Error>(1)) {
                    old(data).writer().written(seq![0u8])
                } else {
                    old(data).writer()
                }
            },
    {
        if data.is_empty() || offset > 0 {
            return Step::Done(Ok(0));
        }
        match FileState::consume(shared, wake) {
            Step::Block => {
                return Step::Block;
            },
            Step::Done(Err(e)) => {
                return Step::Done(Err(e));
            },
            Step::Done(Ok(())) => {},
        }
        let mut zero: Vec<u8> = Vec::new();
        zero.push(0u8);
        match data.write_slice(zero.as_slice()) {
            Err(e) => {
                assert(old(data).writer().written(zero@) =~= old(data).writer());
                return Step::Done(Err(e));
            },
            Ok(()) => {
                assert(zero@ =~= seq![0u8]);
            },
        }
        self.read_count = if self.read_count == u64::MAX {
            0
        } else {
            self.read_count + 1
        };
        Step::Done(Ok(1))
    }

    /// Adds as many units to the semaphore as `data` has bytes, without
    /// waiting and without reading them, and reports them all as written.
    /// The caller then wakes every waiter.
    fn write<R: IoBufferReader>(
        &mut self,
        shared: &mut SemaphoreInner,
        data: &mut R,
        offset: u64,
    ) -> (r: Result<usize, Error>)
        ensures
            r == Ok::<usize, Error>(old(data).reader().ahead.len() as usize),
            old(data).reader().ahead.len() <= usize::MAX,
            final(shared)@ == old(shared)@.produce(old(data).reader().ahead.len()),
            old(shared)@.inv(),
            final(shared)@.inv(),
            *final(self) == *old(self),
            *final(data) == *old(data),
    {
        let n = data.len();
        shared.produce(n);
        Ok(n)
    }

    /// Hands the command to this session's handlers.
    fn ioctl(&mut self, shared: &mut SemaphoreInner, cmd: &mut IoctlCommand) -> (r: Result<
        i32,
        Error,
    >)
        ensures
            final(shared)@ == old(shared)@,
            final(cmd)@.cmd == old(cmd)@.cmd,
            final(cmd)@.arg == old(cmd)@.arg,
            (Handled { handler: *final(self), buffer: final(cmd)@.payload, result: r })
                == IoctlCommand::dispatch_model(
                *old(self),
                old(cmd)@.cmd,
                old(cmd)@.arg,
                old(cmd)@.payload,
            ),
    {
        cmd.dispatch(self)
    }
}

impl IoctlHandler for FileState {
    open spec fn pure_model(self, cmd: u32, arg: usize) -> (FileState, Result<i32, Error>) {
        (self, Err(Error::InvalidArgument))
    }

    open spec fn read_model(self, cmd: u32, writer: IovIterView) -> Handled<FileState> {
        if cmd == IOCTL_GET_READ_COUNT {
            Handled {
                handler: self,
                buffer: writer.written(spec_u64_to_le_bytes(self.read_count)),
                result: if writer.transferable() >= 8 {
                    Ok(0)
                } else {
                    Err(Error::Fault)
                },
            }
        } else {
            Handled { handler: self, buffer: writer, result: Err(Error::InvalidArgument) }
        }
    }

    open spec fn write_model(self, cmd: u32, reader: IovIterView) -> Handled<FileState> {
        if cmd == IOCTL_SET_READ_COUNT {
            if reader.transferable() >= 8 {
                Handled {
                    handler: FileState { read_count: spec_u64_from_le_bytes(reader.window(8)) },
                    buffer: reader.skipped(8),
                    result: Ok(0),
                }
            } else {
                Handled { handler: self, buffer: reader.skipped(8), result: Err(Error::Fault) }
            }
        } else {
            Handled { handler: self, buffer: reader, result: Err(Error::InvalidArgument) }
        }
    }

    open spec fn read_write_model(self, cmd: u32, data: IovIterView) -> Handled<FileState> {
        Handled { handler: self, buffer: data, result: Err(Error::InvalidArgument) }
    }

    fn handle_pure(&mut self, cmd: u32, arg: usize) -> (r: Result<i32, Error>) {
        Err(Error::InvalidArgument)
    }

    fn handle_read(&mut self, cmd: u32, writer: &mut IovIter) -> (r: Result<i32, Error>) {
        if cmd == IOCTL_GET_READ_COUNT {
            proof {
                lemma_auto_spec_u64_to_from_le_bytes();
            }
            match writer.write_u64(self.read_count) {
                Ok(()) => Ok(0),
                Err(e) => Err(e),
            }
        } else {
            Err(Error::InvalidArgument)
        }
    }

    fn handle_write(&mut self, cmd: u32, reader: &mut IovIter) -> (r: Result<i32, Error>) {
        if cmd == IOCTL_SET_READ_COUNT {
            match reader.read_u64() {
                Ok(value) => {
                    self.read_count = value;
                    Ok(0)
                },
                Err(e) => Err(e),
            }
        } else {
            Err(Error::InvalidArgument)
        }
    }

    fn handle_read_write(&mut self, cmd: u32, data: &mut IovIter) -> (r: Result<i32, Error>) {
        Err(Error::InvalidArgument)
    }
}

/// The name under which the semaphore device is registered.
pub const DEVICE_NAME: &'static str = "rust_semaphore";

/// The semaphore device: a registration whose context is the semaphore that
/// its sessions share.
pub struct RustSemaphore {
    /// The registration, on the heap, where it stays.
    pub dev: Box<Registration<SemaphoreInner>>,
}

impl RustSemaphore {
    /// Creates a semaphore without units and registers the device with the
    /// host, whose accepting operation is `accept`. No identifier is asked
    /// for: the host assigns one.
    pub fn init<H: FnOnce(&Descriptor) -> i32>(accept: H) -> (r: Result<RustSemaphore, Error>)
        requires
            forall|d: &Descriptor|
                d@ == DescriptorView::offered(DEVICE_NAME@, None, FileState::supported())
                    ==> call_requires(accept, (d,)),
        ensures
            exists|d: &Descriptor, answer: i32|
                {
                    &&& d@ == DescriptorView::offered(DEVICE_NAME@, None, FileState::supported())
                    &&& call_ensures(accept, (d,), answer)
                    &&& match r {
                        Ok(module) => {
                            &&& answer >= 0
                            &&& module.dev@.registered
                            &&& module.dev@.descriptor == d@.installed(answer)
                            &&& module.dev@.context@ == SemaphoreView::initial()
                            &&& module.dev@.inv()
                        },
                        Err(e) => answer < 0 && e == Error::RegistryRejected(answer),
                    }
                },
    {
        let sema = SemaphoreInner::new();
        match Registration::new_pinned::<FileState, H>(DEVICE_NAME, None, sema, accept) {
            Ok(dev) => Ok(RustSemaphore { dev }),
            Err(e) => Err(e),
        }
    }
}

/// Opens a session of type `FS` on the device of `reg`: the session is made
/// from a reference to the registration's context.
pub fn mk_file_state<T, FS: FileOpener<T>>(reg: &Registration<T>) -> (r: Result<Box<FS>, Error>)
    ensures
        call_ensures(FS::open, (&reg@.context,), r),
{
    FS::open(reg.context())
}

/// A session that has counted no more reads than its counter holds shows
/// their number: after `reads` successful reads on a session whose count was
/// `self.read_count`, the count is the sum.
pub proof fn lemma_reads_are_counted(session: FileState, reads: nat)
    requires
        session.read_count + reads <= u64::MAX,
    ensures
        session.after_reads(reads).read_count == session.read_count + reads,
    decreases reads,
{
    if reads > 0 {
        lemma_reads_are_counted(session, (reads - 1) as nat);
    }
}

/// The number that the eight bytes in front of `before`'s cursor spell, in
/// the region as `after` holds it.
pub open spec fn payload_value(before: IovIterView, after: IovIterView) -> u64 {
    spec_u64_from_le_bytes(after.bytes.subrange(before.pos as int, before.pos as int + 8))
}

/// The command that reads the count writes the session's count into the
/// payload region, where eight bytes of it can be written, and changes
/// nothing in the session. After `reads` successful reads on a session
/// that was opened with a count of zero, the number written is `reads`.
pub proof fn lemma_get_read_count(session: FileState, writer: IovIterView, reads: nat)
    requires
        writer.inv(),
        writer.transferable() >= 8,
        session.read_count == 0,
        reads <= u64::MAX,
    ensures
        session.after_reads(reads).read_model(IOCTL_GET_READ_COUNT, writer).result == Ok::<
            i32,
            Error,
        >(0),
        session.after_reads(reads).read_model(IOCTL_GET_READ_COUNT, writer).handler
            == session.after_reads(reads),
        payload_value(
            writer,
            session.after_reads(reads).read_model(IOCTL_GET_READ_COUNT, writer).buffer,
        ) == reads,
{
    lemma_reads_are_counted(session, reads);
    lemma_written_value(writer, session.after_reads(reads).read_count);
}

/// Writing a number into a region that takes eight bytes leaves the bytes
/// that spell it in front of where the cursor stood.
pub proof fn lemma_written_value(writer: IovIterView, value: u64)
    requires
        writer.inv(),
        writer.transferable() >= 8,
    ensures
        payload_value(writer, writer.written(spec_u64_to_le_bytes(value))) == value,
{
    lemma_auto_spec_u64_to_from_le_bytes();
    let bytes = spec_u64_to_le_bytes(value);
    lemma_transferable_bounded(writer.mapped, writer.pos as int, writer.count);
    assert(bytes.take(8) =~= bytes);
    assert(writer.written(bytes).bytes.subrange(writer.pos as int, writer.pos as int + 8) =~= bytes);
}

/// The command that sets the count to `value`, followed by the command that
/// reads it, writes `value` into the second payload region, whatever the
/// session had counted before.
pub proof fn lemma_set_then_get_read_count(
    session: FileState,
    value: u64,
    reader: IovIterView,
    writer: IovIterView,
)
    requires
        reader.inv(),
        reader.transferable() >= 8,
        reader.window(8) == spec_u64_to_le_bytes(value),
        writer.inv(),
        writer.transferable() >= 8,
    ensures
        session.write_model(IOCTL_SET_READ_COUNT, reader).result == Ok::<i32, Error>(0),
        session.write_model(IOCTL_SET_READ_COUNT, reader).handler.read_count == value,
        session.write_model(IOCTL_SET_READ_COUNT, reader).handler.read_model(
            IOCTL_GET_READ_COUNT,
            writer,
        ).result == Ok::<i32, Error>(0),
        payload_value(
            writer,
            session.write_model(IOCTL_SET_READ_COUNT, reader).handler.read_model(
                IOCTL_GET_READ_COUNT,
                writer,
            ).buffer,
        ) == value,
{
    lemma_auto_spec_u64_to_from_le_bytes();
    lemma_written_value(writer, value);
}

/// The two commands of the semaphore device are told apart by direction,
/// and both declare a payload of eight bytes.
pub proof fn lemma_command_codes()
    ensures
        ioc_dir(IOCTL_GET_READ_COUNT) == IOC_READ,
        ioc_dir(IOCTL_SET_READ_COUNT) == IOC_WRITE,
        ioc_size(IOCTL_GET_READ_COUNT) == 8,
        ioc_size(IOCTL_SET_READ_COUNT) == 8,
{
}

} // verus!
