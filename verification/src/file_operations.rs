//! What a session can do, and how a numbered command reaches its handler.
//!
//! A session is the object that stands for one open of a device. It supports
//! a subset of reading, writing and numbered commands; what it leaves out is
//! refused with [`Error::InvalidArgument`]. The state that the sessions of one
//! device share is handed to every operation by the caller, who holds its
//! lock for the length of the call.

use vstd::prelude::*;

use crate::error::Error;
use crate::io_buffer::{IoBufferReader, IoBufferWriter};
use crate::iov_iter::{IovIter, IovIterView};
use crate::semaphore::{Step, Wake};

verus! {

/// The operations that a session type supports.
#[derive(Clone, Copy, Debug, PartialEq, Eq, Structural)]
pub struct ToUse {
    /// Reading from the device.
    pub read: bool,
    /// Writing to the device.
    pub write: bool,
    /// Numbered commands.
    pub ioctl: bool,
}

/// The table through which the host reaches the sessions of one device: one
/// entry for each operation, bound or not.
#[derive(Clone, Copy, Debug, PartialEq, Eq, Structural)]
pub struct FileOperationsVtable {
    /// Opening a session: always bound.
    pub open: bool,
    /// Releasing a session: always bound.
    pub release: bool,
    /// Reading, bound where the session type supports it.
    pub read: bool,
    /// Writing, bound where the session type supports it.
    pub write: bool,
    /// Numbered commands, bound where the session type supports them.
    pub ioctl: bool,
}

impl FileOperationsVtable {
    /// The table for a session type that supports `to_use`.
    pub open spec fn for_operations(to_use: ToUse) -> FileOperationsVtable {
        FileOperationsVtable {
            open: true,
            release: true,
            read: to_use.read,
            write: to_use.write,
            ioctl: to_use.ioctl,
        }
    }

    /// Builds the table for the session type `F`, once and for all of its
    /// sessions: the binding is made here, not at the time of a call.
    pub fn build<F: FileOperations>() -> (table: FileOperationsVtable)
        ensures
            table == FileOperationsVtable::for_operations(F::supported()),
    {
        let to_use = F::to_use();
        FileOperationsVtable {
            open: true,
            release: true,
            read: to_use.read,
            write: to_use.write,
            ioctl: to_use.ioctl,
        }
    }
}

/// The operations of a session.
pub trait FileOperations: Sized {
    /// The state that all sessions of one device share, as its lock's holder
    /// sees it.
    type Shared;

    /// The operations that this session type supports.
    spec fn supported() -> ToUse;

    /// The operations that this session type supports.
    fn to_use() -> (to_use: ToUse)
        ensures
            to_use == Self::supported(),
    ;

    /// Reads from the device into `data`, and returns how many bytes were
    /// transferred. A session type that does not support reading refuses.
    ///
    /// A read may have to wait: it then answers [`Step::Block`], and the
    /// caller waits and calls again with the way the wait ended.
    fn read<W: IoBufferWriter>(
        &mut self,
        shared: &mut Self::Shared,
        data: &mut W,
        offset: u64,
        wake: Wake,
    ) -> (r: Step<Result<usize, Error>>)
        default_ensures
            r == Step::Done(Err::<usize, Error>(Error::InvalidArgument)),
            *final(self) == *old(self),
            *final(shared) == *old(shared),
            *final(data) == *old(data),
    {
        Step::Done(Err(Error::InvalidArgument))
    }

    /// Writes `data` to the device, and returns how many bytes were
    /// transferred. A session type that does not support writing refuses.
    fn write<R: IoBufferReader>(
        &mut self,
        shared: &mut Self::Shared,
        data: &mut R,
        offset: u64,
    ) -> (r: Result<usize, Error>)
        default_ensures
            r == Err::<usize, Error>(Error::InvalidArgument),
            *final(self) == *old(self),
            *final(shared) == *old(shared),
            *final(data) == *old(data),
    {
        Err(Error::InvalidArgument)
    }

    /// Carries out a numbered command, and returns what its handler
    /// returned. A session type that does not support commands refuses.
    fn ioctl(&mut self, shared: &mut Self::Shared, cmd: &mut IoctlCommand) -> (r: Result<
        i32,
        Error,
    >)
        default_ensures
            r == Err::<i32, Error>(Error::InvalidArgument),
            *final(self) == *old(self),
            *final(shared) == *old(shared),
            final(cmd)@ == old(cmd)@,
    {
        Err(Error::InvalidArgument)
    }

    /// Ends the session and gives up its state. The host calls this once
    /// for every successful open.
    fn release(self, shared: &mut Self::Shared)
        default_ensures
            *final(shared) == *old(shared),
    {
    }
}

/// A session type whose sessions are opened from a context of type `T`.
pub trait FileOpener<T>: FileOperations {
    /// Creates the state of one open. The session gets no more than a
    /// reference to the context, which the registration owns.
    fn open(context: &T) -> (r: Result<Box<Self>, Error>);
}

/// Direction of a command without payload.
pub const IOC_NONE: u32 = 0;

/// Direction of a command whose payload goes to the device.
pub const IOC_WRITE: u32 = 1;

/// Direction of a command whose payload comes from the device.
pub const IOC_READ: u32 = 2;

/// The direction that a command code carries in its two highest bits.
pub open spec fn ioc_dir(cmd: u32) -> u32 {
    cmd / 0x4000_0000
}

/// The size in bytes of the payload, which a command code carries in the
/// fourteen bits below its direction.
pub open spec fn ioc_size(cmd: u32) -> u32 {
    (cmd / 0x1_0000) % 0x4000
}

/// The direction of the command `cmd`.
pub fn direction(cmd: u32) -> (dir: u32)
    ensures
        dir == ioc_dir(cmd),
        dir <= 3,
{
    cmd / 0x4000_0000
}

/// The size in bytes of the payload of the command `cmd`.
pub fn payload_size(cmd: u32) -> (size: u32)
    ensures
        size == ioc_size(cmd),
        size < 0x4000,
{
    (cmd / 0x1_0000) % 0x4000
}

/// What a handler leaves behind: itself, the payload region, and its result.
pub struct Handled<H> {
    /// The handler after the command.
    pub handler: H,
    /// The payload region after the command.
    pub buffer: IovIterView,
    /// What the handler returned.
    pub result: Result<i32, Error>,
}

/// The handlers of a session's numbered commands, one for each direction.
/// Every handler refuses the codes that it does not know with
/// [`Error::InvalidArgument`].
pub trait IoctlHandler: Sized {
    /// What `handle_pure` does.
    spec fn pure_model(self, cmd: u32, arg: usize) -> (Self, Result<i32, Error>);

    /// What `handle_read` does.
    spec fn read_model(self, cmd: u32, writer: IovIterView) -> Handled<Self>;

    /// What `handle_write` does.
    spec fn write_model(self, cmd: u32, reader: IovIterView) -> Handled<Self>;

    /// What `handle_read_write` does.
    spec fn read_write_model(self, cmd: u32, data: IovIterView) -> Handled<Self>;

    /// Handles a command without payload; `arg` is a plain number.
    fn handle_pure(&mut self, cmd: u32, arg: usize) -> (r: Result<i32, Error>)
        ensures
            (*final(self), r) == old(self).pure_model(cmd, arg),
    ;

    /// Handles a command whose payload comes from the device: the handler
    /// writes it to `writer`.
    fn handle_read(&mut self, cmd: u32, writer: &mut IovIter) -> (r: Result<i32, Error>)
        ensures
            (Handled { handler: *final(self), buffer: final(writer)@, result: r }) == old(
                self,
            ).read_model(cmd, old(writer)@),
    ;

    /// Handles a command whose payload goes to the device: the handler
    /// reads it from `reader`.
    fn handle_write(&mut self, cmd: u32, reader: &mut IovIter) -> (r: Result<i32, Error>)
        ensures
            (Handled { handler: *final(self), buffer: final(reader)@, result: r }) == old(
                self,
            ).write_model(cmd, old(reader)@),
    ;

    /// Handles a command whose payload goes both ways.
    fn handle_read_write(&mut self, cmd: u32, data: &mut IovIter) -> (r: Result<i32, Error>)
        ensures
            (Handled { handler: *final(self), buffer: final(data)@, result: r }) == old(
                self,
            ).read_write_model(cmd, old(data)@),
    ;
}

/// A numbered command with its argument.
#[derive(Debug)]
pub struct IoctlCommand {
    cmd: u32,
    arg: usize,
    user_slice: IovIter,
}

/// The mathematical value of an [`IoctlCommand`].
pub struct IoctlCommandView {
    /// The command code.
    pub cmd: u32,
    /// The argument as a plain number.
    pub arg: usize,
    /// The payload region: what the argument refers to, held to the size
    /// that the command code declares.
    pub payload: IovIterView,
}

impl View for IoctlCommand {
    type V = IoctlCommandView;

    closed spec fn view(&self) -> IoctlCommandView {
        IoctlCommandView { cmd: self.cmd, arg: self.arg, payload: self.user_slice@ }
    }
}

impl IoctlCommand {

    /// What dispatching the command `cmd` to `handler` does.
    pub open spec fn dispatch_model<H: IoctlHandler>(
        handler: H,
        cmd: u32,
        arg: usize,
        payload: IovIterView,
    ) -> Handled<H> {
        if ioc_dir(cmd) == IOC_NONE {
            Handled {
                handler: handler.pure_model(cmd, arg).0,
                buffer: payload,
                result: handler.pure_model(cmd, arg).1,
            }
        } else if ioc_dir(cmd) == IOC_WRITE {
            handler.write_model(cmd, payload)
        } else if ioc_dir(cmd) == IOC_READ {
            handler.read_model(cmd, payload)
        } else {
            handler.read_write_model(cmd, payload)
        }
    }

    /// Makes a command from its code, its argument, and the region that the
    /// argument refers to. However long the region is, the handler gets to
    /// move no more bytes than the code declares.
    pub fn new(cmd: u32, arg: usize, memory: IovIter) -> (command: IoctlCommand)
        ensures
            command@ == (IoctlCommandView {
                cmd,
                arg,
                payload: memory@.truncate(ioc_size(cmd) as nat),
            }),
    {
        let mut user_slice = memory;
        user_slice.truncate(payload_size(cmd) as usize);
        IoctlCommand { cmd, arg, user_slice }
    }

    /// Hands the command to the handler for its direction, with the payload
    /// region as a reader for a payload that goes to the device and as a
    /// writer for one that comes from it, and returns what the handler
    /// returned.
    pub fn dispatch<H: IoctlHandler>(&mut self, handler: &mut H) -> (r: Result<i32, Error>)
        ensures
            final(self)@.cmd == old(self)@.cmd,
            final(self)@.arg == old(self)@.arg,
            (Handled { handler: *final(handler), buffer: final(self)@.payload, result: r })
                == IoctlCommand::dispatch_model(
                *old(handler),
                old(self)@.cmd,
                old(self)@.arg,
                old(self)@.payload,
            ),
    {
        let dir = direction(self.cmd);
        if dir == IOC_NONE {
            handler.handle_pure(self.cmd, self.arg)
        } else if dir == IOC_WRITE {
            handler.handle_write(self.cmd, &mut self.user_slice)
        } else if dir == IOC_READ {
            handler.handle_read(self.cmd, &mut self.user_slice)
        } else {
            handler.handle_read_write(self.cmd, &mut self.user_slice)
        }
    }

    /// The command code and the argument.
    pub fn raw(&self) -> (parts: (u32, usize))
        ensures
            parts == (self@.cmd, self@.arg),
    {
        (self.cmd, self.arg)
    }

    /// The payload region, for a look at what a handler wrote.
    pub fn user_slice(&self) -> (region: &IovIter)
        ensures
            region@ == self@.payload,
    {
        &self.user_slice
    }
}

} // verus!
