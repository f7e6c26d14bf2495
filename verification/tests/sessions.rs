use device_session::error::Error;
use device_session::file_operations::{
    FileOpener, FileOperations, FileOperationsVtable, IoctlCommand, ToUse,
};
use device_session::io_buffer::IoBufferWriter;
use device_session::iov_iter::IovIter;
use device_session::miscdev::Registration;
use device_session::rust_semaphore::mk_file_state;
use device_session::semaphore::{Step, Wake};

/// A session type whose sessions cannot be opened for want of memory.
struct Starved;

impl FileOperations for Starved {
    type Shared = ();

    fn supported() -> ToUse {
        Starved::to_use()
    }

    fn to_use() -> ToUse {
        ToUse { read: true, write: false, ioctl: false }
    }
}

impl FileOpener<u8> for Starved {
    fn open(_context: &u8) -> Result<Box<Starved>, Error> {
        Err(Error::OutOfMemory)
    }
}

/// A session that hands out the byte that it was opened with, once.
struct Echo {
    byte: Option<u8>,
}

impl FileOperations for Echo {
    type Shared = ();

    fn supported() -> ToUse {
        Echo::to_use()
    }

    fn to_use() -> ToUse {
        ToUse { read: true, write: false, ioctl: false }
    }

    fn read<W: IoBufferWriter>(
        &mut self,
        _shared: &mut (),
        data: &mut W,
        _offset: u64,
        _wake: Wake,
    ) -> Step<Result<usize, Error>> {
        match self.byte.take() {
            Some(byte) => Step::Done(data.write_slice(&[byte]).map(|()| 1)),
            None => Step::Done(Ok(0)),
        }
    }
}

impl FileOpener<u8> for Echo {
    fn open(context: &u8) -> Result<Box<Echo>, Error> {
        Ok(Box::new(Echo { byte: Some(*context) }))
    }
}

fn region(bytes: &[u8]) -> IovIter {
    let mut it = IovIter::new();
    it.push_segment(bytes, true);
    it
}

#[test]
fn a_failed_open_is_surfaced() {
    let reg = Registration::new(7u8);
    let opened = mk_file_state::<u8, Starved>(&reg);
    assert_eq!(opened.err(), Some(Error::OutOfMemory));
    assert_eq!(Error::OutOfMemory.to_kernel_errno(), -12);
}

#[test]
fn sessions_are_opened_from_the_context() {
    let mut reg = Registration::new(9u8);
    assert_eq!(reg.register::<Echo, _>("echo", None, |_| 3), Ok(()));
    let table =
        FileOperationsVtable { open: true, release: true, read: true, write: false, ioctl: false };
    assert_eq!(reg.descriptor().fops, Some(table));
    let mut a = mk_file_state::<u8, Echo>(&reg).ok().unwrap();
    let b = mk_file_state::<u8, Echo>(&reg).ok().unwrap();
    assert_eq!((a.byte, b.byte), (Some(9), Some(9)));
    let mut out = region(&[0, 0]);
    assert_eq!(a.read(&mut (), &mut out, 0, Wake::Clear), Step::Done(Ok(1)));
    assert_eq!(a.read(&mut (), &mut out, 0, Wake::Clear), Step::Done(Ok(0)));
    assert_eq!(out.to_vec(), vec![9, 0]);
    a.release(&mut ());
    b.release(&mut ());
    assert_eq!(*reg.context(), 9);
}

#[test]
fn operations_that_a_session_leaves_out_are_refused() {
    let mut echo = Echo { byte: Some(1) };
    let mut data = region(&[0; 4]);
    assert_eq!(echo.write(&mut (), &mut data, 0), Err(Error::InvalidArgument));
    let mut cmd = IoctlCommand::new(0x8001_6301, 0, region(&[0]));
    assert_eq!(echo.ioctl(&mut (), &mut cmd), Err(Error::InvalidArgument));
    assert_eq!(cmd.user_slice().to_vec(), vec![0]);
    assert_eq!(data.common_len(), 4);
    assert_eq!(echo.byte, Some(1));
}
