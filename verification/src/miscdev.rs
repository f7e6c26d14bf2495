//! Registering a device with the host.
//!
//! A [`Registration`] owns the context that all sessions of a device share,
//! and the descriptor under which the host knows the device. It is created
//! unregistered, with a zero-valued descriptor, and is registered at most
//! once. The host itself is outside this library: its answer to a
//! registration reaches the library as a number, the identifier that the
//! host assigned or a negative code with which it declined.
//!
//! [`Registrations`] is a registry that can stand for the host: it keeps what
//! was entered, in order, and finds entries again.

use vstd::prelude::*;

use crate::error::Error;
use crate::file_operations::{FileOpener, FileOperationsVtable, ToUse};

verus! {

/// The identifier that a descriptor carries where none was asked for. Whether
/// the host is to assign one is told by the descriptor's `dynamic`, not by
/// this value: a device may ask for this very identifier and keeps it.
pub const MISC_DYNAMIC_MINOR: i32 = 255;

/// The record of a device that the host keeps a reference to.
#[derive(Clone, Copy, Debug)]
pub struct Descriptor {
    /// The name of the device; none before registration.
    pub name: Option<&'static str>,
    /// The identifier of the device among its kind.
    pub minor: i32,
    /// Whether no identifier was asked for, so that it is the host's to
    /// assign.
    pub dynamic: bool,
    /// The table through which the host reaches the device's sessions; none
    /// before registration.
    pub fops: Option<FileOperationsVtable>,
}

/// The mathematical value of a [`Descriptor`].
pub struct DescriptorView {
    /// The characters of the name.
    pub name: Option<Seq<char>>,
    /// The identifier.
    pub minor: i32,
    /// Whether the identifier is the host's to assign.
    pub dynamic: bool,
    /// The table of operations.
    pub fops: Option<FileOperationsVtable>,
}

impl View for Descriptor {
    type V = DescriptorView;

    open spec fn view(&self) -> DescriptorView {
        DescriptorView {
            name: match self.name {
                Some(name) => Some(name@),
                None => None,
            },
            minor: self.minor,
            dynamic: self.dynamic,
            fops: self.fops,
        }
    }
}

impl DescriptorView {
    /// The descriptor of a device that is not registered.
    pub open spec fn zeroed() -> DescriptorView {
        DescriptorView { name: None, minor: 0, dynamic: false, fops: None }
    }

    /// The descriptor that is offered to the host for a device called `name`
    /// whose sessions support `to_use`. It carries the identifier that was
    /// asked for, whatever its value. Where none was asked for, it carries
    /// [`MISC_DYNAMIC_MINOR`] and is marked as the host's to assign.
    pub open spec fn offered(name: Seq<char>, minor: Option<i32>, to_use: ToUse) -> DescriptorView {
        DescriptorView {
            name: Some(name),
            minor: match minor {
                Some(minor) => minor,
                None => MISC_DYNAMIC_MINOR,
            },
            dynamic: minor is None,
            fops: Some(FileOperationsVtable::for_operations(to_use)),
        }
    }

    /// The descriptor as it stands once the host has accepted it and
    /// answered `assigned`: an identifier that was asked for stays, whatever
    /// its value, and one that was left to the host is the host's answer.
    pub open spec fn installed(self, assigned: i32) -> DescriptorView {
        DescriptorView {
            minor: if self.dynamic {
                assigned
            } else {
                self.minor
            },
            ..self
        }
    }
}

impl Descriptor {
    /// The descriptor of a device that is not registered.
    pub fn zeroed() -> (d: Descriptor)
        ensures
            d@ == DescriptorView::zeroed(),
    {
        Descriptor { name: None, minor: 0, dynamic: false, fops: None }
    }
}

/// The mathematical value of a [`Registration`].
pub struct RegistrationView<T> {
    /// Whether the host has accepted the device.
    pub registered: bool,
    /// The descriptor of the device.
    pub descriptor: DescriptorView,
    /// The context that the sessions share.
    pub context: T,
}

impl<T> RegistrationView<T> {
    /// An unregistered device has a zero-valued descriptor, and a registered
    /// one has a name and a table of operations.
    pub open spec fn inv(self) -> bool {
        if self.registered {
            self.descriptor.name is Some && self.descriptor.fops is Some
        } else {
            self.descriptor == DescriptorView::zeroed()
        }
    }

    /// What an attempt to register returns, where `offered` is put before
    /// the host and the host answers `answer`. The host is only asked where
    /// the device is not registered yet.
    pub open spec fn register_result(self, answer: i32) -> Result<(), Error> {
        if self.registered {
            Err(Error::AlreadyRegistered)
        } else if answer < 0 {
            Err(Error::RegistryRejected(answer))
        } else {
            Ok(())
        }
    }

    /// The registration after an attempt to register: changed only where
    /// the attempt succeeded, and then registered with the descriptor
    /// installed.
    pub open spec fn register_state(self, offered: DescriptorView, answer: i32) -> RegistrationView<
        T,
    > {
        if self.register_result(answer) is Ok {
            RegistrationView {
                registered: true,
                descriptor: offered.installed(answer),
                context: self.context,
            }
        } else {
            self
        }
    }
}

/// A registration of a device with the host.
pub struct Registration<T> {
    registered: bool,
    mdev: Descriptor,
    /// The context, set on construction and put before every session when
    /// it is opened.
    pub context: T,
}

impl<T> View for Registration<T> {
    type V = RegistrationView<T>;

    closed spec fn view(&self) -> RegistrationView<T> {
        RegistrationView {
            registered: self.registered,
            descriptor: self.mdev@,
            context: self.context,
        }
    }
}

impl<T> Registration<T> {
    /// Creates a registration around `context`. It is not registered yet,
    /// and its descriptor is zero-valued.
    pub fn new(context: T) -> (r: Registration<T>)
        ensures
            r@ == (RegistrationView {
                registered: false,
                descriptor: DescriptorView::zeroed(),
                context,
            }),
            r@.inv(),
    {
        Registration { registered: false, mdev: Descriptor::zeroed(), context }
    }

    /// Whether the host has accepted the device.
    pub fn is_registered(&self) -> (b: bool)
        ensures
            b == self@.registered,
    {
        self.registered
    }

    /// The context, as every session gets it when it is opened: by
    /// reference, for as long as the registration lives.
    pub fn context(&self) -> (context: &T)
        ensures
            *context == self@.context,
    {
        &self.context
    }

    /// The context as a callback of the host reaches it. The host calls
    /// back only for a device that is registered, and for as long as the
    /// registration lives: finding the registration behind the host's handle
    /// is the caller's business, and this is what the handle then leads to.
    pub fn convert(&self) -> (context: &T)
        requires
            self@.registered,
        ensures
            *context == self@.context,
    {
        &self.context
    }

    /// The context, for the holder of its lock to change.
    pub fn context_mut(&mut self) -> (context: &mut T)
        ensures
            *context == old(self)@.context,
            final(self)@ == (RegistrationView { context: *final(context), ..old(self)@ }),
    {
        &mut self.context
    }

    /// The descriptor of the device.
    pub fn descriptor(&self) -> (d: &Descriptor)
        ensures
            d@ == self@.descriptor,
    {
        &self.mdev
    }

    /// The first half of a registration: refuses a device that is registered
    /// already, and otherwise builds the descriptor to put before the host.
    /// The table of operations in it is bound to the session type `F`.
    pub fn prepare<F: FileOpener<T>>(&self, name: &'static str, minor: Option<i32>) -> (r: Result<
        Descriptor,
        Error,
    >)
        ensures
            match r {
                Ok(offered) => !self@.registered && offered@ == DescriptorView::offered(
                    name@,
                    minor,
                    F::supported(),
                ),
                Err(e) => self@.registered && e == Error::AlreadyRegistered,
            },
    {
        if self.registered {
            return Err(Error::AlreadyRegistered);
        }
        let fops = FileOperationsVtable::build::<F>();
        match minor {
            Some(minor) => Ok(
                Descriptor { name: Some(name), minor, dynamic: false, fops: Some(fops) },
            ),
            None => Ok(
                Descriptor {
                    name: Some(name),
                    minor: MISC_DYNAMIC_MINOR,
                    dynamic: true,
                    fops: Some(fops),
                },
            ),
        }
    }

    /// The second half of a registration: takes the host's answer to the
    /// descriptor that was offered. A negative answer is the host's refusal
    /// and is returned unchanged, with the registration as it was. Any other
    /// answer registers the device under the offered descriptor: with the
    /// identifier that was asked for, or with the answer where none was.
    pub fn complete(&mut self, offered: Descriptor, answer: i32) -> (r: Result<(), Error>)
        requires
            old(self)@.inv(),
            offered@.name is Some,
            offered@.fops is Some,
        ensures
            r == old(self)@.register_result(answer),
            final(self)@ == old(self)@.register_state(offered@, answer),
            final(self)@.inv(),
    {
        if self.registered {
            return Err(Error::AlreadyRegistered);
        }
        if answer < 0 {
            return Err(Error::from_kernel_errno(answer));
        }
        let minor = if offered.dynamic {
            answer
        } else {
            offered.minor
        };
        self.mdev = Descriptor {
            name: offered.name,
            minor,
            dynamic: offered.dynamic,
            fops: offered.fops,
        };
        self.registered = true;
        Ok(())
    }

    /// Registers the device with the host, whose accepting operation is
    /// `accept`: it is given the descriptor and answers with the identifier
    /// that it assigned, or with a negative code.
    ///
    /// A device that is registered already is refused with
    /// [`Error::AlreadyRegistered`], and the host is not asked. Registration
    /// is all or nothing: where the host declines, its code is returned and
    /// the registration is as it was.
    pub fn register<F: FileOpener<T>, H: FnOnce(&Descriptor) -> i32>(
        &mut self,
        name: &'static str,
        minor: Option<i32>,
        accept: H,
    ) -> (r: Result<(), Error>)
        requires
            old(self)@.inv(),
            forall|d: &Descriptor|
                d@ == DescriptorView::offered(name@, minor, F::supported()) ==> call_requires(
                    accept,
                    (d,),
                ),
        ensures
            final(self)@.inv(),
            old(self)@.registered ==> r == Err::<(), Error>(Error::AlreadyRegistered) && final(self)@ == old(self)@,
            !old(self)@.registered ==> exists|d: &Descriptor, answer: i32|
                {
                    &&& d@ == DescriptorView::offered(name@, minor, F::supported())
                    &&& call_ensures(accept, (d,), answer)
                    &&& r == old(self)@.register_result(answer)
                    &&& final(self)@ == old(self)@.register_state(d@, answer)
                },
    {
        let offered = match self.prepare::<F>(name, minor) {
            Ok(offered) => offered,
            Err(e) => {
                return Err(e);
            },
        };
        let answer = accept(&offered);
        self.complete(offered, answer)
    }

    /// Creates a registration around `context` on the heap and registers it
    /// with the host, whose accepting operation is `accept`. Where the host
    /// declines, its code is returned and the registration is given up.
    pub fn new_pinned<F: FileOpener<T>, H: FnOnce(&Descriptor) -> i32>(
        name: &'static str,
        minor: Option<i32>,
        context: T,
        accept: H,
    ) -> (r: Result<Box<Registration<T>>, Error>)
        requires
            forall|d: &Descriptor|
                d@ == DescriptorView::offered(name@, minor, F::supported()) ==> call_requires(
                    accept,
                    (d,),
                ),
        ensures
            exists|d: &Descriptor, answer: i32|
                {
                    &&& d@ == DescriptorView::offered(name@, minor, F::supported())
                    &&& call_ensures(accept, (d,), answer)
                    &&& match r {
                        Ok(registration) => answer >= 0 && registration@ == (RegistrationView {
                            registered: true,
                            descriptor: d@.installed(answer),
                            context,
                        }),
                        Err(e) => answer < 0 && e == Error::RegistryRejected(answer),
                    }
                },
            r matches Ok(registration) ==> registration@.inv(),
    {
        let mut registration = Box::new(Registration::new(context));
        match registration.register::<F, H>(name, minor, accept) {
            Ok(()) => Ok(registration),
            Err(e) => Err(e),
        }
    }

    /// Ends the registration and gives back what it held: the context, and
    /// the descriptor that the host must be told to withdraw, which is there
    /// exactly where the device was registered.
    pub fn release(self) -> (parts: (Option<Descriptor>, T))
        ensures
            parts.1 == self@.context,
            match parts.0 {
                Some(withdrawn) => self@.registered && withdrawn@ == self@.descriptor,
                None => !self@.registered,
            },
    {
        if self.registered {
            (Some(self.mdev), self.context)
        } else {
            (None, self.context)
        }
    }
}

/// One attempt to register, as it appears in a history: the descriptor that
/// is offered, and the answer that the host gives if it is asked.
pub struct Attempt {
    /// The descriptor put before the host.
    pub offered: DescriptorView,
    /// The host's answer.
    pub answer: i32,
}

/// The registration after a history of attempts, taken in order.
pub open spec fn after_attempts<T>(start: RegistrationView<T>, attempts: Seq<Attempt>)
    -> RegistrationView<T>
    decreases attempts.len(),
{
    if attempts.len() == 0 {
        start
    } else {
        let before = after_attempts(start, attempts.drop_last());
        before.register_state(attempts.last().offered, attempts.last().answer)
    }
}

/// What the attempt at index `i` of a history returns.
pub open spec fn attempt_result<T>(start: RegistrationView<T>, attempts: Seq<Attempt>, i: int)
    -> Result<(), Error>
    recommends
        0 <= i < attempts.len(),
{
    after_attempts(start, attempts.take(i)).register_result(attempts[i].answer)
}

/// Once a registration is registered, no history of further attempts changes
/// it, and every one of them is refused as a second registration.
pub proof fn lemma_registered_is_final<T>(start: RegistrationView<T>, attempts: Seq<Attempt>)
    requires
        start.registered,
    ensures
        after_attempts(start, attempts) == start,
        forall|i: int|
            0 <= i < attempts.len() ==> #[trigger] attempt_result(start, attempts, i) == Err::<
                (),
                Error,
            >(Error::AlreadyRegistered),
    decreases attempts.len(),
{
    if attempts.len() > 0 {
        lemma_registered_is_final(start, attempts.drop_last());
    }
    assert forall|i: int| 0 <= i < attempts.len() implies #[trigger] attempt_result(
        start,
        attempts,
        i,
    ) == Err::<(), Error>(Error::AlreadyRegistered) by {
        lemma_registered_is_final(start, attempts.take(i));
    }
}

/// In any history of attempts on one registration, an attempt that succeeds
/// is the last to change anything: every later attempt is refused as a second
/// registration, and the registration stays as the successful one left it,
/// flag and descriptor alike. So at most one attempt succeeds, and where the
/// host accepts whatever it is asked, it is the first.
pub proof fn lemma_register_once<T>(
    start: RegistrationView<T>,
    attempts: Seq<Attempt>,
    i: int,
    j: int,
)
    requires
        0 <= i < j < attempts.len(),
        attempt_result(start, attempts, i) is Ok,
    ensures
        attempt_result(start, attempts, j) == Err::<(), Error>(Error::AlreadyRegistered),
        after_attempts(start, attempts.take(j + 1)) == after_attempts(start, attempts.take(i + 1)),
        after_attempts(start, attempts) == after_attempts(start, attempts.take(i + 1)),
        after_attempts(start, attempts).registered,
        !start.registered && attempts[0].answer >= 0 ==> i == 0,
{
    let done = after_attempts(start, attempts.take(i + 1));
    assert(attempts.take(i + 1).drop_last() =~= attempts.take(i));
    assert(done.registered);
    lemma_split_history(start, attempts.take(j), i + 1);
    assert(attempts.take(j).take(i + 1) =~= attempts.take(i + 1));
    lemma_registered_is_final(done, attempts.take(j).skip(i + 1));
    lemma_split_history(start, attempts.take(j + 1), i + 1);
    assert(attempts.take(j + 1).take(i + 1) =~= attempts.take(i + 1));
    lemma_registered_is_final(done, attempts.take(j + 1).skip(i + 1));
    lemma_split_history(start, attempts, i + 1);
    lemma_registered_is_final(done, attempts.skip(i + 1));
    if !start.registered && attempts[0].answer >= 0 && i > 0 {
        assert(attempts.take(1).drop_last() =~= attempts.take(0));
        assert(after_attempts(start, attempts.take(1)).registered);
        lemma_split_history(start, attempts.take(i), 1);
        assert(attempts.take(i).take(1) =~= attempts.take(1));
        lemma_registered_is_final(
            after_attempts(start, attempts.take(1)),
            attempts.take(i).skip(1),
        );
    }
}

/// A history can be run in two parts.
pub proof fn lemma_split_history<T>(start: RegistrationView<T>, attempts: Seq<Attempt>, k: int)
    requires
        0 <= k <= attempts.len(),
    ensures
        after_attempts(start, attempts) == after_attempts(
            after_attempts(start, attempts.take(k)),
            attempts.skip(k),
        ),
    decreases attempts.len(),
{
    if k == attempts.len() {
        assert(attempts.take(k) =~= attempts);
        assert(attempts.skip(k).len() == 0);
    } else {
        lemma_split_history(start, attempts.drop_last(), k);
        assert(attempts.drop_last().take(k) =~= attempts.take(k));
        assert(attempts.skip(k).drop_last() =~= attempts.drop_last().skip(k));
    }
}

/// A registry of entries of type `T`: it keeps what was added, in the order
/// in which it was added, and knows each entry by its place.
pub struct Registrations<T> {
    list: Vec<T>,
}

impl<T> View for Registrations<T> {
    type V = Seq<T>;

    closed spec fn view(&self) -> Seq<T> {
        self.list@
    }
}

impl<T: Copy> Registrations<T> {
    /// A registry without entries.
    pub fn new() -> (r: Registrations<T>)
        ensures
            r@ == Seq::<T>::empty(),
    {
        Registrations { list: Vec::new() }
    }

    /// How many entries the registry holds.
    pub fn registered(&self) -> (n: usize)
        ensures
            n == self@.len(),
    {
        self.list.len()
    }

    /// Adds `r` behind the entries that are there and returns its place,
    /// which is its identifier from then on. Places are counted from zero.
    pub fn add(&mut self, r: T) -> (id: i32)
        requires
            old(self)@.len() < i32::MAX,
        ensures
            final(self)@ == old(self)@.push(r),
            id == old(self)@.len(),
    {
        let i = self.list.len();
        self.list.push(r);
        i as i32
    }

    /// Finds the first entry, in the order in which they were added, that
    /// `p` accepts. The registry is left as it was.
    pub fn find<P: Fn(&T) -> bool>(&mut self, p: P) -> (found: Option<&T>)
        requires
            forall|i: int| 0 <= i < old(self)@.len() ==> call_requires(p, (&old(self)@[i],)),
        ensures
            final(self)@ == old(self)@,
            match found {
                Some(r) => exists|i: int|
                    {
                        &&& 0 <= i < old(self)@.len()
                        &&& *r == old(self)@[i]
                        &&& call_ensures(p, (&old(self)@[i],), true)
                        &&& forall|j: int| 0 <= j < i ==> call_ensures(p, (&old(self)@[j],), false)
                    },
                None => forall|j: int|
                    0 <= j < old(self)@.len() ==> call_ensures(p, (&old(self)@[j],), false),
            },
    {
        let mut i: usize = 0;
        while i < self.list.len()
            invariant
                self.list@ == old(self)@,
                i <= self.list@.len(),
                forall|k: int| 0 <= k < self.list@.len() ==> call_requires(p, (&self.list@[k],)),
                forall|j: int| 0 <= j < i ==> call_ensures(p, (&self.list@[j],), false),
            decreases self.list@.len() - i,
        {
            if p(&self.list[i]) {
                return Some(&self.list[i]);
            }
            i = i + 1;
        }
        None
    }
}

} // verus!
