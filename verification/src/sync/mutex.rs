//! A mutual-exclusion cell whose kernel lock is created on first use.
//!
//! A mutex starts without a kernel lock, so making one costs nothing. The
//! first thread that wants the lock creates it; threads that come while it
//! does so wait and ask again. Whatever the order in which they come, the
//! kernel lock is created once.
//!
//! A `Mutex` here is the cell and its three-phase record. Every method is one
//! indivisible step on it; the requests to the kernel (create, lock, try-lock,
//! unlock, delete, delay) are made by the caller between the steps.

use vstd::prelude::*;
use crate::allocator::utils::{name_of, tag_fits, write_name};

verus! {

/// The tag of lock names, `__rust_mutex_0x`.
pub const MUTEX_TAG: [u8; 15] = [95, 95, 114, 117, 115, 116, 95, 109, 117, 116, 101, 120, 95, 48, 120];

/// How long a thread sleeps before it asks again whether the lock exists, in
/// microseconds.
pub const POLL_INTERVAL: u32 = 1000;

/// How many times a guard holds the kernel lock.
pub const LOCK_COUNT: i32 = 1;

/// What the kernel is asked when the lock is created: a plain lock, not held
/// by anyone.
#[derive(Debug, Clone, Copy)]
pub struct LockRequest {
    /// The lock's name, NUL-terminated.
    pub name: [u8; 32],
    /// The lock's attributes: none.
    pub attr: u32,
    /// How many times the lock is held from the start: not at all.
    pub init_count: i32,
}

/// How far the creation of the kernel lock has come.
#[derive(Debug, Clone, Copy, PartialEq, Eq, Structural)]
pub enum Phase {
    /// No thread has asked for the lock yet.
    Uninitialized,
    /// One thread is creating the kernel lock.
    Initializing,
    /// The kernel lock exists.
    Ready,
}

/// What a thread that wants the lock has to do next.
#[derive(Debug, Clone, Copy)]
pub enum InitStep {
    /// Create this kernel lock, then report its handle with
    /// `Mutex::created`.
    Create(LockRequest),
    /// Another thread is creating the lock: sleep for this many microseconds,
    /// then ask again.
    Wait(u32),
    /// The lock exists, under this handle.
    Ready(i32),
}

/// A step that a thread takes on the record of a mutex.
pub enum Event {
    /// A thread enters `Mutex::init_lock`.
    Enter,
    /// A thread reports the handle of the lock it created.
    Created,
}

/// The phase that follows `phase` on `event`.
pub open spec fn phase_after(phase: Phase, event: Event) -> Phase {
    match event {
        Event::Enter => if phase == Phase::Uninitialized {
            Phase::Initializing
        } else {
            phase
        },
        Event::Created => if phase == Phase::Initializing {
            Phase::Ready
        } else {
            phase
        },
    }
}

/// Whether the thread that takes the step `event` in `phase` is told to
/// create the kernel lock.
pub open spec fn creates_lock(phase: Phase, event: Event) -> bool {
    event == Event::Enter && phase == Phase::Uninitialized
}

/// How many times the kernel lock is created while the steps `events` are
/// taken in turn, starting in `phase`.
pub open spec fn creations(phase: Phase, events: Seq<Event>) -> nat
    decreases events.len(),
{
    if events.len() == 0 {
        0
    } else {
        let rest = creations(phase_after(phase, events[0]), events.drop_first());
        if creates_lock(phase, events[0]) {
            rest + 1
        } else {
            rest
        }
    }
}

/// Once a thread has entered, no step creates the kernel lock again.
pub proof fn lemma_no_second_creation(phase: Phase, events: Seq<Event>)
    requires
        phase != Phase::Uninitialized,
    ensures
        creations(phase, events) == 0,
    decreases events.len(),
{
    if events.len() > 0 {
        lemma_no_second_creation(phase_after(phase, events[0]), events.drop_first());
    }
}

/// However many threads enter a new mutex, and in whatever order they take
/// their steps, the kernel lock is created exactly once; it is not created if
/// none enters.
pub proof fn lemma_created_once(events: Seq<Event>)
    ensures
        creations(Phase::Uninitialized, events) == if exists|i: int|
            0 <= i < events.len() && events[i] == Event::Enter {
            1nat
        } else {
            0nat
        },
    decreases events.len(),
{
    if events.len() > 0 {
        let rest = events.drop_first();
        if events[0] == Event::Enter {
            lemma_no_second_creation(Phase::Initializing, rest);
        } else {
            lemma_created_once(rest);
            if exists|i: int| 0 <= i < events.len() && events[i] == Event::Enter {
                let i = choose|i: int| 0 <= i < events.len() && events[i] == Event::Enter;
                assert(rest[i - 1] == Event::Enter);
            }
            if exists|i: int| 0 <= i < rest.len() && rest[i] == Event::Enter {
                let i = choose|i: int| 0 <= i < rest.len() && rest[i] == Event::Enter;
                assert(events[i + 1] == Event::Enter);
            }
        }
    }
}

/// A mutual exclusion primitive on top of a kernel lock.
pub struct Mutex<T> {
    lock: i32,  // the kernel lock, 0 until it is created
    init: bool,  // false until the creation of the lock has started
    done: bool,  // false until the creation of the lock has finished
    data: T,  // the protected value
}

/// A guard through which the protected value is reached.
///
/// It stands for the kernel lock being held: whoever lets it go unlocks the
/// kernel lock `lock`, once.
pub struct MutexGuard<'a, T> {
    /// The handle of the kernel lock that is held.
    pub lock: i32,
    /// The protected value.
    pub data: &'a mut T,
}

impl<T> Mutex<T> {
    /// How far the creation of the kernel lock has come.
    pub closed spec fn phase(&self) -> Phase {
        if self.done {
            Phase::Ready
        } else if self.init {
            Phase::Initializing
        } else {
            Phase::Uninitialized
        }
    }

    /// The handle of the kernel lock; 0 until the lock exists.
    pub closed spec fn handle(&self) -> i32 {
        if self.done {
            self.lock
        } else {
            0
        }
    }

    /// The protected value.
    pub closed spec fn payload(&self) -> T {
        self.data
    }

    /// The mutex that `new` makes around `user_data`.
    pub closed spec fn fresh(user_data: T) -> Mutex<T> {
        Mutex { lock: 0, init: false, done: false, data: user_data }
    }

    /// A new mutex has no kernel lock yet, and it holds the value it was
    /// given: taking the value out of it, with no step in between, returns
    /// that value.
    pub proof fn lemma_fresh(user_data: T)
        ensures
            Self::fresh(user_data).phase() == Phase::Uninitialized,
            Self::fresh(user_data).handle() == 0,
            Self::fresh(user_data).payload() == user_data,
    {
    }

    /// There is no handle as long as the lock is not ready.
    pub proof fn lemma_no_handle_before_ready(&self)
        requires
            self.phase() != Phase::Ready,
        ensures
            self.handle() == 0,
    {
    }

    /// Creates a new lock wrapping the supplied data. No request is made to
    /// the kernel.
    pub fn new(user_data: T) -> (mutex: Mutex<T>)
        ensures
            mutex == Self::fresh(user_data),
            mutex.phase() == Phase::Uninitialized,
            mutex.handle() == 0,
            mutex.payload() == user_data,
    {
        Mutex { lock: 0, init: false, done: false, data: user_data }
    }

    /// Consumes this mutex, returning the underlying data. Nothing is locked:
    /// whoever owns the mutex is alone with it.
    pub fn into_inner(self) -> (data: T)
        ensures
            data == self.payload(),
    {
        self.data
    }

    /// The handle of the kernel lock, if it exists: the lock to delete when
    /// the mutex goes.
    pub fn lock_handle(&self) -> (handle: Option<i32>)
        ensures
            handle == if self.phase() == Phase::Ready {
                Some(self.handle())
            } else {
                None
            },
    {
        if self.done {
            Some(self.lock)
        } else {
            None
        }
    }

    /// Enters the mutex on behalf of a thread that wants the lock, and tells
    /// it what to do next. `addr` is the address at which the mutex is stored;
    /// the lock is named after it.
    ///
    /// The first thread to enter is told to create the kernel lock. One that
    /// enters while the lock is being created is told to wait, and one that
    /// enters afterwards is given the handle.
    pub fn init_lock(&mut self, addr: usize) -> (step: InitStep)
        ensures
            final(self).phase() == phase_after(old(self).phase(), Event::Enter),
            final(self).handle() == old(self).handle(),
            final(self).payload() == old(self).payload(),
            step is Create <==> creates_lock(old(self).phase(), Event::Enter),
            match step {
                InitStep::Create(request) => {
                    &&& old(self).phase() == Phase::Uninitialized
                    &&& request.name@ == name_of(MUTEX_TAG@, addr as nat)
                    &&& request.attr == 0
                    &&& request.init_count == 0
                },
                InitStep::Wait(micros) => {
                    &&& old(self).phase() == Phase::Initializing
                    &&& micros == POLL_INTERVAL
                },
                InitStep::Ready(handle) => {
                    &&& old(self).phase() == Phase::Ready
                    &&& handle == old(self).handle()
                },
            },
    {
        if self.done {
            InitStep::Ready(self.lock)
        } else if self.init {
            InitStep::Wait(POLL_INTERVAL)
        } else {
            self.init = true;
            let tag: [u8; 15] = MUTEX_TAG;
            assert(tag_fits(tag@));
            InitStep::Create(LockRequest { name: write_name(&tag, addr), attr: 0, init_count: 0 })
        }
    }

    /// Records the handle of the kernel lock that the calling thread created,
    /// and with it the end of the creation. Outside the creation the call
    /// changes nothing.
    pub fn created(&mut self, handle: i32)
        ensures
            final(self).phase() == phase_after(old(self).phase(), Event::Created),
            final(self).handle() == if old(self).phase() == Phase::Initializing {
                handle
            } else {
                old(self).handle()
            },
            final(self).payload() == old(self).payload(),
    {
        if self.init && !self.done {
            self.lock = handle;
            self.done = true;
        }
    }

    /// Gives the guard to the thread that the kernel has granted the lock,
    /// after a blocking request on the handle that `init_lock` gave. As long
    /// as the kernel lock does not exist there is no guard.
    ///
    /// The protected value is reached through the guard, and the mutex keeps
    /// what the guard leaves behind.
    pub fn lock<'a>(&'a mut self) -> (guard: Option<MutexGuard<'a, T>>)
        ensures
            guard is Some <==> old(self).phase() == Phase::Ready,
            guard matches Some(held) ==> {
                &&& held.lock == old(self).handle()
                &&& *held.data == old(self).payload()
                &&& final(self).payload() == *final(held.data)
            },
            guard is None ==> final(self).payload() == old(self).payload(),
            final(self).phase() == old(self).phase(),
            final(self).handle() == old(self).handle(),
    {
        if self.done {
            Some(MutexGuard { lock: self.lock, data: &mut self.data })
        } else {
            None
        }
    }

    /// Gives the guard if the kernel's non-blocking attempt on the handle
    /// that `init_lock` gave succeeded: `status` is what the kernel answered,
    /// negative where the lock is held elsewhere. Without the lock there is no
    /// guard, and the mutex stays as it is.
    pub fn try_lock<'a>(&'a mut self, status: i32) -> (guard: Option<MutexGuard<'a, T>>)
        ensures
            guard is Some <==> old(self).phase() == Phase::Ready && status >= 0,
            guard matches Some(held) ==> {
                &&& held.lock == old(self).handle()
                &&& *held.data == old(self).payload()
                &&& final(self).payload() == *final(held.data)
            },
            guard is None ==> final(self).payload() == old(self).payload(),
            final(self).phase() == old(self).phase(),
            final(self).handle() == old(self).handle(),
    {
        if self.done && status >= 0 {
            Some(MutexGuard { lock: self.lock, data: &mut self.data })
        } else {
            None
        }
    }
}

impl<T: Default> Default for Mutex<T> {
    /// A new mutex around the default value of `T`.
    fn default() -> (mutex: Mutex<T>)
        ensures
            mutex.phase() == Phase::Uninitialized,
            mutex.handle() == 0,
            call_ensures(T::default, (), mutex.payload()),
    {
        Mutex::new(T::default())
    }
}

impl<'a, T> MutexGuard<'a, T> {
    /// Lets the guard go, and gives the handle of the kernel lock to unlock.
    /// The mutex keeps the value as it stands.
    pub fn unlock(self) -> (handle: i32)
        ensures
            handle == self.lock,
            *final(self.data) == *old(self.data),
    {
        self.lock
    }
}

impl<'a, T> core::ops::Deref for MutexGuard<'a, T> {
    type Target = T;

    /// The protected value, to read.
    fn deref(&self) -> (value: &T)
        ensures
            *value == *old(self.data),
    {
        &*self.data
    }
}

impl<'a, T> core::ops::DerefMut for MutexGuard<'a, T> {
    /// The protected value, to change. The guard goes on holding the same
    /// lock.
    fn deref_mut(&mut self) -> (value: &mut T)
        ensures
            *value == *old(self).data,
            *final(self).data == *final(value),
            *final(final(self).data) == *final(old(self).data),
            final(self).lock == old(self).lock,
    {
        &mut *self.data
    }
}

} // verus!
