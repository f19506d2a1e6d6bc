use vita::sync::mutex::{InitStep, LockRequest, Mutex, LOCK_COUNT, POLL_INTERVAL};

/// The kernel's lock service, as far as these tests need it: it counts the
/// locks it created and knows which are held.
struct FakeLocks {
    created: Vec<LockRequest>,
    held: Vec<i32>,
    delays: Vec<u32>,
    unlocks: usize,
}

impl FakeLocks {
    fn new() -> Self {
        FakeLocks { created: Vec::new(), held: Vec::new(), delays: Vec::new(), unlocks: 0 }
    }

    fn create(&mut self, request: LockRequest) -> i32 {
        self.created.push(request);
        0x40 + self.created.len() as i32
    }

    fn try_lock(&mut self, handle: i32, count: i32) -> i32 {
        assert_eq!(count, 1);
        if self.held.contains(&handle) {
            -1
        } else {
            self.held.push(handle);
            0
        }
    }

    fn lock(&mut self, handle: i32, count: i32) {
        assert!(self.try_lock(handle, count) >= 0, "the lock is held: the thread would block");
    }

    fn unlock(&mut self, handle: i32, count: i32) {
        assert_eq!(count, 1);
        let at = self.held.iter().position(|&h| h == handle).expect("the lock is not held");
        self.held.remove(at);
        self.unlocks += 1;
    }
}

/// Brings the mutex to the point where its kernel lock exists, as one thread
/// alone would.
fn ready<T>(mutex: &mut Mutex<T>, kernel: &mut FakeLocks, addr: usize) -> i32 {
    loop {
        match mutex.init_lock(addr) {
            InitStep::Create(request) => {
                let handle = kernel.create(request);
                mutex.created(handle);
            }
            InitStep::Wait(micros) => kernel.delays.push(micros),
            InitStep::Ready(handle) => return handle,
        }
    }
}

fn hex_of(number: usize) -> Vec<u8> {
    format!("{:0width$X}", number, width = (usize::BITS / 4) as usize).into_bytes()
}

#[test]
fn into_inner_returns_what_new_was_given() {
    assert_eq!(Mutex::new(42u32).into_inner(), 42);
    assert_eq!(Mutex::new(-7i64).into_inner(), -7);
    assert_eq!(Mutex::new(String::from("payload")).into_inner(), "payload");
    assert_eq!(Mutex::new(vec![1u8, 2, 3]).into_inner(), vec![1u8, 2, 3]);
    assert_eq!(Mutex::new(()).into_inner(), ());
}

#[test]
fn default_wraps_the_default_value() {
    assert_eq!(Mutex::<u32>::default().into_inner(), 0);
    assert_eq!(Mutex::<String>::default().into_inner(), "");
    assert_eq!(Mutex::<u32>::default().lock_handle(), None);
}

#[test]
fn a_new_mutex_has_no_kernel_lock() {
    let mut mutex = Mutex::new(1u8);
    assert_eq!(mutex.lock_handle(), None);
    assert!(mutex.lock().is_none());
    assert!(mutex.try_lock(0).is_none());
    assert_eq!(mutex.into_inner(), 1);
}

#[test]
fn the_first_thread_creates_the_lock_and_the_others_wait() {
    let mut mutex = Mutex::new(0u32);
    let addr = 0x8123_4560usize;
    let request = match mutex.init_lock(addr) {
        InitStep::Create(request) => request,
        other => panic!("unexpected {:?}", other),
    };
    assert_eq!(request.attr, 0);
    assert_eq!(request.init_count, 0);
    let name = request.name;
    let width = (usize::BITS / 4) as usize;
    assert_eq!(&name[..15], b"__rust_mutex_0x");
    assert_eq!(&name[15..15 + width], &hex_of(addr)[..]);
    assert!(name[15 + width..].iter().all(|&c| c == 0));
    assert!(matches!(mutex.init_lock(addr), InitStep::Wait(1000)));
    assert!(matches!(mutex.init_lock(addr), InitStep::Wait(1000)));
    assert_eq!(POLL_INTERVAL, 1000);
    assert_eq!(mutex.lock_handle(), None);
    assert!(mutex.lock().is_none());
    mutex.created(0x55);
    assert!(matches!(mutex.init_lock(addr), InitStep::Ready(0x55)));
    assert!(matches!(mutex.init_lock(addr), InitStep::Ready(0x55)));
    assert_eq!(mutex.lock_handle(), Some(0x55));
}

#[test]
fn created_counts_only_during_the_creation() {
    let mut mutex = Mutex::new(0u32);
    mutex.created(9);
    assert_eq!(mutex.lock_handle(), None);
    assert!(matches!(mutex.init_lock(16), InitStep::Create(_)));
    mutex.created(10);
    mutex.created(11);
    assert_eq!(mutex.lock_handle(), Some(10));
    assert!(matches!(mutex.init_lock(16), InitStep::Ready(10)));
}

/// Where a thread stands on its way to the lock.
#[derive(Clone, Copy, Debug)]
enum At {
    Entering,
    Creating(LockRequest),
    Holding(i32),
}

#[test]
fn many_threads_entering_create_one_lock() {
    // A scheduler picks the threads in a scrambled order, one step at a time.
    for threads in [1usize, 2, 3, 8, 32] {
        for seed in [1u32, 3, 5, 7] {
            let mut mutex = Mutex::new(0u64);
            let mut kernel = FakeLocks::new();
            let mut at = vec![At::Entering; threads];
            let mut random = seed;
            let mut steps = 0usize;
            while at.iter().any(|a| !matches!(a, At::Holding(_))) {
                steps += 1;
                assert!(steps < 100_000);
                random = random.wrapping_mul(1_103_515_245).wrapping_add(12_345);
                let turn = (random >> 16) as usize % threads;
                at[turn] = match at[turn] {
                    At::Entering => match mutex.init_lock(0x1000) {
                        InitStep::Create(request) => At::Creating(request),
                        InitStep::Wait(micros) => {
                            kernel.delays.push(micros);
                            At::Entering
                        }
                        InitStep::Ready(handle) => At::Holding(handle),
                    },
                    At::Creating(request) => {
                        let handle = kernel.create(request);
                        mutex.created(handle);
                        At::Entering
                    }
                    done => done,
                };
            }
            assert_eq!(kernel.created.len(), 1);
            assert!(at.iter().all(|a| matches!(a, At::Holding(0x41))));
            assert!(kernel.delays.iter().all(|&micros| micros == 1000));
            assert_eq!(mutex.lock_handle(), Some(0x41));
        }
    }
}

#[test]
fn two_threads_counting_lose_no_update() {
    let mut mutex = Mutex::new(0u32);
    let mut kernel = FakeLocks::new();
    let addr = 0x2000;
    for _ in 0..10_000 {
        for _thread in 0..2 {
            let handle = ready(&mut mutex, &mut kernel, addr);
            kernel.lock(handle, LOCK_COUNT);
            let mut guard = mutex.lock().unwrap();
            *guard += 1;
            let held = guard.unlock();
            kernel.unlock(held, LOCK_COUNT);
        }
    }
    assert_eq!(kernel.created.len(), 1);
    assert_eq!(kernel.unlocks, 20_000);
    assert!(kernel.held.is_empty());
    assert_eq!(mutex.into_inner(), 20_000);
}

#[test]
fn try_lock_on_a_held_lock_gives_no_guard() {
    let mut mutex = Mutex::new(5u32);
    let mut kernel = FakeLocks::new();
    let handle = ready(&mut mutex, &mut kernel, 0x3000);
    // One thread holds the lock.
    kernel.lock(handle, LOCK_COUNT);
    // Another one tries.
    let status = kernel.try_lock(handle, LOCK_COUNT);
    assert!(status < 0);
    assert!(mutex.try_lock(status).is_none());
    assert_eq!(mutex.lock_handle(), Some(handle));
    // The first lets go; now the attempt succeeds.
    kernel.unlock(handle, LOCK_COUNT);
    let status = kernel.try_lock(handle, LOCK_COUNT);
    assert_eq!(status, 0);
    let mut guard = mutex.try_lock(status).expect("the lock was free");
    assert_eq!(guard.lock, handle);
    assert_eq!(*guard, 5);
    *guard = 6;
    kernel.unlock(guard.unlock(), LOCK_COUNT);
    assert_eq!(mutex.into_inner(), 6);
}

#[test]
fn try_lock_goes_by_the_sign_of_the_status() {
    let mut mutex = Mutex::new(0u8);
    let mut kernel = FakeLocks::new();
    ready(&mut mutex, &mut kernel, 0x3000);
    assert!(mutex.try_lock(i32::MIN).is_none());
    assert!(mutex.try_lock(-1).is_none());
    assert!(mutex.try_lock(0).is_some());
    assert!(mutex.try_lock(1).is_some());
    assert!(mutex.try_lock(i32::MAX).is_some());
}

#[test]
fn the_guard_reaches_the_value_and_names_the_lock() {
    let mut mutex = Mutex::new(vec![1u32, 2]);
    let mut kernel = FakeLocks::new();
    let handle = ready(&mut mutex, &mut kernel, 0x4000);
    assert_eq!(handle, 0x41);
    {
        let mut guard = mutex.lock().unwrap();
        assert_eq!(guard.lock, 0x41);
        assert_eq!(*guard, vec![1u32, 2]);
        guard.push(3);
        assert_eq!(guard.len(), 3);
        assert_eq!(guard.unlock(), 0x41);
    }
    assert_eq!(mutex.into_inner(), vec![1u32, 2, 3]);
}

#[test]
fn entering_and_creating_leave_the_value_alone() {
    let mut mutex = Mutex::new(77u32);
    let mut kernel = FakeLocks::new();
    ready(&mut mutex, &mut kernel, 0x5000);
    assert!(mutex.try_lock(-1).is_none());
    assert_eq!(mutex.into_inner(), 77);
}
