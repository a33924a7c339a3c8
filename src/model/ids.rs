//! A counter, shared between threads, that hands out blank node identifiers.
use std::sync::Arc;
use std::sync::Mutex;
use std::sync::MutexGuard;
use vstd::prelude::*;

verus! {

#[verifier::external_type_specification]
#[verifier::external_body]
#[verifier::reject_recursive_types(T)]
pub struct ExMutex<T: ?Sized>(Mutex<T>);

#[verifier::external_type_specification]
#[verifier::external_body]
#[verifier::reject_recursive_types(T)]
pub struct ExMutexGuard<'a, T: ?Sized + 'a>(MutexGuard<'a, T>);

/// Relies on `Mutex::new`: a fresh, unlocked mutex around the value.
pub assume_specification<T>[ Mutex::<T>::new ](t: T) -> Mutex<T>;

/// Relies on `Mutex::lock`: blocks until this thread holds the lock. A lock
/// poisoned by a panic elsewhere still hands out its guard.
#[verifier::external_body]
fn lock_counter(m: &Mutex<u64>) -> MutexGuard<'_, u64> {
    match m.lock() {
        Ok(g) => g,
        Err(e) => e.into_inner(),
    }
}

/// Relies on `Deref` of `MutexGuard`: reads the value under the held lock.
#[verifier::external_body]
fn read_guarded(g: &MutexGuard<'_, u64>) -> u64 {
    **g
}

/// Relies on `DerefMut` of `MutexGuard`: overwrites the value under the held lock.
#[verifier::external_body]
fn write_guarded(g: &mut MutexGuard<'_, u64>, v: u64) {
    **g = v;
}

/// The identifier that follows `current`, or `None` once every `u64` is spent.
pub open spec fn successor(current: u64) -> Option<u64> {
    if current < u64::MAX {
        Some((current + 1) as u64)
    } else {
        None
    }
}

/// One step of the counter: the identifier handed out after `current`.
pub fn next_id(current: u64) -> (r: Option<u64>)
    ensures
        r == successor(current),
{
    if current < u64::MAX {
        Some(current + 1)
    } else {
        None
    }
}

/// Generates blank node identifiers in a thread safe way. Clones share one counter.
#[derive(Debug, Clone)]
pub struct U64IDProvider {
    counter: Arc<Mutex<u64>>,
}

impl U64IDProvider {
    /// Increments the shared counter under its lock and returns the new value,
    /// so the first call on a fresh provider returns 1. Returns `None`, and
    /// leaves the counter as it is, once `u64::MAX` has been handed out.
    pub fn next(&self) -> (r: Option<u64>)
        ensures
            r matches Some(v) ==> v >= 1,
    {
        let mut guard = lock_counter(&*self.counter);
        let current = read_guarded(&guard);
        let r = next_id(current);
        match r {
            Some(v) => write_guarded(&mut guard, v),
            None => {},
        }
        r
    }
}

impl Default for U64IDProvider {
    fn default() -> (r: U64IDProvider) {
        U64IDProvider { counter: Arc::new(Mutex::new(0u64)) }
    }
}

/// The decimal digit `d`, for `d < 10`.
pub open spec fn digit_char(d: nat) -> char {
    seq!['0', '1', '2', '3', '4', '5', '6', '7', '8', '9'][d as int]
}

/// The decimal form of `n`: no sign, no leading zero.
pub open spec fn decimal(n: nat) -> Seq<char>
    decreases n,
{
    if n < 10 {
        seq![digit_char(n)]
    } else {
        decimal(n / 10).push(digit_char(n % 10))
    }
}

/// The text of one decimal digit.
fn digit_text(d: u64) -> (r: &'static str)
    requires
        d < 10,
    ensures
        r@ == seq![digit_char(d as nat)],
{
    proof {
        reveal_strlit("0");
        reveal_strlit("1");
        reveal_strlit("2");
        reveal_strlit("3");
        reveal_strlit("4");
        reveal_strlit("5");
        reveal_strlit("6");
        reveal_strlit("7");
        reveal_strlit("8");
        reveal_strlit("9");
    }
    if d == 0 {
        "0"
    } else if d == 1 {
        "1"
    } else if d == 2 {
        "2"
    } else if d == 3 {
        "3"
    } else if d == 4 {
        "4"
    } else if d == 5 {
        "5"
    } else if d == 6 {
        "6"
    } else if d == 7 {
        "7"
    } else if d == 8 {
        "8"
    } else {
        "9"
    }
}

/// Writes `n` in decimal.
pub fn decimal_string(n: u64) -> (r: String)
    ensures
        r@ == decimal(n as nat),
    decreases n,
{
    if n < 10 {
        String::from_str(digit_text(n))
    } else {
        let mut out = decimal_string(n / 10);
        out.append(digit_text(n % 10));
        proof {
            assert(out@ =~= decimal(n as nat));
        }
        out
    }
}

} // verus!
