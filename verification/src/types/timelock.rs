//! Time-based locks that restrict access to a notarization.
//!
//! A lock is either open from a point in time, closed until the record is destroyed, or
//! absent.

use crate::encoding::le_bytes;
use crate::error::Error;
use crate::move_utils::get_clock_ref;
use crate::move_utils::ptb_pure;
use crate::move_utils::PureValue;
use crate::programmable::call_view;
use crate::programmable::Argument;
use crate::programmable::InstructionView;
use crate::programmable::ProgrammableTransactionBuilder;
use crate::types::object::ObjectID;
use crate::types::type_tag::timelock_type;
use crate::types::type_tag::TypeTag;
use std::time::Duration;
use std::time::SystemTime;
use vstd::prelude::*;
use vstd::string::StringExecFns;

verus! {

/// Metadata containing time-based access restrictions for a notarization.
#[derive(Debug, Clone, Copy, PartialEq, Eq, PartialOrd, Ord, Hash, Structural)]
pub struct LockMetadata {
    pub update_lock: TimeLock,
    pub delete_lock: TimeLock,
    pub transfer_lock: TimeLock,
}

/// Represents different types of time-based locks that can be applied to
/// notarizations.
///
/// Locks are totally ordered: by kind first, in the order in which the kinds are listed,
/// then by unlock time.
#[derive(Debug, Clone, Copy, PartialEq, Eq, Ord, Hash, Structural)]
pub enum TimeLock {
    /// A lock that is unlocked at a specific time, in seconds since the Unix epoch.
    UnlockAt(u32),
    /// A lock that is unlocked when the notarization is destroyed.
    UntilDestroyed,
    /// No lock is applied.
    NoLock,
}

/// A point in time as the operating system reports it.
#[verifier::external_type_specification]
#[verifier::external_body]
pub struct ExSystemTime(SystemTime);

/// `SystemTime::now`: the current reading of the system clock. Nothing is claimed of it.
#[verifier::external_body]
fn system_now() -> SystemTime {
    SystemTime::now()
}

/// `SystemTime::duration_since` with the Unix epoch as the earlier point: the time elapsed
/// since the epoch, or nothing when the clock reads a point before it. Nothing is claimed
/// of the amount.
#[verifier::external_body]
fn since_unix_epoch(time: &SystemTime) -> Option<Duration> {
    time.duration_since(SystemTime::UNIX_EPOCH).ok()
}

/// `Duration::as_secs`: the whole seconds of a duration. Nothing is claimed of the amount.
#[verifier::external_body]
fn whole_seconds(elapsed: &Duration) -> u64 {
    elapsed.as_secs()
}

/// The low 32 bits of a count of seconds: the clock reading that an unlock time is held
/// against.
pub open spec fn clock_reading(now_secs: u64) -> u32 {
    (now_secs as nat % 0x1_0000_0000) as u32
}

/// The instructions that make a lock on the ledger, when they are added behind `base`
/// earlier instructions: for a lock with an unlock time the clock, the time and the call
/// that takes both; for the other two a call without arguments.
pub open spec fn lock_plan(base: nat, package: Seq<u8>, lock: TimeLock) -> Seq<InstructionView> {
    match lock {
        TimeLock::UnlockAt(unlock_time) => seq![
            InstructionView::Clock,
            InstructionView::Pure(le_bytes(unlock_time as nat, 4)),
            call_view(package, "timelock"@, "unlock_at"@, seq![], seq![base + 1, base]),
        ],
        TimeLock::UntilDestroyed => seq![
            call_view(package, "timelock"@, "until_destroyed"@, seq![], seq![]),
        ],
        TimeLock::NoLock => seq![call_view(package, "timelock"@, "none"@, seq![], seq![])],
    }
}

/// Adds to `ptb` the call that makes a lock which opens at `unlock_time`.
pub fn new_unlock_at(
    ptb: &mut ProgrammableTransactionBuilder,
    unlock_time: u32,
    package_id: ObjectID,
) -> (lock: Result<Argument, Error>)
    ensures
        lock is Ok,
        final(ptb)@ == old(ptb)@ + lock_plan(
            old(ptb)@.len(),
            package_id@,
            TimeLock::UnlockAt(unlock_time),
        ),
        lock matches Ok(argument) ==> argument.position + 1 == final(ptb)@.len(),
{
    let seconds: u32 = unlock_time;
    let clock = get_clock_ref(ptb);
    let unlock_time = match ptb_pure(ptb, "unlock_time", PureValue::Number(seconds)) {
        Ok(argument) => argument,
        Err(error) => {
            return Err(error);
        },
    };
    let arguments = vec![unlock_time, clock];
    let types: Vec<TypeTag> = Vec::new();
    assert(crate::programmable::positions(arguments@) =~= seq![
        (old(ptb)@.len() + 1) as nat,
        old(ptb)@.len(),
    ]);
    assert(crate::programmable::tag_texts(types@) =~= Seq::<Seq<char>>::empty());
    let lock = ptb.programmable_move_call(package_id, "timelock", "unlock_at", types, arguments);
    assert(ptb@ =~= old(ptb)@ + lock_plan(old(ptb)@.len(), package_id@, TimeLock::UnlockAt(seconds)));
    Ok(lock)
}

/// Adds to `ptb` the call that makes a lock which stays closed until the notarization is
/// destroyed.
pub fn new_until_destroyed(ptb: &mut ProgrammableTransactionBuilder, package_id: ObjectID) -> (lock:
    Result<Argument, Error>)
    ensures
        lock is Ok,
        final(ptb)@ == old(ptb)@ + lock_plan(
            old(ptb)@.len(),
            package_id@,
            TimeLock::UntilDestroyed,
        ),
        lock matches Ok(argument) ==> argument.position + 1 == final(ptb)@.len(),
{
    let arguments: Vec<Argument> = Vec::new();
    let types: Vec<TypeTag> = Vec::new();
    assert(crate::programmable::positions(arguments@) =~= Seq::<nat>::empty());
    assert(crate::programmable::tag_texts(types@) =~= Seq::<Seq<char>>::empty());
    let lock = ptb.programmable_move_call(
        package_id,
        "timelock",
        "until_destroyed",
        types,
        arguments,
    );
    assert(ptb@ =~= old(ptb)@ + lock_plan(old(ptb)@.len(), package_id@, TimeLock::UntilDestroyed));
    Ok(lock)
}

/// Adds to `ptb` the call that makes the absent lock.
pub fn new_none(ptb: &mut ProgrammableTransactionBuilder, package_id: ObjectID) -> (lock: Result<
    Argument,
    Error,
>)
    ensures
        lock is Ok,
        final(ptb)@ == old(ptb)@ + lock_plan(old(ptb)@.len(), package_id@, TimeLock::NoLock),
        lock matches Ok(argument) ==> argument.position + 1 == final(ptb)@.len(),
{
    let arguments: Vec<Argument> = Vec::new();
    let types: Vec<TypeTag> = Vec::new();
    assert(crate::programmable::positions(arguments@) =~= Seq::<nat>::empty());
    assert(crate::programmable::tag_texts(types@) =~= Seq::<Seq<char>>::empty());
    let lock = ptb.programmable_move_call(package_id, "timelock", "none", types, arguments);
    assert(ptb@ =~= old(ptb)@ + lock_plan(old(ptb)@.len(), package_id@, TimeLock::NoLock));
    Ok(lock)
}

impl TimeLock {
    /// The lock that `new_with_ts_at` grants for `unlock_time` when the clock reads
    /// `now_secs`, if it grants one.
    pub open spec fn granted_at(unlock_time: u32, now_secs: u64) -> Option<TimeLock> {
        if unlock_time <= clock_reading(now_secs) {
            None
        } else {
            Some(TimeLock::UnlockAt(unlock_time))
        }
    }

    /// Creates a new `TimeLock` with a specified unlock time.
    ///
    /// The unlock time is the time in seconds since the Unix epoch and must be in the
    /// future of the system clock, so the time zero is never granted. A clock that reads a
    /// point before the epoch is reported as an invalid unlock time.
    pub fn new_with_ts(unlock_time: u32) -> (lock: Result<Self, Error>)
        ensures
            match lock {
                Ok(granted) => granted == TimeLock::UnlockAt(unlock_time),
                Err(Error::InvalidArgument(text)) => text@ == "unlock time must be in the future"@,
                Err(Error::TimeLock(text)) => text@ == "system time is before the Unix epoch"@,
                Err(_) => false,
            },
            lock is Ok ==> unlock_time > 0,
    {
        let now = system_now();
        match since_unix_epoch(&now) {
            Some(elapsed) => Self::new_with_ts_at(unlock_time, whole_seconds(&elapsed)),
            None => Err(
                Error::TimeLock(String::from_str("system time is before the Unix epoch")),
            ),
        }
    }

    /// Creates a new `TimeLock` with a specified unlock time, held against a given clock
    /// reading in seconds since the Unix epoch.
    ///
    /// The lock is granted exactly when `unlock_time` lies after the low 32 bits of
    /// `now_secs`.
    pub fn new_with_ts_at(unlock_time: u32, now_secs: u64) -> (lock: Result<Self, Error>)
        ensures
            match lock {
                Ok(granted) => Self::granted_at(unlock_time, now_secs) == Some(granted),
                Err(Error::InvalidArgument(text)) => {
                    &&& Self::granted_at(unlock_time, now_secs) is None
                    &&& text@ == "unlock time must be in the future"@
                },
                Err(_) => false,
            },
    {
        let reading: u32 = (now_secs % 0x1_0000_0000) as u32;
        if unlock_time <= reading {
            return Err(
                Error::InvalidArgument(String::from_str("unlock time must be in the future")),
            );
        }
        Ok(TimeLock::UnlockAt(unlock_time))
    }

    /// Adds to `ptb` the instructions that make this lock on the ledger, and returns the
    /// argument that stands for the lock: the last instruction added.
    pub fn to_ptb(&self, ptb: &mut ProgrammableTransactionBuilder, package_id: ObjectID) -> (lock:
        Result<Argument, Error>)
        ensures
            lock is Ok,
            final(ptb)@ == old(ptb)@ + lock_plan(old(ptb)@.len(), package_id@, *self),
            lock matches Ok(argument) ==> argument.position + 1 == final(ptb)@.len(),
    {
        match self {
            TimeLock::UnlockAt(unlock_time) => new_unlock_at(ptb, *unlock_time, package_id),
            TimeLock::UntilDestroyed => new_until_destroyed(ptb, package_id),
            TimeLock::NoLock => new_none(ptb, package_id),
        }
    }

    /// The type of a time lock as the package `package` defines it.
    pub fn move_type(package: ObjectID) -> (tag: TypeTag)
        ensures
            tag@ == timelock_type(package@),
    {
        TypeTag::timelock(&package)
    }

    /// The position of the lock's kind in the order of the kinds.
    pub fn kind_rank(&self) -> (rank: u8)
        ensures
            rank == self.rank(),
    {
        match self {
            TimeLock::UnlockAt(_) => 0,
            TimeLock::UntilDestroyed => 1,
            TimeLock::NoLock => 2,
        }
    }

    /// The position of the lock's kind in the order of the kinds.
    pub open spec fn rank(self) -> nat {
        match self {
            TimeLock::UnlockAt(_) => 0,
            TimeLock::UntilDestroyed => 1,
            TimeLock::NoLock => 2,
        }
    }

    /// Whether `self` comes before `other` in the total order of locks: by kind first,
    /// then by unlock time.
    pub open spec fn precedes(self, other: TimeLock) -> bool {
        ||| self.rank() < other.rank()
        ||| (self matches TimeLock::UnlockAt(a) && other matches TimeLock::UnlockAt(b) && a < b)
    }
}

/// Of two locks exactly one comes first, unless they are the same lock.
pub proof fn lemma_lock_order_is_total(first: TimeLock, second: TimeLock)
    ensures
        first.precedes(second) || first == second || second.precedes(first),
        !(first.precedes(second) && second.precedes(first)),
        !(first.precedes(second) && first == second),
{
}

/// A lock that comes before a second lock comes before every lock that the second comes
/// before.
pub proof fn lemma_lock_order_is_transitive(first: TimeLock, second: TimeLock, third: TimeLock)
    requires
        first.precedes(second),
        second.precedes(third),
    ensures
        first.precedes(third),
{
}

} // verus!
