//! Time: durations, the clock, and ids that are stamped with it.

use crate::text::{decimal, decimal_is_digits, decimal_is_injective, decimal_text};
use std::time::{Duration, SystemTime, SystemTimeError};
use vstd::prelude::*;

verus! {

/// How many nanoseconds a duration has.
pub uninterp spec fn duration_nanos(duration: Duration) -> nat;

/// The text that `Debug` writes for a duration of so many nanoseconds.
pub uninterp spec fn duration_debug(nanos: nat) -> Seq<char>;

/// `Duration::from_secs` makes a duration of whole seconds.
pub assume_specification[ Duration::from_secs ](secs: u64) -> (r: Duration)
    ensures
        duration_nanos(r) == secs * 1_000_000_000,
;

/// `Duration::as_nanos` tells how many nanoseconds a duration has.
pub assume_specification[ Duration::as_nanos ](duration: &Duration) -> (r: u128)
    ensures
        r == duration_nanos(*duration),
;

/// `format!` with the `Debug` of a duration: what it writes depends on the
/// length of the duration alone.
#[verifier::external_body]
pub(crate) fn duration_text(duration: &Duration) -> (r: String)
    ensures
        r@ == duration_debug(duration_nanos(*duration)),
{
    format!("{:?}", duration)
}

/// `std::time::SystemTime`, of which nothing is claimed.
#[verifier::external_type_specification]
#[verifier::external_body]
pub struct ExSystemTime(std::time::SystemTime);

/// `std::time::SystemTimeError`, of which nothing is claimed.
#[verifier::external_type_specification]
#[verifier::external_body]
pub struct ExSystemTimeError(std::time::SystemTimeError);

/// `SystemTime::now` reads the clock; nothing is claimed of what it tells.
pub assume_specification[ SystemTime::now ]() -> SystemTime;

/// `SystemTime::duration_since` the Unix epoch; it fails on a time before the
/// epoch, and nothing is claimed of the duration.
#[verifier::external_body]
pub(crate) fn since_epoch(time: &SystemTime) -> (r: Result<Duration, SystemTimeError>) {
    time.duration_since(std::time::UNIX_EPOCH)
}

/// A point in time: seconds since the Unix epoch, and nanoseconds on top.
#[derive(Debug, Clone, Copy, PartialEq, Eq)]
pub struct Timestamp {
    pub seconds: i64,
    pub nanoseconds: u32,
}

/// `chrono::Utc::now` reads the clock; nothing is claimed of what it tells. It panics
/// where the machine's clock stands before the Unix epoch.
#[verifier::external_body]
pub(crate) fn utc_now() -> (r: Timestamp) {
    let now = chrono::Utc::now();
    Timestamp { seconds: now.timestamp(), nanoseconds: now.timestamp_subsec_nanos() }
}

/// Whether the clock told a point in time when it was read.
pub closed spec fn told_as_now(timestamp: Timestamp) -> bool {
    call_ensures(utc_now, (), timestamp)
}

/// The clock's time, as it is told when it is read.
pub(crate) fn current_time() -> (r: Timestamp)
    ensures
        told_as_now(r),
{
    utc_now()
}

/// An id made of a time and a number, both in decimal.
pub open spec fn stamped(nanos: nat, number: nat) -> Seq<char> {
    decimal(nanos) + seq!['-'] + decimal(number)
}

/// Whether a text is an id that carries a number, whatever the time in it.
pub open spec fn carries_number(id: Seq<char>, number: nat) -> bool {
    exists|nanos: nat| id == #[trigger] stamped(nanos, number)
}

/// Whether a text is an id made of the time that the clock told, and a number.
pub open spec fn clock_stamped(id: Seq<char>, number: nat) -> bool {
    exists|nanos: nat| #[trigger] told_by_clock(nanos) && id == stamped(nanos, number)
}

/// An id that is stamped with the clock's time carries its number.
pub proof fn clock_stamped_ids_carry_numbers(id: Seq<char>, number: nat)
    requires
        clock_stamped(id, number),
    ensures
        carries_number(id, number),
{
    let nanos = choose|nanos: nat| #[trigger]
        told_by_clock(nanos) && id == stamped(nanos, number);
    assert(id == stamped(nanos, number));
}

/// Makes an id of a time and a number.
pub fn stamp(nanos: u128, number: u64) -> (r: String)
    ensures
        r@ == stamped(nanos as nat, number as nat),
{
    proof {
        reveal_strlit("-");
        assert("-"@ =~= seq!['-']);
    }
    decimal_text(nanos).concat("-").concat(decimal_text(number as u128).as_str())
}

/// The nanoseconds of the time since the Unix epoch; none where the clock stands
/// before it.
pub open spec fn nanos_of(elapsed: Result<Duration, SystemTimeError>) -> nat {
    match elapsed {
        Ok(duration) => duration_nanos(duration),
        Err(_) => 0,
    }
}

/// The nanoseconds of the time since the Unix epoch, given that time or that the
/// clock stands before it.
pub fn elapsed_nanos(elapsed: Result<Duration, SystemTimeError>) -> (r: u128)
    ensures
        r == nanos_of(elapsed),
{
    match elapsed {
        Ok(duration) => duration.as_nanos(),
        Err(_) => 0,
    }
}

/// Whether the clock, when it was read, stood at so many nanoseconds since the Unix
/// epoch, or before the epoch where there are none.
pub closed spec fn told_by_clock(nanos: nat) -> bool {
    exists|now: SystemTime, elapsed: Result<Duration, SystemTimeError>|
        {
            &&& call_ensures(SystemTime::now, (), now)
            &&& #[trigger] call_ensures(since_epoch, (&now,), elapsed)
            &&& nanos == nanos_of(elapsed)
        }
}

/// The nanoseconds since the Unix epoch that the clock tells, or none where it
/// stands before the epoch.
fn clock_nanos() -> (r: u128)
    ensures
        told_by_clock(r as nat),
{
    let now = SystemTime::now();
    let elapsed = since_epoch(&now);
    assert(call_ensures(since_epoch, (&now,), elapsed));
    elapsed_nanos(elapsed)
}

/// Draws a number from a counter, which starts anew after the last number.
fn draw(counter: &mut u64) -> (r: u64)
    ensures
        r == *old(counter),
        *final(counter) == if *old(counter) == u64::MAX {
            0
        } else {
            *old(counter) + 1
        },
{
    let number = *counter;
    *counter = number.wrapping_add(1);
    number
}

/// An id for a request: the time that the clock tells, and a number drawn from the
/// counter.
pub fn next_correlation_id(counter: &mut u64) -> (r: String)
    ensures
        clock_stamped(r@, *old(counter) as nat),
        *final(counter) == if *old(counter) == u64::MAX {
            0
        } else {
            *old(counter) + 1
        },
{
    let nanos = clock_nanos();
    stamp(nanos, draw(counter))
}

/// A suffix for a reply topic: the time that the clock tells, and a number drawn from
/// the counter.
pub fn unique_suffix(counter: &mut u64) -> (r: String)
    ensures
        clock_stamped(r@, *old(counter) as nat),
        *final(counter) == if *old(counter) == u64::MAX {
            0
        } else {
            *old(counter) + 1
        },
{
    let nanos = clock_nanos();
    stamp(nanos, draw(counter))
}

/// Ids that carry different numbers differ, whatever the times in them: so no
/// two ids drawn from one counter are the same before it starts anew.
pub proof fn ids_of_different_numbers_differ(left: Seq<char>, a: nat, right: Seq<char>, b: nat)
    requires
        carries_number(left, a),
        carries_number(right, b),
        a != b,
    ensures
        left != right,
{
    let m = choose|nanos: nat| left == #[trigger] stamped(nanos, a);
    let n = choose|nanos: nat| right == #[trigger] stamped(nanos, b);
    decimal_is_digits(m);
    decimal_is_digits(n);
    if left == right {
        let i = decimal(m).len() as int;
        let j = decimal(n).len() as int;
        assert(left[i] == '-');
        assert(right[j] == '-');
        if i < j {
            assert(right[i] == decimal(n)[i]);
        } else if j < i {
            assert(left[j] == decimal(m)[j]);
        }
        assert(left.skip(i + 1) =~= decimal(a));
        assert(right.skip(j + 1) =~= decimal(b));
        decimal_is_injective(a, b);
    }
}

/// An id is a time, a dash and a number, each as its numeral.
pub proof fn stamp_is_time_and_number(nanos: nat, number: nat)
    ensures
        stamped(nanos, number) == decimal(nanos) + "-"@ + decimal(number),
{
    reveal_strlit("-");
    assert("-"@ =~= seq!['-']);
}

/// An id carries a number exactly if the number's numeral stands in it after the dash.
pub proof fn number_is_read_from_id(id: Seq<char>, number: nat)
    ensures
        carries_number(id, number) <==> exists|nanos: nat|
            id == #[trigger] decimal(nanos) + "-"@ + decimal(number),
{
    assert forall|nanos: nat| #[trigger] stamped(nanos, number) == decimal(nanos) + "-"@ + decimal(
        number,
    ) by {
        stamp_is_time_and_number(nanos, number);
    }
    if exists|nanos: nat| id == #[trigger] decimal(nanos) + "-"@ + decimal(number) {
        let nanos = choose|nanos: nat| id == #[trigger] decimal(nanos) + "-"@ + decimal(number);
        assert(id == stamped(nanos, number));
    }
}

/// An id that is stamped with the clock's time has a time in it that the clock told.
pub proof fn clock_time_is_read_from_id(id: Seq<char>, number: nat) -> (nanos: nat)
    requires
        clock_stamped(id, number),
    ensures
        told_by_clock(nanos),
        id == decimal(nanos) + "-"@ + decimal(number),
{
    let nanos = choose|nanos: nat| #[trigger]
        told_by_clock(nanos) && id == stamped(nanos, number);
    stamp_is_time_and_number(nanos, number);
    nanos
}

/// The time since the epoch counts as its nanoseconds, and a time before it as none.
pub proof fn nanoseconds_of_time(duration: Duration, error: SystemTimeError)
    ensures
        nanos_of(Ok(duration)) == duration_nanos(duration),
        nanos_of(Err(error)) == 0,
{
}

/// What the clock told are the nanoseconds since the epoch of a time that was read, or
/// none where that was before the epoch.
pub(crate) proof fn clock_was_read(nanos: nat) -> (r: (SystemTime, Result<Duration, SystemTimeError>))
    requires
        told_by_clock(nanos),
    ensures
        call_ensures(SystemTime::now, (), r.0),
        call_ensures(since_epoch, (&r.0,), r.1),
        r.1 is Ok ==> nanos == duration_nanos(r.1->Ok_0),
        r.1 is Err ==> nanos == 0,
{
    choose|now: SystemTime, elapsed: Result<Duration, SystemTimeError>|
        {
            &&& call_ensures(SystemTime::now, (), now)
            &&& #[trigger] call_ensures(since_epoch, (&now,), elapsed)
            &&& nanos == nanos_of(elapsed)
        }
}

/// A time that was told as now is one that was read.
pub(crate) proof fn current_time_was_read(timestamp: Timestamp)
    requires
        told_as_now(timestamp),
    ensures
        call_ensures(utc_now, (), timestamp),
{
}

} // verus!
