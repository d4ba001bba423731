use vstd::prelude::*;

verus! {

/// Milliseconds of the current moment, since the Unix epoch.
/// Relies on chrono::Utc::now and chrono::DateTime::timestamp_millis; of a
/// clock reading nothing further can be promised.
#[verifier::external_body]
fn now_ms() -> i64 {
    chrono::Utc::now().timestamp_millis()
}

/// The moment `delay_secs` after `now`, in milliseconds, saturating at the
/// largest representable moment.
pub open spec fn from_now_spec(now: int, delay_secs: int) -> int {
    if now + delay_secs * 1000 > i64::MAX as int {
        i64::MAX as int
    } else {
        now + delay_secs * 1000
    }
}

/// Adds a delay in seconds to a clock reading in milliseconds, saturating at
/// the largest representable moment. Clock readings are non-negative: they
/// count milliseconds since the epoch.
pub fn from_now(now: i64, delay_secs: u64) -> (r: i64)
    requires
        now >= 0,
    ensures
        r as int == from_now_spec(now as int, delay_secs as int),
{
    match delay_secs.checked_mul(1000) {
        None => i64::MAX,
        Some(m) => {
            if m > i64::MAX as u64 {
                i64::MAX
            } else {
                match now.checked_add(m as i64) {
                    Some(s) => s,
                    None => i64::MAX,
                }
            }
        }
    }
}

/// The moment `delay_secs` from now, in epoch milliseconds: what the driver
/// stores as a job's `scheduled_for` when a sleep or a retry delays it.
pub fn schedule_from_now(delay_secs: u64) -> (r: i64)
    ensures
        r >= 0,
{
    let n: i64 = now_ms();
    let n: i64 = if n < 0 {
        0
    } else {
        n
    };
    from_now(n, delay_secs)
}

} // verus!
