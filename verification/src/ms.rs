use crate::format::{Format, FormatKind};
use crate::format_options::FormatOptions;
use crate::json_text::{dec_nat, render_u64};
use crate::log_info::{LogInfo, LogModel};
use crate::strutil::string_from_chars;
use crate::value::{map_set, vset, ValModel, Value};
use std::time::Instant;
use vstd::prelude::*;
use vstd::rwlock::{RwLock, RwLockPredicate};

verus! {

/// The lock on the stored reading carries no invariant of its own.
pub struct AnyReading;

impl RwLockPredicate<u64> for AnyReading {
    open spec fn inv(self, v: u64) -> bool {
        true
    }
}

#[verifier::external_type_specification]
#[verifier::external_body]
pub struct ExInstant(Instant);

/// Relies on std's Instant::now: an opaque reading of the monotonic clock.
#[verifier::external_body]
fn instant_now() -> (r: Instant) {
    Instant::now()
}

/// Relies on std's Instant::elapsed (the time from the earlier instant to
/// now, zero if the clock did not advance) and Duration::as_millis; the
/// value is capped at u64::MAX.
#[verifier::external_body]
fn elapsed_ms(since: &Instant) -> (r: u64) {
    let ms = since.elapsed().as_millis();
    if ms > u64::MAX as u128 {
        u64::MAX
    } else {
        ms as u64
    }
}

/// The reading that stays behind after a tick: the stored readings never go
/// backwards, whatever the clock reported.
pub open spec fn advance_stored(prev: u64, now: u64) -> u64 {
    if now >= prev {
        now
    } else {
        prev
    }
}

/// One elapsed-time state: a fixed base instant and, behind a lock, the
/// clock reading (in milliseconds since the base) stored by the previous
/// call. Each timer owns its state; independent timers do not interfere.
pub struct ElapsedTimer {
    base: Instant,
    prev: RwLock<u64, AnyReading>,
}

impl ElapsedTimer {
    pub fn new() -> (r: Self) {
        ElapsedTimer { base: instant_now(), prev: RwLock::new(0, Ghost(AnyReading)) }
    }

    /// The state update a tick makes, from the stored reading and the fresh
    /// one: the new stored reading never lies below the old one, and the
    /// reported difference is exactly their gap.
    pub fn advance(prev: u64, now: u64) -> (r: (u64, u64))
        ensures
            r.0 == advance_stored(prev, now),
            r.0 >= prev,
            r.0 >= now,
            r.1 == r.0 - prev,
    {
        if now >= prev {
            (now, now - prev)
        } else {
            (prev, 0)
        }
    }

    /// Reads the clock, reports the milliseconds since the previous call, and
    /// stores the new reading; the read-compute-store step holds the lock, so
    /// concurrent calls cannot lose an update.
    pub fn tick(&self) -> (d: u64) {
        let now = elapsed_ms(&self.base);
        let (prev, handle) = self.prev.acquire_write();
        let (stored, d) = Self::advance(prev, now);
        handle.release_write(stored);
        d
    }
}

/// The text the ms formatter writes: `+<millis>ms`.
pub open spec fn ms_text(d: nat) -> Seq<char> {
    seq!['+'] + dec_nat(d) + seq!['m', 's']
}

/// What the ms formatter does: some measured number of milliseconds is
/// written under the `ms` metadata key; level and message stay.
pub open spec fn ms_possible(m: LogModel, out: Option<LogModel>) -> bool {
    out matches Some(o) && {
        &&& o.level == m.level
        &&& o.message == m.message
        &&& exists|d: nat| o.meta == vset(m.meta, "ms"@, ValModel::Str(ms_text(d)))
    }
}

pub(crate) fn apply_ms(info: LogInfo, timer: &ElapsedTimer) -> (r: LogInfo)
    ensures
        ms_possible(info@, Some(r@)),
{
    let d = timer.tick();
    let ghost gd = d as nat;
    let mut text: Vec<char> = Vec::new();
    text.push('+');
    let mut digits = render_u64(d);
    text.append(&mut digits);
    text.push('m');
    text.push('s');
    proof {
        assert(text@ =~= ms_text(gd));
    }
    let val = Value::Str(string_from_chars(&text));
    let mut s = info;
    map_set(&mut s.meta, String::from_str("ms"), val);
    proof {
        assert(s@.meta == vset(info@.meta, "ms"@, ValModel::Str(ms_text(gd))));
    }
    s
}

/// A formatter that writes the milliseconds since its previous call into the
/// `ms` metadata key, keeping that state behind a lock of its own.
pub fn ms() -> (f: Format)
    ensures
        f.kind is Ms,
        f.options@ == Seq::<(Seq<char>, ValModel)>::empty(),
{
    Format { kind: FormatKind::Ms(ElapsedTimer::new()), options: FormatOptions::new() }
}

} // verus!
