use vstd::prelude::*;

verus! {

/// Number of 100-nanosecond ticks in one second.
pub const TICKS_PER_SECOND: u64 = 10_000_000;

/// Filetime of 1970-01-01T00:00:00Z: the ticks between 1601-01-01 and the Unix epoch.
pub const UNIX_EPOCH_FILETIME: u64 = 116_444_736_000_000_000;

/// An instant read from a filetime field: 100-nanosecond ticks since
/// 1601-01-01T00:00:00Z. A field that holds zero is absent and has no
/// `Timestamp` (see `Timestamp::from_filetime`).
#[derive(Clone, Copy, Debug, PartialEq, Eq, Structural)]
pub struct Timestamp {
    pub filetime: u64,
}

/// Ticks between the Unix epoch and the instant (negative before 1970).
pub open spec fn ticks_since_unix_epoch(filetime: u64) -> int {
    filetime as int - UNIX_EPOCH_FILETIME as int
}

/// Whole seconds since the Unix epoch, rounded towards negative infinity.
pub open spec fn unix_seconds_of(filetime: u64) -> int {
    ticks_since_unix_epoch(filetime) / (TICKS_PER_SECOND as int)
}

/// Nanoseconds past `unix_seconds_of(filetime)`.
pub open spec fn subsec_nanos_of(filetime: u64) -> int {
    (ticks_since_unix_epoch(filetime) % (TICKS_PER_SECOND as int)) * 100
}

impl Timestamp {
    /// Decodes a filetime field: zero means that the field is absent.
    pub fn from_filetime(filetime: u64) -> (r: Option<Timestamp>)
        ensures
            filetime == 0 <==> r is None,
            r matches Some(t) ==> t.filetime == filetime,
    {
        if filetime == 0 {
            None
        } else {
            Some(Timestamp { filetime })
        }
    }

    /// Whole seconds since 1970-01-01T00:00:00Z, rounded down.
    pub fn unix_seconds(&self) -> (r: i64)
        ensures
            r as int == unix_seconds_of(self.filetime),
    {
        let ft = self.filetime;
        if ft >= UNIX_EPOCH_FILETIME {
            let d: u64 = ft - UNIX_EPOCH_FILETIME;
            let q: u64 = d / TICKS_PER_SECOND;
            assert(q <= 1_844_674_407_371) by (nonlinear_arith)
                requires q == d / 10_000_000, d <= u64::MAX;
            q as i64
        } else {
            let d: u64 = UNIX_EPOCH_FILETIME - ft;
            let q: u64 = d / TICKS_PER_SECOND;
            let rem: u64 = d % TICKS_PER_SECOND;
            proof { lemma_floor_below_epoch(d as int, q as int, rem as int); }
            if rem == 0 {
                -(q as i64)
            } else {
                -(q as i64) - 1
            }
        }
    }

    /// Nanoseconds past `unix_seconds`, in `0..1_000_000_000`.
    pub fn subsec_nanos(&self) -> (r: u32)
        ensures
            r as int == subsec_nanos_of(self.filetime),
            r < 1_000_000_000,
    {
        let ft = self.filetime;
        if ft >= UNIX_EPOCH_FILETIME {
            let d: u64 = ft - UNIX_EPOCH_FILETIME;
            let rem: u64 = d % TICKS_PER_SECOND;
            (rem * 100) as u32
        } else {
            let d: u64 = UNIX_EPOCH_FILETIME - ft;
            let q: u64 = d / TICKS_PER_SECOND;
            let rem: u64 = d % TICKS_PER_SECOND;
            proof { lemma_floor_below_epoch(d as int, q as int, rem as int); }
            if rem == 0 {
                0
            } else {
                ((TICKS_PER_SECOND - rem) * 100) as u32
            }
        }
    }
}

/// Floor division of a negative tick count `-d`, from the division of `d`.
proof fn lemma_floor_below_epoch(d: int, q: int, rem: int)
    requires
        d > 0,
        q == d / 10_000_000,
        rem == d % 10_000_000,
    ensures
        rem == 0 ==> (-d) / 10_000_000 == -q && (-d) % 10_000_000 == 0,
        rem != 0 ==> (-d) / 10_000_000 == -q - 1 && (-d) % 10_000_000 == 10_000_000 - rem,
{
    vstd::arithmetic::div_mod::lemma_fundamental_div_mod(d, 10_000_000);
    if rem == 0 {
        vstd::arithmetic::div_mod::lemma_fundamental_div_mod_converse(-d, 10_000_000, -q, 0);
    } else {
        vstd::arithmetic::div_mod::lemma_fundamental_div_mod_converse(-d, 10_000_000, -q - 1, 10_000_000 - rem);
    }
}

} // verus!
