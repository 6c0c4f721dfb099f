//! Spans of time.
use vstd::prelude::*;

verus! {

/// Nanoseconds in one second.
pub const NANOS_PER_SEC: u32 = 1_000_000_000;

/// Nanoseconds in one millisecond.
pub const NANOS_PER_MILLI: u32 = 1_000_000;

/// The longest span in nanoseconds: `u64::MAX` seconds and 999,999,999
/// nanoseconds.
pub const MAX_NANOS: u128 = 18_446_744_073_709_551_615_999_999_999;

/// A span of time with nanosecond resolution, up to [`MAX_NANOS`].
///
/// The view of a span is its length in nanoseconds.
#[derive(Clone, Copy, Debug, PartialEq, Eq, Hash, Structural)]
pub struct Duration {
    nanos: u128,
}

impl View for Duration {
    type V = nat;

    closed spec fn view(&self) -> nat {
        self.nanos as nat
    }
}

impl Duration {
    #[verifier::type_invariant]
    spec fn well_formed(self) -> bool {
        self.nanos <= MAX_NANOS
    }

    /// A span of `secs` seconds and `nanos` nanoseconds; nanoseconds beyond a
    /// second carry over.
    pub fn new(secs: u64, nanos: u32) -> (d: Duration)
        requires
            secs * NANOS_PER_SEC + nanos <= MAX_NANOS,
        ensures
            d@ == secs * NANOS_PER_SEC + nanos,
    {
        Duration { nanos: secs as u128 * 1_000_000_000u128 + nanos as u128 }
    }

    /// A span of `secs` whole seconds.
    pub fn from_secs(secs: u64) -> (d: Duration)
        ensures
            d@ == secs * NANOS_PER_SEC,
    {
        Duration { nanos: secs as u128 * 1_000_000_000u128 }
    }

    /// A span of `millis` milliseconds.
    pub fn from_millis(millis: u64) -> (d: Duration)
        ensures
            d@ == millis * NANOS_PER_MILLI,
    {
        Duration { nanos: millis as u128 * 1_000_000u128 }
    }

    /// The whole seconds in the span.
    pub fn as_secs(&self) -> (secs: u64)
        ensures
            secs == self@ / (NANOS_PER_SEC as nat),
    {
        proof {
            use_type_invariant(self);
        }
        (self.nanos / 1_000_000_000u128) as u64
    }

    /// The nanoseconds in the span beyond its whole seconds.
    pub fn subsec_nanos(&self) -> (nanos: u32)
        ensures
            nanos == self@ % (NANOS_PER_SEC as nat),
            nanos < NANOS_PER_SEC,
    {
        (self.nanos % 1_000_000_000u128) as u32
    }

    /// The length of the span in nanoseconds.
    pub fn as_nanos(&self) -> (nanos: u128)
        ensures
            nanos == self@,
            nanos <= MAX_NANOS,
    {
        proof {
            use_type_invariant(self);
        }
        self.nanos
    }

    /// Whether the span is empty.
    pub fn is_zero(&self) -> (zero: bool)
        ensures
            zero == (self@ == 0),
    {
        self.nanos == 0
    }
}

/// Two spans are equal exactly if they are equally long.
pub proof fn law_equal_length_is_equality(a: Duration, b: Duration)
    ensures
        a == b <==> a@ == b@,
{
}

/// The text that `{:?}` gives for a `std::time::Duration` of `nanos`
/// nanoseconds, such as `100ms` or `5s`.
pub uninterp spec fn debug_display(nanos: nat) -> Seq<char>;

/// The text that `{}` gives for the number of seconds in a
/// `std::time::Duration` of `nanos` nanoseconds, such as `0.003` or `3`.
pub uninterp spec fn seconds_display(nanos: nat) -> Seq<char>;

/// Calls `Debug` of `std::time::Duration` on a span of `secs` seconds and
/// `nanos` nanoseconds. The contract claims only that the text depends on
/// nothing but the length of the span; it leaves unsaid how the text is made up.
#[verifier::external_body]
fn std_debug(secs: u64, nanos: u32) -> (s: String)
    requires
        nanos < NANOS_PER_SEC,
    ensures
        s@ == debug_display((secs * NANOS_PER_SEC + nanos) as nat),
{
    format!("{:?}", std::time::Duration::new(secs, nanos))
}

/// Calls `std::time::Duration::as_secs_f64` on a span of `secs` seconds and
/// `nanos` nanoseconds and displays the number. The contract claims only that
/// the text depends on nothing but the length of the span; it leaves unsaid how
/// the number is rounded and written.
#[verifier::external_body]
fn std_seconds(secs: u64, nanos: u32) -> (s: String)
    requires
        nanos < NANOS_PER_SEC,
    ensures
        s@ == seconds_display((secs * NANOS_PER_SEC + nanos) as nat),
{
    format!("{}", std::time::Duration::new(secs, nanos).as_secs_f64())
}

/// The span as `Debug` of `std::time::Duration` writes it.
pub(crate) fn debug_text(d: &Duration) -> (s: String)
    ensures
        s@ == debug_display(d@),
{
    std_debug(d.as_secs(), d.subsec_nanos())
}

/// The span in seconds, as a number.
pub(crate) fn seconds_text(d: &Duration) -> (s: String)
    ensures
        s@ == seconds_display(d@),
{
    std_seconds(d.as_secs(), d.subsec_nanos())
}

} // verus!
