//! Instance identifiers and timestamps, obtained from the uuid and chrono
//! crates and held as plain integers.
use vstd::prelude::*;

verus! {

/// The lower-case hexadecimal digit of `n`, below 16.
pub open spec fn hex_digit(n: u128) -> char {
    seq!['0', '1', '2', '3', '4', '5', '6', '7', '8', '9', 'a', 'b', 'c', 'd', 'e', 'f'][n as int]
}

/// The `k`-th of the 32 hexadecimal digits of `id`, most significant first.
pub open spec fn nibble(id: u128, k: int) -> u128 {
    (id >> ((124 - 4 * k) as u128)) & 15u128
}

/// Digits `from` up to `to` of `id`, in hexadecimal.
pub open spec fn hex_run(id: u128, from: int, to: int) -> Seq<char> {
    Seq::new((to - from) as nat, |j: int| hex_digit(nibble(id, from + j)))
}

/// The canonical text of identifier `id`: its 32 lower-case hexadecimal
/// digits, most significant first, in groups of 8, 4, 4, 4 and 12 joined
/// by `-`.
pub open spec fn uuid_text(id: u128) -> Seq<char> {
    hex_run(id, 0, 8) + seq!['-'] + hex_run(id, 8, 12) + seq!['-'] + hex_run(id, 12, 16) + seq![
        '-',
    ] + hex_run(id, 16, 20) + seq!['-'] + hex_run(id, 20, 32)
}

/// The identifier that `s` spells, if it spells one.
pub uninterp spec fn uuid_parsed(s: Seq<char>) -> Option<u128>;

/// Relies on uuid::Uuid::new_v4: a fresh random identifier, read as its
/// 128-bit big-endian value. Nothing is promised of its value.
#[verifier::external_body]
pub(crate) fn fresh_id() -> (r: u128) {
    uuid::Uuid::new_v4().as_u128()
}

/// Relies on uuid::Uuid::from_u128 (the value read big-endian) and its
/// Display impl, which writes the hyphenated lower-case hexadecimal form.
#[verifier::external_body]
pub(crate) fn id_text(id: u128) -> (r: String)
    ensures
        r@ == uuid_text(id),
{
    uuid::Uuid::from_u128(id).to_string()
}

/// Relies on uuid::Uuid::parse_str: the identifier that a string spells, a
/// function of the string alone.
#[verifier::external_body]
pub(crate) fn parse_id(s: &str) -> (r: Option<u128>)
    ensures
        r == uuid_parsed(s@),
{
    uuid::Uuid::parse_str(s).ok().map(|u| u.as_u128())
}

/// Relies on chrono::Utc::now and DateTime::timestamp_micros: the current
/// time as microseconds since the Unix epoch. Nothing is promised of it.
#[verifier::external_body]
pub(crate) fn now_micros() -> (r: i64) {
    chrono::Utc::now().timestamp_micros()
}

/// The `YYYY-MM-DD HH:MM:SS UTC` text of a time given in microseconds since
/// the Unix epoch; `None` for a time outside the calendar's range.
pub uninterp spec fn utc_text(micros: i64) -> Option<Seq<char>>;

/// Relies on chrono::DateTime::from_timestamp_micros and
/// DateTime::format("%Y-%m-%d %H:%M:%S UTC"): the text of a UTC time, a
/// function of the time alone.
#[verifier::external_body]
pub(crate) fn format_utc(micros: i64) -> (r: Option<String>)
    ensures
        match utc_text(micros) {
            Some(t) => r matches Some(s) && s@ == t,
            None => r is None,
        },
{
    chrono::DateTime::<chrono::Utc>::from_timestamp_micros(micros).map(
        |t| t.format("%Y-%m-%d %H:%M:%S UTC").to_string(),
    )
}

} // verus!
