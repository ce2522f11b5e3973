//! The directory-listing formatter: one filesystem entry in, one
//! fixed-format text line out, written in the long Unix listing style.

use vstd::prelude::*;
use vstd::string::StringSliceAdditionalSpecFns;
use vstd::string::StrSliceExecFns;
use crate::response::{dec_digits, push_bytes, push_str_bytes, u64_to_dec};

verus! {

/// What the listing needs to know of one directory entry: plain values
/// read from its metadata, and its bare name.
pub struct EntryMeta {
    pub is_dir: bool,
    pub readonly: bool,
    pub size: u64,
    pub mtime: i64,
    pub name: Vec<u8>,
}

/// The calendar fields (month, day, hour, minute) of a Unix timestamp in
/// UTC, when the timestamp lies in the supported range.
pub uninterp spec fn civil_of(ts: i64) -> Option<(u8, u8, u8, u8)>;

/// Relies on `time::OffsetDateTime::from_unix_timestamp` and its
/// `month`, `day`, `hour` and `minute` accessors: the calendar fields of
/// a Unix timestamp, in UTC, a function of the timestamp alone. The
/// documented ranges are months 1..=12, days 1..=31, hours below 24 and
/// minutes below 60; out-of-range timestamps are reported as errors.
#[verifier::external_body]
fn civil_time(ts: i64) -> (r: Option<(u8, u8, u8, u8)>)
    ensures
        r == civil_of(ts),
        r matches Some(c) ==> 1 <= c.0 <= 12 && 1 <= c.1 <= 31 && c.2 < 24 && c.3 < 60,
{
    match time::OffsetDateTime::from_unix_timestamp(ts) {
        Ok(t) => Some((t.month() as u8, t.day(), t.hour(), t.minute())),
        Err(_) => None,
    }
}

/// The English name of month `m`.
pub open spec fn month_name_bytes(m: u8) -> Seq<u8> {
    if m == 1 {
        "January".spec_bytes()
    } else if m == 2 {
        "February".spec_bytes()
    } else if m == 3 {
        "March".spec_bytes()
    } else if m == 4 {
        "April".spec_bytes()
    } else if m == 5 {
        "May".spec_bytes()
    } else if m == 6 {
        "June".spec_bytes()
    } else if m == 7 {
        "July".spec_bytes()
    } else if m == 8 {
        "August".spec_bytes()
    } else if m == 9 {
        "September".spec_bytes()
    } else if m == 10 {
        "October".spec_bytes()
    } else if m == 11 {
        "November".spec_bytes()
    } else {
        "December".spec_bytes()
    }
}

/// The English name of month `m`.
pub fn month_name(m: u8) -> (r: Vec<u8>)
    requires
        1 <= m <= 12,
    ensures
        r@ == month_name_bytes(m),
{
    if m == 1 {
        "January".as_bytes_vec()
    } else if m == 2 {
        "February".as_bytes_vec()
    } else if m == 3 {
        "March".as_bytes_vec()
    } else if m == 4 {
        "April".as_bytes_vec()
    } else if m == 5 {
        "May".as_bytes_vec()
    } else if m == 6 {
        "June".as_bytes_vec()
    } else if m == 7 {
        "July".as_bytes_vec()
    } else if m == 8 {
        "August".as_bytes_vec()
    } else if m == 9 {
        "September".as_bytes_vec()
    } else if m == 10 {
        "October".as_bytes_vec()
    } else if m == 11 {
        "November".as_bytes_vec()
    } else {
        "December".as_bytes_vec()
    }
}

/// One line of a listing: type flag, a fixed rights triplet, a constant
/// link count and owner/group, the byte size, the modification date, the
/// bare name, and a trailing separator for directories.
pub open spec fn listing_line(
    is_dir: bool,
    readonly: bool,
    size: u64,
    c: (u8, u8, u8, u8),
    name: Seq<u8>,
) -> Seq<u8> {
    (if is_dir {
        "d".spec_bytes()
    } else {
        "-".spec_bytes()
    }) + (if readonly {
        "r--r--r--".spec_bytes()
    } else {
        "rw-rw-rw-".spec_bytes()
    }) + " 1 anonymous anonymous ".spec_bytes() + dec_digits(size as nat) + " ".spec_bytes()
        + month_name_bytes(c.0) + " ".spec_bytes() + dec_digits(c.1 as nat) + " ".spec_bytes()
        + dec_digits(c.2 as nat) + ":".spec_bytes() + dec_digits(c.3 as nat) + " ".spec_bytes()
        + name + (if is_dir {
        "/".spec_bytes()
    } else {
        Seq::<u8>::empty()
    }) + "\r\n".spec_bytes()
}

/// Append the listing line for one entry to `out`. An entry whose
/// modification time has no calendar form is skipped, so one bad entry
/// never aborts a listing.
#[verifier::rlimit(60)]
pub fn add_file_info(entry: &EntryMeta, out: &mut Vec<u8>)
    ensures
        match civil_of(entry.mtime) {
            None => final(out)@ == old(out)@,
            Some(c) => final(out)@ == old(out)@ + listing_line(
                entry.is_dir,
                entry.readonly,
                entry.size,
                c,
                entry.name@,
            ),
        },
{
    let c = match civil_time(entry.mtime) {
        Some(c) => c,
        None => {
            return ;
        },
    };
    let (month, day, hour, minute) = c;
    if entry.is_dir {
        push_str_bytes(out, "d");
    } else {
        push_str_bytes(out, "-");
    }
    if entry.readonly {
        push_str_bytes(out, "r--r--r--");
    } else {
        push_str_bytes(out, "rw-rw-rw-");
    }
    push_str_bytes(out, " 1 anonymous anonymous ");
    let mut d = u64_to_dec(entry.size);
    out.append(&mut d);
    push_str_bytes(out, " ");
    let mut m = month_name(month);
    out.append(&mut m);
    push_str_bytes(out, " ");
    let mut d = u64_to_dec(day as u64);
    out.append(&mut d);
    push_str_bytes(out, " ");
    let mut d = u64_to_dec(hour as u64);
    out.append(&mut d);
    push_str_bytes(out, ":");
    let mut d = u64_to_dec(minute as u64);
    out.append(&mut d);
    push_str_bytes(out, " ");
    push_bytes(out, &entry.name);
    if entry.is_dir {
        push_str_bytes(out, "/");
    }
    push_str_bytes(out, "\r\n");
    proof {
        assert(out@ =~= old(out)@ + listing_line(
            entry.is_dir,
            entry.readonly,
            entry.size,
            (month, day, hour, minute),
            entry.name@,
        ));
    }
}

} // verus!
