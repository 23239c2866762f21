//! When a media file was created, and when it was taken as far as its
//! embedded EXIF block says.
use crate::datetime::{
    chrono_date, chrono_offset_west, chrono_time, utc_from_unix_seconds, valid_hms, valid_offset,
    valid_ymd, DateTimeFixed, MAX_UNIX_SECS,
};
use vstd::prelude::*;

verus! {

/// The fields of an EXIF date and time, as the EXIF reader hands them out.
/// `offset` is in minutes west of UTC.
#[derive(Clone, Copy, Debug, PartialEq, Eq, Structural)]
pub struct ExifDateTime {
    pub year: u16,
    pub month: u8,
    pub day: u8,
    pub hour: u8,
    pub minute: u8,
    pub second: u8,
    pub nanosecond: Option<u32>,
    pub offset: Option<i16>,
}

/// The capture-time field of an EXIF block, as found.
#[derive(Clone, Debug)]
pub enum TakenField {
    /// The block has no such field.
    Absent,
    /// The field holds text: one byte string per value.
    Ascii(Vec<Vec<u8>>),
    /// The field is stored in some encoding other than text.
    NonText,
}

/// What a media file tells of its own times.
#[derive(Clone, Copy, Debug, PartialEq, Eq, Structural)]
pub struct Metadata {
    pub date_time_created: DateTimeFixed,
    pub date_time_taken: Option<DateTimeFixed>,
}

/// Why no `Metadata` could be produced for a file.
#[derive(Clone, Debug, PartialEq, Eq)]
pub enum MetadataError {
    /// The file could not be examined.
    Io(String),
    /// The capture-time field is not stored as text.
    UnsupportedFieldEncoding,
    /// The capture-time text does not name a valid date and time.
    InvalidDate(String),
    /// The wall-clock time maps to two instants.
    AmbiguousDate(DateTimeFixed, DateTimeFixed),
}

/// How a wall-clock time maps to instants under a time zone.
#[derive(Clone, Copy, Debug, PartialEq, Eq, Structural)]
pub enum LocalOutcome {
    Single(DateTimeFixed),
    Ambiguous(DateTimeFixed, DateTimeFixed),
    Nonexistent,
}

/// The offset in seconds west of UTC that an EXIF offset stands for.
pub open spec fn west_secs_of(e: ExifDateTime) -> int {
    match e.offset {
        Some(m) => m * 60,
        None => 0,
    }
}

pub open spec fn nanos_of(e: ExifDateTime) -> int {
    match e.nanosecond {
        Some(n) => n as int,
        None => 0,
    }
}

/// The EXIF fields name an existing date, a valid time and an offset of
/// less than a day.
pub open spec fn exif_fields_valid(e: ExifDateTime) -> bool {
    &&& valid_offset(west_secs_of(e))
    &&& valid_ymd(e.year as int, e.month as int, e.day as int)
    &&& valid_hms(e.hour as int, e.minute as int, e.second as int, nanos_of(e))
}

/// The date and time that valid EXIF fields stand for.
pub open spec fn fixed_of(e: ExifDateTime) -> DateTimeFixed {
    DateTimeFixed {
        year: e.year as i32,
        month: e.month as u32,
        day: e.day as u32,
        hour: e.hour as u32,
        minute: e.minute as u32,
        second: e.second as u32,
        nanosecond: nanos_of(e) as u32,
        offset_east_secs: (-west_secs_of(e)) as i32,
    }
}

/// `r` is an `InvalidDate` error that carries `text`.
pub open spec fn is_invalid_date<T>(r: Result<T, MetadataError>, text: Seq<char>) -> bool {
    r matches Err(MetadataError::InvalidDate(t)) && t@ == text
}

/// Text that exif's `DateTime` shows for the given fields.
pub uninterp spec fn exif_display(year: u16, month: u8, day: u8, hour: u8, minute: u8, second: u8) -> Seq<char>;

/// Relies on the `Display` of exif::DateTime: the date and time as text.
#[verifier::external_body]
fn exif_text(e: &ExifDateTime) -> (r: String)
    ensures
        r@ == exif_display(e.year, e.month, e.day, e.hour, e.minute, e.second),
{
    let d = exif::DateTime {
        year: e.year,
        month: e.month,
        day: e.day,
        hour: e.hour,
        minute: e.minute,
        second: e.second,
        nanosecond: e.nanosecond,
        offset: e.offset,
    };
    d.to_string()
}

/// Maps the outcome of placing a wall-clock time in a time zone to a date
/// and time, refusing a time that has no instant or more than one.
pub fn resolve_local(outcome: LocalOutcome, text: String) -> (r: Result<DateTimeFixed, MetadataError>)
    ensures
        outcome matches LocalOutcome::Single(d) ==> r == Ok::<DateTimeFixed, MetadataError>(d),
        outcome matches LocalOutcome::Ambiguous(a, b) ==> r == Err::<DateTimeFixed, MetadataError>(
            MetadataError::AmbiguousDate(a, b),
        ),
        outcome is Nonexistent ==> r == Err::<DateTimeFixed, MetadataError>(
            MetadataError::InvalidDate(text),
        ),
{
    match outcome {
        LocalOutcome::Single(d) => Ok(d),
        LocalOutcome::Ambiguous(a, b) => Err(MetadataError::AmbiguousDate(a, b)),
        LocalOutcome::Nonexistent => Err(MetadataError::InvalidDate(text)),
    }
}

/// The date and time that EXIF fields stand for, with the EXIF offset (in
/// minutes west of UTC, none meaning UTC) as a fixed offset.
pub fn convert_exif_date_time_to_chrono_date_time_fixed_offset(exif_date_time: ExifDateTime) -> (r: Result<DateTimeFixed, MetadataError>)
    ensures
        exif_fields_valid(exif_date_time) ==> r == Ok::<DateTimeFixed, MetadataError>(
            fixed_of(exif_date_time),
        ),
        !exif_fields_valid(exif_date_time) ==> is_invalid_date::<DateTimeFixed>(
            r,
            exif_display(
                exif_date_time.year,
                exif_date_time.month,
                exif_date_time.day,
                exif_date_time.hour,
                exif_date_time.minute,
                exif_date_time.second,
            ),
        ),
{
    let e = exif_date_time;
    let west: i32 = match e.offset {
        Some(m) => m as i32 * 60,
        None => 0,
    };
    let nano: u32 = match e.nanosecond {
        Some(n) => n,
        None => 0,
    };
    let offset = chrono_offset_west(west);
    let date = chrono_date(e.year as i32, e.month as u32, e.day as u32);
    let time = chrono_time(e.hour as u32, e.minute as u32, e.second as u32, nano);
    let outcome = if offset.is_some() && date.is_some() && time.is_some() {
        LocalOutcome::Single(
            DateTimeFixed {
                year: e.year as i32,
                month: e.month as u32,
                day: e.day as u32,
                hour: e.hour as u32,
                minute: e.minute as u32,
                second: e.second as u32,
                nanosecond: nano,
                offset_east_secs: -west,
            },
        )
    } else {
        LocalOutcome::Nonexistent
    };
    let text = exif_text(&e);
    resolve_local(outcome, text)
}

pub open spec fn is_digit(c: u8) -> bool {
    48 <= c <= 57
}

pub open spec fn digits_at(s: Seq<u8>, i: int, n: int) -> bool {
    forall|k: int| i <= k < i + n ==> is_digit(#[trigger] s[k])
}

/// Value of the two decimal digits at `i`.
pub open spec fn num2(s: Seq<u8>, i: int) -> int {
    (s[i] - 48) * 10 + (s[i + 1] - 48)
}

/// Value of the four decimal digits at `i`.
pub open spec fn num4(s: Seq<u8>, i: int) -> int {
    num2(s, i) * 100 + num2(s, i + 2)
}

/// `s` begins with `YYYY:MM:DD HH:MM:SS`, each letter a decimal digit.
pub open spec fn date_text_well_formed(s: Seq<u8>) -> bool {
    &&& s.len() >= 19
    &&& s[4] == 58 && s[7] == 58 && s[10] == 32 && s[13] == 58 && s[16] == 58
    &&& digits_at(s, 0, 4) && digits_at(s, 5, 2) && digits_at(s, 8, 2)
    &&& digits_at(s, 11, 2) && digits_at(s, 14, 2) && digits_at(s, 17, 2)
}

/// The fields that well-formed date text spells, with no fraction and no offset.
pub open spec fn exif_of_text(s: Seq<u8>) -> ExifDateTime {
    ExifDateTime {
        year: num4(s, 0) as u16,
        month: num2(s, 5) as u8,
        day: num2(s, 8) as u8,
        hour: num2(s, 11) as u8,
        minute: num2(s, 14) as u8,
        second: num2(s, 17) as u8,
        nanosecond: None,
        offset: None,
    }
}

/// Relies on exif::DateTime::from_ascii: it reads `YYYY:MM:DD HH:MM:SS` from
/// the first 19 bytes, digits only where digits stand, without judging ranges.
#[verifier::external_body]
fn parse_date_text(data: &[u8]) -> (r: Option<ExifDateTime>)
    ensures
        r.is_some() == date_text_well_formed(data@),
        r matches Some(e) ==> e == exif_of_text(data@),
{
    match exif::DateTime::from_ascii(data) {
        Ok(d) => Some(ExifDateTime {
            year: d.year,
            month: d.month,
            day: d.day,
            hour: d.hour,
            minute: d.minute,
            second: d.second,
            nanosecond: d.nanosecond,
            offset: d.offset,
        }),
        Err(_) => None,
    }
}

/// Text that bytes spell as UTF-8, with malformed sequences replaced.
pub uninterp spec fn lossy_utf8(b: Seq<u8>) -> Seq<char>;

/// Relies on String::from_utf8_lossy: the bytes read as UTF-8 text.
#[verifier::external_body]
fn text_of_bytes(b: &[u8]) -> (r: String)
    ensures
        r@ == lossy_utf8(b@),
{
    String::from_utf8_lossy(b).into_owned()
}

#[verifier::external_type_specification]
#[verifier::external_body]
pub struct ExExif(exif::Exif);

#[verifier::external_type_specification]
#[verifier::external_body]
pub struct ExExifError(exif::Error);

/// Relies on exif::Exif::get_field: the primary image's DateTimeOriginal
/// field, if the block has one, told apart by the encoding of its value.
#[verifier::external_body]
fn date_time_original(exif: &exif::Exif) -> (r: TakenField) {
    match exif.get_field(exif::Tag::DateTimeOriginal, exif::In::PRIMARY) {
        None => TakenField::Absent,
        Some(f) => match &f.value {
            exif::Value::Ascii(v) => TakenField::Ascii(v.clone()),
            _ => TakenField::NonText,
        },
    }
}

/// The text of a text field: its first value, or nothing.
pub open spec fn first_text(v: Seq<Vec<u8>>) -> Seq<u8> {
    if v.len() > 0 {
        v[0]@
    } else {
        Seq::empty()
    }
}

/// The capture-time text names a valid date and time.
pub open spec fn date_text_valid(s: Seq<u8>) -> bool {
    date_text_well_formed(s) && exif_fields_valid(exif_of_text(s))
}

/// `r` is what the capture-time field `field` yields.
pub open spec fn taken_result(field: TakenField, r: Result<Option<DateTimeFixed>, MetadataError>) -> bool {
    match field {
        TakenField::Absent => r == Ok::<Option<DateTimeFixed>, MetadataError>(None),
        TakenField::NonText => r == Err::<Option<DateTimeFixed>, MetadataError>(
            MetadataError::UnsupportedFieldEncoding,
        ),
        TakenField::Ascii(v) => {
            let s = first_text(v@);
            if date_text_valid(s) {
                r == Ok::<Option<DateTimeFixed>, MetadataError>(Some(fixed_of(exif_of_text(s))))
            } else {
                is_invalid_date(r, lossy_utf8(s))
            }
        },
    }
}

/// The capture time that an EXIF field records: none where the field is
/// absent, an error where it is not text or its text is no valid date.
pub fn extract_date_time_exif_field(field: &TakenField) -> (r: Result<Option<DateTimeFixed>, MetadataError>)
    ensures
        taken_result(*field, r),
{
    match field {
        TakenField::Absent => Ok(None),
        TakenField::NonText => Err(MetadataError::UnsupportedFieldEncoding),
        TakenField::Ascii(v) => {
            let empty: Vec<u8> = Vec::new();
            let raw: &[u8] = if v.len() > 0 {
                v[0].as_slice()
            } else {
                empty.as_slice()
            };
            match parse_date_text(raw) {
                Some(e) => match convert_exif_date_time_to_chrono_date_time_fixed_offset(e) {
                    Ok(d) => Ok(Some(d)),
                    Err(_) => Err(MetadataError::InvalidDate(text_of_bytes(raw))),
                },
                None => Err(MetadataError::InvalidDate(text_of_bytes(raw))),
            }
        },
    }
}

/// `r` is what a file yields whose creation time is `ctime` seconds after
/// the epoch and whose capture-time field is `field`.
pub open spec fn metadata_result(ctime: int, field: TakenField, r: Result<Metadata, MetadataError>) -> bool {
    match r {
        Ok(m) => created_at(m.date_time_created, ctime) && taken_result(
            field,
            Ok::<Option<DateTimeFixed>, MetadataError>(m.date_time_taken),
        ),
        Err(e) => taken_result(field, Err::<Option<DateTimeFixed>, MetadataError>(e)),
    }
}

/// `d` is the instant `ctime` seconds after the epoch on a clock at UTC.
pub open spec fn created_at(d: DateTimeFixed, ctime: int) -> bool {
    d.wf() && d.offset_east_secs == 0 && d.nanosecond == 0 && d.unix_seconds() == ctime
}

/// The times of a file whose status last changed `ctime` seconds after the
/// epoch, given what reading its EXIF block gave. A block that could not be
/// read leaves the capture time unknown; a malformed capture-time field is
/// an error.
pub fn read_metadata(ctime: i64, container: Result<exif::Exif, exif::Error>) -> (r: Result<Metadata, MetadataError>)
    requires
        -MAX_UNIX_SECS <= ctime <= MAX_UNIX_SECS,
    ensures
        r matches Ok(m) ==> created_at(m.date_time_created, ctime as int),
        container is Err ==> (r matches Ok(m) && m.date_time_taken is None),
        container is Ok ==> exists|f: TakenField| metadata_result(ctime as int, f, r),
{
    let date_time_created = utc_from_unix_seconds(ctime);
    match container {
        Ok(exif) => {
            let field = date_time_original(&exif);
            let r = match extract_date_time_exif_field(&field) {
                Ok(date_time_taken) => Ok(Metadata { date_time_created, date_time_taken }),
                Err(e) => Err(e),
            };
            assert(metadata_result(ctime as int, field, r));
            r
        },
        Err(_) => Ok(Metadata { date_time_created, date_time_taken: None }),
    }
}

/// The ASCII digit for `n`, a number below ten.
pub open spec fn digit(n: int) -> u8 {
    (48 + n) as u8
}

/// `YYYY:MM:DD HH:MM:SS` for the wall-clock fields of `dt`.
pub open spec fn date_text_of(dt: DateTimeFixed) -> Seq<u8> {
    let y = dt.year as int;
    seq![
        digit(y / 1000), digit(y / 100 % 10), digit(y / 10 % 10), digit(y % 10), 58u8,
        digit(dt.month as int / 10), digit(dt.month as int % 10), 58u8,
        digit(dt.day as int / 10), digit(dt.day as int % 10), 32u8,
        digit(dt.hour as int / 10), digit(dt.hour as int % 10), 58u8,
        digit(dt.minute as int / 10), digit(dt.minute as int % 10), 58u8,
        digit(dt.second as int / 10), digit(dt.second as int % 10),
    ]
}

/// The EXIF offset, in minutes west of UTC, of a fixed offset.
pub open spec fn minutes_west_of(dt: DateTimeFixed) -> i16 {
    (-(dt.offset_east_secs / 60)) as i16
}

proof fn lemma_two_digits(n: int)
    requires
        0 <= n < 100,
    ensures
        (n / 10) * 10 + n % 10 == n,
        0 <= n / 10 < 10,
        0 <= n % 10 < 10,
{
}

proof fn lemma_four_digits(y: int)
    requires
        0 <= y < 10000,
    ensures
        ((y / 1000) * 10 + y / 100 % 10) * 100 + (y / 10 % 10) * 10 + y % 10 == y,
        0 <= y / 1000 < 10,
        0 <= y / 100 % 10 < 10,
        0 <= y / 10 % 10 < 10,
        0 <= y % 10 < 10,
{
    assert(((y / 1000) * 10 + y / 100 % 10) * 100 + (y / 10 % 10) * 10 + y % 10 == y)
        by (nonlinear_arith)
        requires
            0 <= y < 10000,
    ;
}

/// A date and time with a four-digit year, whole seconds and an offset of
/// whole minutes, written as EXIF date text with its offset as minutes west
/// of UTC, reads back as the same wall-clock time, the same offset and so
/// the same instant.
pub proof fn lemma_round_trip(dt: DateTimeFixed)
    requires
        dt.wf(),
        0 <= dt.year <= 9999,
        dt.nanosecond == 0,
        dt.offset_east_secs % 60 == 0,
    ensures
        date_text_well_formed(date_text_of(dt)),
        ({
            let e = ExifDateTime { offset: Some(minutes_west_of(dt)), ..exif_of_text(date_text_of(dt)) };
            &&& exif_fields_valid(e)
            &&& fixed_of(e) == dt
            &&& fixed_of(e).unix_seconds() == dt.unix_seconds()
            &&& fixed_of(e).offset_east_secs == dt.offset_east_secs
        }),
{
    let s = date_text_of(dt);
    lemma_four_digits(dt.year as int);
    lemma_two_digits(dt.month as int);
    lemma_two_digits(dt.day as int);
    lemma_two_digits(dt.hour as int);
    lemma_two_digits(dt.minute as int);
    lemma_two_digits(dt.second as int);
    assert(digits_at(s, 0, 4));
    assert(digits_at(s, 5, 2));
    assert(digits_at(s, 8, 2));
    assert(digits_at(s, 11, 2));
    assert(digits_at(s, 14, 2));
    assert(digits_at(s, 17, 2));
    assert(num4(s, 0) == dt.year);
    assert(num2(s, 5) == dt.month);
    assert(num2(s, 8) == dt.day);
    assert(num2(s, 11) == dt.hour);
    assert(num2(s, 14) == dt.minute);
    assert(num2(s, 17) == dt.second);
    let e = ExifDateTime { offset: Some(minutes_west_of(dt)), ..exif_of_text(s) };
    assert(west_secs_of(e) == -dt.offset_east_secs);
    assert(fixed_of(e) == dt);
}

} // verus!
