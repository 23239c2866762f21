use chrono::TimeZone;
use dalia::datetime::{utc_from_unix_seconds, DateTimeFixed};
use dalia::metadata::{
    convert_exif_date_time_to_chrono_date_time_fixed_offset, extract_date_time_exif_field,
    read_metadata, resolve_local, ExifDateTime, LocalOutcome, MetadataError, TakenField,
};

fn render(d: &DateTimeFixed) -> String {
    chrono::FixedOffset::east_opt(d.offset_east_secs)
        .unwrap()
        .with_ymd_and_hms(d.year, d.month, d.day, d.hour, d.minute, d.second)
        .unwrap()
        .to_string()
}

fn exif_fields(year: u16, month: u8, day: u8, offset: Option<i16>) -> ExifDateTime {
    ExifDateTime {
        year,
        month,
        day,
        hour: 13,
        minute: 11,
        second: 51,
        nanosecond: None,
        offset,
    }
}

/// A big-endian TIFF block whose Exif IFD holds one DateTimeOriginal entry
/// of the given type, count and inline value or offset.
fn tiff_with_entry(typ: u16, count: u32, value: [u8; 4], tail: &[u8]) -> Vec<u8> {
    let mut t: Vec<u8> = vec![b'M', b'M', 0, 42, 0, 0, 0, 8];
    t.extend_from_slice(&[0, 1, 0x87, 0x69, 0, 4, 0, 0, 0, 1, 0, 0, 0, 26, 0, 0, 0, 0]);
    t.extend_from_slice(&[0, 1, 0x90, 0x03]);
    t.extend_from_slice(&typ.to_be_bytes());
    t.extend_from_slice(&count.to_be_bytes());
    t.extend_from_slice(&value);
    t.extend_from_slice(&[0, 0, 0, 0]);
    t.extend_from_slice(tail);
    t
}

fn jpeg_with_capture_time(text: &[u8]) -> Vec<u8> {
    let mut tail = text.to_vec();
    tail.push(0);
    let tiff = tiff_with_entry(2, tail.len() as u32, [0, 0, 0, 44], &tail);
    let mut j: Vec<u8> = vec![0xFF, 0xD8, 0xFF, 0xE1];
    j.extend_from_slice(&((tiff.len() + 8) as u16).to_be_bytes());
    j.extend_from_slice(b"Exif\0\0");
    j.extend_from_slice(&tiff);
    j.extend_from_slice(&[0xFF, 0xD9]);
    j
}

fn container(bytes: &[u8]) -> Result<exif::Exif, exif::Error> {
    exif::Reader::new().read_from_container(&mut std::io::Cursor::new(bytes.to_vec()))
}

#[test]
fn test_date_time_convert() {
    let exif_date_time = ExifDateTime {
        year: 2019,
        month: 2,
        day: 10,
        hour: 13,
        minute: 11,
        second: 51,
        nanosecond: None,
        offset: None,
    };
    let chrono_datetime = convert_exif_date_time_to_chrono_date_time_fixed_offset(exif_date_time);
    assert_eq!(render(&chrono_datetime.unwrap()), "2019-02-10 13:11:51 +00:00".to_string());
}

#[test]
fn convert_keeps_fields() {
    let d = convert_exif_date_time_to_chrono_date_time_fixed_offset(exif_fields(2019, 2, 10, None))
        .unwrap();
    assert_eq!(
        d,
        DateTimeFixed {
            year: 2019,
            month: 2,
            day: 10,
            hour: 13,
            minute: 11,
            second: 51,
            nanosecond: 0,
            offset_east_secs: 0
        }
    );
}

#[test]
fn convert_offset_is_minutes_west() {
    let d = convert_exif_date_time_to_chrono_date_time_fixed_offset(exif_fields(2019, 2, 10, Some(60)))
        .unwrap();
    assert_eq!(d.offset_east_secs, -3600);
    assert_eq!(render(&d), "2019-02-10 13:11:51 -01:00");
    let d = convert_exif_date_time_to_chrono_date_time_fixed_offset(exif_fields(2019, 2, 10, Some(-150)))
        .unwrap();
    assert_eq!(d.offset_east_secs, 9000);
    assert_eq!(render(&d), "2019-02-10 13:11:51 +02:30");
}

#[test]
fn convert_keeps_nanoseconds() {
    let mut e = exif_fields(2019, 2, 10, None);
    e.nanosecond = Some(250_000_000);
    let d = convert_exif_date_time_to_chrono_date_time_fixed_offset(e).unwrap();
    assert_eq!(d.nanosecond, 250_000_000);
}

#[test]
fn convert_rejects_invalid_dates() {
    let r = convert_exif_date_time_to_chrono_date_time_fixed_offset(exif_fields(2019, 13, 10, None));
    assert_eq!(r, Err(MetadataError::InvalidDate("2019-13-10 13:11:51".to_string())));
    let r = convert_exif_date_time_to_chrono_date_time_fixed_offset(exif_fields(2019, 2, 29, None));
    assert_eq!(r, Err(MetadataError::InvalidDate("2019-02-29 13:11:51".to_string())));
    assert!(convert_exif_date_time_to_chrono_date_time_fixed_offset(exif_fields(2020, 2, 29, None)).is_ok());
    let mut e = exif_fields(2019, 2, 10, None);
    e.hour = 24;
    assert!(matches!(
        convert_exif_date_time_to_chrono_date_time_fixed_offset(e),
        Err(MetadataError::InvalidDate(_))
    ));
}

#[test]
fn convert_rejects_offset_of_a_day() {
    let r = convert_exif_date_time_to_chrono_date_time_fixed_offset(exif_fields(2019, 2, 10, Some(1440)));
    assert!(matches!(r, Err(MetadataError::InvalidDate(_))));
    let r = convert_exif_date_time_to_chrono_date_time_fixed_offset(exif_fields(2019, 2, 10, Some(1439)));
    assert_eq!(r.unwrap().offset_east_secs, -86340);
}

#[test]
fn round_trip_keeps_offset_and_instant() {
    let original = DateTimeFixed {
        year: 2021,
        month: 7,
        day: 4,
        hour: 9,
        minute: 5,
        second: 7,
        nanosecond: 0,
        offset_east_secs: -5 * 3600,
    };
    let text = format!(
        "{:04}:{:02}:{:02} {:02}:{:02}:{:02}",
        original.year, original.month, original.day, original.hour, original.minute, original.second
    );
    let field = TakenField::Ascii(vec![text.into_bytes()]);
    let parsed = extract_date_time_exif_field(&field).unwrap().unwrap();
    let mut e = ExifDateTime {
        year: parsed.year as u16,
        month: parsed.month as u8,
        day: parsed.day as u8,
        hour: parsed.hour as u8,
        minute: parsed.minute as u8,
        second: parsed.second as u8,
        nanosecond: None,
        offset: None,
    };
    e.offset = Some(300);
    let back = convert_exif_date_time_to_chrono_date_time_fixed_offset(e).unwrap();
    assert_eq!(back, original);
    assert_eq!(render(&back), "2021-07-04 09:05:07 -05:00");
}

#[test]
fn ambiguous_local_time_keeps_both_candidates() {
    let a = utc_from_unix_seconds(1_000);
    let b = utc_from_unix_seconds(4_600);
    let r = resolve_local(LocalOutcome::Ambiguous(a, b), "x".to_string());
    assert_eq!(r, Err(MetadataError::AmbiguousDate(a, b)));
    let r = resolve_local(LocalOutcome::Single(a), "x".to_string());
    assert_eq!(r, Ok(a));
    let r = resolve_local(LocalOutcome::Nonexistent, "x".to_string());
    assert_eq!(r, Err(MetadataError::InvalidDate("x".to_string())));
}

#[test]
fn field_absent_gives_no_capture_time() {
    assert_eq!(extract_date_time_exif_field(&TakenField::Absent), Ok(None));
}

#[test]
fn field_not_text_is_unsupported() {
    assert_eq!(
        extract_date_time_exif_field(&TakenField::NonText),
        Err(MetadataError::UnsupportedFieldEncoding)
    );
}

#[test]
fn field_text_is_parsed() {
    let field = TakenField::Ascii(vec![b"2019:02:10 13:11:51".to_vec()]);
    let d = extract_date_time_exif_field(&field).unwrap().unwrap();
    assert_eq!(render(&d), "2019-02-10 13:11:51 +00:00");
}

#[test]
fn malformed_field_text_is_invalid() {
    let field = TakenField::Ascii(vec![b"2019-02-10 13:11:51".to_vec()]);
    assert_eq!(
        extract_date_time_exif_field(&field),
        Err(MetadataError::InvalidDate("2019-02-10 13:11:51".to_string()))
    );
    let field = TakenField::Ascii(vec![b"    :  :     :  :  ".to_vec()]);
    assert_eq!(
        extract_date_time_exif_field(&field),
        Err(MetadataError::InvalidDate("    :  :     :  :  ".to_string()))
    );
    let field = TakenField::Ascii(vec![b"2019:02:30 13:11:51".to_vec()]);
    assert_eq!(
        extract_date_time_exif_field(&field),
        Err(MetadataError::InvalidDate("2019:02:30 13:11:51".to_string()))
    );
    let field = TakenField::Ascii(vec![]);
    assert_eq!(extract_date_time_exif_field(&field), Err(MetadataError::InvalidDate(String::new())));
}

#[test]
fn created_is_utc_from_status_change_time() {
    let d = utc_from_unix_seconds(0);
    assert_eq!(render(&d), "1970-01-01 00:00:00 +00:00");
    let d = utc_from_unix_seconds(1_549_804_311);
    assert_eq!(render(&d), "2019-02-10 13:11:51 +00:00");
    let d = utc_from_unix_seconds(-1);
    assert_eq!(render(&d), "1969-12-31 23:59:59 +00:00");
}

#[test]
fn missing_container_leaves_capture_time_unknown() {
    let m = read_metadata(1_549_804_311, container(b"plain text, no metadata")).unwrap();
    assert_eq!(m.date_time_taken, None);
    assert_eq!(render(&m.date_time_created), "2019-02-10 13:11:51 +00:00");
}

#[test]
fn container_without_field_leaves_capture_time_unknown() {
    // An Exif IFD whose one entry is some other tag (ExposureTime).
    let mut tiff = tiff_with_entry(3, 1, [0, 7, 0, 0], &[]);
    tiff[28] = 0x82;
    tiff[29] = 0x9a;
    let exif = exif::Reader::new().read_raw(tiff);
    assert!(exif.is_ok());
    let m = read_metadata(0, exif).unwrap();
    assert_eq!(m.date_time_taken, None);
}

#[test]
fn container_with_numeric_field_is_unsupported() {
    let tiff = tiff_with_entry(3, 1, [0, 7, 0, 0], &[]);
    let r = read_metadata(0, exif::Reader::new().read_raw(tiff));
    assert_eq!(r, Err(MetadataError::UnsupportedFieldEncoding));
}

#[test]
fn container_with_capture_time_gives_it() {
    let jpeg = jpeg_with_capture_time(b"2019:02:10 13:11:51");
    let m = read_metadata(10, container(&jpeg)).unwrap();
    assert_eq!(render(&m.date_time_taken.unwrap()), "2019-02-10 13:11:51 +00:00");
    assert_eq!(render(&m.date_time_created), "1970-01-01 00:00:10 +00:00");
}

#[test]
fn container_with_malformed_capture_time_is_invalid() {
    let jpeg = jpeg_with_capture_time(b"2019:02:10 25:11:51");
    let r = read_metadata(10, container(&jpeg));
    assert_eq!(r, Err(MetadataError::InvalidDate("2019:02:10 25:11:51".to_string())));
}
