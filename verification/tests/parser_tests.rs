use logstamp::ChronoDateTimeParser;
use logstamp::DateTimeParser;

#[test]
fn can_handle_time_and_date_being_the_only_text() {
    let line = "10/Sep/2016:18:35:47 +0200";
    let parser = ChronoDateTimeParser::new("%d:%t").unwrap();
    let timestamp = parser.parse_datetime(line);
    assert!(timestamp.is_ok());
}

#[test]
fn can_handle_static_text_before_the_formatters() {
    let line = "some static text before 10/Sep/2016:18:35:47 +0200";
    let parser = ChronoDateTimeParser::new("some static text before %d:%t").unwrap();
    let timestamp = parser.parse_datetime(line);
    assert!(timestamp.is_ok());
}

#[test]
fn can_handle_static_text_after_the_formatters() {
    let line = "10/Sep/2016:18:35:47 +0200 some static text";
    let parser = ChronoDateTimeParser::new("%d:%t some static text").unwrap();
    let timestamp = parser.parse_datetime(line);
    assert!(timestamp.is_ok());
}

#[test]
fn has_proper_time_when_time_before_date() {
    let parser = ChronoDateTimeParser::new("%t:%d").unwrap();
    let line = "18:35:47 +0200:10/Sep/2016";
    let timestamp = parser.parse_datetime(line).unwrap();
    assert_eq!((timestamp.hour, timestamp.minute, timestamp.second), (18, 35, 47));
}

#[test]
fn does_not_fail_with_time_and_date_formats() {
    let parser = ChronoDateTimeParser::new("%t:%d");
    assert!(parser.is_some());
}

#[test]
fn fails_without_time_format() {
    let parser = ChronoDateTimeParser::new("%d");
    assert!(parser.is_none());
}

#[test]
fn fails_without_date_format() {
    let parser = ChronoDateTimeParser::new("%t");
    assert!(parser.is_none());
}

#[test]
fn has_proper_positive_timezone() {
    let line = "10/Sep/2016:18:35:47 +0200";
    let parser = ChronoDateTimeParser::new("%d:%t").unwrap();
    let timestamp = parser.parse_datetime(line).unwrap();
    assert_eq!(timestamp.offset_seconds, 2 * 3600);
}

#[test]
fn has_proper_negative_timezone() {
    let line = "10/Sep/2016:18:35:47 -0200";
    let parser = ChronoDateTimeParser::new("%d:%t").unwrap();
    let timestamp = parser.parse_datetime(line).unwrap();
    assert_eq!(timestamp.offset_seconds, -(2 * 3600));
}

#[test]
fn has_proper_date_when_midnight() {
    let line = "10/Sep/2016:00:00:00 +0200";
    let parser = ChronoDateTimeParser::new("%d:%t").unwrap();
    let timestamp = parser.parse_datetime(line).unwrap();
    assert_eq!((timestamp.year, timestamp.month, timestamp.day), (2016, 09, 10));
}

#[test]
fn has_proper_date() {
    let line = "10/Sep/2016:18:35:47 +0200";

    let parser = ChronoDateTimeParser::new("%d:%t").unwrap();
    let timestamp = parser.parse_datetime(line).unwrap();
    assert_eq!((timestamp.year, timestamp.month, timestamp.day), (2016, 09, 10));
}

#[test]
fn has_proper_time() {
    let line = "10/Sep/2016:18:35:47 +0200";
    let parser = ChronoDateTimeParser::new("%d:%t").unwrap();
    let timestamp = parser.parse_datetime(line).unwrap();
    assert_eq!((timestamp.hour, timestamp.minute, timestamp.second), (18, 35, 47));
}

#[test]
fn has_proper_time_when_midnight() {
    let line = "10/Sep/2016:00:00:00 +0200";
    let parser = ChronoDateTimeParser::new("%d:%t").unwrap();
    let timestamp = parser.parse_datetime(line).unwrap();
    assert_eq!((timestamp.hour, timestamp.minute, timestamp.second), (0, 0, 0));
}
