use cnx::text::{Attributes, Color, Font, Padding, Text};
use cnx::widgets::clock::Clock;

fn attr() -> Attributes {
    Attributes {
        font: Font::new("SourceCodePro 21"),
        fg_color: Color { red: 0x3c, green: 0x38, blue: 0x36 },
        bg_color: Some(Color { red: 0xfb, green: 0xf1, blue: 0xc7 }),
        padding: Padding::new(5, 5, 0, 0),
    }
}

#[test]
fn a_clock_keeps_its_format_and_attributes() {
    let clock = Clock::new(String::from("%Y-%m-%d %a %I:%M"), attr());
    assert_eq!(clock.format(), "%Y-%m-%d %a %I:%M");
    assert_eq!(clock.attr(), &attr());
}

#[test]
fn the_first_batch_is_due_at_once() {
    let stream = Clock::new(String::from("%H:%M"), attr()).stream();
    assert_eq!(stream.sleep_for(), 0);
    assert_eq!(stream.clock().format(), "%H:%M");
}

#[test]
fn a_batch_is_one_text_that_does_not_stretch() {
    let mut stream = Clock::new(String::from("%H:%M"), attr()).stream();
    let batch = stream.emit(Some(String::from("12:51")), 17).unwrap();
    assert_eq!(batch, vec![Text { attr: attr(), text: String::from("12:51"), stretch: false }]);
}

#[test]
fn the_next_batch_is_due_when_the_minute_is_over() {
    let mut stream = Clock::new(String::from("%H:%M"), attr()).stream();
    stream.emit(Some(String::from("12:51")), 17);
    assert_eq!(stream.sleep_for(), 43);
    stream.emit(Some(String::from("12:52")), 0);
    assert_eq!(stream.sleep_for(), 60);
    stream.emit(Some(String::from("12:53")), 59);
    assert_eq!(stream.sleep_for(), 1);
}

#[test]
fn seconds_are_counted_within_the_minute() {
    let mut stream = Clock::new(String::from("%H:%M"), attr()).stream();
    stream.emit(Some(String::from("12:51")), 60);
    assert_eq!(stream.sleep_for(), 60);
    stream.emit(Some(String::from("12:51")), 77);
    assert_eq!(stream.sleep_for(), 43);
    stream.emit(Some(String::from("12:51")), u32::MAX);
    assert_eq!(stream.sleep_for(), 60 - u64::from(u32::MAX % 60));
}

#[test]
fn a_time_that_cannot_be_written_ends_the_sequence() {
    let mut stream = Clock::new(String::from("%H:%M"), attr()).stream();
    stream.emit(Some(String::from("12:51")), 17);
    assert_eq!(stream.emit(None, 30), None);
    assert_eq!(stream.sleep_for(), 43);
}

#[test]
fn the_clock_writes_the_time_it_is() {
    let mut stream = Clock::new(String::from("%Y-%m-%d %H:%M"), attr()).stream();
    let batch = stream.next().unwrap();
    assert_eq!(batch.len(), 1);
    assert_eq!(batch[0].attr, attr());
    assert!(!batch[0].stretch);
    let written: Vec<char> = batch[0].text.chars().collect();
    assert_eq!(written.len(), 16);
    for (at, c) in written.iter().enumerate() {
        match at {
            4 | 7 => assert_eq!(*c, '-'),
            10 => assert_eq!(*c, ' '),
            13 => assert_eq!(*c, ':'),
            _ => assert!(c.is_ascii_digit()),
        }
    }
    assert!(1 <= stream.sleep_for() && stream.sleep_for() <= 60);
}

#[test]
fn the_clock_writes_literal_text_as_it_stands() {
    let mut stream = Clock::new(String::from("now%%"), attr()).stream();
    let batch = stream.next().unwrap();
    assert_eq!(batch[0].text, "now%");
}

#[test]
fn an_unknown_specifier_ends_the_sequence() {
    let mut stream = Clock::new(String::from("%Q"), attr()).stream();
    assert_eq!(stream.next(), None);
    assert_eq!(stream.sleep_for(), 0);
}

#[test]
fn whether_a_batch_comes_goes_by_the_format_alone() {
    for format in ["%H:%M", "%Y-%m-%d %a %I:%M %p", "%z %Z %:z", "%+", "%s %j %U", "", "plain"] {
        let mut stream = Clock::new(String::from(format), attr()).stream();
        for _ in 0..3 {
            assert!(stream.next().is_some(), "{}", format);
        }
    }
    for format in ["%", "%Q", "%H:%", "%-Z", "at %?"] {
        let mut stream = Clock::new(String::from(format), attr()).stream();
        for _ in 0..3 {
            assert!(stream.next().is_none(), "{}", format);
        }
    }
}
