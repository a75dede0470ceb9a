use webscreenshotlib::{fmt_str_to_enum, parse_format, OutputFormat};

#[test]
fn lower_case_names_are_read() {
    assert_eq!(fmt_str_to_enum("png", 80), OutputFormat::PNG);
    assert_eq!(fmt_str_to_enum("jpg", 80), OutputFormat::JPEG(80));
    assert_eq!(fmt_str_to_enum("pdf", 80), OutputFormat::PDF);
}

#[test]
fn upper_case_names_are_read() {
    assert_eq!(fmt_str_to_enum("PNG", 0), OutputFormat::PNG);
    assert_eq!(fmt_str_to_enum("JPG", 0), OutputFormat::JPEG(0));
    assert_eq!(fmt_str_to_enum("PDF", 0), OutputFormat::PDF);
}

#[test]
fn jpeg_takes_the_quality_as_given() {
    assert_eq!(parse_format("jpg", 100), Some(OutputFormat::JPEG(100)));
    assert_eq!(parse_format("jpg", 150), Some(OutputFormat::JPEG(150)));
    assert_eq!(parse_format("png", 150), Some(OutputFormat::PNG));
}

#[test]
fn other_names_stand_for_no_format() {
    assert_eq!(parse_format("", 80), None);
    assert_eq!(parse_format("jpeg", 80), None);
    assert_eq!(parse_format("Png", 80), None);
    assert_eq!(parse_format("gif", 80), None);
    assert_eq!(parse_format("pn", 80), None);
    assert_eq!(parse_format("pngs", 80), None);
    assert_eq!(parse_format("pd\u{fb01}", 80), None);
}
