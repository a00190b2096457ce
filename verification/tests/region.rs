use legend_shot::region::{parse_region, save_format_for_extension, SaveFormat};

#[test]
fn region_of_four_numbers_is_read() {
    assert_eq!(parse_region("100,100,400,300"), Some((100, 100, 400, 300)));
    assert_eq!(parse_region(" -20 , +5,400 ,300"), Some((-20, 5, 400, 300)));
}

#[test]
fn parts_that_are_no_number_are_skipped() {
    assert_eq!(parse_region("1,a,2,3,4"), Some((1, 2, 3, 4)));
    assert_eq!(parse_region("1,2,3"), None);
    assert_eq!(parse_region("1,2,3,4,5"), None);
    assert_eq!(parse_region(""), None);
    assert_eq!(parse_region("1,2,3,99999999999"), None);
    assert_eq!(parse_region("1,2,3,-"), None);
}

#[test]
fn jpeg_extensions_choose_jpeg() {
    assert_eq!(save_format_for_extension(Some("jpg")), SaveFormat::Jpeg);
    assert_eq!(save_format_for_extension(Some("jpeg")), SaveFormat::Jpeg);
    assert_eq!(save_format_for_extension(Some("png")), SaveFormat::Png);
    assert_eq!(save_format_for_extension(Some("JPG")), SaveFormat::Png);
    assert_eq!(save_format_for_extension(None), SaveFormat::Png);
}

#[test]
fn region_numbers_span_the_whole_i32_range_and_no_further() {
    assert_eq!(
        parse_region("2147483647,-2147483648,+5,-0"),
        Some((2147483647, -2147483648, 5, 0))
    );
    assert_eq!(parse_region("2147483648,1,2,3"), None);
    assert_eq!(parse_region("1,-2147483649,2,3"), None);
    assert_eq!(parse_region("1,2,3,99999999999999999999"), None);
    assert_eq!(parse_region("+,-,1,2"), None);
}
