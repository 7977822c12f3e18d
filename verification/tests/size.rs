use mjrender::size::Size;
use mjrender::spacing::horizontal_padding_of;
use mjrender::text::{str_eq, to_chars};

#[test]
fn parse_reads_pixels_and_percentages() {
    assert_eq!(Size::parse("100px"), Size::Pixel(100_000));
    assert_eq!(Size::parse("50%"), Size::Percent(50_000));
    assert_eq!(Size::parse("0px"), Size::Pixel(0));
    assert_eq!(Size::parse("12.5px"), Size::Pixel(12_500));
    assert_eq!(Size::parse("33.333333%"), Size::Percent(33_333));
    assert_eq!(Size::parse("0.05%"), Size::Percent(50));
    assert_eq!(Size::parse("007px"), Size::Pixel(7_000));
    assert_eq!(Size::parse("999999.999px"), Size::Pixel(999_999_999));
}

#[test]
fn parse_keeps_what_it_cannot_read() {
    for text in [
        "", "px", "%", "auto", "100", "100 px", "-5px", "+5px", "1.px", ".5px", "1..5px", "1.5.2px",
        "1e3px", "10PX", "10px ", " 10px", "1000000px", "12345678901234567890px", "٣px",
    ] {
        assert_eq!(Size::parse(text), Size::Raw(text.to_string()), "{:?}", text);
        assert_eq!(Size::parse(text).to_string(), text);
        assert_eq!(Size::parse(text).value(), 0);
    }
}

#[test]
fn parsed_sizes_are_in_range() {
    for text in ["0px", "999999.999%", "abc", "1000000px"] {
        assert!(Size::parse(text).is_in_range());
    }
    assert!(!Size::Pixel(-1).is_in_range());
    assert!(!Size::Percent(1_000_000_000).is_in_range());
    assert!(Size::Raw("x".to_string()).is_in_range());
}

#[test]
fn to_string_writes_the_shortest_decimal() {
    assert_eq!(Size::Pixel(250_000).to_string(), "250px");
    assert_eq!(Size::Pixel(0).to_string(), "0px");
    assert_eq!(Size::Pixel(149_800).to_string(), "149.8px");
    assert_eq!(Size::Pixel(120).to_string(), "0.12px");
    assert_eq!(Size::Pixel(5).to_string(), "0.005px");
    assert_eq!(Size::Pixel(1_050).to_string(), "1.05px");
    assert_eq!(Size::Percent(33_333).to_string(), "33.333%");
    assert_eq!(Size::Percent(100_000).to_string(), "100%");
    assert_eq!(Size::Pixel(-50_000).to_string(), "-50px");
    assert_eq!(Size::Pixel(-1).to_string(), "-0.001px");
    assert_eq!(Size::Pixel(i64::MAX).to_string(), "9223372036854775.807px");
    assert_eq!(Size::Pixel(i64::MIN).to_string(), "-9223372036854775.808px");
    assert_eq!(Size::Raw("auto".to_string()).to_string(), "auto");
}

#[test]
fn value_and_kind() {
    assert_eq!(Size::Pixel(3).value(), 3);
    assert_eq!(Size::Percent(4).value(), 4);
    assert_eq!(Size::Raw("9px".to_string()).value(), 0);
    assert!(Size::Pixel(3).is_pixel() && !Size::Pixel(3).is_percent());
    assert!(Size::Percent(3).is_percent() && !Size::Percent(3).is_pixel());
    assert!(!Size::Raw("3".to_string()).is_pixel());
    assert_ne!(Size::Pixel(3), Size::Percent(3));
    assert_ne!(Size::Pixel(3), Size::Pixel(4));
    assert_ne!(Size::Raw("a".to_string()), Size::Raw("b".to_string()));
    assert_eq!(Size::Raw("a".to_string()).clone(), Size::Raw("a".to_string()));
}

#[test]
fn parse_and_to_string_agree() {
    for text in ["250px", "12.5%", "0.001px", "999999.999px", "auto"] {
        assert_eq!(Size::parse(text).to_string(), text);
    }
}

#[test]
fn horizontal_padding_follows_the_shorthand() {
    assert_eq!(horizontal_padding_of("10px 25px"), 50_000);
    assert_eq!(horizontal_padding_of("10px"), 20_000);
    assert_eq!(horizontal_padding_of("1px 2px 3px"), 4_000);
    assert_eq!(horizontal_padding_of("1px 2px 3px 4px"), 6_000);
    assert_eq!(horizontal_padding_of("  10px   25px  "), 50_000);
    assert_eq!(horizontal_padding_of(""), 0);
    assert_eq!(horizontal_padding_of("   "), 0);
    assert_eq!(horizontal_padding_of("1px 2px 3px 4px 5px"), 0);
    assert_eq!(horizontal_padding_of("1px 2px 3px 4px 5px 6px 7px"), 0);
    assert_eq!(horizontal_padding_of("10px auto"), 0);
    assert_eq!(horizontal_padding_of("0 1.5px"), 3_000);
    assert_eq!(horizontal_padding_of("10px 5%"), 10_000);
    assert_eq!(horizontal_padding_of("999999.999px"), 1_999_999_998);
}

#[test]
fn strings_compare_by_their_characters() {
    assert!(str_eq("", ""));
    assert!(str_eq("mj-divider", "mj-divider"));
    assert!(!str_eq("mj-divider", "mj-dividers"));
    assert!(!str_eq("p", "q"));
    assert!(str_eq("é", "é"));
    assert!(!str_eq("é", "e"));
    assert_eq!(to_chars("aé"), vec!['a', 'é']);
}
