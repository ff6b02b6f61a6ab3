use xcolor::color::ARGB;
use xcolor::error::FormatError;
use xcolor::number::{NumberFormat, Pad};
use xcolor::parser::{channel, expansion, literal, pad, parse_format_string};
use xcolor::preset::{Format, HexCompaction};
use xcolor::template::{Channel, FormatColor, FormatPart, FormatString};
use xcolor::text::{chars_of, same_text, string_of};

fn chars(text: &str) -> Vec<char> {
    text.chars().collect()
}

fn render(template: &str, color: ARGB) -> String {
    template.parse::<FormatString>().unwrap().format(color)
}

#[test]
fn every_base_writes_the_fewest_digits() {
    assert_eq!(NumberFormat::LowercaseHex.format(255), "ff");
    assert_eq!(NumberFormat::UppercaseHex.format(255), "FF");
    assert_eq!(NumberFormat::Decimal.format(255), "255");
    assert_eq!(NumberFormat::Octal.format(255), "377");
    assert_eq!(NumberFormat::Binary.format(255), "11111111");
    assert_eq!(NumberFormat::Binary.format(3), "11");
    assert_eq!(NumberFormat::LowercaseHex.format(0xa), "a");
    assert_eq!(NumberFormat::UppercaseHex.format(0xa), "A");
    assert_eq!(NumberFormat::LowercaseHex.format(0x1f), "1f");
    assert_eq!(NumberFormat::Octal.format(8), "10");
    assert_eq!(NumberFormat::Decimal.format(100), "100");
    assert_eq!(NumberFormat::Decimal.format(9), "9");
}

#[test]
fn zero_is_one_digit_in_every_base() {
    for base in [
        NumberFormat::LowercaseHex,
        NumberFormat::UppercaseHex,
        NumberFormat::Decimal,
        NumberFormat::Octal,
        NumberFormat::Binary,
    ] {
        assert_eq!(base.format(0), "0");
    }
}

#[test]
fn bases_agree_with_the_standard_formatter() {
    for n in 0..=255u8 {
        assert_eq!(NumberFormat::LowercaseHex.format(n), format!("{:x}", n));
        assert_eq!(NumberFormat::UppercaseHex.format(n), format!("{:X}", n));
        assert_eq!(NumberFormat::Decimal.format(n), format!("{}", n));
        assert_eq!(NumberFormat::Octal.format(n), format!("{:o}", n));
        assert_eq!(NumberFormat::Binary.format(n), format!("{:b}", n));
    }
}

#[test]
fn padding_fills_on_the_left() {
    let pad = Pad { char: '-', len: 4 };
    assert_eq!(pad.apply("7".to_string()), "---7");
    assert_eq!(pad.apply("1234".to_string()), "1234");
    assert_eq!(pad.apply("".to_string()), "----");
}

#[test]
fn padding_never_truncates() {
    let pad = Pad { char: '0', len: 2 };
    assert_eq!(pad.apply("11111111".to_string()), "11111111");
    let none = Pad { char: 'x', len: 0 };
    assert_eq!(none.apply("255".to_string()), "255");
    assert_eq!(none.apply(String::new()), "");
}

#[test]
fn padded_length_is_the_greater_of_width_and_length() {
    for width in [0u16, 1, 2, 3, 4, 9, 300] {
        for text in ["", "0", "ff", "255", "11111111"] {
            let padded = Pad { char: '*', len: width }.apply(text.to_string());
            let expected = std::cmp::max(text.chars().count(), width as usize);
            assert_eq!(padded.chars().count(), expected);
            assert!(padded.ends_with(text));
            let fill = padded.chars().count() - text.chars().count();
            assert!(padded.chars().take(fill).all(|c| c == '*'));
        }
    }
}

#[test]
fn padding_counts_characters_not_bytes() {
    let pad = Pad { char: 'é', len: 3 };
    assert_eq!(pad.apply("7".to_string()), "éé7");
    assert_eq!(render("%{→5r}", ARGB::new(0, 12, 0, 0)), "→→→12");
}

#[test]
fn widest_pad() {
    let text = render("%{ 65535b}", ARGB::new(0, 0, 0, 9));
    assert_eq!(text.len(), 65535);
    assert!(text.ends_with(" 9"));
    assert!(text.chars().take(65534).all(|c| c == ' '));
}

#[test]
fn width_takes_every_number_of_sixteen_bits() {
    for width in [0u32, 1, 9, 10, 99, 100, 255, 256, 9999, 10000, 65534, 65535] {
        let input = chars(&format!("x{}", width));
        let (found, next) = pad(&input, 0).unwrap();
        assert_eq!(found, Pad { char: 'x', len: width as u16 });
        assert_eq!(next, input.len());
        assert!(format!("%{{x{}r}}", width).parse::<FormatString>().is_ok());
    }
}

#[test]
fn width_beyond_sixteen_bits_is_an_error() {
    for width in [65536u32, 65537, 70000, 99999, 100000, 655350, 4294967295] {
        let template = format!("%{{x{}r}}", width);
        assert_eq!(
            template.parse::<FormatString>().err(),
            Some(FormatError::InvalidFormatString)
        );
        assert!(expansion(&chars(&template), 0).is_none());
    }
    assert!(pad(&chars("x65536"), 0).is_none());
    assert!(pad(&chars("x99999"), 0).is_none());
}

#[test]
fn width_has_at_most_five_digits() {
    // the run of digits ends after the fifth; what follows is not part of it
    assert_eq!(
        pad(&chars("0000001"), 0),
        Some((Pad { char: '0', len: 0 }, 6))
    );
    assert_eq!(
        pad(&chars("x123456"), 0),
        Some((Pad { char: 'x', len: 12345 }, 6))
    );
    assert!("%{000001r}".parse::<FormatString>().is_ok());
    assert!("%{0000001r}".parse::<FormatString>().is_err());
    assert!("%{x123456r}".parse::<FormatString>().is_err());
}

#[test]
fn leading_zeros_in_the_width_count_for_nothing() {
    assert_eq!(pad(&chars("x001"), 0), Some((Pad { char: 'x', len: 1 }, 4)));
    assert_eq!(pad(&chars("x00000"), 0), Some((Pad { char: 'x', len: 0 }, 6)));
    assert_eq!(render("%{x003r}", ARGB::new(0, 5, 0, 0)), "xx5");
}

#[test]
fn pad_reads_from_the_given_place() {
    let input = chars("%{#12hr}");
    assert_eq!(pad(&input, 2), Some((Pad { char: '#', len: 12 }, 5)));
    assert_eq!(xcolor::parser::format(&input, 5), Some((NumberFormat::LowercaseHex, 6)));
    assert_eq!(channel(&input, 6), Some((Channel::R, 7)));
    assert_eq!(pad(&input, 8), None);
    assert_eq!(pad(&input, 100), None);
    assert_eq!(xcolor::parser::format(&input, 100), None);
    assert_eq!(channel(&input, 100), None);
    assert!(literal(&input, 100).is_none());
    assert!(expansion(&input, 100).is_none());
}

#[test]
fn any_character_can_fill() {
    assert_eq!(render("%{r3r}", ARGB::new(0, 7, 0, 0)), "rr7");
    assert_eq!(render("%{h3r}", ARGB::new(0, 255, 0, 0)), "255");
    assert_eq!(render("%{}3r}", ARGB::new(0, 7, 0, 0)), "}}7");
    assert_eq!(render("%{%3r}", ARGB::new(0, 7, 0, 0)), "%%7");
    assert_eq!(render("%{13r}", ARGB::new(0, 7, 0, 0)), "117");
    assert_eq!(render("%{{3hr}", ARGB::new(0, 255, 0, 0)), "{ff");
}

#[test]
fn base_letters() {
    assert_eq!(xcolor::parser::format(&chars("h"), 0), Some((NumberFormat::LowercaseHex, 1)));
    assert_eq!(xcolor::parser::format(&chars("H"), 0), Some((NumberFormat::UppercaseHex, 1)));
    assert_eq!(xcolor::parser::format(&chars("o"), 0), Some((NumberFormat::Octal, 1)));
    assert_eq!(xcolor::parser::format(&chars("B"), 0), Some((NumberFormat::Binary, 1)));
    assert_eq!(xcolor::parser::format(&chars("d"), 0), Some((NumberFormat::Decimal, 1)));
    assert_eq!(xcolor::parser::format(&chars("b"), 0), None);
    assert_eq!(xcolor::parser::format(&chars("x"), 0), None);
    assert_eq!(xcolor::parser::format(&chars(""), 0), None);
}

#[test]
fn channel_letters() {
    assert_eq!(channel(&chars("r"), 0), Some((Channel::R, 1)));
    assert_eq!(channel(&chars("g"), 0), Some((Channel::G, 1)));
    assert_eq!(channel(&chars("b"), 0), Some((Channel::B, 1)));
    assert_eq!(channel(&chars("a"), 0), None);
    assert_eq!(channel(&chars("R"), 0), None);
    assert_eq!(channel(&chars(""), 0), None);
}

#[test]
fn channels_are_extracted() {
    let color = ARGB::new(1, 2, 3, 4);
    assert_eq!(Channel::R.extract(color), 2);
    assert_eq!(Channel::G.extract(color), 3);
    assert_eq!(Channel::B.extract(color), 4);
}

#[test]
fn base_defaults_to_decimal() {
    let color = ARGB::new(0, 200, 100, 50);
    assert_eq!(render("%{r}", color), "200");
    assert_eq!(render("%{dr}", color), "200");
    assert_eq!(render("%{hr}%{Hg}%{ob}%{Bb}", color), "c86462110010");
}

#[test]
fn literal_ends_before_a_percent() {
    let input = chars("abc");
    match literal(&input, 0) {
        Some((FormatPart::Literal(text), 3)) => assert_eq!(text, "abc"),
        _ => panic!(),
    }
    assert!(literal(&chars("%abc"), 0).is_none());
    assert!(literal(&chars(""), 0).is_none());
    match literal(&chars("a%b"), 2) {
        Some((FormatPart::Literal(text), 3)) => assert_eq!(text, "b"),
        _ => panic!(),
    }
}

#[test]
fn escape_is_always_one_percent() {
    let color = ARGB::new(9, 8, 7, 6);
    assert_eq!(render("%%", color), "%");
    assert_eq!(render("%%%%", color), "%%");
    assert_eq!(render("100%%", color), "100%");
    assert_eq!(render("%%{r}", color), "%{r}");
    assert_eq!(render("%{r}%%", color), "8%");
    assert_eq!(render("%%%{r}%%", color), "%8%");
    for other in [ARGB::new(0, 0, 0, 0), ARGB::new(255, 255, 255, 255)] {
        assert_eq!(render("a%%b", other), "a%b");
    }
    match expansion(&chars("x%%y"), 1) {
        Some((FormatPart::Literal(text), 3)) => assert_eq!(text, "%"),
        _ => panic!(),
    }
}

#[test]
fn rendering_is_repeatable() {
    let template: FormatString = "(%{03r}|%{-4Hg}|%{ob}%%)".parse().unwrap();
    let color = ARGB::new(0xff, 1, 171, 8);
    let first = template.format(color);
    assert_eq!(first, "(001|--AB|10%)");
    for _ in 0..10 {
        assert_eq!(template.format(color), first);
    }
    let again: FormatString = "(%{03r}|%{-4Hg}|%{ob}%%)".parse().unwrap();
    assert_eq!(again.format(color), first);
    // another colour in between changes nothing
    assert_eq!(template.format(ARGB::new(0, 0, 0, 0)), "(000|---0|0%)");
    assert_eq!(template.format(color), first);
}

#[test]
fn template_parts_in_order() {
    let template: FormatString = "a%{r}%%b%{x2Hg}".parse().unwrap();
    assert_eq!(template.len(), 5);
    match template.part(0) {
        FormatPart::Literal(text) => assert_eq!(text, "a"),
        _ => panic!(),
    }
    match template.part(1) {
        FormatPart::Expansion {
            channel: Channel::R,
            format: NumberFormat::Decimal,
            pad: None,
        } => (),
        _ => panic!(),
    }
    match template.part(2) {
        FormatPart::Literal(text) => assert_eq!(text, "%"),
        _ => panic!(),
    }
    match template.part(3) {
        FormatPart::Literal(text) => assert_eq!(text, "b"),
        _ => panic!(),
    }
    match template.part(4) {
        FormatPart::Expansion {
            channel: Channel::G,
            format: NumberFormat::UppercaseHex,
            pad: Some(Pad { char: 'x', len: 2 }),
        } => (),
        _ => panic!(),
    }
    assert_eq!("".parse::<FormatString>().unwrap().len(), 0);
    assert_eq!("".parse::<FormatString>().unwrap().format(ARGB::new(1, 2, 3, 4)), "");
}

#[test]
fn template_from_parts() {
    let template = FormatString::from_parts(vec![
        FormatPart::Literal("r=".to_string()),
        FormatPart::Expansion {
            channel: Channel::R,
            format: NumberFormat::Octal,
            pad: Some(Pad { char: ' ', len: 4 }),
        },
    ]);
    assert_eq!(template.format(ARGB::new(0, 64, 0, 0)), "r= 100");
    let part = FormatPart::Expansion {
        channel: Channel::B,
        format: NumberFormat::Binary,
        pad: None,
    };
    assert_eq!(part.format(ARGB::new(0, 0, 0, 5)), "101");
}

#[test]
fn malformed_templates() {
    let cases = [
        "%", "%{", "%{r", "%{r}%", "%r", "%{rr}", "%{x}", "%{hh}", "%{rh}", "%{h}", "%{04}",
        "%{04h}", "%{04hh}", "%{ r}", "%{r }", "%{R}", "%{a}", "%{-r}", "%{--1r}", "abc%", "%{r}}%",
        "%{05xr}", "%{0-5r}",
    ];
    for case in cases {
        assert_eq!(
            parse_format_string(case).err(),
            Some(FormatError::InvalidFormatString),
            "{}",
            case
        );
    }
}

#[test]
fn well_formed_templates() {
    let color = ARGB::new(0xff, 1, 2, 3);
    assert_eq!(render("}", color), "}");
    assert_eq!(render("{r}", color), "{r}");
    assert_eq!(render("%{r}}", color), "1}");
    assert_eq!(render("a b\nc", color), "a b\nc");
    assert_eq!(render("%{r}%{g}%{b}", color), "123");
    assert_eq!(render("%{01r}", color), "1");
    assert_eq!(render("%{00r}", color), "1");
    assert_eq!(render("%{-010r}", color), "---------1");
    assert_eq!(render("%{h04r}", color), "hhh1");
}

#[test]
fn error_messages() {
    assert_eq!(
        FormatError::InvalidFormatString.message(),
        "Invalid format string"
    );
    assert_eq!(FormatError::InvalidFormat.message(), "Invalid format");
}

#[test]
fn preset_names() {
    assert_eq!("hex".parse(), Ok(Format::LowercaseHex(HexCompaction::Full)));
    assert_eq!("HEX".parse(), Ok(Format::UppercaseHex(HexCompaction::Full)));
    assert_eq!(
        "hex!".parse(),
        Ok(Format::LowercaseHex(HexCompaction::Compact))
    );
    assert_eq!(
        "HEX!".parse(),
        Ok(Format::UppercaseHex(HexCompaction::Compact))
    );
    assert_eq!("plain".parse(), Ok(Format::Plain));
    assert_eq!("rgb".parse(), Ok(Format::RGB));
}

#[test]
fn unknown_preset_names() {
    for name in ["", "Hex", "hex ", " hex", "hex!!", "RGB", "Plain", "rgba", "he", "!"] {
        assert_eq!(name.parse::<Format>(), Err(FormatError::InvalidFormat));
    }
}

#[test]
fn preset_hex_compact_and_full() {
    let color = ARGB::new(0xff, 0xee, 0xee, 0xee);
    assert_eq!("hex!".parse::<Format>().unwrap().format(color), "#eee");
    assert_eq!("hex".parse::<Format>().unwrap().format(color), "#eeeeee");
    assert_eq!("HEX!".parse::<Format>().unwrap().format(color), "#EEE");
    assert_eq!("HEX".parse::<Format>().unwrap().format(color), "#EEEEEE");
}

#[test]
fn preset_hex_falls_back_to_the_full_form() {
    let color = ARGB::new(0xff, 0xee, 0xe0, 0xee);
    assert_eq!(
        Format::LowercaseHex(HexCompaction::Compact).format(color),
        "#eee0ee"
    );
    assert_eq!(
        Format::UppercaseHex(HexCompaction::Compact).format(color),
        "#EEE0EE"
    );
}

#[test]
fn preset_hex_pads_with_zeros() {
    let color = ARGB::new(0xff, 0x0a, 0x00, 0x10);
    assert_eq!(Format::LowercaseHex(HexCompaction::Full).format(color), "#0a0010");
    assert_eq!(Format::UppercaseHex(HexCompaction::Full).format(color), "#0A0010");
    assert_eq!(
        Format::LowercaseHex(HexCompaction::Full).format(ARGB::new(0, 255, 0, 255)),
        "#ff00ff"
    );
    assert_eq!(
        Format::LowercaseHex(HexCompaction::Compact).format(ARGB::new(0, 0, 0x11, 0xaa)),
        "#01a"
    );
}

#[test]
fn preset_plain_and_rgb() {
    let color = ARGB::new(0xff, 255, 0, 7);
    assert_eq!(Format::Plain.format(color), "255;0;7");
    assert_eq!(Format::RGB.format(color), "rgb(255, 0, 7)");
}

#[test]
fn presets_agree_with_their_templates() {
    let hex: FormatString = "#%{02hr}%{02hg}%{02hb}".parse().unwrap();
    let upper: FormatString = "#%{02Hr}%{02Hg}%{02Hb}".parse().unwrap();
    let plain: FormatString = "%{r};%{g};%{b}".parse().unwrap();
    let rgb: FormatString = "rgb(%{r}, %{g}, %{b})".parse().unwrap();
    for n in 0..=255u8 {
        let color = ARGB::new(n, n, n.wrapping_mul(7), n.wrapping_add(100));
        assert_eq!(Format::LowercaseHex(HexCompaction::Full).format(color), hex.format(color));
        assert_eq!(Format::UppercaseHex(HexCompaction::Full).format(color), upper.format(color));
        assert_eq!(Format::Plain.format(color), plain.format(color));
        assert_eq!(Format::RGB.format(color), rgb.format(color));
    }
}

#[test]
fn compact_form_is_the_full_form_with_every_other_digit() {
    for n in 0..16u8 {
        let color = ARGB::new(0, n * 17, (15 - n) * 17, n * 17);
        let full = Format::LowercaseHex(HexCompaction::Full).format(color);
        let compact = Format::LowercaseHex(HexCompaction::Compact).format(color);
        let full: Vec<char> = full.chars().collect();
        let expected: String = [full[0], full[1], full[3], full[5]].iter().collect();
        assert_eq!(compact, expected);
    }
}

#[test]
fn characters_and_strings() {
    assert_eq!(chars_of("a→b"), vec!['a', '→', 'b']);
    assert_eq!(chars_of(""), Vec::<char>::new());
    assert_eq!(string_of(&['a', '→', 'b', 'c'], 1, 3), "→b");
    assert_eq!(string_of(&['a', 'b'], 1, 1), "");
    assert!(same_text("hex", "hex"));
    assert!(!same_text("hex", "hex!"));
    assert!(!same_text("hex", "heX"));
    assert!(same_text("", ""));
}
