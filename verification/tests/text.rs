use moon_shadow_photo::text::{
    chars_of, hex_text, i32_text, padded, same_text, signed_text, text_of, u128_text, u64_text,
};
use moon_shadow_photo::topics::{cmd_topic, hello_topic, senddata_topic, status_topic};

#[test]
fn decimal_numbers() {
    assert_eq!(u64_text(0), "0");
    assert_eq!(u64_text(1234567890), "1234567890");
    assert_eq!(u64_text(u64::MAX), "18446744073709551615");
    assert_eq!(u128_text(u128::MAX), "340282366920938463463374607431768211455");
    assert_eq!(i32_text(-7), "-7");
    assert_eq!(i32_text(i32::MIN), "-2147483648");
    assert_eq!(i32_text(42), "42");
    assert_eq!(signed_text(0), "+0");
    assert_eq!(signed_text(14), "+14");
    assert_eq!(signed_text(-12), "-12");
}

#[test]
fn decimal_numbers_read_back() {
    for n in [0u64, 9, 10, 99, 100, 65535, 1 << 40] {
        assert_eq!(u64_text(n).parse::<u64>().unwrap(), n);
        assert_eq!(padded(&u64_text(n), 20, '0').parse::<u64>().unwrap(), n);
    }
}

#[test]
fn hexadecimal_numbers() {
    assert_eq!(hex_text(0), "0");
    assert_eq!(hex_text(0x105), "105");
    assert_eq!(hex_text(0xABCDEF), "ABCDEF");
    assert_eq!(hex_text(u64::MAX), "FFFFFFFFFFFFFFFF");
}

#[test]
fn padding_on_the_left() {
    assert_eq!(padded("7", 3, '0'), "007");
    assert_eq!(padded("1234", 3, '0'), "1234");
    assert_eq!(padded("", 2, ' '), "  ");
    assert_eq!(padded("é", 2, ' '), " é");
}

#[test]
fn characters_and_texts() {
    let c = chars_of("añ→b");
    assert_eq!(c, vec!['a', 'ñ', '→', 'b']);
    assert_eq!(text_of(&c, 1, 3), "ñ→");
    assert_eq!(text_of(&c, 2, 2), "");
    assert!(same_text("cmd", "cmd"));
    assert!(!same_text("cmd", "Cmd"));
}

#[test]
fn topics_of_a_device() {
    assert_eq!(senddata_topic("moon-shadow"), "moon-shadow/senddata");
    assert_eq!(cmd_topic("moon-shadow"), "moon-shadow/cmd");
    assert_eq!(status_topic("moon-shadow"), "moon-shadow/status");
    assert_eq!(hello_topic("moon-shadow"), "moon-shadow/hello");
}
