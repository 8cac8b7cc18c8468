use weather_db::database_initializer::data_files::{
    bytes_end_with, country_code_check, decode_timepoint, has_bin_extension, push_decimal,
    read_u16_le, read_u32_le, weather_suffix, Timepoint,
};
use weather_db::database_initializer::weather_path;
use weather_db::database_initializer::country_files;
use weather_db::database_initializer::ListedEntry;

#[test]
fn little_endian_reads() {
    let data = [0x78u8, 0x56, 0x34, 0x12, 0xFF];
    assert_eq!(read_u32_le(&data, 0), (0x1234_5678, 4));
    assert_eq!(read_u16_le(&data, 3), (0xFF12, 5));
}

#[test]
fn short_reads_pad_with_zeros() {
    let data = [0x01u8, 0x02];
    assert_eq!(read_u32_le(&data, 0), (0x0201, 2));
    assert_eq!(read_u32_le(&data, 2), (0, 2));
    assert_eq!(read_u16_le(&data, 1), (0x02, 2));
}

#[test]
fn timepoint_decoding() {
    assert_eq!(decode_timepoint(0x7E41), Timepoint(2020, 1));
    assert_eq!(decode_timepoint(0xFFFF), Timepoint(4095, 15));
    assert_eq!(decode_timepoint(0x000C), Timepoint(0, 12));
    for code in [0u16, 1, 17, 0x7E4C, 0xFFFF] {
        let t = decode_timepoint(code);
        assert!(t.1 < 16);
        assert_eq!(16 * t.0 + t.1, code);
    }
}

#[test]
fn decimal_notation() {
    let mut s = String::from("x");
    push_decimal(&mut s, 0);
    push_decimal(&mut s, 65535);
    push_decimal(&mut s, 10);
    assert_eq!(s, "x06553510");
}

#[test]
fn weather_file_names() {
    assert_eq!(weather_suffix(Timepoint(2020, 3)), "2020-03");
    assert_eq!(weather_suffix(Timepoint(1999, 12)), "1999-12");
    assert_eq!(weather_suffix(Timepoint(0, 0)), "0-00");
    assert_eq!(weather_suffix(Timepoint(5, 15)), "5-15");
    assert_eq!(weather_path(Timepoint(2020, 3)), "large_data/weather_points/2020-03.bin");
}

#[test]
fn suffix_matching() {
    assert!(bytes_end_with(b"abc", b"bc"));
    assert!(bytes_end_with(b"abc", b""));
    assert!(!bytes_end_with(b"abc", b"xbc"));
    assert!(!bytes_end_with(b"bc", b"abc"));
}

#[test]
fn bin_extension_rules() {
    assert!(has_bin_extension(b"DEU.bin"));
    assert!(has_bin_extension(b"..bin"));
    assert!(has_bin_extension(b"a.b.bin"));
    assert!(!has_bin_extension(b".bin"));
    assert!(!has_bin_extension(b"DEU.BIN"));
    assert!(!has_bin_extension(b"DEUbin"));
    assert!(!has_bin_extension(b"DEU.bin.txt"));
}

#[test]
fn country_codes_match_file_names() {
    assert!(country_code_check(b"DEU.bin", b"deu"));
    assert!(country_code_check(b"xx_DEU.bin", b"dEu"));
    assert!(!country_code_check(b"FRA.bin", b"deu"));
    assert!(!country_code_check(b"deu.bin", b"deu"));
    // a code that is not UTF-8 counts as empty: any name ending in ".bin" matches
    assert!(country_code_check(b"FRA.bin", &[0xFF, 0xFE, 0x00]));
    // a name that is not UTF-8 counts as empty and matches nothing
    assert!(!country_code_check(&[0xFF, b'D', b'E', b'U', b'.', b'b', b'i', b'n'], b"DEU"));
    // non-ASCII letters stay as they are
    assert!(country_code_check("Ä.bin".as_bytes(), "Ä".as_bytes()));
}

#[test]
fn country_files_are_filtered() {
    let e = |f: bool, n: &str| Some(ListedEntry { is_file: f, file_name: n.as_bytes().to_vec(), display: n.to_string() });
    let listing = vec![e(true, "A.bin"), None, e(false, "B.bin"), e(true, "c.txt"), e(true, "D.bin")];
    assert_eq!(country_files(&listing), vec![0, 4]);
}
