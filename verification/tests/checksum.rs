use aaxsplit::checksum::{
    extract_checksum, render_checksum, CHECKSUM_BUFFER_SIZE, FILE_CHECKSUM_START,
};
use aaxsplit::error::SplitError;

fn file_with_window(window: &[u8], length: usize) -> Vec<u8> {
    let mut data = vec![0x11u8; length];
    for (i, byte) in window.iter().enumerate() {
        if FILE_CHECKSUM_START + i < length {
            data[FILE_CHECKSUM_START + i] = *byte;
        }
    }
    data
}

#[test]
fn window_is_at_offset_653_and_20_bytes_long() {
    assert_eq!(FILE_CHECKSUM_START, 653);
    assert_eq!(CHECKSUM_BUFFER_SIZE, 20);
}

#[test]
fn renders_two_lowercase_digits_per_byte() {
    let window: Vec<u8> = vec![
        0xde, 0xad, 0xbe, 0xef, 0x00, 0x01, 0x0a, 0x10, 0x7f, 0x80, 0xff, 0x09, 0x90, 0xab, 0xcd,
        0xef, 0x12, 0x34, 0x56, 0x78,
    ];
    let text = render_checksum(&window);
    assert_eq!(text, "deadbeef00010a107f80ff0990abcdef12345678");
    assert_eq!(text.len(), 40);
}

#[test]
fn keeps_leading_zeros() {
    let window = [0u8; 20];
    assert_eq!(render_checksum(&window), "0000000000000000000000000000000000000000");
    assert_eq!(render_checksum(&[0x05]), "05");
    assert_eq!(render_checksum(&[0x0f, 0xf0]), "0ff0");
}

#[test]
fn renders_nothing_for_no_bytes() {
    assert_eq!(render_checksum(&[]), "");
}

#[test]
fn text_is_forty_lowercase_hex_digits_for_every_window() {
    for seed in 0u32..64 {
        let window: Vec<u8> =
            (0u32..20).map(|i| (seed.wrapping_mul(37).wrapping_add(i * 101) % 256) as u8).collect();
        let text = render_checksum(&window);
        assert_eq!(text.chars().count(), 40);
        assert!(text.chars().all(|c| matches!(c, '0'..='9' | 'a'..='f')));
        for (i, byte) in window.iter().enumerate() {
            assert_eq!(u8::from_str_radix(&text[2 * i..2 * i + 2], 16).unwrap(), *byte);
        }
    }
}

#[test]
fn rendering_twice_gives_the_same_text() {
    let window: Vec<u8> = (100u8..120).collect();
    assert_eq!(render_checksum(&window), render_checksum(&window));
    assert_eq!(render_checksum(&window), render_checksum(&window.clone()));
}

#[test]
fn different_windows_give_different_texts() {
    let first = [0x01u8, 0x10];
    let second = [0x10u8, 0x01];
    assert_ne!(render_checksum(&first), render_checksum(&second));
}

#[test]
fn extracts_the_window_from_the_file() {
    let window: Vec<u8> = (0xa0u8..0xb4).collect();
    let data = file_with_window(&window, 4096);
    assert_eq!(
        extract_checksum(&data),
        Ok(String::from("a0a1a2a3a4a5a6a7a8a9aaabacadaeafb0b1b2b3"))
    );
}

#[test]
fn extracts_from_a_file_that_ends_with_the_window() {
    let window = [0xabu8; 20];
    let data = file_with_window(&window, 673);
    assert_eq!(extract_checksum(&data), Ok("ab".repeat(20)));
}

#[test]
fn fails_on_a_file_that_ends_inside_the_window() {
    let window = [0xabu8; 20];
    assert_eq!(extract_checksum(&file_with_window(&window, 672)), Err(SplitError::IoError));
    assert_eq!(extract_checksum(&file_with_window(&window, 654)), Err(SplitError::IoError));
}

#[test]
fn fails_on_a_file_that_ends_before_the_window() {
    assert_eq!(extract_checksum(&[]), Err(SplitError::IoError));
    assert_eq!(extract_checksum(&vec![0u8; 653]), Err(SplitError::IoError));
}

#[test]
fn ignores_what_surrounds_the_window() {
    let window: Vec<u8> = (1u8..21).collect();
    let mut first = file_with_window(&window, 1000);
    let mut second = file_with_window(&window, 2000);
    first[0] = 0xff;
    first[652] = 0xee;
    second[673] = 0xdd;
    assert_eq!(extract_checksum(&first), extract_checksum(&second));
    assert_eq!(extract_checksum(&first), Ok(render_checksum(&window)));
}
