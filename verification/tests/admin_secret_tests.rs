use multiplay_rs::admin_secret::{admin_secret_text, generate_admin_secret};

#[test]
fn secret_writes_each_byte_in_short_hex() {
    let bytes: [u8; 16] = [0, 1, 2, 3, 4, 5, 6, 7, 8, 9, 10, 11, 12, 13, 14, 15];
    assert_eq!(admin_secret_text(&bytes), "0123456789abcdef");
}

#[test]
fn secret_writes_large_bytes_with_two_digits() {
    let bytes: [u8; 16] = [255, 16, 15, 171, 0, 0, 0, 0, 0, 0, 0, 0, 0, 0, 0, 1];
    assert_eq!(admin_secret_text(&bytes), "ff10fab000000000001");
}

#[test]
fn generated_secret_has_hex_shape() {
    let secret = generate_admin_secret();
    assert!(secret.len() >= 16 && secret.len() <= 32);
    assert!(secret.chars().all(|c| c.is_ascii_digit() || ('a'..='f').contains(&c)));
    let other = generate_admin_secret();
    let third = generate_admin_secret();
    assert!(secret != other || other != third);
}
