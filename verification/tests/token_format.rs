use lemurs::token::format_token;
use lemurs::token::mcookie;

#[test]
fn zero_renders_as_32_zeros() {
    assert_eq!(format_token(0), "00000000000000000000000000000000");
}

#[test]
fn small_value_is_left_padded() {
    assert_eq!(format_token(0xdead_beef), "000000000000000000000000deadbeef");
}

#[test]
fn all_nibbles_render_lowercase() {
    assert_eq!(
        format_token(0x0123_4567_89ab_cdef_0123_4567_89ab_cdef),
        "0123456789abcdef0123456789abcdef"
    );
}

#[test]
fn max_value_renders_as_32_fs() {
    assert_eq!(format_token(u128::MAX), "ffffffffffffffffffffffffffffffff");
}

#[test]
fn generated_tokens_are_32_lowercase_hex_characters() {
    for _ in 0..64 {
        let token = mcookie();
        assert_eq!(token.len(), 32);
        assert!(token.chars().all(|c| c.is_ascii_hexdigit() && !c.is_ascii_uppercase()));
    }
}

#[test]
fn generated_tokens_vary() {
    // 128 random bits colliding twice in a handful of draws would be
    // astronomically unlikely; a constant generator would fail here.
    let first = mcookie();
    let mut saw_different = false;
    for _ in 0..8 {
        if mcookie() != first {
            saw_different = true;
        }
    }
    assert!(saw_different);
}
