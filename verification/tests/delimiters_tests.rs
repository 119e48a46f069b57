//! Tests carried over for this module.

use aozora_core::delimiters::{ACCENT_BEGIN, ACCENT_END, COMMAND_BEGIN, COMMAND_END, GAIJI_MARK, IGETA, RUBY_BEGIN, RUBY_END, RUBY_PREFIX};

#[test]
fn test_delimiter_unicode_values() {
    assert_eq!(RUBY_PREFIX as u32, 0xFF5C);
    assert_eq!(RUBY_BEGIN as u32, 0x300A);
    assert_eq!(RUBY_END as u32, 0x300B);
    assert_eq!(COMMAND_BEGIN as u32, 0xFF3B);
    assert_eq!(COMMAND_END as u32, 0xFF3D);
    assert_eq!(IGETA as u32, 0xFF03);
    assert_eq!(GAIJI_MARK as u32, 0x203B);
    assert_eq!(ACCENT_BEGIN as u32, 0x3014);
    assert_eq!(ACCENT_END as u32, 0x3015);
}
