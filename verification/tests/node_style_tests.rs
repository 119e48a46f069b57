//! Tests carried over for this module.

use aozora_core::node::StyleType;

#[test]
fn test_style_type_from_command() {
    assert_eq!(StyleType::from_command("傍点"), Some(StyleType::SesameDot));
    assert_eq!(StyleType::from_command("太字"), Some(StyleType::Bold));
    assert_eq!(StyleType::from_command("未知"), None);
}
