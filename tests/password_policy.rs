use rust_web_app::password_policy::{validate_password_policy, MAX_LENGTH};

#[test]
fn test_password_policy() {
    let valid = "Password1!";
    println!("{}", valid.repeat(MAX_LENGTH.div_ceil(valid.len())));

    assert!(validate_password_policy(valid));
    assert!(!validate_password_policy("weakpass"));
    assert!(!validate_password_policy("Short1!"));
    assert!(!validate_password_policy("NoSpecialChar1"));
    assert!(!validate_password_policy("NOLOWERCASE1!"));
    assert!(!validate_password_policy("nouppercase1!"));
    assert!(!validate_password_policy("NoDigit!"));
    assert!(!validate_password_policy(
        // 128 / 10 = 12.8 => 13 * 10 => 130 > 128
        &valid.repeat(MAX_LENGTH.div_ceil(valid.len()))
    ))
}

#[test]
fn policy_accepts_every_class_and_rejects_each_missing_one() {
    assert!(validate_password_policy("Abcdef1!"));
    assert!(!validate_password_policy("abcdef1!x"));
    assert!(!validate_password_policy("ABCDEF1!X"));
    assert!(!validate_password_policy("Abcdefg!x"));
    assert!(!validate_password_policy("Abcdefg1x"));
    for special in "!@#$%^&*()-+".chars() {
        let candidate = format!("Abcdef1{}", special);
        assert!(validate_password_policy(&candidate), "{}", candidate);
    }
    assert!(!validate_password_policy("Abcdef1_"));
}

#[test]
fn policy_size_bounds_are_in_bytes() {
    // 7 bytes: one short of the minimum.
    assert!(!validate_password_policy("Abcd1!x"));
    // 8 bytes: the minimum.
    assert!(validate_password_policy("Abcd1!xy"));
    // 127 bytes: the largest accepted size.
    let largest = format!("Aa1!{}", "x".repeat(123));
    assert_eq!(largest.len(), 127);
    assert!(validate_password_policy(&largest));
    // 128 bytes: rejected whatever it holds.
    let too_long = format!("Aa1!{}", "x".repeat(124));
    assert_eq!(too_long.len(), 128);
    assert!(!validate_password_policy(&too_long));
    // Six characters, nine bytes.
    assert!(validate_password_policy("Aé1!éé"));
    // 7 characters but 8 bytes.
    assert!(validate_password_policy("Ab1!xyé"));
    assert!(!validate_password_policy(""));
}

#[test]
fn policy_uses_unicode_letter_classes() {
    assert!(validate_password_policy("Ωmega12!"));
    assert!(validate_password_policy("ÄÖÜäöü1!"));
}
