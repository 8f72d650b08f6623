use pass_gen_core::{gen_pass, gen_pass_default, PassOptions};

const DIGITS: &str = "123456789";
const LOWERCASE: &str = "abcdefghijklmnopqrstuvwxyz";
const SPECIALS: &str = "!?#";
const UPPERCASE: &str = "ABCDEFGHIJKLMNOPQRSTUVWXYZ";

fn assert_drawn_from(pass: &str, charset: &str) {
    for c in pass.chars() {
        assert!(
            charset.contains(c),
            "character {:?} is not in the character set {:?}",
            c,
            charset
        );
    }
}

#[test]
fn generates_requested_length_from_enabled_classes() {
    let options = PassOptions::new(12, true, true, false, false);
    let pass = gen_pass(options).unwrap();
    assert_eq!(pass.chars().count(), 12);
    let mut charset = String::from(DIGITS);
    charset.push_str(LOWERCASE);
    assert_drawn_from(&pass, &charset);
}

#[test]
fn fails_when_no_class_is_enabled() {
    assert!(gen_pass(PassOptions::new(8, false, false, false, false)).is_none());
    assert!(gen_pass(PassOptions::new(0, false, false, false, false)).is_none());
    assert!(gen_pass(PassOptions::new(255, false, false, false, false)).is_none());
    assert!(gen_pass(PassOptions::with_default_length(false, false, false, false)).is_none());
}

#[test]
fn zero_length_yields_the_empty_string() {
    let pass = gen_pass(PassOptions::new(0, true, true, true, true)).unwrap();
    assert_eq!(pass, "");
}

#[test]
fn repeated_generation_keeps_the_invariant() {
    // Two draws with the same options need not be equal; both must
    // still have the requested length and stay inside the character set.
    let first = gen_pass(PassOptions::new(20, false, true, true, false)).unwrap();
    let second = gen_pass(PassOptions::new(20, false, true, true, false)).unwrap();
    let mut charset = String::from(LOWERCASE);
    charset.push_str(SPECIALS);
    for pass in [&first, &second] {
        assert_eq!(pass.chars().count(), 20);
        assert_drawn_from(pass, &charset);
    }
}

#[test]
fn digit_class_omits_zero() {
    // A long draw from the digit class alone: every character is one of
    // `1`..`9`, and in particular never `0`.
    let pass = gen_pass(PassOptions::new(200, true, false, false, false)).unwrap();
    assert_eq!(pass.chars().count(), 200);
    assert_drawn_from(&pass, DIGITS);
    assert!(!pass.contains('0'));
}

#[test]
fn generator_special_class_is_bang_question_hash() {
    let pass = gen_pass(PassOptions::new(100, false, false, true, false)).unwrap();
    assert_drawn_from(&pass, SPECIALS);
    assert!(!pass.contains('@'));
}

#[test]
fn with_default_length_uses_sixteen() {
    let options = PassOptions::with_default_length(false, true, false, false);
    assert_eq!(options.length, 16);
    let pass = gen_pass(options).unwrap();
    assert_eq!(pass.chars().count(), 16);
    assert_drawn_from(&pass, LOWERCASE);
}

#[test]
fn new_keeps_the_given_options() {
    let options = PassOptions::new(7, true, false, true, false);
    assert_eq!(options.length, 7);
    assert!(options.use_digits);
    assert!(!options.use_lowercase);
    assert!(options.use_special_chars);
    assert!(!options.use_uppercase);
}

#[test]
fn default_generation_gives_sixteen_from_the_full_set() {
    let pass = gen_pass_default();
    assert_eq!(pass.chars().count(), 16);
    let mut charset = String::from(DIGITS);
    charset.push_str(LOWERCASE);
    charset.push_str(SPECIALS);
    charset.push_str(UPPERCASE);
    assert_drawn_from(&pass, &charset);
}
