//! Password strength checking and random password generation.
//!
//! The checker maps a password to one of five strength levels,
//! judging its length and the kinds of characters it contains.
//! The generator draws a random password over a configurable set
//! of character classes.

mod check_pass;
mod gen_pass;

pub use check_pass::{
    calculate_strength_points, check_pass, classify_spec, has_lowercase, has_numeric, has_special,
    has_uppercase, is_lowercase_char, is_numeric_char, is_special_char, is_uppercase_char,
    lemma_classify_deterministic, strength_label_spec, strength_of_points, strength_points_spec,
    PassStrength,
};
pub use gen_pass::{
    char_set_spec, default_char_set, gen_pass, gen_pass_default, lemma_char_set_empty_iff_no_class,
    PassOptions,
};
