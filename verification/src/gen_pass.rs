use vstd::prelude::*;
use vstd::string::StrSliceExecFns;
use vstd::string::StringExecFns;

verus! {

/// Options used to generate a password: the desired length and which
/// character classes the password may draw from.
#[derive(Clone, Copy)]
pub struct PassOptions {
    pub length: u8,
    pub use_digits: bool,
    pub use_lowercase: bool,
    pub use_special_chars: bool,
    pub use_uppercase: bool,
}

/// The character set a configuration selects: the enabled classes
/// concatenated in a fixed order — digits `1`–`9`, lowercase letters,
/// the special characters `!`, `?`, `#`, then uppercase letters.
pub open spec fn char_set_spec(options: PassOptions) -> Seq<char> {
    (if options.use_digits {
        "123456789"@
    } else {
        Seq::<char>::empty()
    }) + (if options.use_lowercase {
        "abcdefghijklmnopqrstuvwxyz"@
    } else {
        Seq::<char>::empty()
    }) + (if options.use_special_chars {
        "!?#"@
    } else {
        Seq::<char>::empty()
    }) + (if options.use_uppercase {
        "ABCDEFGHIJKLMNOPQRSTUVWXYZ"@
    } else {
        Seq::<char>::empty()
    })
}

/// The character set of the default configuration: all four classes.
pub open spec fn default_char_set() -> Seq<char> {
    "123456789"@ + "abcdefghijklmnopqrstuvwxyz"@ + "!?#"@ + "ABCDEFGHIJKLMNOPQRSTUVWXYZ"@
}

/// The character set of a configuration is empty exactly when every
/// class is switched off: each class contributes at least one character.
pub proof fn lemma_char_set_empty_iff_no_class(options: PassOptions)
    ensures
        char_set_spec(options).len() == 0 <==> (!options.use_digits && !options.use_lowercase
            && !options.use_special_chars && !options.use_uppercase),
{
    reveal_strlit("123456789");
    reveal_strlit("abcdefghijklmnopqrstuvwxyz");
    reveal_strlit("!?#");
    reveal_strlit("ABCDEFGHIJKLMNOPQRSTUVWXYZ");
}

impl PassOptions {
    pub fn new(
        length: u8,
        use_digits: bool,
        use_lowercase: bool,
        use_special_chars: bool,
        use_uppercase: bool,
    ) -> (r: Self)
        ensures
            r == (PassOptions { length, use_digits, use_lowercase, use_special_chars, use_uppercase }),
    {
        Self { length, use_digits, use_lowercase, use_special_chars, use_uppercase }
    }

    /// Like `new`, but with the default length of 16.
    pub fn with_default_length(
        use_digits: bool,
        use_lowercase: bool,
        use_special_chars: bool,
        use_uppercase: bool,
    ) -> (r: Self)
        ensures
            r == (PassOptions {
                length: 16u8,
                use_digits,
                use_lowercase,
                use_special_chars,
                use_uppercase,
            }),
    {
        Self { length: 16, use_digits, use_lowercase, use_special_chars, use_uppercase }
    }

    /// The character set these options select, assembled class by class.
    pub fn get_character_set(&self) -> (character_set: String)
        ensures
            character_set@ == char_set_spec(*self),
    {
        let mut character_set = String::new();

        if self.use_digits {
            character_set.append("123456789");
        }

        if self.use_lowercase {
            character_set.append("abcdefghijklmnopqrstuvwxyz");
        }

        if self.use_special_chars {
            character_set.append("!?#");
        }

        if self.use_uppercase {
            character_set.append("ABCDEFGHIJKLMNOPQRSTUVWXYZ");
        }

        assert(character_set@ =~= char_set_spec(*self));
        character_set
    }
}

impl Default for PassOptions {
    /// Length 16, with every character class enabled.
    fn default() -> (r: Self)
        ensures
            r == (PassOptions {
                length: 16u8,
                use_digits: true,
                use_lowercase: true,
                use_special_chars: true,
                use_uppercase: true,
            }),
    {
        PassOptions {
            length: 16,
            use_digits: true,
            use_lowercase: true,
            use_special_chars: true,
            use_uppercase: true,
        }
    }
}

/// Relies on random_string::generate: the result is `length` characters,
/// each drawn from `charset`. It panics on an empty charset, so one is
/// required here; which characters come back depends on the randomness
/// source, so nothing more is stated of them.
#[verifier::external_body]
fn random_from_charset(length: usize, charset: &str) -> (r: String)
    requires
        charset@.len() > 0,
    ensures
        r@.len() == length as nat,
        forall|i: int| 0 <= i < r@.len() ==> charset@.contains(#[trigger] r@[i]),
{
    random_string::generate(length, charset)
}

/// Generates a password.
///
/// Depending on the `options` the password may contain the following:
/// - lowercase letters
/// - uppercase letters
/// - digits
/// - special characters
///
/// The options can also specify a preferred password length.
/// Returns `None` if the criteria in the options are all false.
pub fn gen_pass(pass_options: PassOptions) -> (r: Option<String>)
    ensures
        r is Some <==> (pass_options.use_digits || pass_options.use_lowercase
            || pass_options.use_special_chars || pass_options.use_uppercase),
        r is Some ==> r.unwrap()@.len() == pass_options.length as nat,
        r is Some ==> forall|i: int|
            0 <= i < r.unwrap()@.len() ==> char_set_spec(pass_options).contains(
                #[trigger] r.unwrap()@[i],
            ),
{
    let character_set = pass_options.get_character_set();

    proof {
        lemma_char_set_empty_iff_no_class(pass_options);
    }

    if character_set.as_str().is_empty() {
        None
    } else {
        Some(random_from_charset(pass_options.length as usize, character_set.as_str()))
    }
}

/// Generates a password with the default options: 16 characters drawn
/// from the union of all four character classes. Unlike `gen_pass` it
/// cannot fail, since that character set is never empty.
pub fn gen_pass_default() -> (r: String)
    ensures
        r@.len() == 16,
        forall|i: int| 0 <= i < r@.len() ==> default_char_set().contains(#[trigger] r@[i]),
{
    let options = PassOptions::default();
    proof {
        assert(char_set_spec(options) =~= default_char_set());
    }
    let pass = gen_pass(options);
    pass.unwrap()
}

} // verus!
