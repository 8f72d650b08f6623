use vstd::prelude::*;
use vstd::string::StrSliceExecFns;
use vstd::string::StringExecFns;

verus! {

/// Strength of a password, ordered from weakest to strongest.
///
/// A password earns one point for each of five conditions it meets
/// (length over ten characters, and containing a lowercase letter, an
/// uppercase letter, a digit, and one of the special characters `?`,
/// `!`, `@`); the score picks the level.
#[derive(Debug, PartialEq, Eq, Structural)]
pub enum PassStrength {
    VeryWeak,
    Weak,
    Medium,
    Strong,
    VeryStrong,
}

/// Whether the platform's Unicode-aware test considers `c` a lowercase letter.
pub uninterp spec fn is_lowercase_char(c: char) -> bool;

/// Whether the platform's Unicode-aware test considers `c` an uppercase letter.
pub uninterp spec fn is_uppercase_char(c: char) -> bool;

/// Whether the platform's Unicode-aware test considers `c` numeric.
pub uninterp spec fn is_numeric_char(c: char) -> bool;

/// Relies on char::is_lowercase: whether `c` has the Unicode property
/// Lowercase, a function of the character alone.
#[verifier::external_body]
fn char_is_lowercase(c: char) -> (r: bool)
    ensures
        r == is_lowercase_char(c),
{
    c.is_lowercase()
}

/// Relies on char::is_uppercase: whether `c` has the Unicode property
/// Uppercase, a function of the character alone.
#[verifier::external_body]
fn char_is_uppercase(c: char) -> (r: bool)
    ensures
        r == is_uppercase_char(c),
{
    c.is_uppercase()
}

/// Relies on char::is_numeric: whether `c` has a Unicode numeric
/// general category, a function of the character alone.
#[verifier::external_body]
fn char_is_numeric(c: char) -> (r: bool)
    ensures
        r == is_numeric_char(c),
{
    c.is_numeric()
}

/// The three characters the checker counts as special: `?`, `!`, `@`.
/// (The generator's special class is `!`, `?`, `#` — the two sets
/// differ on purpose.)
pub open spec fn is_special_char(c: char) -> bool {
    c == '?' || c == '!' || c == '@'
}

pub open spec fn has_lowercase(s: Seq<char>) -> bool {
    exists|i: int| 0 <= i < s.len() && is_lowercase_char(s[i])
}

pub open spec fn has_uppercase(s: Seq<char>) -> bool {
    exists|i: int| 0 <= i < s.len() && is_uppercase_char(s[i])
}

pub open spec fn has_numeric(s: Seq<char>) -> bool {
    exists|i: int| 0 <= i < s.len() && is_numeric_char(s[i])
}

pub open spec fn has_special(s: Seq<char>) -> bool {
    exists|i: int| 0 <= i < s.len() && is_special_char(s[i])
}

fn contains_lowercase(pass: &str) -> (r: bool)
    ensures
        r == has_lowercase(pass@),
{
    let n = pass.unicode_len();
    let mut i: usize = 0;
    while i < n
        invariant
            n == pass@.len(),
            i <= n,
            forall|j: int| 0 <= j < i ==> !is_lowercase_char(pass@[j]),
        decreases n - i,
    {
        if char_is_lowercase(pass.get_char(i)) {
            assert(has_lowercase(pass@));
            return true;
        }
        i += 1;
    }
    false
}

fn contains_uppercase(pass: &str) -> (r: bool)
    ensures
        r == has_uppercase(pass@),
{
    let n = pass.unicode_len();
    let mut i: usize = 0;
    while i < n
        invariant
            n == pass@.len(),
            i <= n,
            forall|j: int| 0 <= j < i ==> !is_uppercase_char(pass@[j]),
        decreases n - i,
    {
        if char_is_uppercase(pass.get_char(i)) {
            assert(has_uppercase(pass@));
            return true;
        }
        i += 1;
    }
    false
}

fn contains_numeric(pass: &str) -> (r: bool)
    ensures
        r == has_numeric(pass@),
{
    let n = pass.unicode_len();
    let mut i: usize = 0;
    while i < n
        invariant
            n == pass@.len(),
            i <= n,
            forall|j: int| 0 <= j < i ==> !is_numeric_char(pass@[j]),
        decreases n - i,
    {
        if char_is_numeric(pass.get_char(i)) {
            assert(has_numeric(pass@));
            return true;
        }
        i += 1;
    }
    false
}

fn contains_special(pass: &str) -> (r: bool)
    ensures
        r == has_special(pass@),
{
    let n = pass.unicode_len();
    let mut i: usize = 0;
    while i < n
        invariant
            n == pass@.len(),
            i <= n,
            forall|j: int| 0 <= j < i ==> !is_special_char(pass@[j]),
        decreases n - i,
    {
        let c = pass.get_char(i);
        if c == '?' || c == '!' || c == '@' {
            assert(has_special(pass@));
            return true;
        }
        i += 1;
    }
    false
}

/// The point score of a password: zero for the empty string, otherwise
/// one point per condition met.
pub open spec fn strength_points_spec(s: Seq<char>) -> int {
    if s.len() == 0 {
        0
    } else {
        (if s.len() > 10 {
            1int
        } else {
            0
        }) + (if has_lowercase(s) {
            1int
        } else {
            0
        }) + (if has_uppercase(s) {
            1int
        } else {
            0
        }) + (if has_numeric(s) {
            1int
        } else {
            0
        }) + (if has_special(s) {
            1int
        } else {
            0
        })
    }
}

/// Maps a point score to a strength level: 0 or 1 is very weak, 2 weak,
/// 3 medium, 4 strong, anything higher very strong.
pub open spec fn strength_of_points(points: int) -> PassStrength {
    if points <= 1 {
        PassStrength::VeryWeak
    } else if points == 2 {
        PassStrength::Weak
    } else if points == 3 {
        PassStrength::Medium
    } else if points == 4 {
        PassStrength::Strong
    } else {
        PassStrength::VeryStrong
    }
}

/// The strength level of a password, as a function of its characters alone.
pub open spec fn classify_spec(s: Seq<char>) -> PassStrength {
    strength_of_points(strength_points_spec(s))
}

/// Classification is a total, deterministic function of the password's
/// characters: two passwords with the same characters classify alike.
pub proof fn lemma_classify_deterministic(s1: Seq<char>, s2: Seq<char>)
    requires
        s1 == s2,
    ensures
        classify_spec(s1) == classify_spec(s2),
{
}

/// Counts how many of the five strength conditions `pass` meets; an
/// empty password scores zero outright.
pub fn calculate_strength_points(pass: &str) -> (points: u8)
    ensures
        points as int == strength_points_spec(pass@),
{
    if pass.is_empty() {
        0
    } else {
        let mut points: u8 = 0;

        if pass.unicode_len() > 10 {
            points += 1;
        }

        if contains_lowercase(pass) {
            points += 1;
        }

        if contains_uppercase(pass) {
            points += 1;
        }

        if contains_numeric(pass) {
            points += 1;
        }

        if contains_special(pass) {
            points += 1;
        }

        points
    }
}

impl From<u8> for PassStrength {
    fn from(points: u8) -> PassStrength {
        match points {
            0 | 1 => PassStrength::VeryWeak,
            2 => PassStrength::Weak,
            3 => PassStrength::Medium,
            4 => PassStrength::Strong,
            _ => PassStrength::VeryStrong,
        }
    }
}

impl vstd::std_specs::convert::FromSpecImpl<u8> for PassStrength {
    open spec fn obeys_from_spec() -> bool {
        true
    }

    open spec fn from_spec(points: u8) -> PassStrength {
        strength_of_points(points as int)
    }
}

/// Checks the strength of `pass` and returns it.
///
/// `check_pass` looks for the following when checking the strength of `pass`:
/// - length of `pass` (greater than 10 characters)
/// - contains lower case letters
/// - contains upper case letters
/// - contains digits
/// - contains special characters
pub fn check_pass(pass: &str) -> (strength: PassStrength)
    ensures
        strength == classify_spec(pass@),
{
    let strength_points = calculate_strength_points(pass);

    PassStrength::from(strength_points)
}

/// The canonical lowercase label of each strength level.
pub open spec fn strength_label_spec(strength: PassStrength) -> Seq<char> {
    match strength {
        PassStrength::VeryWeak => "very weak"@,
        PassStrength::Weak => "weak"@,
        PassStrength::Medium => "medium"@,
        PassStrength::Strong => "strong"@,
        PassStrength::VeryStrong => "very strong"@,
    }
}

impl PassStrength {
    /// The human-readable label of this strength level.
    pub fn label(&self) -> (r: String)
        ensures
            r@ == strength_label_spec(*self),
    {
        match self {
            PassStrength::VeryWeak => String::from_str("very weak"),
            PassStrength::Weak => String::from_str("weak"),
            PassStrength::Medium => String::from_str("medium"),
            PassStrength::Strong => String::from_str("strong"),
            PassStrength::VeryStrong => String::from_str("very strong"),
        }
    }
}

} // verus!
