use vstd::prelude::*;
use crate::errors::{AppError, ErrorSpec};

verus! {

/// An outcome with its error taken as a mathematical value.
pub open spec fn outcome_view<T>(r: Result<T, AppError>) -> Result<T, ErrorSpec> {
    match r {
        Ok(v) => Ok(v),
        Err(e) => Err(e@),
    }
}

// ---------------------------------------------------------------------------
// Character classes (std's Unicode-aware predicates)
// ---------------------------------------------------------------------------

/// Whether `c` has the Unicode `Uppercase` property (`char::is_uppercase`).
pub uninterp spec fn char_is_uppercase(c: char) -> bool;

/// Whether `c` has the Unicode `Lowercase` property (`char::is_lowercase`).
pub uninterp spec fn char_is_lowercase(c: char) -> bool;

/// Whether `c` is alphabetic or numeric in Unicode (`char::is_alphanumeric`).
pub uninterp spec fn char_is_alphanumeric(c: char) -> bool;

/// `char::is_uppercase`: its result is named, not stated, since it follows
/// the Unicode character database.
#[verifier::external_body]
fn is_uppercase(c: char) -> (r: bool)
    ensures
        r == char_is_uppercase(c),
{
    c.is_uppercase()
}

/// `char::is_lowercase`: its result is named, as for `is_uppercase`.
#[verifier::external_body]
fn is_lowercase(c: char) -> (r: bool)
    ensures
        r == char_is_lowercase(c),
{
    c.is_lowercase()
}

/// `char::is_alphanumeric`: its result is named, as for `is_uppercase`.
#[verifier::external_body]
fn is_alphanumeric(c: char) -> (r: bool)
    ensures
        r == char_is_alphanumeric(c),
{
    c.is_alphanumeric()
}

/// `char::is_ascii_digit`: true exactly for `'0'..='9'`, as its documentation says.
#[verifier::external_body]
fn is_ascii_digit(c: char) -> (r: bool)
    ensures
        r == ('0' <= c <= '9'),
{
    c.is_ascii_digit()
}

// ---------------------------------------------------------------------------
// Regular expressions (regex crate)
// ---------------------------------------------------------------------------

#[verifier::external_type_specification]
#[verifier::external_body]
pub struct ExRegexError(regex::Error);

/// Whether `pattern` compiles as a regular expression of the regex crate.
pub uninterp spec fn regex_compiles(pattern: Seq<char>) -> bool;

/// Whether the compiled `pattern` matches somewhere in `text`.
pub uninterp spec fn regex_matches(pattern: Seq<char>, text: Seq<char>) -> bool;

/// `regex::Regex::new(pattern)` followed by `Regex::is_match(text)`. The contract
/// names both results: compilation succeeds exactly when `regex_compiles`,
/// and the match result is `regex_matches`. For the pattern
/// `^[a-zA-Z0-9_]+$` and for the email pattern it states the match set, as
/// the crate's syntax defines it: `^` and `$` anchor at the start and end of
/// the text (no multi-line mode), a bracket class holds the ASCII ranges and
/// the characters it lists, `\.` is a literal dot, and `+` and `{2,}` repeat
/// at least once and twice; other patterns are not stated further.
#[verifier::external_body]
fn regex_is_match(pattern: &str, text: &str) -> (r: Result<bool, regex::Error>)
    ensures
        r is Ok <==> regex_compiles(pattern@),
        r matches Ok(b) ==> b == regex_matches(pattern@, text@),
        r is Err ==> pattern@ != "^[a-zA-Z0-9_]+$"@,
        r matches Ok(b) ==> (pattern@ == "^[a-zA-Z0-9_]+$"@ ==> b == username_chars(text@)),
        r is Err ==> pattern@ != "^[a-zA-Z0-9._%+-]+@[a-zA-Z0-9.-]+\\.[a-zA-Z]{2,}$"@,
        r matches Ok(b) ==> (pattern@ == "^[a-zA-Z0-9._%+-]+@[a-zA-Z0-9.-]+\\.[a-zA-Z]{2,}$"@ ==> b
            == email_shape(text@)),
{
    match regex::Regex::new(pattern) {
        Ok(re) => Ok(re.is_match(text)),
        Err(e) => Err(e),
    }
}

/// Pattern that a well-formed email address matches.
pub const EMAIL_PATTERN: &'static str = "^[a-zA-Z0-9._%+-]+@[a-zA-Z0-9.-]+\\.[a-zA-Z]{2,}$";

/// Pattern that a well-formed username matches.
pub const USERNAME_PATTERN: &'static str = "^[a-zA-Z0-9_]+$";

// ---------------------------------------------------------------------------
// Email
// ---------------------------------------------------------------------------

/// What email validation answers, given whether the pattern compiled and
/// matched (`None` when it did not compile) and the address's length in
/// characters.
pub open spec fn email_verdict(matched: Option<bool>, len: nat) -> Result<(), ErrorSpec> {
    match matched {
        None => Err(ErrorSpec::InternalError("Regex compilation failed"@)),
        Some(false) => Err(ErrorSpec::ValidationError("Invalid email format"@)),
        Some(true) => if len > 254 {
            Err(ErrorSpec::ValidationError("Email too long (max 254 characters)"@))
        } else {
            Ok(())
        },
    }
}

/// Whether `c` is an ASCII letter or digit.
pub open spec fn is_ascii_alnum(c: char) -> bool {
    ('a' <= c <= 'z') || ('A' <= c <= 'Z') || ('0' <= c <= '9')
}

/// Whether `c` may stand before the `@` of an address.
pub open spec fn is_email_local_char(c: char) -> bool {
    is_ascii_alnum(c) || c == '.' || c == '_' || c == '%' || c == '+' || c == '-'
}

/// Whether `c` may stand in the domain of an address, before its last part.
pub open spec fn is_email_domain_char(c: char) -> bool {
    is_ascii_alnum(c) || c == '.' || c == '-'
}

/// Whether `s` splits at `at` and `dot` into a non-empty local part, `@`, a
/// non-empty domain, `.` and a last part of at least two ASCII letters.
pub open spec fn email_shape_at(s: Seq<char>, at: int, dot: int) -> bool {
    &&& 1 <= at
    &&& at + 1 < dot
    &&& dot + 3 <= s.len()
    &&& s[at] == '@'
    &&& s[dot] == '.'
    &&& forall|i: int| 0 <= i < at ==> is_email_local_char(#[trigger] s[i])
    &&& forall|i: int| at < i < dot ==> is_email_domain_char(#[trigger] s[i])
    &&& forall|i: int| dot < i < s.len() ==> ('a' <= #[trigger] s[i] <= 'z') || ('A' <= s[i] <= 'Z')
}

/// Whether `s` matches the email pattern.
pub open spec fn email_shape(s: Seq<char>) -> bool {
    exists|at: int, dot: int| #[trigger] email_shape_at(s, at, dot)
}

/// The email rule over a whole address: it has the shape of an address and
/// at most 254 characters.
pub open spec fn email_rule(email: Seq<char>) -> Result<(), ErrorSpec> {
    email_verdict(Some(email_shape(email)), email.len())
}

/// The email rule applied to the outcome of the pattern match and the
/// address's length in characters.
pub fn check_email_match(matched: Option<bool>, len: usize) -> (r: Result<(), AppError>)
    ensures
        outcome_view(r) == email_verdict(matched, len as nat),
{
    match matched {
        None => Err(AppError::InternalError(String::from_str("Regex compilation failed"))),
        Some(false) => Err(AppError::ValidationError(String::from_str("Invalid email format"))),
        Some(true) => if len > 254 {
            Err(AppError::ValidationError(String::from_str("Email too long (max 254 characters)")))
        } else {
            Ok(())
        },
    }
}

/// Validates email format.
pub fn validate_email(email: &str) -> (r: Result<(), AppError>)
    ensures
        outcome_view(r) == email_rule(email@),
{
    let matched = match regex_is_match(EMAIL_PATTERN, email) {
        Ok(b) => Some(b),
        Err(_) => None,
    };
    check_email_match(matched, email.unicode_len())
}

// ---------------------------------------------------------------------------
// Password
// ---------------------------------------------------------------------------

/// Whether some character of `s` satisfies the named class.
pub open spec fn has_uppercase(s: Seq<char>) -> bool {
    exists|i: int| 0 <= i < s.len() && char_is_uppercase(#[trigger] s[i])
}

pub open spec fn has_lowercase(s: Seq<char>) -> bool {
    exists|i: int| 0 <= i < s.len() && char_is_lowercase(#[trigger] s[i])
}

pub open spec fn has_digit(s: Seq<char>) -> bool {
    exists|i: int| 0 <= i < s.len() && '0' <= #[trigger] s[i] <= '9'
}

pub open spec fn has_special(s: Seq<char>) -> bool {
    exists|i: int| 0 <= i < s.len() && !char_is_alphanumeric(#[trigger] s[i])
}

/// What password validation answers, given the password's length in
/// characters and which classes of characters it holds.
pub open spec fn password_verdict(
    len: nat,
    upper: bool,
    lower: bool,
    digit: bool,
    special: bool,
) -> Result<(), ErrorSpec> {
    if len < 8 {
        Err(ErrorSpec::ValidationError("Password must be at least 8 characters long"@))
    } else if len > 128 {
        Err(ErrorSpec::ValidationError("Password too long (max 128 characters)"@))
    } else if !upper {
        Err(ErrorSpec::ValidationError("Password must contain at least one uppercase letter"@))
    } else if !lower {
        Err(ErrorSpec::ValidationError("Password must contain at least one lowercase letter"@))
    } else if !digit {
        Err(ErrorSpec::ValidationError("Password must contain at least one digit"@))
    } else if !special {
        Err(ErrorSpec::ValidationError("Password must contain at least one special character"@))
    } else {
        Ok(())
    }
}

/// The password rule over a whole password: 8 to 128 characters, with an
/// uppercase letter, a lowercase letter, a digit and a special character.
pub open spec fn password_rule(p: Seq<char>) -> Result<(), ErrorSpec> {
    password_verdict(p.len(), has_uppercase(p), has_lowercase(p), has_digit(p), has_special(p))
}

/// The password rule applied to a password's length in characters and the
/// classes of characters found in it.
pub fn check_password_strength(
    len: usize,
    upper: bool,
    lower: bool,
    digit: bool,
    special: bool,
) -> (r: Result<(), AppError>)
    ensures
        outcome_view(r) == password_verdict(len as nat, upper, lower, digit, special),
{
    if len < 8 {
        return Err(
            AppError::ValidationError(String::from_str("Password must be at least 8 characters long")),
        );
    }
    if len > 128 {
        return Err(
            AppError::ValidationError(String::from_str("Password too long (max 128 characters)")),
        );
    }
    if !upper {
        return Err(
            AppError::ValidationError(
                String::from_str("Password must contain at least one uppercase letter"),
            ),
        );
    }
    if !lower {
        return Err(
            AppError::ValidationError(
                String::from_str("Password must contain at least one lowercase letter"),
            ),
        );
    }
    if !digit {
        return Err(
            AppError::ValidationError(String::from_str("Password must contain at least one digit")),
        );
    }
    if !special {
        return Err(
            AppError::ValidationError(
                String::from_str("Password must contain at least one special character"),
            ),
        );
    }
    Ok(())
}

/// Validates password strength.
/// Rules: min 8 chars, at least 1 uppercase, 1 lowercase, 1 digit, 1 special char.
pub fn validate_password(password: &str) -> (r: Result<(), AppError>)
    ensures
        outcome_view(r) == password_rule(password@),
{
    let n = password.unicode_len();
    let mut upper = false;
    let mut lower = false;
    let mut digit = false;
    let mut special = false;
    let mut i: usize = 0;
    while i < n
        invariant
            n == password@.len(),
            i <= n,
            upper == has_uppercase(password@.take(i as int)),
            lower == has_lowercase(password@.take(i as int)),
            digit == has_digit(password@.take(i as int)),
            special == has_special(password@.take(i as int)),
        decreases n - i,
    {
        let c = password.get_char(i);
        let ghost prev = password@.take(i as int);
        let ghost next = password@.take(i + 1);
        assert(next == prev.push(c));
        if is_uppercase(c) {
            upper = true;
        }
        if is_lowercase(c) {
            lower = true;
        }
        if is_ascii_digit(c) {
            digit = true;
        }
        if !is_alphanumeric(c) {
            special = true;
        }
        assert(upper == has_uppercase(next)) by {
            if has_uppercase(prev) {
                let k = choose|k: int| 0 <= k < prev.len() && char_is_uppercase(#[trigger] prev[k]);
                assert(next[k] == prev[k]);
            }
            if has_uppercase(next) {
                let k = choose|k: int| 0 <= k < next.len() && char_is_uppercase(#[trigger] next[k]);
                if k < prev.len() {
                    assert(prev[k] == next[k]);
                }
            }
            if char_is_uppercase(c) {
                assert(next[i as int] == c);
            }
        }
        assert(lower == has_lowercase(next)) by {
            if has_lowercase(prev) {
                let k = choose|k: int| 0 <= k < prev.len() && char_is_lowercase(#[trigger] prev[k]);
                assert(next[k] == prev[k]);
            }
            if has_lowercase(next) {
                let k = choose|k: int| 0 <= k < next.len() && char_is_lowercase(#[trigger] next[k]);
                if k < prev.len() {
                    assert(prev[k] == next[k]);
                }
            }
            if char_is_lowercase(c) {
                assert(next[i as int] == c);
            }
        }
        assert(digit == has_digit(next)) by {
            if has_digit(prev) {
                let k = choose|k: int| 0 <= k < prev.len() && '0' <= #[trigger] prev[k] <= '9';
                assert(next[k] == prev[k]);
            }
            if has_digit(next) {
                let k = choose|k: int| 0 <= k < next.len() && '0' <= #[trigger] next[k] <= '9';
                if k < prev.len() {
                    assert(prev[k] == next[k]);
                }
            }
            if '0' <= c <= '9' {
                assert(next[i as int] == c);
            }
        }
        assert(special == has_special(next)) by {
            if has_special(prev) {
                let k = choose|k: int| 0 <= k < prev.len() && !char_is_alphanumeric(#[trigger] prev[k]);
                assert(next[k] == prev[k]);
            }
            if has_special(next) {
                let k = choose|k: int| 0 <= k < next.len() && !char_is_alphanumeric(#[trigger] next[k]);
                if k < prev.len() {
                    assert(prev[k] == next[k]);
                }
            }
            if !char_is_alphanumeric(c) {
                assert(next[i as int] == c);
            }
        }
        i = i + 1;
    }
    assert(password@.take(n as int) == password@);
    check_password_strength(n, upper, lower, digit, special)
}

// ---------------------------------------------------------------------------
// Username
// ---------------------------------------------------------------------------

/// What username validation answers, given the name's length in characters and
/// whether the pattern compiled and matched (`None` when it did not compile).
pub open spec fn username_verdict(len: nat, matched: Option<bool>) -> Result<(), ErrorSpec> {
    if len < 3 {
        Err(ErrorSpec::ValidationError("Username must be at least 3 characters long"@))
    } else if len > 32 {
        Err(ErrorSpec::ValidationError("Username too long (max 32 characters)"@))
    } else {
        match matched {
            None => Err(ErrorSpec::InternalError("Regex compilation failed"@)),
            Some(false) => Err(
                ErrorSpec::ValidationError(
                    "Username can only contain letters, numbers, and underscores"@,
                ),
            ),
            Some(true) => Ok(()),
        }
    }
}

/// Whether `c` may stand in a username: an ASCII letter, digit or underscore.
pub open spec fn is_username_char(c: char) -> bool {
    ('a' <= c <= 'z') || ('A' <= c <= 'Z') || ('0' <= c <= '9') || c == '_'
}

/// Whether `s` matches the username pattern: it is not empty and holds only
/// username characters.
pub open spec fn username_chars(s: Seq<char>) -> bool {
    s.len() > 0 && forall|i: int| 0 <= i < s.len() ==> is_username_char(#[trigger] s[i])
}

/// The username rule over a whole name: 3 to 32 characters, each an ASCII
/// letter, digit or underscore.
pub open spec fn username_rule(username: Seq<char>) -> Result<(), ErrorSpec> {
    username_verdict(username.len(), Some(username_chars(username)))
}

/// The username rule applied to the name's length in characters and the outcome of the
/// pattern match.
pub fn check_username_match(len: usize, matched: Option<bool>) -> (r: Result<(), AppError>)
    ensures
        outcome_view(r) == username_verdict(len as nat, matched),
{
    if len < 3 {
        return Err(
            AppError::ValidationError(String::from_str("Username must be at least 3 characters long")),
        );
    }
    if len > 32 {
        return Err(
            AppError::ValidationError(String::from_str("Username too long (max 32 characters)")),
        );
    }
    match matched {
        None => Err(AppError::InternalError(String::from_str("Regex compilation failed"))),
        Some(false) => Err(
            AppError::ValidationError(
                String::from_str("Username can only contain letters, numbers, and underscores"),
            ),
        ),
        Some(true) => Ok(()),
    }
}

/// Validates username: alphanumeric + underscore, 3-32 chars.
pub fn validate_username(username: &str) -> (r: Result<(), AppError>)
    ensures
        outcome_view(r) == username_rule(username@),
{
    let len = username.unicode_len();
    if len < 3 || len > 32 {
        return check_username_match(len, Some(false));
    }
    let matched = match regex_is_match(USERNAME_PATTERN, username) {
        Ok(b) => Some(b),
        Err(_) => None,
    };
    check_username_match(len, matched)
}

} // verus!
