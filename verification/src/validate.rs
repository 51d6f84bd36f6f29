//! Form validators: every rule is evaluated and every violation reported.

use crate::models::AuthError;
use crate::models::UserLoginForm;
use crate::models::UserRegisterForm;
use regex::Regex;
use vstd::prelude::*;
use vstd::utf8::*;

verus! {

/// What searching `text` for the regular expression `pattern` gives with the
/// `regex` crate: `None` where the pattern does not compile, else whether
/// the pattern matches somewhere in the text.
pub uninterp spec fn regex_search(pattern: Seq<char>, text: Seq<char>) -> Option<bool>;

/// A display name from its first character to its last: one or more
/// Cyrillic or Latin letters, spaces and hyphens, and nothing else. The
/// letters `Ё` and `ё` lie outside the range from `А` to `я` and are named
/// on their own.
pub const NAME_PATTERN: &'static str = "^[А-Яа-яЁёA-Za-z -]+$";

/// A login or a password from its first character to its last: one or more
/// Cyrillic or Latin letters, digits and marks of a fixed set, and nothing
/// else.
pub const LOGIN_PATTERN: &'static str = "^[А-Яа-яA-Za-z0-9\\-_()*&^%$#@!+=/,.{}\\[\\]]+$";

/// Longest display name and longest login, in bytes.
pub const MAX_NAME_BYTES: usize = 128;

/// Shortest password, in bytes.
pub const MIN_PASSWORD_BYTES: usize = 8;

/// Longest password, in bytes.
pub const MAX_PASSWORD_BYTES: usize = 256;

/// Compiles `pattern` with `regex::Regex::new` and searches `text` with
/// `Regex::is_match`.
///
/// Trusted: the result is the one named by [`regex_search`], a function of
/// the pattern and the text alone; a pattern that is refused gives `None`.
#[verifier::external_body]
pub(crate) fn search(pattern: &str, text: &str) -> (found: Option<bool>)
    ensures
        found == regex_search(pattern@, text@),
{
    match Regex::new(pattern) {
        Ok(re) => Some(re.is_match(text)),
        Err(_) => None,
    }
}

/// A text is accepted by a pattern where the pattern compiles and matches
/// in the text. The patterns of this module are anchored at both ends, so
/// that they match the whole text or nothing: a text is accepted where it is
/// not empty and every character of it is in the pattern's set.
pub open spec fn accepted_by(pattern: Seq<char>, text: Seq<char>) -> bool {
    regex_search(pattern, text) == Some(true)
}

/// The length of a text in bytes of its UTF-8 encoding.
pub open spec fn byte_len(text: Seq<char>) -> nat {
    encode_utf8(text).len()
}

/// The rule for a display name at registration.
pub open spec fn name_ok(name: Seq<char>) -> bool {
    byte_len(name) <= MAX_NAME_BYTES && accepted_by(NAME_PATTERN@, name)
}

/// The rule for a login at registration.
pub open spec fn login_ok(login: Seq<char>) -> bool {
    byte_len(login) <= MAX_NAME_BYTES && accepted_by(LOGIN_PATTERN@, login)
}

/// The rule for a password at registration.
pub open spec fn password_ok(password: Seq<char>) -> bool {
    MIN_PASSWORD_BYTES <= byte_len(password) <= MAX_PASSWORD_BYTES && accepted_by(
        LOGIN_PATTERN@,
        password,
    )
}

/// The tag `tag` if `violated`, else nothing.
pub open spec fn tag_if(violated: bool, tag: AuthError) -> Seq<AuthError> {
    if violated {
        seq![tag]
    } else {
        Seq::empty()
    }
}

/// The violations of a registration, given which rules failed.
pub open spec fn register_violations(
    name_bad: bool,
    login_bad: bool,
    login_taken: bool,
    password_bad: bool,
) -> Seq<AuthError> {
    tag_if(name_bad, AuthError::BadName) + tag_if(login_bad, AuthError::BadLogin) + tag_if(
        login_taken,
        AuthError::AlreadyExists,
    ) + tag_if(password_bad, AuthError::BadPassword)
}

/// The violations of a login attempt, given which rules failed.
pub open spec fn login_violations(login_bad: bool, password_bad: bool) -> Seq<AuthError> {
    tag_if(login_bad, AuthError::BadLogin) + tag_if(password_bad, AuthError::BadPassword)
}

/// The violations of a registration form, given whether its login is taken.
pub open spec fn register_form_violations(
    login: Seq<char>,
    name: Seq<char>,
    password: Seq<char>,
    login_taken: bool,
) -> Seq<AuthError> {
    register_violations(!name_ok(name), !login_ok(login), login_taken, !password_ok(password))
}

/// The violations of a login form.
pub open spec fn login_form_violations(login: Seq<char>, password: Seq<char>) -> Seq<AuthError> {
    login_violations(!accepted_by(LOGIN_PATTERN@, login), !accepted_by(LOGIN_PATTERN@, password))
}

/// Whether `text` is accepted by `pattern`.
pub fn is_accepted(pattern: &str, text: &str) -> (ok: bool)
    ensures
        ok == accepted_by(pattern@, text@),
{
    match search(pattern, text) {
        Some(found) => found,
        None => false,
    }
}

/// Gathers the tags of the registration rules that failed, each rule on its
/// own.
pub fn collect_register_violations(
    name_bad: bool,
    login_bad: bool,
    login_taken: bool,
    password_bad: bool,
) -> (tags: Vec<AuthError>)
    ensures
        tags@ == register_violations(name_bad, login_bad, login_taken, password_bad),
{
    let mut tags: Vec<AuthError> = Vec::new();
    if name_bad {
        tags.push(AuthError::BadName);
    }
    if login_bad {
        tags.push(AuthError::BadLogin);
    }
    if login_taken {
        tags.push(AuthError::AlreadyExists);
    }
    if password_bad {
        tags.push(AuthError::BadPassword);
    }
    assert(tags@ =~= register_violations(name_bad, login_bad, login_taken, password_bad));
    tags
}

/// Gathers the tags of the login rules that failed, each rule on its own.
pub fn collect_login_violations(login_bad: bool, password_bad: bool) -> (tags: Vec<AuthError>)
    ensures
        tags@ == login_violations(login_bad, password_bad),
{
    let mut tags: Vec<AuthError> = Vec::new();
    if login_bad {
        tags.push(AuthError::BadLogin);
    }
    if password_bad {
        tags.push(AuthError::BadPassword);
    }
    assert(tags@ =~= login_violations(login_bad, password_bad));
    tags
}

/// Checks a registration form against the rules on its three fields and
/// against `login_taken`, the outcome of looking the login up. Returns `Ok`
/// where no rule is violated, else every violated rule's tag.
pub fn check_register_form(form: &UserRegisterForm, login_taken: bool) -> (outcome: Result<
    (),
    Vec<AuthError>,
>)
    ensures
        outcome is Ok <==> register_form_violations(
            form.login@,
            form.name@,
            form.password@,
            login_taken,
        ).len() == 0,
        outcome is Err ==> outcome->Err_0@ == register_form_violations(
            form.login@,
            form.name@,
            form.password@,
            login_taken,
        ),
{
    let name_bad = form.name.as_str().as_bytes().len() > MAX_NAME_BYTES || !is_accepted(
        NAME_PATTERN,
        form.name.as_str(),
    );
    let login_bad = form.login.as_str().as_bytes().len() > MAX_NAME_BYTES || !is_accepted(
        LOGIN_PATTERN,
        form.login.as_str(),
    );
    let password_bad = form.password.as_str().as_bytes().len() > MAX_PASSWORD_BYTES
        || form.password.as_str().as_bytes().len() < MIN_PASSWORD_BYTES || !is_accepted(
        LOGIN_PATTERN,
        form.password.as_str(),
    );
    let tags = collect_register_violations(name_bad, login_bad, login_taken, password_bad);
    if tags.len() > 0 {
        Err(tags)
    } else {
        Ok(())
    }
}

/// Checks a login form: both fields against the character rule, with no rule
/// on length. Returns `Ok` where no rule is violated, else every violated
/// rule's tag.
pub fn validate_login_form(form: &UserLoginForm) -> (outcome: Result<(), Vec<AuthError>>)
    ensures
        outcome is Ok <==> login_form_violations(form.login@, form.password@).len() == 0,
        outcome is Err ==> outcome->Err_0@ == login_form_violations(form.login@, form.password@),
{
    let login_bad = !is_accepted(LOGIN_PATTERN, form.login.as_str());
    let password_bad = !is_accepted(LOGIN_PATTERN, form.password.as_str());
    let tags = collect_login_violations(login_bad, password_bad);
    if tags.len() > 0 {
        Err(tags)
    } else {
        Ok(())
    }
}

} // verus!
