use vstd::prelude::*;
use vstd::string::StringExecFns;

verus! {

/// The two password entries disagreed, or the password is blank.
#[derive(Clone, Copy, PartialEq, Eq, Structural, Debug)]
pub struct PasswordError;

impl PasswordError {
    /// The diagnostic text for this error.
    pub fn message(&self) -> (r: String)
        ensures
            r@ == "invalid password"@,
    {
        String::from_str("invalid password")
    }
}

/// `s` with leading and trailing whitespace removed. What counts as whitespace
/// is settled by the characters alone, so the result is a function of `s`.
pub uninterp spec fn spec_trimmed(s: Seq<char>) -> Seq<char>;

/// Relies on str::trim: returns the string with leading and trailing
/// whitespace removed, a function of the characters alone.
#[verifier::external_body]
fn trim(s: &str) -> (r: &str)
    ensures
        r@ == spec_trimmed(s@),
{
    s.trim()
}

/// Accept a password entered twice: the entries must agree and the password
/// must not be blank (empty once trimmed of whitespace).
pub fn validate_password(password1: &String, password2: &String) -> (r: Result<
    String,
    PasswordError,
>)
    ensures
        (r is Ok) <==> (password1@ == password2@ && spec_trimmed(password1@).len() != 0),
        r is Ok ==> r->Ok_0@ == password1@,
{
    if !password1.eq(password2) {
        return Err(PasswordError);
    }
    let trimmed = trim(password1.as_str());
    if trimmed.is_empty() {
        return Err(PasswordError);
    }
    Ok(password1.clone())
}

} // verus!
