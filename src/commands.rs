//! The decisions of the archive commands: where to go, and what an answer
//! at a prompt means.
use vstd::prelude::*;
use vstd::string::{StrSliceExecFns, StringExecFns};

verus! {

/// The archive's address for `path`.
pub open spec fn spec_site_url(path: Seq<char>) -> Seq<char> {
    "https://archiveofourown.org"@ + path
}

/// The archive's address for `path` (which starts with `/`, or is empty for
/// the front page).
pub fn site_url(path: &str) -> (r: String)
    ensures
        r@ == spec_site_url(path@),
{
    let root = String::from_str("https://archiveofourown.org");
    root.concat(path)
}

/// Whether `s` holds `a` or `b`.
fn contains_either(s: &str, a: char, b: char) -> (r: bool)
    ensures
        r == (s@.contains(a) || s@.contains(b)),
{
    let n = s.unicode_len();
    let mut i: usize = 0;
    while i < n
        invariant
            n == s@.len(),
            i <= n,
            forall|j: int| 0 <= j < i ==> s@[j] != a && s@[j] != b,
        decreases n - i,
    {
        let c = s.get_char(i);
        if c == a || c == b {
            assert(s@[i as int] == c);
            return true;
        }
        i = i + 1;
    }
    false
}

/// Whether an answer to a question that defaults to yes says no: it holds an
/// `n` of either case.
pub fn answer_declines(answer: &str) -> (r: bool)
    ensures
        r == (answer@.contains('n') || answer@.contains('N')),
{
    contains_either(answer, 'n', 'N')
}

/// Whether an answer to a question that defaults to no says yes: it holds a
/// `y` of either case.
pub fn answer_confirms(answer: &str) -> (r: bool)
    ensures
        r == (answer@.contains('y') || answer@.contains('Y')),
{
    contains_either(answer, 'y', 'Y')
}

/// One step of logging in.
#[derive(Debug, Clone, Copy, PartialEq, Eq, Structural)]
pub enum LoginStep {
    /// Add the saved cookies to the session and reload.
    ApplySavedCookies,
    /// Ask whether the saved session is logged in; a "no" deletes the cookie file.
    ConfirmLoggedIn,
    /// Open the login form and focus its user field.
    OpenLoginForm,
    /// Wait until the user has logged in by hand.
    WaitForUser,
    /// Save the session's cookies to the cookie file.
    SaveCookies,
}

/// The steps of logging in: reuse a saved session when its cookies could be
/// read, else let the user log in and save the new session.
pub fn login_steps(saved_cookies: bool) -> (r: Vec<LoginStep>)
    ensures
        saved_cookies ==> r@ == seq![LoginStep::ApplySavedCookies, LoginStep::ConfirmLoggedIn],
        !saved_cookies ==> r@ == seq![
            LoginStep::OpenLoginForm,
            LoginStep::WaitForUser,
            LoginStep::SaveCookies,
        ],
{
    let mut r: Vec<LoginStep> = Vec::new();
    if saved_cookies {
        r.push(LoginStep::ApplySavedCookies);
        r.push(LoginStep::ConfirmLoggedIn);
        assert(r@ =~= seq![LoginStep::ApplySavedCookies, LoginStep::ConfirmLoggedIn]);
    } else {
        r.push(LoginStep::OpenLoginForm);
        r.push(LoginStep::WaitForUser);
        r.push(LoginStep::SaveCookies);
        assert(r@ =~= seq![LoginStep::OpenLoginForm, LoginStep::WaitForUser, LoginStep::SaveCookies]);
    }
    r
}

/// The options of the logout command.
#[derive(Debug, Clone, Copy, PartialEq, Eq, Structural)]
pub struct Ao3Logout {
    /// Keep the cookie file after logging out.
    pub keep: bool,
}

impl Ao3Logout {
    /// Whether logging out deletes the cookie file.
    pub fn deletes_cookie_file(&self) -> (r: bool)
        ensures
            r == !self.keep,
    {
        !self.keep
    }
}

} // verus!
