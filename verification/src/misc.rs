//! Small text helpers used when a reconciliation outcome is turned into a
//! human-readable report.

use vstd::prelude::*;
use vstd::string::StringExecFns;

verus! {

/// The mention form of a username: `@` followed by the username itself.
pub open spec fn spec_mention(username: Seq<char>) -> Seq<char> {
    "@"@ + username
}

/// Returns `@username` when the account exposes a username, and the given
/// fallback text when it does not.
pub fn create_username_or_default<'a>(default: &'a str, username: Option<&'a String>) -> (r:
    String)
    ensures
        match username {
            Some(u) => r@ == spec_mention(u@),
            None => r@ == default@,
        },
{
    match username {
        Some(u) => String::from_str("@").concat(u.as_str()),
        None => String::from_str(default),
    }
}

/// Text that can prefix a report line: it is followed by a comma and a space
/// exactly when it is non-empty.
pub trait FormatArgument {
    /// Returns the text followed by `", "` when it is non-empty, and the
    /// empty text unchanged.
    fn end_with_comma_if_not_empty(&self) -> (r: String)
        ensures
            self.format_argument_view().len() > 0 ==> r@ == self.format_argument_view() + ", "@,
            self.format_argument_view().len() == 0 ==> r@ == self.format_argument_view(),
    ;

    /// The character sequence the formatting promise speaks of.
    spec fn format_argument_view(&self) -> Seq<char>;
}

impl FormatArgument for String {
    fn end_with_comma_if_not_empty(&self) -> (r: String)
    {
        if !self.as_str().is_empty() {
            self.clone().concat(", ")
        } else {
            self.clone()
        }
    }

    open spec fn format_argument_view(&self) -> Seq<char> {
        self@
    }
}

} // verus!
