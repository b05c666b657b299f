//! Errors as the rest of the program reads them.

use vstd::prelude::*;

verus! {

/// An error of a request, of the disk or of the configuration, reduced to what
/// decisions and messages need of it.
#[derive(Debug, PartialEq, Eq)]
pub struct AppError {
    /// The full description, for the log.
    pub text: String,
    /// What the user is told.
    pub hint: String,
    /// The description that the music service itself gave, where it answered.
    pub api_message: Option<String>,
    /// The service no longer accepts the credentials.
    pub login_expired: bool,
    /// The service could not be reached at all.
    pub connectivity: bool,
    /// The page that was asked for lies behind the last one.
    pub page_out_of_range: bool,
}

impl AppError {
    /// An error that consists of one sentence.
    pub fn plain(text: String) -> (r: Self)
        ensures
            r.is_plain(text@),
    {
        let hint = text.clone();
        AppError {
            text,
            hint,
            api_message: None,
            login_expired: false,
            connectivity: false,
            page_out_of_range: false,
        }
    }

    pub open spec fn is_plain(self, text: Seq<char>) -> bool {
        &&& self.text@ == text
        &&& self.hint@ == text
        &&& self.api_message is None
        &&& !self.login_expired
        &&& !self.connectivity
        &&& !self.page_out_of_range
    }
}

impl Clone for AppError {
    fn clone(&self) -> (r: Self)
        ensures
            r == *self,
    {
        AppError {
            text: self.text.clone(),
            hint: self.hint.clone(),
            api_message: match &self.api_message {
                Some(message) => Some(message.clone()),
                None => None,
            },
            login_expired: self.login_expired,
            connectivity: self.connectivity,
            page_out_of_range: self.page_out_of_range,
        }
    }
}

/// The sentence of an error that is worth showing: what the service said, where
/// it said something, else the full description.
pub open spec fn reason(error: AppError) -> Seq<char> {
    match error.api_message {
        Some(message) => message@,
        None => error.text@,
    }
}

/// The sentence of an error that is worth showing.
pub fn readable_reason(error: &AppError) -> (r: String)
    ensures
        r@ == reason(*error),
{
    match &error.api_message {
        Some(message) => message.clone(),
        None => error.text.clone(),
    }
}

/// What the service said is shown where it said something, else the full description.
pub proof fn services_have_the_word(error: AppError)
    ensures
        error.api_message matches Some(message) ==> reason(error) == message@,
        error.api_message is None ==> reason(error) == error.text@,
{
}

} // verus!
