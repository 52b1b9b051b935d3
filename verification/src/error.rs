use vstd::prelude::*;

use crate::text::cat;

verus! {

/// Why an operation of the tool did not succeed.
#[derive(Debug)]
pub enum NeboError {
    /// The authorization page did not redirect.
    FirstCallRefused,
    /// The login form did not redirect.
    SecondCallRefused,
    /// The authorization grant did not redirect.
    ThirdCallRefused,
    /// A redirection came without a `location` header.
    MissingLocation,
    /// A `location` header is not an URL; the parser's explanation.
    InvalidUrl(String),
    /// The callback URL has no fragment.
    MissingFragment,
    /// The callback fragment is too short to hold an access token where one is expected.
    MalformedFragment,
    /// The password could not be obtained; the reason.
    PasswordUnavailable(String),
    /// The configuration call did not succeed.
    ConfigurationApi,
    /// Publishing a page failed; the body of the answer.
    ShareApi(String),
    /// Deleting a page failed; the body of the answer and the page.
    DeleteApi { body: String, uuid: String },
    /// Listing the pages failed; the body of the answer.
    PagesApi(String),
    /// Making a page private failed; the body of the answer.
    SetPrivate(String),
    /// The page is not known to the service.
    PageNotFound,
    /// Adding a contact failed; the body of the answer.
    AddContact(String),
    /// Removing a contact failed; the body of the answer.
    RemoveContact(String),
    /// A local test storage has no endpoint.
    MissingServiceEndpoint,
    /// A storage region name is not known; the explanation.
    InvalidRegion(String),
    /// A request, a read or a decoding failed on the way; the explanation.
    Transport(String),
    /// The body of a failed answer could not be read; the reason. Nothing can be reported
    /// about such a failure, so the caller stops.
    UnreadableBody(String),
    /// A part upload stopped abnormally.
    MultipartPanicked,
    /// A multipart upload has no identifier.
    MissingUploadId,
    /// The current time cannot be written as a date.
    ClockOutOfRange,
    /// An event arrived that the current step does not expect.
    OutOfOrder,
}

/// What a [`NeboError`] holds, its texts as character sequences.
pub enum ErrorSpec {
    FirstCallRefused,
    SecondCallRefused,
    ThirdCallRefused,
    MissingLocation,
    InvalidUrl(Seq<char>),
    MissingFragment,
    MalformedFragment,
    PasswordUnavailable(Seq<char>),
    ConfigurationApi,
    ShareApi(Seq<char>),
    DeleteApi { body: Seq<char>, uuid: Seq<char> },
    PagesApi(Seq<char>),
    SetPrivate(Seq<char>),
    PageNotFound,
    AddContact(Seq<char>),
    RemoveContact(Seq<char>),
    MissingServiceEndpoint,
    InvalidRegion(Seq<char>),
    Transport(Seq<char>),
    UnreadableBody(Seq<char>),
    MultipartPanicked,
    MissingUploadId,
    ClockOutOfRange,
    OutOfOrder,
}

impl View for NeboError {
    type V = ErrorSpec;

    open spec fn view(&self) -> ErrorSpec {
        match self {
            NeboError::FirstCallRefused => ErrorSpec::FirstCallRefused,
            NeboError::SecondCallRefused => ErrorSpec::SecondCallRefused,
            NeboError::ThirdCallRefused => ErrorSpec::ThirdCallRefused,
            NeboError::MissingLocation => ErrorSpec::MissingLocation,
            NeboError::InvalidUrl(m) => ErrorSpec::InvalidUrl(m@),
            NeboError::MissingFragment => ErrorSpec::MissingFragment,
            NeboError::MalformedFragment => ErrorSpec::MalformedFragment,
            NeboError::PasswordUnavailable(m) => ErrorSpec::PasswordUnavailable(m@),
            NeboError::ConfigurationApi => ErrorSpec::ConfigurationApi,
            NeboError::ShareApi(b) => ErrorSpec::ShareApi(b@),
            NeboError::DeleteApi { body, uuid } => ErrorSpec::DeleteApi { body: body@, uuid: uuid@ },
            NeboError::PagesApi(b) => ErrorSpec::PagesApi(b@),
            NeboError::SetPrivate(b) => ErrorSpec::SetPrivate(b@),
            NeboError::PageNotFound => ErrorSpec::PageNotFound,
            NeboError::AddContact(b) => ErrorSpec::AddContact(b@),
            NeboError::RemoveContact(b) => ErrorSpec::RemoveContact(b@),
            NeboError::MissingServiceEndpoint => ErrorSpec::MissingServiceEndpoint,
            NeboError::InvalidRegion(m) => ErrorSpec::InvalidRegion(m@),
            NeboError::Transport(m) => ErrorSpec::Transport(m@),
            NeboError::UnreadableBody(m) => ErrorSpec::UnreadableBody(m@),
            NeboError::MultipartPanicked => ErrorSpec::MultipartPanicked,
            NeboError::MissingUploadId => ErrorSpec::MissingUploadId,
            NeboError::ClockOutOfRange => ErrorSpec::ClockOutOfRange,
            NeboError::OutOfOrder => ErrorSpec::OutOfOrder,
        }
    }
}

/// A result whose error is a [`NeboError`], by its view.
pub open spec fn result_view<T>(r: Result<T, NeboError>) -> Result<T, ErrorSpec> {
    match r {
        Ok(v) => Ok(v),
        Err(e) => Err(e@),
    }
}

/// A textual result whose error is a [`NeboError`], both by their views.
pub open spec fn text_result_view(r: Result<String, NeboError>) -> Result<Seq<char>, ErrorSpec> {
    match r {
        Ok(v) => Ok(v@),
        Err(e) => Err(e@),
    }
}

/// The text shown for an error.
pub open spec fn error_message(e: NeboError) -> Seq<char> {
    match e {
        NeboError::FirstCallRefused => "wrong answer from first call"@,
        NeboError::SecondCallRefused => "wrong answer from second call"@,
        NeboError::ThirdCallRefused => "wrong answer from third call"@,
        NeboError::MissingLocation => "Second call: No location found in header"@,
        NeboError::InvalidUrl(m) => m@,
        NeboError::MissingFragment => "No fragment in callback url"@,
        NeboError::MalformedFragment => "No access token in callback url"@,
        NeboError::PasswordUnavailable(m) => m@,
        NeboError::ConfigurationApi => "error during call to configuration api"@,
        NeboError::ShareApi(b) => "error during call to delete api "@ + b@,
        NeboError::DeleteApi { body, uuid } => "error during call to delete api "@ + body@ + " for "@ + uuid@,
        NeboError::PagesApi(b) => "error during call to get pages "@ + b@,
        NeboError::SetPrivate(b) => "error during setting page private "@ + b@,
        NeboError::PageNotFound => "page not found"@,
        NeboError::AddContact(b) => "error duting add contact "@ + b@,
        NeboError::RemoveContact(b) => "error during call to api "@ + b@,
        NeboError::MissingServiceEndpoint => "missing service endpoint for local test"@,
        NeboError::InvalidRegion(m) => m@,
        NeboError::Transport(m) => m@,
        NeboError::UnreadableBody(m) => m@,
        NeboError::MultipartPanicked => "a multipart thread panicked"@,
        NeboError::MissingUploadId => "missing upload id"@,
        NeboError::ClockOutOfRange => "time out of range"@,
        NeboError::OutOfOrder => "unexpected event"@,
    }
}

impl NeboError {
    /// The text shown for this error.
    pub fn message(&self) -> (r: String)
        ensures
            r@ == error_message(*self),
    {
        match self {
            NeboError::FirstCallRefused => String::from_str("wrong answer from first call"),
            NeboError::SecondCallRefused => String::from_str("wrong answer from second call"),
            NeboError::ThirdCallRefused => String::from_str("wrong answer from third call"),
            NeboError::MissingLocation => String::from_str("Second call: No location found in header"),
            NeboError::InvalidUrl(m) => m.clone(),
            NeboError::MissingFragment => String::from_str("No fragment in callback url"),
            NeboError::MalformedFragment => String::from_str("No access token in callback url"),
            NeboError::PasswordUnavailable(m) => m.clone(),
            NeboError::ConfigurationApi => String::from_str("error during call to configuration api"),
            NeboError::ShareApi(b) => cat("error during call to delete api ", b.as_str()),
            NeboError::DeleteApi { body, uuid } => {
                let mut s = cat("error during call to delete api ", body.as_str());
                s.append(" for ");
                s.append(uuid.as_str());
                s
            },
            NeboError::PagesApi(b) => cat("error during call to get pages ", b.as_str()),
            NeboError::SetPrivate(b) => cat("error during setting page private ", b.as_str()),
            NeboError::PageNotFound => String::from_str("page not found"),
            NeboError::AddContact(b) => cat("error duting add contact ", b.as_str()),
            NeboError::RemoveContact(b) => cat("error during call to api ", b.as_str()),
            NeboError::MissingServiceEndpoint => String::from_str("missing service endpoint for local test"),
            NeboError::InvalidRegion(m) => m.clone(),
            NeboError::Transport(m) => m.clone(),
            NeboError::UnreadableBody(m) => m.clone(),
            NeboError::MultipartPanicked => String::from_str("a multipart thread panicked"),
            NeboError::MissingUploadId => String::from_str("missing upload id"),
            NeboError::ClockOutOfRange => String::from_str("time out of range"),
            NeboError::OutOfOrder => String::from_str("unexpected event"),
        }
    }
}

} // verus!
