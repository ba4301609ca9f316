use vstd::prelude::*;
use vstd::string::*;

verus! {

/// The error taxonomy of the relay.
///
/// `NetworkError` covers transport failures and non-success HTTP
/// statuses, `AuthError` a rejected credential, `ConfigError` a
/// malformed or incomplete configuration, `MessageError` a message
/// shape the target platform does not accept, and `PlatformError` an
/// application-level failure code returned by the remote API.
#[derive(Debug)]
pub enum PushError {
    NetworkError(String),
    AuthError(String),
    ConfigError(String),
    MessageError(String),
    PlatformError(String),
}

/// The model of an error: the same classification over character
/// sequences.
pub enum ErrorModel {
    Network(Seq<char>),
    Auth(Seq<char>),
    Config(Seq<char>),
    Message(Seq<char>),
    Platform(Seq<char>),
}

impl View for PushError {
    type V = ErrorModel;

    open spec fn view(&self) -> ErrorModel {
        match self {
            PushError::NetworkError(m) => ErrorModel::Network(m@),
            PushError::AuthError(m) => ErrorModel::Auth(m@),
            PushError::ConfigError(m) => ErrorModel::Config(m@),
            PushError::MessageError(m) => ErrorModel::Message(m@),
            PushError::PlatformError(m) => ErrorModel::Platform(m@),
        }
    }
}

/// The description of an error model: a prefix naming the error class
/// followed by the detail text.
pub open spec fn describe_model(m: ErrorModel) -> Seq<char> {
    match m {
        ErrorModel::Network(t) => "Network error: "@ + t,
        ErrorModel::Auth(t) => "Authentication error: "@ + t,
        ErrorModel::Config(t) => "Configuration error: "@ + t,
        ErrorModel::Message(t) => "Message error: "@ + t,
        ErrorModel::Platform(t) => "Platform error: "@ + t,
    }
}

impl PushError {
    /// The description of this error, as a prefix naming the error
    /// class followed by the detail text.
    pub open spec fn describe_spec(&self) -> Seq<char> {
        describe_model(self@)
    }

    /// Renders the human-readable description; it becomes the response
    /// text of a failed push.
    pub fn describe(&self) -> (r: String)
        ensures
            r@ == self.describe_spec(),
    {
        match self {
            PushError::NetworkError(m) => String::from_str("Network error: ").concat(m.as_str()),
            PushError::AuthError(m) => String::from_str("Authentication error: ").concat(m.as_str()),
            PushError::ConfigError(m) => String::from_str("Configuration error: ").concat(m.as_str()),
            PushError::MessageError(m) => String::from_str("Message error: ").concat(m.as_str()),
            PushError::PlatformError(m) => String::from_str("Platform error: ").concat(m.as_str()),
        }
    }
}

} // verus!
