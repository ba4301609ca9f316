use vstd::prelude::*;

verus! {

/// The normalized outcome of one delivery attempt: an optional message
/// id, whether the platform accepted the message, the raw response
/// text, and the moment the result was produced, in milliseconds since
/// the Unix epoch.
#[derive(Debug, Clone)]
pub struct PushResult {
    pub message_id: Option<String>,
    pub success: bool,
    pub response: Option<String>,
    pub timestamp: i64,
}

/// The model of a result, apart from its timestamp: the optional
/// message id, the success flag, and the optional response text.
#[verifier::ext_equal]
pub struct ResultModel {
    pub message_id: Option<Seq<char>>,
    pub success: bool,
    pub response: Option<Seq<char>>,
}

impl PushResult {
    /// The model of this result; the timestamp, which records when the
    /// value was made, stays outside the model.
    pub open spec fn model(&self) -> ResultModel {
        ResultModel {
            message_id: (match self.message_id {
                Some(ref s) => Some(s@),
                None => None,
            }),
            success: self.success,
            response: (match self.response {
                Some(ref s) => Some(s@),
                None => None,
            }),
        }
    }
}

impl Default for PushResult {
    /// A fresh result: not successful, no message id, no response
    /// text, stamped with the current time.
    fn default() -> (r: Self)
        ensures
            !r.success,
            r.message_id is None,
            r.response is None,
    {
        PushResult { message_id: None, success: false, response: None, timestamp: now_millis() }
    }
}

/// Relies on `chrono::Utc::now` and `DateTime::timestamp_millis`: the
/// current time as milliseconds since the Unix epoch. Nothing is
/// assumed of the value, since it depends on the clock.
#[verifier::external_body]
pub(crate) fn now_millis() -> i64 {
    chrono::Utc::now().timestamp_millis()
}

} // verus!
