use vstd::prelude::*;

verus! {

#[verifier::external_type_specification]
#[verifier::external_body]
#[verifier::reject_recursive_types(T)]
pub struct ExSendError<T>(crossbeam::channel::SendError<T>);

/// Why the execution venue could not take an order.
#[derive(Debug)]
pub enum ExecutionError {
    /// The order could not be created.
    NewOrderError,
    /// Any other failure, described in words.
    OtherError(String),
    /// The channel to the venue failed, described in words.
    ChannelError(String),
}

impl ExecutionError {
    /// The message that reports the error.
    pub open spec fn spec_message(&self) -> Seq<char> {
        match self {
            ExecutionError::NewOrderError => "创建委托失败"@,
            ExecutionError::OtherError(text) => text@,
            ExecutionError::ChannelError(text) => text@,
        }
    }

    /// The message that reports the error.
    pub fn message(&self) -> (r: String)
        ensures
            r@ == self.spec_message(),
    {
        match self {
            ExecutionError::NewOrderError => String::from_str("创建委托失败"),
            ExecutionError::OtherError(text) => text.clone(),
            ExecutionError::ChannelError(text) => text.clone(),
        }
    }
}

/// The message of a failed channel send.
pub open spec fn disconnected_channel_message() -> Seq<char> {
    "sending on a disconnected channel"@
}

/// The text of `crossbeam::channel::SendError`'s `Display`. Claimed: it is
/// always "sending on a disconnected channel", as the crate writes it.
#[verifier::external_body]
fn send_error_text<T>(error: &crossbeam::channel::SendError<T>) -> (r: String)
    ensures
        r@ == disconnected_channel_message(),
{
    error.to_string()
}

impl<T> From<crossbeam::channel::SendError<T>> for ExecutionError {
    /// A failed send is a channel error carrying the send error's message.
    fn from(error: crossbeam::channel::SendError<T>) -> (r: ExecutionError)
        ensures
            r matches ExecutionError::ChannelError(message) && message@ == disconnected_channel_message(),
    {
        ExecutionError::ChannelError(send_error_text(&error))
    }
}

impl<T> vstd::std_specs::convert::FromSpecImpl<crossbeam::channel::SendError<T>> for ExecutionError {
    open spec fn obeys_from_spec() -> bool {
        false
    }

    open spec fn from_spec(v: crossbeam::channel::SendError<T>) -> ExecutionError {
        ExecutionError::NewOrderError
    }
}

} // verus!
