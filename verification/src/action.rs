//! Outbound actions, the caller's responses, and the error taxonomy of the
//! core.

use vstd::prelude::*;

use crate::event::{Segment, Selft, segs_view};

verus! {

/// Parameters of a send-message action.
pub struct SendMessageParams {
    /// `"private"` or `"group"`, inferred from the conversation shape.
    pub detail_type: String,
    pub user_id: Option<String>,
    pub group_id: Option<String>,
    pub message: Vec<Segment>,
}

/// The command kinds the core itself builds; anything else goes through
/// `Raw`.
pub enum ActionKind {
    SendMessage { params: SendMessageParams },
    DeleteMessage { message_id: String },
    Raw { name: String },
}

/// A complete outbound action: a command plus the self-identity it is issued
/// as, if one has been attached.
pub struct Action {
    pub kind: ActionKind,
    pub selft: Option<Selft>,
}

/// What a successful send-message action reports back.
pub struct SendMessageResp {
    pub message_id: String,
    pub time: u64,
}

impl Clone for SendMessageResp {
    fn clone(&self) -> (r: Self)
        ensures
            r.message_id@ == self.message_id@,
            r.time == self.time,
    {
        SendMessageResp { message_id: self.message_id.clone(), time: self.time }
    }
}

/// The typed payload of a response.
pub enum RespContent {
    Empty,
    SendMessage { resp: SendMessageResp },
    Other,
}

/// A response from the action caller: a status code, a diagnostic text and a
/// typed payload.
pub struct Resp {
    /// Zero means success; anything else is a rejection.
    pub retcode: u64,
    pub message: String,
    pub data: RespContent,
}

/// The failures the core surfaces to handlers.
#[derive(Debug)]
pub enum WalleError {
    /// The action caller rejected the action.
    Resp { retcode: u64, message: String },
    /// A response arrived but did not carry the expected payload.
    UnexpectedRespContent,
    /// The ask/await primitive saw no qualifying follow-up event in time.
    Timeout,
    /// The ask/await primitive's delivery channel went away before any
    /// follow-up event arrived.
    ChannelClosed,
    /// Anything else, described in text.
    Other { message: String },
}

/// Textual rendering of an error, used when a failure-tolerant handler
/// reports a failure back into the conversation.
pub open spec fn spec_err_text(e: WalleError) -> Seq<char> {
    match e {
        WalleError::Resp { retcode: _, message } => "action failed: "@ + message@,
        WalleError::UnexpectedRespContent => "unexpected response content"@,
        WalleError::Timeout => "no reply before the timeout"@,
        WalleError::ChannelClosed => "the reply channel closed unexpectedly"@,
        WalleError::Other { message } => message@,
    }
}

impl WalleError {
    /// Render the error as one line of text.
    pub fn describe(&self) -> (r: String)
        ensures
            r@ == spec_err_text(*self),
    {
        match self {
            WalleError::Resp { retcode: _, message } => {
                String::from_str("action failed: ").concat(message.as_str())
            },
            WalleError::UnexpectedRespContent => String::from_str("unexpected response content"),
            WalleError::Timeout => String::from_str("no reply before the timeout"),
            WalleError::ChannelClosed => String::from_str("the reply channel closed unexpectedly"),
            WalleError::Other { message } => message.clone(),
        }
    }
}

/// Split a response into success payload or rejection.
///
/// A response is a success exactly when its status code is zero; a rejection
/// carries the caller's code and diagnostic text.
pub fn as_result(resp: Resp) -> (r: Result<RespContent, WalleError>)
    ensures
        resp.retcode == 0 ==> (r matches Ok(c) && c == resp.data),
        resp.retcode != 0 ==> (r matches Err(WalleError::Resp { retcode, message })
            && retcode == resp.retcode && message@ == resp.message@),
{
    if resp.retcode == 0 {
        Ok(resp.data)
    } else {
        Err(WalleError::Resp { retcode: resp.retcode, message: resp.message })
    }
}

/// Extract the send-message payload from a response.
///
/// Fails with the caller's rejection if the status code is non-zero, and
/// with [`WalleError::UnexpectedRespContent`] if the payload is not a
/// send-message payload.
pub fn parse_send_resp(resp: Resp) -> (r: Result<SendMessageResp, WalleError>)
    ensures
        resp.retcode != 0 ==> (r matches Err(WalleError::Resp { retcode, message })
            && retcode == resp.retcode && message@ == resp.message@),
        resp.retcode == 0 && resp.data is SendMessage ==> r is Ok,
        r matches Ok(y) ==> ({
            &&& resp.retcode == 0
            &&& resp.data matches RespContent::SendMessage { resp: x } && y == x
        }),
        resp.retcode == 0 && !(resp.data is SendMessage) ==> (r matches Err(e)
            && e is UnexpectedRespContent),
{
    match as_result(resp) {
        Err(e) => Err(e),
        Ok(RespContent::SendMessage { resp }) => Ok(resp),
        Ok(_) => Err(WalleError::UnexpectedRespContent),
    }
}

/// The model of an optional character string.
pub open spec fn opt_str_view(o: Option<String>) -> Option<Seq<char>> {
    match o {
        Some(s) => Some(s@),
        None => None,
    }
}

} // verus!
