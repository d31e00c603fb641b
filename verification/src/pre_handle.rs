//! Mutating pre-filters over sessions: the second half of the handler
//! composition layer. A pre-handler may rewrite the session's event and
//! decides on its own whether the event matches and whether later matchers
//! should still see it.

use vstd::prelude::*;

use crate::event::{EventTy, EventTyV, MessageBodyV, Segment, SegmentV};
use crate::session::{Session, SessionV};
use crate::signal::Signal;
use crate::text::{
    leading_ws_len, spec_starts_with, starts_with_str, strip_leading_ws, strip_prefix_str,
};

verus! {

/// If the first segment is text starting with `p`, remove `p` from it.
pub open spec fn strip_first_text(msg: Seq<SegmentV>, p: Seq<char>) -> Seq<SegmentV> {
    if msg.len() > 0 && (msg[0] matches SegmentV::Text { text } && spec_starts_with(text, p)) {
        msg.update(
            0,
            SegmentV::Text { text: msg[0]->Text_text.subrange(p.len() as int, msg[0]->Text_text.len() as int) },
        )
    } else {
        msg
    }
}

/// A mutating pre-filter a matcher can be layered with.
pub enum PreHandler {
    /// Match message events whose textual summary starts with `prefix`, and
    /// remove the prefix from the summary and from a leading text segment.
    StripPrefix { prefix: String },
    /// Match any message event and remove blank space from the front of its
    /// textual summary.
    StripWhitespace,
    /// Match unconditionally, leave the session alone and yield a fixed
    /// signal; the way a matcher declares its propagation policy.
    Always { signal: Signal },
}

impl PreHandler {
    /// The signal the pre-filter yields and the session it leaves behind.
    pub open spec fn spec_apply(self, s: SessionV) -> (Signal, SessionV) {
        match self {
            PreHandler::StripPrefix { prefix } => {
                if s.event.ty matches EventTyV::Message { body } && spec_starts_with(
                    body.alt_message,
                    prefix@,
                ) {
                    let body = s.event.msg();
                    (
                        Signal::Matched,
                        s.with_msg_body(
                            MessageBodyV {
                                alt_message: body.alt_message.subrange(
                                    prefix@.len() as int,
                                    body.alt_message.len() as int,
                                ),
                                message: strip_first_text(body.message, prefix@),
                                ..body
                            },
                        ),
                    )
                } else {
                    (Signal::NotMatch, s)
                }
            },
            PreHandler::StripWhitespace => {
                if s.event.ty is Message {
                    let body = s.event.msg();
                    (
                        Signal::Matched,
                        s.with_msg_body(
                            MessageBodyV {
                                alt_message: body.alt_message.subrange(
                                    leading_ws_len(body.alt_message),
                                    body.alt_message.len() as int,
                                ),
                                ..body
                            },
                        ),
                    )
                } else {
                    (Signal::NotMatch, s)
                }
            },
            PreHandler::Always { signal } => (signal, s),
        }
    }

    /// Run the pre-filter against the session.
    pub fn apply(&self, session: &mut Session) -> (r: Signal)
        ensures
            r == self.spec_apply(old(session)@).0,
            final(session)@ == self.spec_apply(old(session)@).1,
    {
        match self {
            PreHandler::StripPrefix { prefix } => {
                match &mut session.event.ty {
                    EventTy::Message { body } => {
                        if starts_with_str(body.alt_message.as_str(), prefix.as_str()) {
                            let alt = strip_prefix_str(body.alt_message.as_str(), prefix.as_str());
                            body.alt_message = alt;
                            if body.message.len() > 0 {
                                let seg0 = body.message[0].clone();
                                match seg0 {
                                    Segment::Text { text } => {
                                        if starts_with_str(text.as_str(), prefix.as_str()) {
                                            let stripped = strip_prefix_str(
                                                text.as_str(),
                                                prefix.as_str(),
                                            );
                                            body.message.set(0, Segment::Text { text: stripped });
                                        }
                                    },
                                    _ => {},
                                }
                            }
                            proof {
                                let expected = self.spec_apply(old(session)@).1;
                                assert(crate::event::segs_view(body.message@) =~= expected.event.msg().message);
                                assert(session@ =~~= expected);
                            }
                            Signal::Matched
                        } else {
                            Signal::NotMatch
                        }
                    },
                    _ => Signal::NotMatch,
                }
            },
            PreHandler::StripWhitespace => {
                match &mut session.event.ty {
                    EventTy::Message { body } => {
                        let alt = strip_leading_ws(body.alt_message.as_str());
                        body.alt_message = alt;
                        proof {
                            assert(session@ =~~= self.spec_apply(old(session)@).1);
                        }
                        Signal::Matched
                    },
                    _ => Signal::NotMatch,
                }
            },
            PreHandler::Always { signal } => *signal,
        }
    }
}

/// A pre-filter only ever rewrites message content: whether the event is
/// message-shaped, and the configuration, survive it unchanged.
pub proof fn lemma_pre_apply_preserves_message(p: PreHandler, s: SessionV)
    ensures
        p.spec_apply(s).1.event.is_message() == s.event.is_message(),
        p.spec_apply(s).1.config == s.config,
{
}

/// Strip `prefix` from matching message events; the classic way to declare a
/// command-style matcher.
pub fn strip_prefix(prefix: String) -> (r: PreHandler)
    ensures
        r matches PreHandler::StripPrefix { prefix: p } && p@ == prefix@,
{
    PreHandler::StripPrefix { prefix }
}

/// Strip leading blank space from message events.
pub fn strip_whitespace() -> (r: PreHandler)
    ensures
        r == PreHandler::StripWhitespace,
{
    PreHandler::StripWhitespace
}

} // verus!
