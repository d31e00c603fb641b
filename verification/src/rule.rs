//! Read-only predicates over sessions: the filtering half of the handler
//! composition layer.

use vstd::prelude::*;

use crate::event::{EventTyV, SegmentV};
use crate::session::{Session, SessionV};
use crate::text::{spec_starts_with, starts_with_str};

verus! {

/// Accepts events sent by one specific user.
pub struct UserIdChecker {
    pub user_id: String,
}

impl UserIdChecker {
    /// What the checker accepts: message events from exactly this user.
    pub open spec fn spec_rule(self, s: SessionV) -> bool {
        s.event.ty matches EventTyV::Message { body } && body.user_id == self.user_id@
    }

    /// Evaluate the predicate; never mutates the session.
    pub fn rule(&self, session: &Session) -> (r: bool)
        ensures
            r == self.spec_rule(session@),
    {
        match &session.event.ty {
            crate::event::EventTy::Message { body } => body.user_id == self.user_id,
            _ => false,
        }
    }
}

/// Accepts events coming from one specific group.
pub struct GroupIdChecker {
    pub group_id: String,
}

impl GroupIdChecker {
    /// What the checker accepts: message events whose conversation is
    /// exactly this group.
    pub open spec fn spec_rule(self, s: SessionV) -> bool {
        s.event.ty is Message && s.event.group_id() == Some(self.group_id@)
    }

    /// Evaluate the predicate; never mutates the session.
    pub fn rule(&self, session: &Session) -> (r: bool)
        ensures
            r == self.spec_rule(session@),
    {
        match &session.event.ty {
            crate::event::EventTy::Message { .. } => match &session.event.detail {
                crate::event::DetailTy::Group { group_id } => *group_id == self.group_id,
                _ => false,
            },
            _ => false,
        }
    }
}

/// Whether some segment of `msg` mentions `user`.
pub open spec fn mentions(msg: Seq<SegmentV>, user: Seq<char>) -> bool {
    exists|i: int|
        0 <= i < msg.len() && (#[trigger] msg[i] matches SegmentV::Mention { user_id } && user_id == user)
}

/// A read-only predicate a matcher can be filtered by.
pub enum Rule {
    /// Only events from this user.
    UserId { checker: UserIdChecker },
    /// Only events from this group.
    GroupId { checker: GroupIdChecker },
    /// Only message events whose textual summary starts with this word.
    StartWith { word: String },
    /// Only message events that mention the self-identity owning them.
    AtMe,
}

impl Rule {
    /// What the rule accepts.
    pub open spec fn spec_check(self, s: SessionV) -> bool {
        match self {
            Rule::UserId { checker } => checker.spec_rule(s),
            Rule::GroupId { checker } => checker.spec_rule(s),
            Rule::StartWith { word } => s.event.ty matches EventTyV::Message { body }
                && spec_starts_with(body.alt_message, word@),
            Rule::AtMe => s.event.ty matches EventTyV::Message { body } && mentions(
                body.message,
                s.event.selft.user_id,
            ),
        }
    }

    /// Evaluate the predicate; never mutates the session.
    pub fn check(&self, session: &Session) -> (r: bool)
        ensures
            r == self.spec_check(session@),
    {
        match self {
            Rule::UserId { checker } => checker.rule(session),
            Rule::GroupId { checker } => checker.rule(session),
            Rule::StartWith { word } => match &session.event.ty {
                crate::event::EventTy::Message { body } => {
                    starts_with_str(body.alt_message.as_str(), word.as_str())
                },
                _ => false,
            },
            Rule::AtMe => match &session.event.ty {
                crate::event::EventTy::Message { body } => {
                    let ghost segs = session@.event.msg().message;
                    let mut i: usize = 0;
                    let mut found = false;
                    while i < body.message.len()
                        invariant
                            i <= body.message.len(),
                            segs == crate::event::segs_view(body.message@),
                            found == exists|j: int|
                                0 <= j < i && (#[trigger] segs[j] matches SegmentV::Mention { user_id }
                                    && user_id == session@.event.selft.user_id),
                        decreases body.message.len() - i,
                    {
                        if !found {
                            match &body.message[i] {
                                crate::event::Segment::Mention { user_id } => {
                                    if *user_id == session.event.selft.user_id {
                                        found = true;
                                        proof {
                                            assert(segs[i as int] matches SegmentV::Mention {
                                                user_id,
                                            } && user_id == session@.event.selft.user_id);
                                        }
                                    }
                                },
                                _ => {},
                            }
                        }
                        i = i + 1;
                    }
                    found
                },
                _ => false,
            },
        }
    }
}

/// Filter to events sent by `user_id`.
pub fn user_id_check(user_id: String) -> (r: UserIdChecker)
    ensures
        r.user_id@ == user_id@,
{
    UserIdChecker { user_id }
}

/// Filter to events coming from the group `group_id`.
pub fn group_id_check(group_id: String) -> (r: GroupIdChecker)
    ensures
        r.group_id@ == group_id@,
{
    GroupIdChecker { group_id }
}

/// Filter to message events whose textual summary starts with `word`.
pub fn start_with(word: String) -> (r: Rule)
    ensures
        r matches Rule::StartWith { word: w } && w@ == word@,
{
    Rule::StartWith { word }
}

/// Filter to message events that mention the bot itself.
pub fn at_me() -> (r: Rule)
    ensures
        r == Rule::AtMe,
{
    Rule::AtMe
}

} // verus!
