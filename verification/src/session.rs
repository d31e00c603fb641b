//! The per-event context handed to handlers: a narrowed event plus the
//! application configuration, together with the capability interfaces the
//! core uses to reach its external collaborators.

use vstd::prelude::*;

use crate::action::{
    Action, ActionKind, Resp, SendMessageParams, SendMessageResp, WalleError, opt_str_view,
    parse_send_resp,
};
use crate::event::{
    Event, EventTy, EventTyV, EventV, MessageBodyV, Segment, Selft, alt_concat, clone_segments,
    segs_view,
};
use vstd::pervasive::unreached;

verus! {

/// Application-wide settings, forwarded into every session; the core never
/// interprets them.
pub struct MatchersConfig {
    pub nicknames: Vec<String>,
}

impl MatchersConfig {
    /// The model of the configuration.
    pub open spec fn spec_nicknames(self) -> Seq<Seq<char>> {
        self.nicknames.deep_view()
    }
}

impl Clone for MatchersConfig {
    fn clone(&self) -> (r: Self)
        ensures
            r.spec_nicknames() == self.spec_nicknames(),
    {
        let mut nicknames: Vec<String> = Vec::new();
        let mut i: usize = 0;
        while i < self.nicknames.len()
            invariant
                i <= self.nicknames.len(),
                nicknames@.len() == i,
                forall|j: int| 0 <= j < i ==> nicknames@[j]@ == self.nicknames@[j]@,
            decreases self.nicknames.len() - i,
        {
            nicknames.push(self.nicknames[i].clone());
            i = i + 1;
        }
        let r = MatchersConfig { nicknames };
        proof {
            assert(r.spec_nicknames() =~~= self.spec_nicknames());
        }
        r
    }
}

/// Mathematical model of a [`Session`].
#[verifier::ext_equal]
pub ghost struct SessionV {
    pub event: EventV,
    pub config: Seq<Seq<char>>,
}

impl SessionV {
    /// The same session with the message payload of its event replaced.
    pub open spec fn with_msg_body(self, body: MessageBodyV) -> SessionV {
        SessionV {
            event: EventV { ty: EventTyV::Message { body }, ..self.event },
            ..self
        }
    }
}

/// The per-event context a matcher works in.
///
/// A session owns its narrowed event; the action caller, the scheduler and
/// the temporary-matcher registry belong to the embedding dispatcher and are
/// passed alongside where needed.
pub struct Session {
    pub event: Event,
    pub config: MatchersConfig,
}

impl View for Session {
    type V = SessionV;

    open spec fn view(&self) -> SessionV {
        SessionV { event: self.event@, config: self.config.spec_nicknames() }
    }
}

impl Clone for Session {
    fn clone(&self) -> (r: Self)
        ensures
            r@ == self@,
    {
        let r = Session { event: self.event.clone(), config: self.config.clone() };
        assert(r@ =~= self@);
        r
    }
}

/// The capability used to issue commands against whichever backend owns a
/// given self-identity. The transport behind it is an external collaborator:
/// nothing is assumed of its answers.
pub trait ActionCaller {
    /// Perform one action and report the backend's response.
    fn call(&mut self, action: Action) -> Result<Resp, WalleError>;

    /// Resolve the implementation name owning a self-identity.
    fn get_impl(&mut self, selft: &Selft) -> String;

    /// List the self-identities currently resolved.
    fn get_selfs(&mut self) -> Vec<Selft>;
}

/// How a wait for a correlated follow-up event ended.
pub enum ReplyOutcome {
    /// A qualifying follow-up event arrived in time.
    Delivered { event: Event },
    /// The timeout elapsed first.
    TimedOut,
    /// The delivery channel went away before any follow-up arrived.
    ChannelClosed,
}

/// The scheduling capability of the embedding runtime: waiting, and parking
/// one unit of work until a correlated follow-up event arrives.
pub trait Scheduler {
    /// Suspend the current unit of work for the given number of time units.
    fn sleep(&mut self, time_units: u64);

    /// Park until the event correlated to `correlation_id` is delivered,
    /// until `timeout_units` have elapsed, or until the delivery channel is
    /// gone, and say which of the three ended the wait.
    fn wait_reply(&mut self, correlation_id: &String, timeout_units: u64) -> ReplyOutcome;
}

/// The ask/await primitive waits this many time units when the caller names
/// no timeout.
pub const DEFAULT_GET_TIMEOUT_UNITS: u64 = 30;

/// The timeout the ask/await primitive actually uses.
pub fn effective_timeout(timeout: Option<u64>) -> (r: u64)
    ensures
        r == (match timeout {
            Some(t) => t,
            None => DEFAULT_GET_TIMEOUT_UNITS as u64,
        }),
{
    match timeout {
        Some(t) => t,
        None => DEFAULT_GET_TIMEOUT_UNITS,
    }
}

impl Session {
    /// Make a session from a narrowed event and the shared configuration.
    pub fn new(event: Event, config: MatchersConfig) -> (r: Session)
        ensures
            r@.event == event@,
            r@.config == config.spec_nicknames(),
    {
        Session { event, config }
    }

    /// The structured content of a message-shaped session.
    pub fn message(&self) -> (r: &Vec<Segment>)
        requires
            self@.event.is_message(),
        ensures
            segs_view(r@) == self@.event.msg().message,
    {
        match &self.event.ty {
            EventTy::Message { body } => &body.message,
            _ => unreached(),
        }
    }

    /// Mutable access to the structured content of a message-shaped
    /// session: whatever the caller writes through the borrow becomes the
    /// session's message, and nothing else changes.
    pub fn message_mut(&mut self) -> (r: &mut Vec<Segment>)
        requires
            old(self)@.event.is_message(),
        ensures
            segs_view((*r)@) == old(self)@.event.msg().message,
            final(self)@ == old(self)@.with_msg_body(
                MessageBodyV { message: segs_view((*final(r))@), ..old(self)@.event.msg() },
            ),
    {
        match &mut self.event.ty {
            EventTy::Message { body } => &mut body.message,
            _ => unreached(),
        }
    }

    /// Replace the structured content of a message-shaped session.
    ///
    /// The textual summary is not recomputed here; call
    /// [`Session::update_alt`] afterwards if downstream logic inspects it.
    pub fn replace_message(&mut self, message: Vec<Segment>)
        requires
            old(self)@.event.is_message(),
        ensures
            final(self)@ == old(self)@.with_msg_body(
                MessageBodyV { message: segs_view(message@), ..old(self)@.event.msg() },
            ),
    {
        match &mut self.event.ty {
            EventTy::Message { body } => {
                body.message = message;
            },
            _ => {
                unreached::<()>();
            },
        }
        assert(self@ =~~= old(self)@.with_msg_body(
            MessageBodyV { message: segs_view(message@), ..old(self)@.event.msg() },
        ));
    }

    /// Recompute the flattened textual summary from the structured content.
    pub fn update_alt(&mut self)
        requires
            old(self)@.event.is_message(),
        ensures
            final(self)@ == old(self)@.with_msg_body(
                MessageBodyV {
                    alt_message: alt_concat(old(self)@.event.msg().message),
                    ..old(self)@.event.msg()
                },
            ),
    {
        let ghost segs = self@.event.msg().message;
        let mut alt = String::new();
        let message = self.message();
        let mut i: usize = 0;
        while i < message.len()
            invariant
                i <= message@.len(),
                segs == segs_view(message@),
                alt@ == alt_concat(segs.take(i as int)),
            decreases message@.len() - i,
        {
            let seg_alt = message[i].alt();
            alt.append(seg_alt.as_str());
            proof {
                assert(segs.take(i + 1).drop_last() =~= segs.take(i as int));
                assert(segs.take(i + 1).last() == segs[i as int]);
            }
            i = i + 1;
        }
        proof {
            assert(segs.take(segs.len() as int) =~= segs);
        }
        match &mut self.event.ty {
            EventTy::Message { body } => {
                body.alt_message = alt;
            },
            _ => {
                unreached::<()>();
            },
        }
        assert(self@ =~~= old(self)@.with_msg_body(
            MessageBodyV { alt_message: alt_concat(segs), ..old(self)@.event.msg() },
        ));
    }

    /// Attach this session's self-identity to a command, making it a
    /// complete action.
    pub fn prepare_action(&self, kind: ActionKind) -> (a: Action)
        ensures
            a.kind == kind,
            a.selft matches Some(s) && s@ == self@.event.selft,
    {
        Action { kind, selft: Some(self.event.selft.clone()) }
    }

    /// Attach the self-identity and forward the command to the action
    /// caller; the response is the caller's, propagated as it came.
    pub fn call<C: ActionCaller>(&self, kind: ActionKind, caller: &mut C) -> Result<
        Resp,
        WalleError,
    > {
        let action = self.prepare_action(kind);
        caller.call(action)
    }

    /// Forward an already complete action to the action caller.
    pub fn call_action<C: ActionCaller>(&self, action: Action, caller: &mut C) -> Result<
        Resp,
        WalleError,
    > {
        caller.call(action)
    }

    /// Build the send-message action appropriate to this conversation: a
    /// group send when the event came from a group, a private send
    /// otherwise, with the target identifiers inferred from the event.
    pub fn build_send_action(&self, message: Vec<Segment>) -> (a: Action)
        requires
            self@.event.is_message(),
        ensures
            a.selft matches Some(s) && s@ == self@.event.selft,
            a.kind matches ActionKind::SendMessage { params } && ({
                &&& params.detail_type@ == (if self@.event.detail is Group {
                    "group"@
                } else {
                    "private"@
                })
                &&& opt_str_view(params.user_id) == Some(self@.event.msg().user_id)
                &&& opt_str_view(params.group_id) == self@.event.group_id()
                &&& segs_view(params.message@) == segs_view(message@)
            }),
    {
        let group_id: Option<String> = match &self.event.detail {
            crate::event::DetailTy::Group { group_id } => Some(group_id.clone()),
            _ => None,
        };
        let detail_type: String = if group_id.is_some() {
            "group".to_owned()
        } else {
            "private".to_owned()
        };
        let user_id: Option<String> = match &self.event.ty {
            EventTy::Message { body } => Some(body.user_id.clone()),
            _ => unreached(),
        };
        let params = SendMessageParams { detail_type, user_id, group_id, message };
        self.prepare_action(ActionKind::SendMessage { params })
    }

    /// Build and issue the send-message action for `message`, and extract
    /// the send receipt from whatever the caller answered.
    pub fn send<C: ActionCaller>(&self, message: Vec<Segment>, caller: &mut C) -> Result<
        SendMessageResp,
        WalleError,
    >
        requires
            self@.event.is_message(),
    {
        let action = self.build_send_action(message);
        match caller.call(action) {
            Ok(resp) => parse_send_resp(resp),
            Err(e) => Err(e),
        }
    }

    /// Accept the outcome of a wait for a correlated follow-up event.
    ///
    /// On a delivery the session's event is replaced by the follow-up, so
    /// subsequent operations act on the reply; on a timeout, or when the
    /// delivery channel closed first, the session is left exactly as it was
    /// and the matching failure is surfaced — the two are distinguishable
    /// from each other and from any action-call failure.
    pub fn apply_reply(&mut self, outcome: ReplyOutcome) -> (r: Result<(), WalleError>)
        ensures
            outcome matches ReplyOutcome::Delivered { event } ==> ({
                &&& r is Ok
                &&& final(self)@ == SessionV { event: event@, ..old(self)@ }
            }),
            outcome is TimedOut ==> ({
                &&& r matches Err(e) && e is Timeout
                &&& final(self)@ == old(self)@
            }),
            outcome is ChannelClosed ==> ({
                &&& r matches Err(e) && e is ChannelClosed
                &&& final(self)@ == old(self)@
            }),
    {
        match outcome {
            ReplyOutcome::Delivered { event } => {
                self.event = event;
                assert(self@ =~= SessionV { event: self.event@, ..old(self)@ });
                Ok(())
            },
            ReplyOutcome::TimedOut => Err(WalleError::Timeout),
            ReplyOutcome::ChannelClosed => Err(WalleError::ChannelClosed),
        }
    }
}

/// A value pairing one resolved self-identity with the shared action-caller
/// capability; a convenience view, not an owner of state.
pub struct Bot {
    pub selft: Selft,
}

impl Bot {
    /// Attach this bot's self-identity to a command.
    pub fn prepare_action(&self, kind: ActionKind) -> (a: Action)
        ensures
            a.kind == kind,
            a.selft matches Some(s) && s@ == self.selft@,
    {
        Action { kind, selft: Some(self.selft.clone()) }
    }

    /// Attach the self-identity and forward the command to the action
    /// caller.
    pub fn call<C: ActionCaller>(&self, kind: ActionKind, caller: &mut C) -> Result<
        Resp,
        WalleError,
    > {
        let action = self.prepare_action(kind);
        caller.call(action)
    }
}

/// One bot per resolved self-identity, in the order the caller listed them.
pub fn bots_of(selfs: Vec<Selft>) -> (r: Vec<Bot>)
    ensures
        r@.len() == selfs@.len(),
        forall|i: int| 0 <= i < r@.len() ==> r@[i].selft@ == selfs@[i]@,
{
    let mut r: Vec<Bot> = Vec::new();
    let mut i: usize = 0;
    while i < selfs.len()
        invariant
            i <= selfs.len(),
            r@.len() == i,
            forall|j: int| 0 <= j < i ==> r@[j].selft@ == selfs@[j]@,
        decreases selfs.len() - i,
    {
        r.push(Bot { selft: selfs[i].clone() });
        i = i + 1;
    }
    r
}

/// Ask the action caller which self-identities exist and wrap each in a
/// [`Bot`].
pub fn get_bots<C: ActionCaller>(caller: &mut C) -> (r: Vec<Bot>) {
    bots_of(caller.get_selfs())
}

} // verus!
