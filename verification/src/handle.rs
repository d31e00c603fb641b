//! Handler composition: a base handler body wrapped by read-only rules,
//! mutating pre-filters and side handlers, every layer satisfying the same
//! contract so layers compose transparently.
//!
//! A handler's `pre_handle` is the synchronous filtering phase: it never
//! performs I/O and decides the signal the dispatcher propagates. Its
//! `handle` is the effectful body, launched separately and only when the
//! signal was not `NotMatch`.

use vstd::prelude::*;

use crate::action::{ActionKind, WalleError};
use crate::event::{Segment, clone_segments};
use crate::pre_handle::PreHandler;
use crate::rule::Rule;
use crate::session::{ActionCaller, Scheduler, Session, SessionV};
use crate::signal::Signal;

verus! {

/// An effectful handler body, run only after the filtering phase matched.
pub enum HandlerBody {
    /// Do nothing.
    Nothing,
    /// Send a fixed message back into the conversation.
    Reply { message: Vec<Segment> },
    /// Send a fixed message, wait, then delete the sent message again using
    /// the identifier the send reported.
    ReplyThenRecall { message: Vec<Segment>, delay_units: u64 },
}

impl HandlerBody {
    /// Whether the body may only run in a message-shaped session.
    pub open spec fn needs_message(self) -> bool {
        match self {
            HandlerBody::Nothing => false,
            HandlerBody::Reply { .. } => true,
            HandlerBody::ReplyThenRecall { .. } => true,
        }
    }

    /// Decide at run time whether the body may only run in a message-shaped
    /// session.
    pub fn demands_message(&self) -> (r: bool)
        ensures
            r == self.needs_message(),
    {
        match self {
            HandlerBody::Nothing => false,
            HandlerBody::Reply { .. } => true,
            HandlerBody::ReplyThenRecall { .. } => true,
        }
    }

    /// Run the body. Failures are reported to the caller of `run`; what the
    /// backend answered is the backend's business and nothing is assumed of
    /// it.
    pub fn run<C: ActionCaller + Scheduler>(&self, session: &Session, caller: &mut C) -> (r:
        Result<(), WalleError>)
        requires
            self.needs_message() ==> session@.event.is_message(),
        ensures
            self is Nothing ==> r is Ok,
    {
        match self {
            HandlerBody::Nothing => Ok(()),
            HandlerBody::Reply { message } => {
                match session.send(clone_segments(message), caller) {
                    Ok(_) => Ok(()),
                    Err(e) => Err(e),
                }
            },
            HandlerBody::ReplyThenRecall { message, delay_units } => {
                match session.send(clone_segments(message), caller) {
                    Ok(resp) => {
                        caller.sleep(*delay_units);
                        let delete = session.prepare_action(
                            ActionKind::DeleteMessage { message_id: resp.message_id },
                        );
                        match caller.call(delete) {
                            Ok(_) => Ok(()),
                            Err(e) => Err(e),
                        }
                    },
                    Err(e) => Err(e),
                }
            },
        }
    }
}

/// A plain handler: fires unconditionally once narrowing succeeded, and owns
/// its own failures.
pub struct HandlerFn {
    pub body: HandlerBody,
}

/// Adapt an ordinary body into the handler contract, with the filtering
/// phase defaulting to `Matched`.
pub fn handler_fn(body: HandlerBody) -> (r: HandlerFn)
    ensures
        r.body == body,
{
    HandlerFn { body }
}

/// A failure-tolerant handler: fires unconditionally once narrowing
/// succeeded; when its body fails it reports the failure back into the
/// conversation as a best-effort message, then suppresses it.
pub struct MayFailHandlerFn {
    pub body: HandlerBody,
}

/// Adapt a body that may fail into the handler contract; failures are
/// reported into the conversation instead of propagating.
pub fn may_fail_handler_fn(body: HandlerBody) -> (r: MayFailHandlerFn)
    ensures
        r.body == body,
{
    MayFailHandlerFn { body }
}

/// A handler filtered by a read-only rule.
pub struct LayeredRule {
    pub rule: Rule,
    pub handler: Box<Handler>,
}

/// A handler behind a mutating pre-filter.
pub struct LayeredPreHandler {
    pub pre: PreHandler,
    pub handler: Box<Handler>,
}

/// A handler with a side body that runs first in the same launched unit of
/// work; used for cross-cutting concerns without altering the primary
/// contract.
pub struct LayeredHandler {
    pub extra: HandlerBody,
    pub handler: Box<Handler>,
}

/// A composed handler: a base body wrapped in any number of layers.
pub enum Handler {
    Fn { f: HandlerFn },
    MayFail { f: MayFailHandlerFn },
    Ruled { layer: LayeredRule },
    PreHandled { layer: LayeredPreHandler },
    Extra { layer: LayeredHandler },
}

impl Handler {
    /// The signal of the filtering phase and the session it leaves behind.
    ///
    /// A rule layer consults its inner handler only when the predicate
    /// accepts; a pre-filter layer's own verdict is authoritative: a
    /// `NotMatch` from it, or from its inner handler, is final, and
    /// otherwise the two signals are folded with the strongest-wins rule.
    pub open spec fn spec_pre_handle(self, s: SessionV) -> (Signal, SessionV)
        decreases self,
    {
        match self {
            Handler::Fn { .. } => (Signal::Matched, s),
            Handler::MayFail { .. } => (Signal::Matched, s),
            Handler::Ruled { layer } => {
                if layer.rule.spec_check(s) {
                    layer.handler.spec_pre_handle(s)
                } else {
                    (Signal::NotMatch, s)
                }
            },
            Handler::PreHandled { layer } => {
                let (sig, s1) = layer.pre.spec_apply(s);
                if sig is NotMatch {
                    (Signal::NotMatch, s1)
                } else {
                    let (inner, s2) = layer.handler.spec_pre_handle(s1);
                    if inner is NotMatch {
                        (Signal::NotMatch, s2)
                    } else {
                        (sig.spec_combine(inner), s2)
                    }
                }
            },
            Handler::Extra { layer } => layer.handler.spec_pre_handle(s),
        }
    }

    /// The synchronous filtering phase: decide the signal, possibly mutating
    /// the session through pre-filter layers. Performs no I/O.
    pub fn pre_handle(&self, session: &mut Session) -> (r: Signal)
        ensures
            r == self.spec_pre_handle(old(session)@).0,
            final(session)@ == self.spec_pre_handle(old(session)@).1,
        decreases *self,
    {
        match self {
            Handler::Fn { .. } => Signal::Matched,
            Handler::MayFail { .. } => Signal::Matched,
            Handler::Ruled { layer } => {
                if layer.rule.check(session) {
                    layer.handler.pre_handle(session)
                } else {
                    Signal::NotMatch
                }
            },
            Handler::PreHandled { layer } => {
                let sig = layer.pre.apply(session);
                if sig == Signal::NotMatch {
                    Signal::NotMatch
                } else {
                    let inner = layer.handler.pre_handle(session);
                    if inner == Signal::NotMatch {
                        Signal::NotMatch
                    } else {
                        sig.combine(inner)
                    }
                }
            },
            Handler::Extra { layer } => layer.handler.pre_handle(session),
        }
    }

    /// Whether some layer of this handler may only run in a message-shaped
    /// session.
    pub open spec fn requires_message(self) -> bool
        decreases self,
    {
        match self {
            Handler::Fn { f } => f.body.needs_message(),
            Handler::MayFail { .. } => true,
            Handler::Ruled { layer } => layer.handler.requires_message(),
            Handler::PreHandled { layer } => layer.handler.requires_message(),
            Handler::Extra { layer } => layer.extra.needs_message()
                || layer.handler.requires_message(),
        }
    }

    /// Decide at run time whether some layer of this handler may only run
    /// in a message-shaped session.
    pub fn demands_message(&self) -> (r: bool)
        ensures
            r == self.requires_message(),
        decreases *self,
    {
        match self {
            Handler::Fn { f } => f.body.demands_message(),
            Handler::MayFail { .. } => true,
            Handler::Ruled { layer } => layer.handler.demands_message(),
            Handler::PreHandled { layer } => layer.handler.demands_message(),
            Handler::Extra { layer } => layer.extra.demands_message()
                || layer.handler.demands_message(),
        }
    }

    /// The effectful body. Runs only in a launched unit of work, after the
    /// filtering phase returned something other than `NotMatch`.
    ///
    /// A failure of a plain body stays inside this unit of work; a
    /// failure-tolerant body additionally reports its failure back into the
    /// conversation, best-effort.
    pub fn handle<C: ActionCaller + Scheduler>(&self, session: Session, caller: &mut C)
        requires
            self.requires_message() ==> session@.event.is_message(),
        decreases *self,
    {
        match self {
            Handler::Fn { f } => {
                let _ = f.body.run(&session, caller);
            },
            Handler::MayFail { f } => {
                match f.body.run(&session, caller) {
                    Ok(_) => {},
                    Err(e) => {
                        let _ = session.send(
                            vec![Segment::Text { text: String::from_str("Matcher Error:") }],
                            caller,
                        );
                        let text = e.describe();
                        let _ = session.send(vec![Segment::Text { text }], caller);
                    },
                }
            },
            Handler::Ruled { layer } => layer.handler.handle(session, caller),
            Handler::PreHandled { layer } => layer.handler.handle(session, caller),
            Handler::Extra { layer } => {
                let _ = layer.extra.run(&session, caller);
                layer.handler.handle(session, caller);
            },
        }
    }

    /// Wrap this handler behind a read-only rule.
    pub fn with_rule(self, rule: Rule) -> (r: Handler)
        ensures
            r matches Handler::Ruled { layer } && layer.rule == rule && *layer.handler == self,
    {
        Handler::Ruled { layer: LayeredRule { rule, handler: Box::new(self) } }
    }

    /// Wrap this handler behind a mutating pre-filter.
    pub fn with_pre_handler(self, pre: PreHandler) -> (r: Handler)
        ensures
            r matches Handler::PreHandled { layer } && layer.pre == pre && *layer.handler == self,
    {
        Handler::PreHandled { layer: LayeredPreHandler { pre, handler: Box::new(self) } }
    }

    /// Wrap this handler with a side body that runs first whenever the
    /// handler fires.
    pub fn with_extra_handler(self, extra: HandlerBody) -> (r: Handler)
        ensures
            r matches Handler::Extra { layer } && layer.extra == extra && *layer.handler == self,
    {
        Handler::Extra { layer: LayeredHandler { extra, handler: Box::new(self) } }
    }
}

impl PreHandler {
    /// Put this pre-filter in front of a handler.
    pub fn layer(self, handler: Handler) -> (r: Handler)
        ensures
            r matches Handler::PreHandled { layer } && layer.pre == self && *layer.handler
                == handler,
    {
        handler.with_pre_handler(self)
    }
}

/// The filtering phase only ever rewrites message content: whether the
/// event is message-shaped, and the configuration, survive it unchanged.
pub proof fn lemma_pre_handle_preserves_message(h: Handler, s: SessionV)
    ensures
        h.spec_pre_handle(s).1.event.is_message() == s.event.is_message(),
        h.spec_pre_handle(s).1.config == s.config,
    decreases h,
{
    match h {
        Handler::Fn { .. } => {},
        Handler::MayFail { .. } => {},
        Handler::Ruled { layer } => {
            if layer.rule.spec_check(s) {
                lemma_pre_handle_preserves_message(*layer.handler, s);
            }
        },
        Handler::PreHandled { layer } => {
            crate::pre_handle::lemma_pre_apply_preserves_message(layer.pre, s);
            lemma_pre_handle_preserves_message(*layer.handler, layer.pre.spec_apply(s).1);
        },
        Handler::Extra { layer } => {
            lemma_pre_handle_preserves_message(*layer.handler, s);
        },
    }
}

/// Whether no layer of this handler can mutate a session during the
/// filtering phase: the only mutating layer kind is a pre-filter that
/// actually rewrites content.
pub open spec fn session_preserving(h: Handler) -> bool
    decreases h,
{
    match h {
        Handler::Fn { .. } => true,
        Handler::MayFail { .. } => true,
        Handler::Ruled { layer } => session_preserving(*layer.handler),
        Handler::PreHandled { layer } => layer.pre is Always && session_preserving(*layer.handler),
        Handler::Extra { layer } => session_preserving(*layer.handler),
    }
}

/// Law: the filtering phase of a session-preserving handler leaves the
/// session exactly as it was; in particular a rule layer never mutates the
/// session regardless of the predicate's outcome.
pub proof fn lemma_session_preserving_pre_handle(h: Handler, s: SessionV)
    requires
        session_preserving(h),
    ensures
        h.spec_pre_handle(s).1 == s,
    decreases h,
{
    match h {
        Handler::Fn { .. } => {},
        Handler::MayFail { .. } => {},
        Handler::Ruled { layer } => {
            lemma_session_preserving_pre_handle(*layer.handler, s);
        },
        Handler::PreHandled { layer } => {
            lemma_session_preserving_pre_handle(*layer.handler, s);
        },
        Handler::Extra { layer } => {
            lemma_session_preserving_pre_handle(*layer.handler, s);
        },
    }
}

/// Law: a rule layer itself adds no mutation: the session it leaves behind
/// is the inner handler's, or the untouched input when the predicate
/// rejects. Wrapping a plain base handler with a rule therefore never
/// mutates the session, whatever the predicate decides.
pub proof fn lemma_with_rule_read_only(rule: Rule, h: Handler, s: SessionV)
    ensures
        ({
            let w = Handler::Ruled { layer: LayeredRule { rule, handler: Box::new(h) } };
            w.spec_pre_handle(s).1 == (if rule.spec_check(s) {
                h.spec_pre_handle(s).1
            } else {
                s
            })
        }),
{
}

/// Law: a pre-filter's verdict is authoritative. In front of a plain base
/// handler (whose own filtering phase is a constant `Matched`), the layered
/// filtering phase yields exactly the pre-filter's signal and session, not
/// something folded with a default.
pub proof fn lemma_pre_handler_authoritative(pre: PreHandler, h: Handler, s: SessionV)
    requires
        h is Fn || h is MayFail,
    ensures
        ({
            let w = Handler::PreHandled { layer: LayeredPreHandler { pre, handler: Box::new(h) } };
            w.spec_pre_handle(s) == pre.spec_apply(s)
        }),
{
    reveal_with_fuel(Handler::spec_pre_handle, 3);
    let (sig, s1) = pre.spec_apply(s);
    if !(sig is NotMatch) {
        assert(sig.spec_combine(Signal::Matched) == sig);
    }
}

/// Law: layering a rule and a pre-filter commutes when they do not interact
/// through mutation. If the predicate's verdict is unchanged by the
/// pre-filter's rewrite, both orders yield the same signal, and whenever
/// that signal fires the handler, also the same session.
pub proof fn lemma_rule_pre_commute(rule: Rule, pre: PreHandler, h: Handler, s: SessionV)
    requires
        rule.spec_check(s) == rule.spec_check(pre.spec_apply(s).1),
    ensures
        ({
            let a = Handler::PreHandled {
                layer: LayeredPreHandler {
                    pre,
                    handler: Box::new(
                        Handler::Ruled { layer: LayeredRule { rule, handler: Box::new(h) } },
                    ),
                },
            }.spec_pre_handle(s);
            let b = Handler::Ruled {
                layer: LayeredRule {
                    rule,
                    handler: Box::new(
                        Handler::PreHandled {
                            layer: LayeredPreHandler { pre, handler: Box::new(h) },
                        },
                    ),
                },
            }.spec_pre_handle(s);
            a.0 == b.0 && (!(a.0 is NotMatch) ==> a == b)
        }),
{
    reveal_with_fuel(Handler::spec_pre_handle, 4);
}

} // verus!
