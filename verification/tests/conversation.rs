//! Scenario tests around the effectful side: handler bodies running against
//! a recording action caller, and the ask/await primitive.

use walle::action::{Action, ActionKind, Resp, RespContent, SendMessageResp, WalleError};
use walle::event::{DetailTy, Event, EventTy, MessageBody, Segment, Selft};
use walle::handle::{Handler, HandlerBody, handler_fn, may_fail_handler_fn};
use walle::matchers::{Matcher, Matchers, TempMatchers};
use walle::pre_handle::strip_prefix;
use walle::session::{ActionCaller, MatchersConfig, ReplyOutcome, Scheduler, Session};
use walle::shape::{DetailShape, ImplShape, PlatformShape, Shape, SubShape, TyShape};
use walle::signal::Signal;

fn chat_event(id: &str, user: &str, text: &str) -> Event {
    Event {
        id: id.to_string(),
        time: 1,
        ty: EventTy::Message {
            body: MessageBody {
                message_id: format!("m-{}", id),
                message: vec![Segment::Text { text: text.to_string() }],
                alt_message: text.to_string(),
                user_id: user.to_string(),
            },
        },
        detail: DetailTy::Private,
        sub_type: String::new(),
        platform: "qq".to_string(),
        selft: Selft { platform: "qq".to_string(), user_id: "bot".to_string() },
    }
}

fn chat_session(event: Event) -> Session {
    Session::new(event, MatchersConfig { nicknames: Vec::new() })
}

/// Records everything the core asks of its external collaborators, as one
/// ordered log, and answers sends with fresh message identifiers.
struct RecordingCaller {
    log: Vec<String>,
    fail_sends: bool,
    close_reply_channel: bool,
    next_message_id: u64,
    reply: Option<Event>,
}

impl RecordingCaller {
    fn new() -> RecordingCaller {
        RecordingCaller {
            log: Vec::new(),
            fail_sends: false,
            close_reply_channel: false,
            next_message_id: 0,
            reply: None,
        }
    }
}

fn first_text(params_message: &Vec<Segment>) -> String {
    match params_message.first() {
        Some(Segment::Text { text }) => text.clone(),
        _ => String::new(),
    }
}

impl ActionCaller for RecordingCaller {
    fn call(&mut self, action: Action) -> Result<Resp, WalleError> {
        match &action.kind {
            ActionKind::SendMessage { params } => {
                self.log.push(format!("send:{}", first_text(&params.message)));
                if self.fail_sends {
                    return Ok(Resp {
                        retcode: 1000,
                        message: "backend rejected the send".to_string(),
                        data: RespContent::Empty,
                    });
                }
                self.next_message_id += 1;
                Ok(Resp {
                    retcode: 0,
                    message: String::new(),
                    data: RespContent::SendMessage {
                        resp: SendMessageResp {
                            message_id: format!("sent-{}", self.next_message_id),
                            time: 10,
                        },
                    },
                })
            }
            ActionKind::DeleteMessage { message_id } => {
                self.log.push(format!("delete:{}", message_id));
                Ok(Resp { retcode: 0, message: String::new(), data: RespContent::Empty })
            }
            ActionKind::Raw { name } => {
                self.log.push(format!("raw:{}", name));
                Ok(Resp { retcode: 0, message: String::new(), data: RespContent::Empty })
            }
        }
    }

    fn get_impl(&mut self, _selft: &Selft) -> String {
        "ob11".to_string()
    }

    fn get_selfs(&mut self) -> Vec<Selft> {
        vec![Selft { platform: "qq".to_string(), user_id: "bot".to_string() }]
    }
}

impl Scheduler for RecordingCaller {
    fn sleep(&mut self, time_units: u64) {
        self.log.push(format!("sleep:{}", time_units));
    }

    fn wait_reply(&mut self, correlation_id: &String, timeout_units: u64) -> ReplyOutcome {
        self.log.push(format!("wait:{}:{}", correlation_id, timeout_units));
        match self.reply.take() {
            Some(event) => ReplyOutcome::Delivered { event },
            None => {
                if self.close_reply_channel {
                    ReplyOutcome::ChannelClosed
                } else {
                    ReplyOutcome::TimedOut
                }
            }
        }
    }
}

fn message_shape() -> Shape {
    Shape {
        ty: TyShape::MessageTy,
        detail: DetailShape::MessageDetail,
        sub: SubShape::AnySub,
        platform: PlatformShape::AnyPlatform,
        implt: ImplShape::AnyImpl,
    }
}

#[test]
fn recall_command_sends_waits_then_deletes_what_it_sent() {
    // A matcher built as strip_prefix("./recall") over a body that sends
    // "hello world" and deletes the sent message after one time unit.
    let body = HandlerBody::ReplyThenRecall {
        message: vec![Segment::Text { text: "hello world".to_string() }],
        delay_units: 1,
    };
    let handler = Handler::MayFail { f: may_fail_handler_fn(body) }
        .with_pre_handler(strip_prefix("./recall".to_string()));
    let mut registry = Matchers::new(MatchersConfig { nicknames: Vec::new() });
    registry.add_matcher(handler.boxed(message_shape()));

    let mut temps = TempMatchers::new();
    let mut caller = RecordingCaller::new();
    let event = chat_event("e1", "alice", "./recall");
    let outcome = registry.dispatch(&mut temps, &event, &mut caller);
    assert_eq!(outcome.signal, Signal::Matched);
    registry.run_launches(outcome.launches, &mut caller);

    assert_eq!(
        caller.log,
        vec!["send:hello world".to_string(), "sleep:1".to_string(), "delete:sent-1".to_string()],
    );
}

#[test]
fn recall_matcher_ignores_other_text() {
    let body = HandlerBody::ReplyThenRecall {
        message: vec![Segment::Text { text: "hello world".to_string() }],
        delay_units: 1,
    };
    let handler = Handler::MayFail { f: may_fail_handler_fn(body) }
        .with_pre_handler(strip_prefix("./recall".to_string()));
    let mut registry = Matchers::new(MatchersConfig { nicknames: Vec::new() });
    registry.add_matcher(handler.boxed(message_shape()));

    let mut temps = TempMatchers::new();
    let mut caller = RecordingCaller::new();
    let event = chat_event("e1", "alice", "something else");
    let outcome = registry.dispatch(&mut temps, &event, &mut caller);
    assert_eq!(outcome.signal, Signal::NotMatch);
    assert!(outcome.launches.is_empty());
    registry.run_launches(outcome.launches, &mut caller);
    assert!(caller.log.is_empty());
}

#[test]
fn failure_tolerant_handler_reports_error_into_conversation() {
    let body = HandlerBody::Reply {
        message: vec![Segment::Text { text: "hi".to_string() }],
    };
    let handler = Handler::MayFail { f: may_fail_handler_fn(body) };
    let session = chat_session(chat_event("e1", "alice", "anything"));
    let mut caller = RecordingCaller::new();
    caller.fail_sends = true;
    handler.handle(session, &mut caller);

    assert_eq!(caller.log.len(), 3);
    assert_eq!(caller.log[0], "send:hi");
    assert_eq!(caller.log[1], "send:Matcher Error:");
    assert_eq!(caller.log[2], "send:action failed: backend rejected the send");
}

#[test]
fn plain_handler_contains_its_failure_silently() {
    let body = HandlerBody::Reply {
        message: vec![Segment::Text { text: "hi".to_string() }],
    };
    let handler = Handler::Fn { f: handler_fn(body) };
    let session = chat_session(chat_event("e1", "alice", "anything"));
    let mut caller = RecordingCaller::new();
    caller.fail_sends = true;
    handler.handle(session, &mut caller);
    assert_eq!(caller.log, vec!["send:hi".to_string()]);
}

#[test]
fn get_returns_follow_up_and_replaces_session_event() {
    // A correlated follow-up from the same requester arrives within the
    // window: get() succeeds and the session acts on the reply.
    let mut session = chat_session(chat_event("ask-1", "alice", "guess?"));
    let mut temps = TempMatchers::new();
    let mut caller = RecordingCaller::new();
    caller.reply = Some(chat_event("answer-1", "alice", "42"));

    let r = session.get(
        &mut temps,
        vec![Segment::Text { text: "what is the answer?".to_string() }],
        None,
        &mut caller,
    );
    assert!(r.is_ok());
    assert_eq!(session.event.id, "answer-1");
    // Registration happened before the send, under the asking event's
    // identifier, and the default timeout of 30 time units was used.
    assert_eq!(
        caller.log,
        vec!["send:what is the answer?".to_string(), "wait:ask-1:30".to_string()],
    );
    assert_eq!(temps.entries.len(), 1);
    assert_eq!(temps.entries[0].key, "ask-1");
}

#[test]
fn get_times_out_and_leaves_session_unchanged() {
    // No follow-up arrives within the window: get() fails with a timeout
    // and the original session event is left unmodified.
    let mut session = chat_session(chat_event("ask-2", "alice", "guess?"));
    let mut temps = TempMatchers::new();
    let mut caller = RecordingCaller::new();

    let r = session.get(
        &mut temps,
        vec![Segment::Text { text: "anyone there?".to_string() }],
        Some(30),
        &mut caller,
    );
    assert!(matches!(r, Err(WalleError::Timeout)));
    assert_eq!(session.event.id, "ask-2");
    match &session.event.ty {
        EventTy::Message { body } => assert_eq!(body.alt_message, "guess?"),
        _ => unreachable!(),
    }
    assert_eq!(caller.log, vec!["send:anyone there?".to_string(), "wait:ask-2:30".to_string()]);
}

#[test]
fn get_reports_a_closed_reply_channel_distinctly() {
    // The delivery channel goes away before any follow-up: get() fails with
    // a channel-closure error, distinguishable from a timeout, and the
    // session is left unchanged.
    let mut session = chat_session(chat_event("ask-5", "alice", "guess?"));
    let mut temps = TempMatchers::new();
    let mut caller = RecordingCaller::new();
    caller.close_reply_channel = true;

    let r = session.get(
        &mut temps,
        vec![Segment::Text { text: "still there?".to_string() }],
        None,
        &mut caller,
    );
    assert!(matches!(r, Err(WalleError::ChannelClosed)));
    assert_eq!(session.event.id, "ask-5");
}

#[test]
fn get_propagates_send_failure_without_touching_the_event() {
    let mut session = chat_session(chat_event("ask-3", "alice", "guess?"));
    let mut temps = TempMatchers::new();
    let mut caller = RecordingCaller::new();
    caller.fail_sends = true;

    let r = session.get(
        &mut temps,
        vec![Segment::Text { text: "hello?".to_string() }],
        None,
        &mut caller,
    );
    assert!(matches!(r, Err(WalleError::Resp { retcode: 1000, .. })));
    assert_eq!(session.event.id, "ask-3");
    // The registration stays behind; nothing waited on it.
    assert_eq!(temps.entries.len(), 1);
    assert_eq!(caller.log, vec!["send:hello?".to_string()]);
}

#[test]
fn dispatched_follow_up_reaches_the_pending_call() {
    // The dispatcher feeds a qualifying event through the registry: the
    // delivery names the pending call's correlation key, and applying it
    // completes the ask/await round trip.
    let mut session = chat_session(chat_event("ask-4", "alice", "question"));
    let mut temps = TempMatchers::new();
    let registry = Matchers::new(MatchersConfig { nicknames: Vec::new() });
    temps.insert(session.event.id.clone(), session.make_temp_matcher());

    let follow_up = chat_event("answer-4", "alice", "the reply");
    let mut caller = RecordingCaller::new();
    let outcome = registry.dispatch(&mut temps, &follow_up, &mut caller);
    let delivery = outcome.delivery.unwrap();
    assert_eq!(delivery.key, "ask-4");
    assert!(temps.entries.is_empty());

    let r = session.apply_reply(ReplyOutcome::Delivered { event: delivery.event });
    assert!(r.is_ok());
    assert_eq!(session.event.id, "answer-4");
}

#[test]
fn session_call_attaches_self_identity() {
    let session = chat_session(chat_event("e1", "alice", "hi"));
    let mut caller = RecordingCaller::new();
    let r = session.call(ActionKind::Raw { name: "get_status".to_string() }, &mut caller);
    assert!(r.is_ok());
    assert_eq!(caller.log, vec!["raw:get_status".to_string()]);
    let prepared = session.prepare_action(ActionKind::Raw { name: "x".to_string() });
    assert_eq!(prepared.selft.unwrap().user_id, "bot");
}

#[test]
fn bot_and_get_bots_share_the_caller() {
    let mut caller = RecordingCaller::new();
    let bots = walle::session::get_bots(&mut caller);
    assert_eq!(bots.len(), 1);
    let r = bots[0].call(ActionKind::Raw { name: "ping".to_string() }, &mut caller);
    assert!(r.is_ok());
    assert_eq!(caller.log, vec!["raw:ping".to_string()]);
}
