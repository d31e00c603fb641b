//! Tests of handler composition and of the dispatch cycle: evaluation in
//! registration order, blocking, narrowing mismatches, and the
//! temporary-matcher registry.

use walle::event::{DetailTy, Event, EventTy, MessageBody, Segment, Selft};
use walle::handle::{Handler, HandlerBody, handler_fn};
use walle::matchers::{Matcher, Matchers, TempMatchers};
use walle::pre_handle::{PreHandler, strip_prefix};
use walle::rule::{Rule, user_id_check};
use walle::session::{MatchersConfig, Session};
use walle::shape::{DetailShape, ImplShape, PlatformShape, Shape, SubShape, TyShape};
use walle::signal::Signal;

fn sample_event(id: &str, user: &str, text: &str, group: Option<&str>) -> Event {
    Event {
        id: id.to_string(),
        time: 1,
        ty: EventTy::Message {
            body: MessageBody {
                message_id: format!("m-{}", id),
                message: vec![Segment::Text { text: text.to_string() }],
                alt_message: text.to_string(),
                user_id: user.to_string(),
            },
        },
        detail: match group {
            Some(g) => DetailTy::Group { group_id: g.to_string() },
            None => DetailTy::Private,
        },
        sub_type: String::new(),
        platform: "qq".to_string(),
        selft: Selft { platform: "qq".to_string(), user_id: "bot".to_string() },
    }
}

fn sample_session(event: Event) -> Session {
    Session::new(event, MatchersConfig { nicknames: Vec::new() })
}

fn any_message_shape() -> Shape {
    Shape {
        ty: TyShape::MessageTy,
        detail: DetailShape::MessageDetail,
        sub: SubShape::AnySub,
        platform: PlatformShape::AnyPlatform,
        implt: ImplShape::AnyImpl,
    }
}

fn plain_handler() -> Handler {
    Handler::Fn { f: handler_fn(HandlerBody::Nothing) }
}

fn alt_of(session: &Session) -> String {
    match &session.event.ty {
        EventTy::Message { body } => body.alt_message.clone(),
        _ => unreachable!(),
    }
}

#[test]
fn plain_handler_pre_handle_is_matched() {
    let mut s = sample_session(sample_event("e1", "alice", "hi", None));
    assert_eq!(plain_handler().pre_handle(&mut s), Signal::Matched);
}

#[test]
fn with_rule_filters_without_mutating() {
    let h = plain_handler().with_rule(Rule::UserId { checker: user_id_check("alice".to_string()) });
    let mut hit = sample_session(sample_event("e1", "alice", "hello", None));
    assert_eq!(h.pre_handle(&mut hit), Signal::Matched);
    assert_eq!(alt_of(&hit), "hello");

    let mut miss = sample_session(sample_event("e2", "bob", "hello", None));
    assert_eq!(h.pre_handle(&mut miss), Signal::NotMatch);
    assert_eq!(alt_of(&miss), "hello");
}

#[test]
fn with_pre_handler_signal_is_authoritative() {
    let h = plain_handler().with_pre_handler(strip_prefix("./go".to_string()));
    let mut hit = sample_session(sample_event("e1", "alice", "./go east", None));
    assert_eq!(h.pre_handle(&mut hit), Signal::Matched);
    assert_eq!(alt_of(&hit), " east");

    let mut miss = sample_session(sample_event("e2", "alice", "stay", None));
    assert_eq!(h.pre_handle(&mut miss), Signal::NotMatch);
    assert_eq!(alt_of(&miss), "stay");

    let blocker = plain_handler().with_pre_handler(PreHandler::Always {
        signal: Signal::MatchAndBlock,
    });
    let mut s = sample_session(sample_event("e3", "alice", "x", None));
    assert_eq!(blocker.pre_handle(&mut s), Signal::MatchAndBlock);
    assert_eq!(alt_of(&s), "x");
}

#[test]
fn rule_and_pre_handler_layering_commutes_without_interaction() {
    // The rule looks at the sender, the pre-filter rewrites the text: they
    // do not interact through mutation, so both layerings behave alike.
    let rule = Rule::UserId { checker: user_id_check("alice".to_string()) };
    let pre = strip_prefix("./go".to_string());
    let a = plain_handler().with_rule(rule).with_pre_handler(pre);
    let rule2 = Rule::UserId { checker: user_id_check("alice".to_string()) };
    let pre2 = strip_prefix("./go".to_string());
    let b = plain_handler().with_pre_handler(pre2).with_rule(rule2);

    for (user, text) in [
        ("alice", "./go east"),
        ("alice", "stay"),
        ("bob", "./go east"),
        ("bob", "stay"),
    ] {
        let mut sa = sample_session(sample_event("e1", user, text, None));
        let mut sb = sample_session(sample_event("e1", user, text, None));
        let siga = a.pre_handle(&mut sa);
        let sigb = b.pre_handle(&mut sb);
        assert_eq!(siga, sigb);
        if siga != Signal::NotMatch {
            assert_eq!(alt_of(&sa), alt_of(&sb));
        }
    }
}

#[test]
fn narrowing_mismatch_yields_not_match_and_no_launch() {
    let matcher = Matcher::new(any_message_shape(), plain_handler());
    let mut notice = sample_event("e1", "alice", "", None);
    notice.ty = EventTy::Notice;
    let config = MatchersConfig { nicknames: Vec::new() };
    let (signal, launch) = matcher.call(&notice, &"ob11".to_string(), &config);
    assert_eq!(signal, Signal::NotMatch);
    assert!(launch.is_none());
}

#[test]
fn block_from_earlier_matcher_suppresses_later_ones() {
    let mut registry = Matchers::new(MatchersConfig { nicknames: Vec::new() });
    let blocking = plain_handler().with_pre_handler(PreHandler::Always {
        signal: Signal::MatchAndBlock,
    });
    registry.add_matcher(Matcher::new(any_message_shape(), blocking));
    registry.add_matcher(Matcher::new(any_message_shape(), plain_handler()));

    let mut temps = TempMatchers::new();
    let event = sample_event("e1", "alice", "hi", None);
    let (signal, launches, delivery) =
        registry.dispatch_resolved(&mut temps, &event, &"ob11".to_string());
    assert_eq!(signal, Signal::MatchAndBlock);
    assert_eq!(launches.len(), 1);
    assert_eq!(launches[0].index, 0);
    assert!(delivery.is_none());
}

#[test]
fn non_blocking_matchers_are_all_evaluated_and_combined() {
    // First matcher: Matched (not blocking); second: NoMatch; the third is
    // still evaluated and launched, and the combined signal is Matched.
    let mut registry = Matchers::new(MatchersConfig { nicknames: Vec::new() });
    registry.add_matcher(Matcher::new(any_message_shape(), plain_handler()));
    let for_bob = plain_handler().with_rule(Rule::UserId {
        checker: user_id_check("bob".to_string()),
    });
    registry.add_matcher(Matcher::new(any_message_shape(), for_bob));
    registry.add_matcher(Matcher::new(any_message_shape(), plain_handler()));

    let mut temps = TempMatchers::new();
    let event = sample_event("e1", "alice", "hi", None);
    let (signal, launches, _) =
        registry.dispatch_resolved(&mut temps, &event, &"ob11".to_string());
    assert_eq!(signal, Signal::Matched);
    assert_eq!(launches.len(), 2);
    assert_eq!(launches[0].index, 0);
    assert_eq!(launches[1].index, 2);
}

#[test]
fn launched_session_carries_pre_handler_rewrite() {
    let mut registry = Matchers::new(MatchersConfig { nicknames: Vec::new() });
    let h = plain_handler().with_pre_handler(strip_prefix("./echo ".to_string()));
    registry.add_matcher(Matcher::new(any_message_shape(), h));

    let mut temps = TempMatchers::new();
    let event = sample_event("e1", "alice", "./echo hi", None);
    let (signal, launches, _) =
        registry.dispatch_resolved(&mut temps, &event, &"ob11".to_string());
    assert_eq!(signal, Signal::Matched);
    assert_eq!(launches.len(), 1);
    assert_eq!(alt_of(&launches[0].session), "hi");
}

#[test]
fn temp_registry_insert_replaces_same_key() {
    let session = sample_session(sample_event("corr", "alice", "hi", None));
    let mut temps = TempMatchers::new();
    temps.insert("corr".to_string(), session.make_temp_matcher());
    temps.insert("corr".to_string(), session.make_temp_matcher());
    assert_eq!(temps.entries.len(), 1);
    assert_eq!(temps.entries[0].key, "corr");
}

#[test]
fn earliest_matching_temp_matcher_fires_once_and_is_removed() {
    let asker = sample_session(sample_event("corr-1", "alice", "hi", None));
    let other = sample_session(sample_event("corr-2", "carol", "hi", None));
    let mut temps = TempMatchers::new();
    temps.insert("corr-1".to_string(), asker.make_temp_matcher());
    temps.insert("corr-2".to_string(), other.make_temp_matcher());

    let config = MatchersConfig { nicknames: Vec::new() };
    let follow_up = sample_event("e9", "alice", "the answer", None);
    let delivery = temps.consume(&follow_up, &"ob11".to_string(), &config).unwrap();
    assert_eq!(delivery.key, "corr-1");
    assert_eq!(delivery.event.id, "e9");
    assert_eq!(temps.entries.len(), 1);
    assert_eq!(temps.entries[0].key, "corr-2");

    // A stranger's event fires nothing.
    let stranger = sample_event("e10", "bob", "noise", None);
    assert!(temps.consume(&stranger, &"ob11".to_string(), &config).is_none());
    assert_eq!(temps.entries.len(), 1);
}

#[test]
fn group_temp_matcher_demands_same_group() {
    let asker = sample_session(sample_event("corr-g", "alice", "hi", Some("g7")));
    let mut temps = TempMatchers::new();
    temps.insert("corr-g".to_string(), asker.make_temp_matcher());

    let config = MatchersConfig { nicknames: Vec::new() };
    let wrong_group = sample_event("e1", "alice", "reply", Some("g8"));
    assert!(temps.consume(&wrong_group, &"ob11".to_string(), &config).is_none());

    let right_group = sample_event("e2", "alice", "reply", Some("g7"));
    let delivery = temps.consume(&right_group, &"ob11".to_string(), &config).unwrap();
    assert_eq!(delivery.key, "corr-g");
    assert_eq!(temps.entries.len(), 0);
}

#[test]
fn bots_wrap_each_resolved_identity() {
    let selfs = vec![
        Selft { platform: "qq".to_string(), user_id: "b1".to_string() },
        Selft { platform: "tg".to_string(), user_id: "b2".to_string() },
    ];
    let bots = walle::session::bots_of(selfs);
    assert_eq!(bots.len(), 2);
    assert_eq!(bots[0].selft.user_id, "b1");
    assert_eq!(bots[1].selft.platform, "tg");
}
