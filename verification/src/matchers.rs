//! The dispatcher: the persistent matcher list, the temporary-matcher
//! registry behind the ask/await primitive, and the per-event dispatch
//! cycle.

use vstd::prelude::*;
use vstd::seq_lib::*;

use crate::action::WalleError;
use crate::event::{DetailTy, DetailTyV, Event, EventTy, EventTyV, EventV, Segment};
use crate::handle::{Handler, lemma_pre_handle_preserves_message};
use crate::rule::{Rule, group_id_check, user_id_check};
use crate::session::{
    ActionCaller, MatchersConfig, Scheduler, Session, SessionV, effective_timeout,
};
use crate::shape::{DetailShape, ImplShape, PlatformShape, Shape, SubShape, TyShape};
use crate::signal::Signal;
use vstd::pervasive::unreached;

verus! {

/// A registered, type-erased unit: the narrowing requirement a handler
/// demands, together with the handler itself.
pub struct Matcher {
    pub shape: Shape,
    pub handler: Handler,
}

impl Matcher {
    /// A matcher is well-formed when every layer that can only work in a
    /// message-shaped session stands behind a message-shaped narrowing
    /// requirement, so the handler only ever observes events that satisfy
    /// its demands.
    pub open spec fn wf(self) -> bool {
        self.handler.requires_message() ==> self.shape.ty is MessageTy
    }

    /// Pair a narrowing requirement with a handler.
    pub fn new(shape: Shape, handler: Handler) -> (r: Matcher)
        requires
            handler.requires_message() ==> shape.ty is MessageTy,
        ensures
            r.shape == shape,
            r.handler == handler,
            r.wf(),
    {
        Matcher { shape, handler }
    }

    /// The signal this matcher computes for an event, and the session its
    /// filtering phase leaves behind: `NotMatch` outright when narrowing
    /// fails, the filtering phase's verdict otherwise.
    pub open spec fn spec_eval(self, e: EventV, implt: Seq<char>, config: Seq<Seq<char>>) -> (
        Signal,
        SessionV,
    ) {
        if self.shape.spec_matches(e, implt) {
            self.handler.spec_pre_handle(SessionV { event: e, config })
        } else {
            (Signal::NotMatch, SessionV { event: e, config })
        }
    }

    /// Evaluate this matcher against one inbound event: narrow, and on
    /// success run the synchronous filtering phase on a fresh session.
    ///
    /// An event that fails narrowing yields `NotMatch` and no launch: the
    /// handler body is not handed back for launching. A non-`NotMatch`
    /// signal comes with the session the body is to be launched with.
    pub fn call(&self, event: &Event, implt: &String, config: &MatchersConfig) -> (r: (
        Signal,
        Option<Session>,
    ))
        ensures
            r.0 == self.spec_eval(event@, implt@, config.spec_nicknames()).0,
            !self.shape.spec_matches(event@, implt@) ==> r.0 is NotMatch,
            r.0 is NotMatch <==> r.1 is None,
            r.1 matches Some(s) ==> s@ == self.spec_eval(event@, implt@, config.spec_nicknames()).1,
            r.1 matches Some(s) ==> (s@.event.is_message() <==> event@.ty is Message),
    {
        match self.shape.narrow(event, implt) {
            Some(narrowed) => {
                let mut session = Session::new(narrowed, config.clone());
                proof {
                    assert(session@ =~= SessionV {
                        event: event@,
                        config: config.spec_nicknames(),
                    });
                    lemma_pre_handle_preserves_message(self.handler, session@);
                }
                let signal = self.handler.pre_handle(&mut session);
                if signal == Signal::NotMatch {
                    (signal, None)
                } else {
                    (signal, Some(session))
                }
            },
            None => (Signal::NotMatch, None),
        }
    }
}

/// A short-lived matcher serving one pending ask/await call: a narrowing
/// requirement plus identity rules; its only effect on firing is that the
/// dispatcher delivers the event back to the waiting call.
pub struct TempMatcher {
    pub shape: Shape,
    pub rules: Vec<Rule>,
}

impl TempMatcher {
    /// Whether this temporary matcher fires on an event: the narrowing
    /// succeeds and every identity rule accepts.
    pub open spec fn spec_matches(self, e: EventV, implt: Seq<char>, config: Seq<Seq<char>>) -> bool {
        self.shape.spec_matches(e, implt) && (forall|i: int|
            0 <= i < self.rules@.len() ==> (#[trigger] self.rules@[i]).spec_check(
                SessionV { event: e, config },
            ))
    }

    /// Evaluate this temporary matcher against one inbound event.
    pub fn matches(&self, event: &Event, implt: &String, config: &MatchersConfig) -> (r: bool)
        ensures
            r == self.spec_matches(event@, implt@, config.spec_nicknames()),
    {
        if !self.shape.matches(event, implt) {
            return false;
        }
        let session = Session::new(event.clone(), config.clone());
        proof {
            assert(session@ =~= SessionV { event: event@, config: config.spec_nicknames() });
        }
        let mut i: usize = 0;
        while i < self.rules.len()
            invariant
                i <= self.rules@.len(),
                session@ == (SessionV { event: event@, config: config.spec_nicknames() }),
                forall|j: int| 0 <= j < i ==> (#[trigger] self.rules@[j]).spec_check(session@),
            decreases self.rules@.len() - i,
        {
            if !self.rules[i].check(&session) {
                return false;
            }
            i = i + 1;
        }
        true
    }
}

/// One registration in the temporary-matcher registry, keyed by the
/// identifier of the event the pending call is replying to.
pub struct TempEntry {
    pub key: String,
    pub matcher: TempMatcher,
}

/// What a key maps to in an association list of registrations.
pub open spec fn lookup_entries(s: Seq<TempEntry>, key: Seq<char>) -> Option<TempMatcher>
    decreases s.len(),
{
    if s.len() == 0 {
        None
    } else if s[0].key@ == key {
        Some(s[0].matcher)
    } else {
        lookup_entries(s.subrange(1, s.len() as int), key)
    }
}

/// A key held at position `i`, with no earlier occurrence, is what the
/// lookup finds.
proof fn lemma_lookup_at(s: Seq<TempEntry>, key: Seq<char>, i: int)
    requires
        0 <= i < s.len(),
        s[i].key@ == key,
        forall|k: int| 0 <= k < i ==> s[k].key@ != key,
    ensures
        lookup_entries(s, key) == Some(s[i].matcher),
    decreases i,
{
    if i > 0 {
        let t = s.subrange(1, s.len() as int);
        lemma_lookup_at(t, key, i - 1);
    }
}

/// A key that occurs nowhere is not found.
proof fn lemma_lookup_none(s: Seq<TempEntry>, key: Seq<char>)
    requires
        forall|k: int| 0 <= k < s.len() ==> s[k].key@ != key,
    ensures
        lookup_entries(s, key) is None,
    decreases s.len(),
{
    if s.len() > 0 {
        let t = s.subrange(1, s.len() as int);
        lemma_lookup_none(t, key);
    }
}

/// Replacing the entry at `i` in place leaves every other key's lookup
/// unchanged.
proof fn lemma_lookup_update_other(s: Seq<TempEntry>, i: int, e: TempEntry, key: Seq<char>)
    requires
        0 <= i < s.len(),
        key != e.key@,
        key != s[i].key@,
    ensures
        lookup_entries(s.update(i, e), key) == lookup_entries(s, key),
    decreases s.len(),
{
    let u = s.update(i, e);
    if s.len() > 0 {
        if i == 0 {
            assert(u.subrange(1, u.len() as int) =~= s.subrange(1, s.len() as int));
        } else {
            assert(u.subrange(1, u.len() as int) =~= s.subrange(1, s.len() as int).update(
                i - 1,
                e,
            ));
            lemma_lookup_update_other(s.subrange(1, s.len() as int), i - 1, e, key);
        }
    }
}

/// Appending an entry leaves every present key's lookup unchanged and makes
/// an absent key find the new entry.
proof fn lemma_lookup_push(s: Seq<TempEntry>, e: TempEntry, key: Seq<char>)
    ensures
        lookup_entries(s.push(e), key) == (if lookup_entries(s, key) is Some {
            lookup_entries(s, key)
        } else if key == e.key@ {
            Some(e.matcher)
        } else {
            None
        }),
    decreases s.len(),
{
    reveal_with_fuel(lookup_entries, 3);
    if s.len() == 0 {
        assert(s.push(e)[0] == e);
        assert(s.push(e).subrange(1, 1) =~= Seq::<TempEntry>::empty());
        assert(lookup_entries(Seq::<TempEntry>::empty(), key) is None);
    } else {
        assert(s.push(e).subrange(1, s.len() as int + 1) =~= s.subrange(1, s.len() as int).push(e));
        lemma_lookup_push(s.subrange(1, s.len() as int), e, key);
    }
}

/// The shared registry of temporary matchers: an association from
/// correlation identifier (the identifier of the event a pending call is
/// replying to) to the matcher serving that call. Keys are unique.
pub struct TempMatchers {
    pub entries: Vec<TempEntry>,
}

impl TempMatchers {
    /// Keys are pairwise distinct, so the registry is a mapping.
    pub open spec fn wf(self) -> bool {
        forall|i: int, j: int|
            0 <= i < j < self.entries@.len() ==> self.entries@[i].key@ != self.entries@[j].key@
    }

    /// The matcher registered under a correlation identifier.
    pub open spec fn spec_lookup(self, key: Seq<char>) -> Option<TempMatcher> {
        lookup_entries(self.entries@, key)
    }

    /// An empty registry.
    pub fn new() -> (r: TempMatchers)
        ensures
            r.wf(),
            r.entries@.len() == 0,
            forall|k: Seq<char>| r.spec_lookup(k) is None,
    {
        let r = TempMatchers { entries: Vec::new() };
        proof {
            assert forall|k: Seq<char>| r.spec_lookup(k) is None by {
                lemma_lookup_none(r.entries@, k);
            }
        }
        r
    }

    /// Register `matcher` under `key`, replacing any registration already
    /// held under the same key.
    pub fn insert(&mut self, key: String, matcher: TempMatcher)
        requires
            old(self).wf(),
        ensures
            final(self).wf(),
            final(self).spec_lookup(key@) == Some(matcher),
            forall|k: Seq<char>|
                k != key@ ==> final(self).spec_lookup(k) == old(self).spec_lookup(k),
    {
        let ghost old_entries = self.entries@;
        let mut i: usize = 0;
        while i < self.entries.len()
            invariant
                old(self).wf(),
                old_entries == old(self).entries@,
                self.entries@ == old_entries,
                i <= old_entries.len(),
                forall|k: int| 0 <= k < i ==> old_entries[k].key@ != key@,
            decreases old_entries.len() - i,
        {
            if self.entries[i].key == key {
                let e = TempEntry { key, matcher };
                self.entries.set(i, e);
                proof {
                    let u = self.entries@;
                    assert(u == old_entries.update(i as int, e));
                    assert forall|a: int, b: int| 0 <= a < b < u.len() implies u[a].key@
                        != u[b].key@ by {
                        if a != i && b != i {
                            assert(old_entries[a].key@ != old_entries[b].key@);
                        } else if a == i {
                            assert(old_entries[i as int].key@ != old_entries[b].key@);
                        } else {
                            assert(old_entries[a].key@ != old_entries[i as int].key@);
                        }
                    }
                    lemma_lookup_at(u, e.key@, i as int);
                    assert forall|k: Seq<char>| k != e.key@ implies lookup_entries(u, k)
                        == lookup_entries(old_entries, k) by {
                        lemma_lookup_update_other(old_entries, i as int, e, k);
                    }
                }
                return ;
            }
            i = i + 1;
        }
        let e = TempEntry { key, matcher };
        self.entries.push(e);
        proof {
            lemma_lookup_none(old_entries, e.key@);
            lemma_lookup_push(old_entries, e, e.key@);
            assert forall|k: Seq<char>| k != e.key@ implies lookup_entries(self.entries@, k)
                == lookup_entries(old_entries, k) by {
                lemma_lookup_push(old_entries, e, k);
            }
        }
    }

    /// Whether the entry at `j` is the earliest one that fires on the event.
    pub open spec fn spec_first_match(
        self,
        e: EventV,
        implt: Seq<char>,
        cfg: Seq<Seq<char>>,
        j: int,
    ) -> bool {
        &&& 0 <= j < self.entries@.len()
        &&& self.entries@[j].matcher.spec_matches(e, implt, cfg)
        &&& forall|k: int|
            0 <= k < j ==> !(#[trigger] self.entries@[k]).matcher.spec_matches(e, implt, cfg)
    }

    /// Consult the registry for one inbound event. The earliest registered
    /// temporary matcher that fires does so exactly once: its registration
    /// is removed and the event is handed back for delivery to the pending
    /// call it serves. Firing has no other effect; in particular it never
    /// blocks the persistent matchers.
    pub fn consume(&mut self, event: &Event, implt: &String, config: &MatchersConfig) -> (r:
        Option<Delivery>)
        requires
            old(self).wf(),
        ensures
            final(self).wf(),
            r matches Some(d) ==> exists|j: int|
                {
                    &&& old(self).spec_first_match(
                        event@,
                        implt@,
                        config.spec_nicknames(),
                        j,
                    )
                    &&& d.key@ == old(self).entries@[j].key@
                    &&& d.event@ == event@
                    &&& final(self).entries@ == old(self).entries@.remove(j)
                },
            r is None ==> final(self).entries@ == old(self).entries@ && (forall|j: int|
                0 <= j < old(self).entries@.len() ==> !(#[trigger] old(
                    self,
                ).entries@[j]).matcher.spec_matches(event@, implt@, config.spec_nicknames())),
    {
        let ghost old_entries = self.entries@;
        let mut i: usize = 0;
        while i < self.entries.len()
            invariant
                old(self).wf(),
                old_entries == old(self).entries@,
                self.entries@ == old_entries,
                i <= old_entries.len(),
                forall|k: int|
                    0 <= k < i ==> !(#[trigger] old_entries[k]).matcher.spec_matches(
                        event@,
                        implt@,
                        config.spec_nicknames(),
                    ),
            decreases old_entries.len() - i,
        {
            if self.entries[i].matcher.matches(event, implt, config) {
                let ghost j = i as int;
                let entry = self.entries.remove(i);
                proof {
                    let u = self.entries@;
                    assert(u == old_entries.remove(j));
                    old_entries.remove_ensures(j);
                    assert forall|a: int, b: int| 0 <= a < b < u.len() implies u[a].key@
                        != u[b].key@ by {
                        let a0: int = if a < j {
                            a
                        } else {
                            a + 1
                        };
                        let b0: int = if b < j {
                            b
                        } else {
                            b + 1
                        };
                        assert(u[a] == old_entries[a0]);
                        assert(u[b] == old_entries[b0]);
                        assert(old_entries[a0].key@ != old_entries[b0].key@);
                    }
                    assert(old(self).spec_first_match(event@, implt@, config.spec_nicknames(), j));
                }
                return Some(Delivery { key: entry.key, event: event.clone() });
            }
            i = i + 1;
        }
        None
    }
}

/// What the dispatcher hands back when a temporary matcher fires: the
/// correlation key of the pending call and the event to deliver to it.
pub struct Delivery {
    pub key: String,
    pub event: Event,
}

/// A handler body the dispatcher asks the embedding runtime to launch: the
/// registration index of its matcher and the session its filtering phase
/// left behind.
pub struct Launch {
    pub index: usize,
    pub session: Session,
}

/// The model of a sequence of launches.
pub open spec fn launches_view(ls: Seq<Launch>) -> Seq<(int, SessionV)> {
    ls.map_values(|l: Launch| (l.index as int, l.session@))
}

/// The model of one dispatch pass over the persistent matchers, starting at
/// registration index `i`: the folded signal, how many matchers were
/// evaluated, and which handler bodies are launched, with their sessions.
#[verifier::ext_equal]
pub ghost struct DispatchV {
    pub signal: Signal,
    pub evaluated: int,
    pub launches: Seq<(int, SessionV)>,
}

/// Evaluate matchers `i, i+1, ...` in order. Each evaluated matcher whose
/// signal is not `NotMatch` is launched; propagation stops the instant a
/// matcher yields `MatchAndBlock`, so no later matcher is evaluated at all.
pub open spec fn spec_dispatch_from(
    ms: Seq<Matcher>,
    i: int,
    e: EventV,
    implt: Seq<char>,
    cfg: Seq<Seq<char>>,
) -> DispatchV
    decreases ms.len() - i,
{
    if i < 0 || i >= ms.len() {
        DispatchV { signal: Signal::NotMatch, evaluated: 0, launches: Seq::empty() }
    } else {
        let (sig, sv) = ms[i].spec_eval(e, implt, cfg);
        let here: Seq<(int, SessionV)> = if sig is NotMatch {
            Seq::empty()
        } else {
            seq![(i, sv)]
        };
        if sig is MatchAndBlock {
            DispatchV { signal: sig, evaluated: 1, launches: here }
        } else {
            let rest = spec_dispatch_from(ms, i + 1, e, implt, cfg);
            DispatchV {
                signal: sig.spec_combine(rest.signal),
                evaluated: 1 + rest.evaluated,
                launches: here + rest.launches,
            }
        }
    }
}

/// One dispatch pass over the whole persistent matcher list.
pub open spec fn spec_dispatch(
    ms: Seq<Matcher>,
    e: EventV,
    implt: Seq<char>,
    cfg: Seq<Seq<char>>,
) -> DispatchV {
    spec_dispatch_from(ms, 0, e, implt, cfg)
}

/// Every launch of a dispatch pass names an evaluated matcher whose signal
/// was not `NotMatch`, carries exactly the session that matcher's filtering
/// phase left behind, and the launches come in registration order.
pub proof fn lemma_dispatch_from_launches(
    ms: Seq<Matcher>,
    i: int,
    e: EventV,
    implt: Seq<char>,
    cfg: Seq<Seq<char>>,
)
    requires
        0 <= i,
    ensures
        ({
            let d = spec_dispatch_from(ms, i, e, implt, cfg);
            &&& 0 <= d.evaluated <= ms.len() - i || d.evaluated == 0
            &&& forall|t: int|
                0 <= t < d.launches.len() ==> ({
                    let idx = (#[trigger] d.launches[t]).0;
                    &&& i <= idx < ms.len()
                    &&& idx < i + d.evaluated
                    &&& !(ms[idx].spec_eval(e, implt, cfg).0 is NotMatch)
                    &&& d.launches[t].1 == ms[idx].spec_eval(e, implt, cfg).1
                })
            &&& forall|t1: int, t2: int|
                0 <= t1 < t2 < d.launches.len() ==> (#[trigger] d.launches[t1]).0 < (
                #[trigger] d.launches[t2]).0
        }),
    decreases ms.len() - i,
{
    if 0 <= i < ms.len() {
        let (sig, sv) = ms[i].spec_eval(e, implt, cfg);
        if !(sig is MatchAndBlock) {
            lemma_dispatch_from_launches(ms, i + 1, e, implt, cfg);
        }
    }
}

/// Law: an event that fails narrowing against a matcher's declared shape
/// yields `NotMatch` for that matcher and never launches its handler body.
pub proof fn lemma_narrowing_failure_never_launches(
    ms: Seq<Matcher>,
    e: EventV,
    implt: Seq<char>,
    cfg: Seq<Seq<char>>,
    k: int,
)
    requires
        0 <= k < ms.len(),
        !ms[k].shape.spec_matches(e, implt),
    ensures
        ms[k].spec_eval(e, implt, cfg).0 is NotMatch,
        forall|t: int|
            0 <= t < spec_dispatch(ms, e, implt, cfg).launches.len() ==> (#[trigger] spec_dispatch(
                ms,
                e,
                implt,
                cfg,
            ).launches[t]).0 != k,
{
    lemma_dispatch_from_launches(ms, 0, e, implt, cfg);
}

/// Helper: with no blocking signal from index `i` on, every remaining
/// matcher is evaluated.
proof fn lemma_evaluated_from(ms: Seq<Matcher>, i: int, e: EventV, implt: Seq<char>, cfg: Seq<
    Seq<char>,
>)
    requires
        0 <= i <= ms.len(),
        forall|k: int|
            i <= k < ms.len() ==> !((#[trigger] ms[k]).spec_eval(e, implt, cfg).0
                is MatchAndBlock),
    ensures
        spec_dispatch_from(ms, i, e, implt, cfg).evaluated == ms.len() - i,
    decreases ms.len() - i,
{
    if i < ms.len() {
        lemma_evaluated_from(ms, i + 1, e, implt, cfg);
    }
}

/// Helper: a first blocking signal at index `j` stops evaluation right
/// after `j`.
proof fn lemma_block_from(ms: Seq<Matcher>, i: int, j: int, e: EventV, implt: Seq<char>, cfg: Seq<
    Seq<char>,
>)
    requires
        0 <= i <= j < ms.len(),
        ms[j].spec_eval(e, implt, cfg).0 is MatchAndBlock,
        forall|k: int|
            i <= k < j ==> !((#[trigger] ms[k]).spec_eval(e, implt, cfg).0 is MatchAndBlock),
    ensures
        spec_dispatch_from(ms, i, e, implt, cfg).evaluated == j + 1 - i,
    decreases j - i,
{
    if i < j {
        lemma_block_from(ms, i + 1, j, e, implt, cfg);
    }
}

/// Law: if the matcher at `j` yields `MatchAndBlock` for an event, and no
/// earlier matcher does, the matchers after `j` are not evaluated for that
/// event: exactly `j + 1` matchers are.
pub proof fn lemma_block_stops_evaluation(
    ms: Seq<Matcher>,
    e: EventV,
    implt: Seq<char>,
    cfg: Seq<Seq<char>>,
    j: int,
)
    requires
        0 <= j < ms.len(),
        ms[j].spec_eval(e, implt, cfg).0 is MatchAndBlock,
        forall|k: int|
            0 <= k < j ==> !((#[trigger] ms[k]).spec_eval(e, implt, cfg).0 is MatchAndBlock),
    ensures
        spec_dispatch(ms, e, implt, cfg).evaluated == j + 1,
{
    lemma_block_from(ms, 0, j, e, implt, cfg);
}

/// Law: with no blocking signal anywhere, the dispatcher evaluates every
/// registered matcher and still combines all their signals.
pub proof fn lemma_no_block_evaluates_all(
    ms: Seq<Matcher>,
    e: EventV,
    implt: Seq<char>,
    cfg: Seq<Seq<char>>,
)
    requires
        forall|k: int|
            0 <= k < ms.len() ==> !((#[trigger] ms[k]).spec_eval(e, implt, cfg).0
                is MatchAndBlock),
    ensures
        spec_dispatch(ms, e, implt, cfg).evaluated == ms.len(),
{
    lemma_evaluated_from(ms, 0, e, implt, cfg);
}

/// What one full dispatch cycle reports back to the embedding runtime.
pub struct DispatchOutcome {
    /// The implementation name the action caller resolved for the event.
    pub implt: String,
    /// The folded signal of the persistent matchers, for propagation
    /// control.
    pub signal: Signal,
    /// The handler bodies to launch, in registration order.
    pub launches: Vec<Launch>,
    /// The delivery owed to a pending ask/await call, if a temporary
    /// matcher fired.
    pub delivery: Option<Delivery>,
}

/// The registry of persistent matchers, consulted in registration order for
/// every inbound event, together with the shared configuration.
pub struct Matchers {
    pub matchers: Vec<Matcher>,
    pub config: MatchersConfig,
}

impl Matchers {
    /// Every registered matcher is well-formed.
    pub open spec fn wf(self) -> bool {
        forall|i: int| 0 <= i < self.matchers@.len() ==> (#[trigger] self.matchers@[i]).wf()
    }

    /// An empty registry.
    pub fn new(config: MatchersConfig) -> (r: Matchers)
        ensures
            r.matchers@.len() == 0,
            r.config == config,
            r.wf(),
    {
        Matchers { matchers: Vec::new(), config }
    }

    /// Register a matcher; registration order determines evaluation
    /// precedence.
    pub fn add_matcher(&mut self, matcher: Matcher)
        requires
            matcher.wf(),
            old(self).wf(),
        ensures
            final(self).matchers@ == old(self).matchers@.push(matcher),
            final(self).config == old(self).config,
            final(self).wf(),
    {
        self.matchers.push(matcher);
    }

    /// Evaluate the persistent matchers in registration order: collect the
    /// launches, fold the signals with the strongest-wins rule, and stop
    /// the instant a matcher yields `MatchAndBlock`.
    pub fn dispatch_matchers(&self, event: &Event, implt: &String) -> (r: (Signal, Vec<Launch>))
        ensures
            ({
                let d = spec_dispatch(self.matchers@, event@, implt@, self.config.spec_nicknames());
                &&& r.0 == d.signal
                &&& launches_view(r.1@) == d.launches
            }),
            forall|t: int|
                0 <= t < r.1@.len() ==> (#[trigger] r.1@[t]).index < self.matchers@.len(),
            self.wf() ==> forall|t: int|
                0 <= t < r.1@.len() ==> ((#[trigger] r.1@[t]).session@.event.is_message()
                    || !self.matchers@[r.1@[t].index as int].handler.requires_message()),
    {
        let ghost ms = self.matchers@;
        let ghost e = event@;
        let ghost im = implt@;
        let ghost cfg = self.config.spec_nicknames();
        let ghost d = spec_dispatch(ms, e, im, cfg);
        let mut launches: Vec<Launch> = Vec::new();
        let mut signal = Signal::NotMatch;
        let mut i: usize = 0;
        while i < self.matchers.len()
            invariant
                ms == self.matchers@,
                e == event@,
                im == implt@,
                cfg == self.config.spec_nicknames(),
                d == spec_dispatch(ms, e, im, cfg),
                i <= ms.len(),
                !(signal is MatchAndBlock),
                d.signal == signal.spec_combine(spec_dispatch_from(ms, i as int, e, im, cfg).signal),
                d.launches =~= launches_view(launches@) + spec_dispatch_from(
                    ms,
                    i as int,
                    e,
                    im,
                    cfg,
                ).launches,
            decreases ms.len() - i,
        {
            let m = &self.matchers[i];
            let ghost lv_before = launches@;
            let ghost step = spec_dispatch_from(ms, i as int, e, im, cfg);
            let (sig, opt_session) = m.call(event, implt, &self.config);
            match opt_session {
                Some(session) => {
                    launches.push(Launch { index: i, session });
                },
                None => {},
            }
            proof {
                if sig is NotMatch {
                    assert(launches_view(launches@) =~= launches_view(lv_before));
                } else {
                    assert(launches_view(launches@) =~= launches_view(lv_before) + seq![
                        (i as int, ms[i as int].spec_eval(e, im, cfg).1),
                    ]);
                }
            }
            let combined = signal.combine(sig);
            if sig == Signal::MatchAndBlock {
                proof {
                    assert(d.launches =~= launches_view(launches@));
                    lemma_launch_safety(ms, e, im, cfg, launches@);
                }
                return (combined, launches);
            }
            signal = combined;
            i = i + 1;
        }
        proof {
            assert(spec_dispatch_from(ms, ms.len() as int, e, im, cfg).launches
                =~= Seq::<(int, SessionV)>::empty());
            assert(d.launches =~= launches_view(launches@));
            lemma_launch_safety(ms, e, im, cfg, launches@);
        }
        (signal, launches)
    }
}

impl Matchers {
    /// Run the handler bodies the dispatcher asked to launch, one after the
    /// other. An embedding runtime that launches each body as its own unit
    /// of work gives the same per-body behaviour: bodies are independent
    /// and their failures are contained.
    ///
    /// A launch whose index is out of range, or whose session does not meet
    /// its handler's conversation-shape demands, is skipped; the launches a
    /// dispatch cycle hands back never are.
    pub fn run_launches<C: ActionCaller + Scheduler>(&self, launches: Vec<Launch>, caller: &mut C)
    {
        let mut launches = launches;
        while launches.len() > 0
            decreases launches@.len(),
        {
            let launch = launches.remove(0);
            if launch.index < self.matchers.len() {
                let matcher = &self.matchers[launch.index];
                let is_message = match &launch.session.event.ty {
                    EventTy::Message { .. } => true,
                    _ => false,
                };
                if is_message || !matcher.handler.demands_message() {
                    matcher.handler.handle(launch.session, caller);
                }
            }
        }
    }

    /// One full dispatch cycle for an event whose owning implementation is
    /// already resolved: consult the temporary-matcher registry, then the
    /// persistent matchers in registration order.
    pub fn dispatch_resolved(&self, temps: &mut TempMatchers, event: &Event, implt: &String) -> (r:
        (Signal, Vec<Launch>, Option<Delivery>))
        requires
            old(temps).wf(),
        ensures
            final(temps).wf(),
            ({
                let d = spec_dispatch(self.matchers@, event@, implt@, self.config.spec_nicknames());
                &&& r.0 == d.signal
                &&& launches_view(r.1@) == d.launches
            }),
            forall|t: int|
                0 <= t < r.1@.len() ==> (#[trigger] r.1@[t]).index < self.matchers@.len(),
            self.wf() ==> forall|t: int|
                0 <= t < r.1@.len() ==> ((#[trigger] r.1@[t]).session@.event.is_message()
                    || !self.matchers@[r.1@[t].index as int].handler.requires_message()),
            r.2 matches Some(d) ==> exists|j: int|
                {
                    &&& old(temps).spec_first_match(
                        event@,
                        implt@,
                        self.config.spec_nicknames(),
                        j,
                    )
                    &&& d.key@ == old(temps).entries@[j].key@
                    &&& d.event@ == event@
                    &&& final(temps).entries@ == old(temps).entries@.remove(j)
                },
            r.2 is None ==> final(temps).entries@ == old(temps).entries@ && (forall|j: int|
                0 <= j < old(temps).entries@.len() ==> !(#[trigger] old(
                    temps,
                ).entries@[j]).matcher.spec_matches(event@, implt@, self.config.spec_nicknames())),
    {
        let delivery = temps.consume(event, implt, &self.config);
        let (signal, launches) = self.dispatch_matchers(event, implt);
        (signal, launches, delivery)
    }

    /// One full dispatch cycle for one inbound event: resolve the owning
    /// implementation once through the action caller, then dispatch against
    /// the registry and the persistent matchers.
    ///
    /// The launches are handed back instead of being awaited here, so the
    /// cost of a cycle is bounded by narrowing plus filtering, however long
    /// the launched business logic runs.
    pub fn dispatch<C: ActionCaller>(&self, temps: &mut TempMatchers, event: &Event, caller: &mut
        C) -> (r: DispatchOutcome)
        requires
            old(temps).wf(),
        ensures
            final(temps).wf(),
            ({
                let d = spec_dispatch(
                    self.matchers@,
                    event@,
                    r.implt@,
                    self.config.spec_nicknames(),
                );
                &&& r.signal == d.signal
                &&& launches_view(r.launches@) == d.launches
            }),
            forall|t: int|
                0 <= t < r.launches@.len() ==> (#[trigger] r.launches@[t]).index
                    < self.matchers@.len(),
            self.wf() ==> forall|t: int|
                0 <= t < r.launches@.len() ==> ((#[trigger] r.launches@[t]).session@.event.is_message()
                    || !self.matchers@[r.launches@[t].index as int].handler.requires_message()),
            r.delivery matches Some(d) ==> exists|j: int|
                {
                    &&& old(temps).spec_first_match(
                        event@,
                        r.implt@,
                        self.config.spec_nicknames(),
                        j,
                    )
                    &&& d.key@ == old(temps).entries@[j].key@
                    &&& d.event@ == event@
                    &&& final(temps).entries@ == old(temps).entries@.remove(j)
                },
            r.delivery is None ==> final(temps).entries@ == old(temps).entries@ && (forall|j: int|
                0 <= j < old(temps).entries@.len() ==> !(#[trigger] old(
                    temps,
                ).entries@[j]).matcher.spec_matches(event@, r.implt@, self.config.spec_nicknames())),
    {
        let implt = caller.get_impl(&event.selft);
        let (signal, launches, delivery) = self.dispatch_resolved(temps, event, &implt);
        DispatchOutcome { implt, signal, launches, delivery }
    }
}

/// The narrowing requirement and identity rules a temporary matcher is
/// created with: message events from the same requester, and for a group
/// conversation the same group, on any sub type, platform and
/// implementation.
pub open spec fn spec_temp_profile(tm: TempMatcher, e: EventV) -> bool
    recommends
        e.is_message(),
{
    &&& tm.shape.ty is MessageTy
    &&& tm.shape.detail is MessageDetail
    &&& tm.shape.sub is AnySub
    &&& tm.shape.platform is AnyPlatform
    &&& tm.shape.implt is AnyImpl
    &&& tm.rules@.len() == (if e.detail is Group {
        2int
    } else {
        1int
    })
    &&& tm.rules@[0] matches Rule::UserId { checker } && checker.user_id@ == e.msg().user_id
    &&& (e.detail matches DetailTyV::Group { group_id } ==> (tm.rules@[1] matches Rule::GroupId {
        checker,
    } && checker.group_id@ == group_id))
}

/// Law: the matcher an ask/await call registers fires on exactly the
/// qualifying follow-ups: message events in a private or group
/// conversation, sent by the same requester, and coming from the same group
/// when the asking conversation was one. Sub type, platform and
/// implementation are never constrained.
pub proof fn lemma_temp_matcher_fires_on_qualifying(
    tm: TempMatcher,
    ask: EventV,
    e: EventV,
    implt: Seq<char>,
    cfg: Seq<Seq<char>>,
)
    requires
        ask.is_message(),
        spec_temp_profile(tm, ask),
    ensures
        tm.spec_matches(e, implt, cfg) <==> ({
            &&& e.ty matches EventTyV::Message { body } && body.user_id == ask.msg().user_id
            &&& (e.detail is Private || e.detail is Group)
            &&& (ask.detail matches DetailTyV::Group { group_id } ==> e.group_id() == Some(
                group_id,
            ))
        }),
{
    let sv = SessionV { event: e, config: cfg };
    if tm.spec_matches(e, implt, cfg) {
        assert(tm.rules@[0].spec_check(sv));
        if ask.detail is Group {
            assert(tm.rules@[1].spec_check(sv));
        }
    }
    if {
        &&& e.ty matches EventTyV::Message { body } && body.user_id == ask.msg().user_id
        &&& (e.detail is Private || e.detail is Group)
        &&& (ask.detail matches DetailTyV::Group { group_id } ==> e.group_id() == Some(group_id))
    } {
        assert forall|i: int| 0 <= i < tm.rules@.len() implies (#[trigger] tm.rules@[i]).spec_check(
            sv,
        ) by {
            if i == 0 {
                assert(tm.rules@[0] matches Rule::UserId { checker } && checker.spec_rule(sv));
            } else {
                assert(tm.rules@[1] matches Rule::GroupId { checker } && checker.spec_rule(sv));
            }
        }
    }
}

impl Session {
    /// The temporary matcher serving an ask/await call on this session:
    /// correlated follow-ups must be message events from the same
    /// requester, and from the same group when the conversation is one.
    pub fn make_temp_matcher(&self) -> (r: TempMatcher)
        requires
            self@.event.is_message(),
        ensures
            spec_temp_profile(r, self@.event),
    {
        let shape = Shape {
            ty: TyShape::MessageTy,
            detail: DetailShape::MessageDetail,
            sub: SubShape::AnySub,
            platform: PlatformShape::AnyPlatform,
            implt: ImplShape::AnyImpl,
        };
        let user_id = match &self.event.ty {
            EventTy::Message { body } => body.user_id.clone(),
            _ => unreached(),
        };
        let mut rules: Vec<Rule> = Vec::new();
        rules.push(Rule::UserId { checker: user_id_check(user_id) });
        match &self.event.detail {
            DetailTy::Group { group_id } => {
                rules.push(Rule::GroupId { checker: group_id_check(group_id.clone()) });
            },
            _ => {},
        }
        TempMatcher { shape, rules }
    }

    /// The ask/await primitive: send `message` into the conversation, then
    /// park this unit of work until a qualifying follow-up event arrives or
    /// the timeout (30 time units when none is named) elapses.
    ///
    /// A temporary matcher correlated to the current event's identifier is
    /// registered before the send, so a fast reply cannot race past it. On
    /// a delivery the session's event is replaced by the follow-up; on a
    /// timeout, on a closed delivery channel, or when the send itself
    /// fails, the session is left exactly as it was and the failures stay
    /// distinguishable. The registration is not proactively evicted on
    /// failure; it stays behind until a qualifying event fires it.
    pub fn get<C: ActionCaller + Scheduler>(
        &mut self,
        temps: &mut TempMatchers,
        message: Vec<Segment>,
        timeout: Option<u64>,
        caller: &mut C,
    ) -> (r: Result<(), WalleError>)
        requires
            old(self)@.event.is_message(),
            old(temps).wf(),
        ensures
            final(temps).wf(),
            exists|tm: TempMatcher|
                {
                    &&& #[trigger] spec_temp_profile(tm, old(self)@.event)
                    &&& final(temps).spec_lookup(old(self)@.event.id) == Some(tm)
                },
            forall|k: Seq<char>|
                k != old(self)@.event.id ==> final(temps).spec_lookup(k) == old(temps).spec_lookup(
                    k,
                ),
            r is Err ==> final(self)@ == old(self)@,
            r is Ok ==> final(self)@.config == old(self)@.config,
    {
        let tm = self.make_temp_matcher();
        temps.insert(self.event.id.clone(), tm);
        match self.send(message, caller) {
            Ok(_) => {},
            Err(e) => {
                return Err(e);
            },
        }
        let timeout_units = effective_timeout(timeout);
        let outcome = caller.wait_reply(&self.event.id, timeout_units);
        self.apply_reply(outcome)
    }
}

impl Handler {
    /// Erase this handler into a registrable matcher, declaring the
    /// narrowing requirement it is bound to.
    pub fn boxed(self, shape: Shape) -> (r: Matcher)
        requires
            self.requires_message() ==> shape.ty is MessageTy,
        ensures
            r.shape == shape,
            r.handler == self,
            r.wf(),
    {
        Matcher::new(shape, self)
    }
}

/// Every launch of a dispatch pass stays within the matcher list, and when
/// every matcher is well-formed, every launched session satisfies what its
/// handler demands of the conversation shape.
proof fn lemma_launch_safety(
    ms: Seq<Matcher>,
    e: EventV,
    implt: Seq<char>,
    cfg: Seq<Seq<char>>,
    ls: Seq<Launch>,
)
    requires
        launches_view(ls) == spec_dispatch(ms, e, implt, cfg).launches,
    ensures
        forall|t: int| 0 <= t < ls.len() ==> (#[trigger] ls[t]).index < ms.len(),
        (forall|i: int| 0 <= i < ms.len() ==> (#[trigger] ms[i]).wf()) ==> (forall|t: int|
            0 <= t < ls.len() ==> ({
                let l = #[trigger] ls[t];
                l.session@.event.is_message() || !ms[l.index as int].handler.requires_message()
            })),
{
    lemma_dispatch_from_launches(ms, 0, e, implt, cfg);
    let d = spec_dispatch(ms, e, implt, cfg);
    assert forall|t: int| 0 <= t < ls.len() implies (#[trigger] ls[t]).index < ms.len() by {
        assert(launches_view(ls)[t] == d.launches[t]);
    }
    if forall|i: int| 0 <= i < ms.len() ==> (#[trigger] ms[i]).wf() {
        assert forall|t: int| 0 <= t < ls.len() implies ((#[trigger] ls[t]).session@.event.is_message()
            || !ms[ls[t].index as int].handler.requires_message()) by {
            assert(launches_view(ls)[t] == d.launches[t]);
            let idx = ls[t].index as int;
            assert(ms[idx].wf());
            assert(!(ms[idx].spec_eval(e, implt, cfg).0 is NotMatch));
            assert(ls[t].session@ == ms[idx].spec_eval(e, implt, cfg).1);
            if ms[idx].handler.requires_message() {
                assert(ms[idx].shape.spec_matches(e, implt));
                assert(e.ty is Message);
                lemma_pre_handle_preserves_message(
                    ms[idx].handler,
                    SessionV { event: e, config: cfg },
                );
            }
        }
    }
}

} // verus!
