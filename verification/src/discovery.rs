//! Service discovery: B advertises a service, A finds B as its provider.
use vstd::prelude::*;
use vstd::string::StringExecFns;

use crate::mesh::{
    answers, copy_verdict, fail, failed, no_attempt, pass, passed, verdict_view, Action,
    ActionView, Event, EventView, Verdict, VerdictView,
};
use crate::report::Outcome;
use crate::text::{
    first_ten, quote_list, quoted_list, short_id, short_id_is_the_first_ten, shortened,
};

verus! {

/// How long the provider record may take to spread, in nanoseconds.
pub const DISCOVERY_LIMIT_NS: u128 = 25_000_000_000;

/// The pause between two queries, in milliseconds.
pub const QUERY_PAUSE_MS: u64 = 800;

/// The service of the scenario, which bears the identity of node B.
pub open spec fn service_name(b_id: Seq<char>) -> Seq<char> {
    "ce-it-svc-"@ + shortened(b_id)
}

/// The trouble of a query that named other providers, as they are shown.
pub open spec fn seen_text(shown: Seq<char>) -> Seq<char> {
    "providers seen: "@ + shown
}

/// The detail of a provider that was found.
pub open spec fn discovered_text(service: Seq<char>) -> Seq<char> {
    "A discovered B as provider of '"@ + service + "' via the DHT"@
}

/// The detail of a provider that never showed up.
pub open spec fn not_found_text(service: Seq<char>, last: Seq<char>) -> Seq<char> {
    "A never found B as a provider of '"@ + service + "': "@ + last
}

/// The trouble of a query that named other providers, as they are shown.
pub fn seen_detail(shown: &str) -> (r: String)
    ensures
        r@ == seen_text(shown@),
{
    "providers seen: ".to_owned().concat(shown)
}

/// Whether `id` is among the providers.
pub fn names_provider(providers: &Vec<String>, id: &String) -> (r: bool)
    ensures
        r == providers.deep_view().contains(id@),
{
    let ghost all = providers.deep_view();
    let mut i: usize = 0;
    while i < providers.len()
        invariant
            i <= providers@.len(),
            all == providers.deep_view(),
            forall|k: int| 0 <= k < i ==> #[trigger] all[k] != id@,
        decreases providers@.len() - i,
    {
        assert(all[i as int] == providers@[i as int]@);
        if providers[i] == *id {
            return true;
        }
        i = i + 1;
    }
    false
}

/// What the scenario waits for.
#[derive(Clone, Copy, Debug, PartialEq, Eq, Structural)]
pub enum DiscoveryPhase {
    Advertise,
    Mark,
    Check,
    Repeat,
    Query,
    Pause,
    Over,
}

/// The scenario: B advertises, and A queries until B shows up or the limit
/// has passed. B advertises again before each query.
pub struct Discovery {
    b_id: String,
    service: String,
    last: String,
    phase: DiscoveryPhase,
    found: Option<Verdict>,
}

/// What a `Discovery` holds.
pub struct DiscoveryView {
    pub b_id: Seq<char>,
    pub service: Seq<char>,
    pub last: Seq<char>,
    pub phase: DiscoveryPhase,
    pub found: Option<VerdictView>,
}

impl View for Discovery {
    type V = DiscoveryView;

    closed spec fn view(&self) -> DiscoveryView {
        DiscoveryView {
            b_id: self.b_id@,
            service: self.service@,
            last: self.last@,
            phase: self.phase,
            found: verdict_view(self.found),
        }
    }
}

impl DiscoveryView {
    pub open spec fn start(b_id: Seq<char>) -> Self {
        DiscoveryView {
            b_id,
            service: service_name(b_id),
            last: no_attempt(),
            phase: DiscoveryPhase::Advertise,
            found: None,
        }
    }

    /// The verdict, once the scenario is done.
    pub open spec fn verdict(self) -> Option<VerdictView> {
        if self.phase is Over {
            self.found
        } else {
            None
        }
    }

    /// What the scenario asks for.
    pub open spec fn pending(self) -> ActionView {
        match self.phase {
            DiscoveryPhase::Advertise => ActionView::Advertise { service: self.service },
            DiscoveryPhase::Mark => ActionView::MarkClock,
            DiscoveryPhase::Check => ActionView::ReadClock,
            DiscoveryPhase::Repeat => ActionView::Advertise { service: self.service },
            DiscoveryPhase::Query => ActionView::FindService { service: self.service },
            DiscoveryPhase::Pause => ActionView::Sleep { ms: QUERY_PAUSE_MS },
            DiscoveryPhase::Over => ActionView::Rest,
        }
    }

    /// The scenario after an event. What comes of advertising again does not
    /// matter.
    pub open spec fn next(self, event: EventView) -> Self {
        match (self.phase, event) {
            (DiscoveryPhase::Advertise, EventView::Ack(Ok(()))) => DiscoveryView {
                phase: DiscoveryPhase::Mark,
                ..self
            },
            (DiscoveryPhase::Advertise, EventView::Ack(Err(e))) => DiscoveryView {
                phase: DiscoveryPhase::Over,
                found: Some(failed("B advertise failed: "@ + e)),
                ..self
            },
            (DiscoveryPhase::Mark, EventView::Done) => DiscoveryView {
                phase: DiscoveryPhase::Check,
                ..self
            },
            (DiscoveryPhase::Check, EventView::Elapsed(ns)) => if ns > DISCOVERY_LIMIT_NS {
                DiscoveryView {
                    phase: DiscoveryPhase::Over,
                    found: Some(failed(not_found_text(self.service, self.last))),
                    ..self
                }
            } else {
                DiscoveryView { phase: DiscoveryPhase::Repeat, ..self }
            },
            (DiscoveryPhase::Repeat, EventView::Ack(_)) => DiscoveryView {
                phase: DiscoveryPhase::Query,
                ..self
            },
            (DiscoveryPhase::Query, EventView::Providers(Ok(providers))) => if providers.contains(
                self.b_id,
            ) {
                DiscoveryView {
                    phase: DiscoveryPhase::Over,
                    found: Some(passed(discovered_text(self.service))),
                    ..self
                }
            } else {
                DiscoveryView {
                    phase: DiscoveryPhase::Pause,
                    last: seen_text(quoted_list(providers)),
                    ..self
                }
            },
            (DiscoveryPhase::Query, EventView::Providers(Err(e))) => DiscoveryView {
                phase: DiscoveryPhase::Pause,
                last: e,
                ..self
            },
            (DiscoveryPhase::Pause, EventView::Done) => DiscoveryView {
                phase: DiscoveryPhase::Check,
                ..self
            },
            _ => self,
        }
    }

    /// The scenario after a row of events.
    pub open spec fn run(self, events: Seq<EventView>) -> Self
        decreases events.len(),
    {
        if events.len() == 0 {
            self
        } else {
            self.run(events.drop_last()).next(events.last())
        }
    }
}

impl Discovery {
    /// The scenario, with a service that bears the identity of node B.
    pub fn new(b_id: &str) -> (r: Self)
        ensures
            r@ == DiscoveryView::start(b_id@),
    {
        Discovery {
            b_id: b_id.to_owned(),
            service: "ce-it-svc-".to_owned().concat(short_id(b_id).as_str()),
            last: "(no attempt)".to_owned(),
            phase: DiscoveryPhase::Advertise,
            found: None,
        }
    }

    /// What is to be done next.
    pub fn pending(&self) -> (r: Action)
        ensures
            r@ == self@.pending(),
    {
        match self.phase {
            DiscoveryPhase::Advertise => Action::Advertise { service: self.service.clone() },
            DiscoveryPhase::Mark => Action::MarkClock,
            DiscoveryPhase::Check => Action::ReadClock,
            DiscoveryPhase::Repeat => Action::Advertise { service: self.service.clone() },
            DiscoveryPhase::Query => Action::FindService { service: self.service.clone() },
            DiscoveryPhase::Pause => Action::Sleep { ms: QUERY_PAUSE_MS },
            DiscoveryPhase::Over => Action::Rest,
        }
    }

    /// Takes in what came of the pending action. An event that does not
    /// answer it changes nothing.
    pub fn step(&mut self, event: Event)
        ensures
            final(self)@ == old(self)@.next(event@),
    {
        match (self.phase, event) {
            (DiscoveryPhase::Advertise, Event::Ack(Ok(()))) => {
                self.phase = DiscoveryPhase::Mark;
            },
            (DiscoveryPhase::Advertise, Event::Ack(Err(e))) => {
                self.phase = DiscoveryPhase::Over;
                self.found = Some(fail("B advertise failed: ".to_owned().concat(e.as_str())));
            },
            (DiscoveryPhase::Mark, Event::Done) => {
                self.phase = DiscoveryPhase::Check;
            },
            (DiscoveryPhase::Check, Event::Elapsed(ns)) => {
                if ns > DISCOVERY_LIMIT_NS {
                    self.phase = DiscoveryPhase::Over;
                    self.found = Some(
                        fail(
                            "A never found B as a provider of '".to_owned().concat(
                                self.service.as_str(),
                            ).concat("': ").concat(self.last.as_str()),
                        ),
                    );
                } else {
                    self.phase = DiscoveryPhase::Repeat;
                }
            },
            (DiscoveryPhase::Repeat, Event::Ack(_)) => {
                self.phase = DiscoveryPhase::Query;
            },
            (DiscoveryPhase::Query, Event::Providers(Ok(providers))) => {
                if names_provider(&providers, &self.b_id) {
                    self.phase = DiscoveryPhase::Over;
                    self.found = Some(
                        pass(
                            "A discovered B as provider of '".to_owned().concat(
                                self.service.as_str(),
                            ).concat("' via the DHT"),
                        ),
                    );
                } else {
                    self.phase = DiscoveryPhase::Pause;
                    self.last = seen_detail(quote_list(&providers).as_str());
                }
            },
            (DiscoveryPhase::Query, Event::Providers(Err(e))) => {
                self.phase = DiscoveryPhase::Pause;
                self.last = e;
            },
            (DiscoveryPhase::Pause, Event::Done) => {
                self.phase = DiscoveryPhase::Check;
            },
            _ => {},
        }
    }

    /// The verdict, once the scenario is done.
    pub fn verdict(&self) -> (r: Option<Verdict>)
        ensures
            verdict_view(r) == self@.verdict(),
    {
        match self.phase {
            DiscoveryPhase::Over => copy_verdict(&self.found),
            _ => None,
        }
    }
}

/// An event that does not answer what the scenario asks for changes nothing; one
/// that does moves it on.
pub proof fn discovery_heeds_answers_only(s: DiscoveryView, event: EventView)
    ensures
        !answers(s.pending(), event) ==> s.next(event) == s,
        answers(s.pending(), event) ==> s.next(event).phase != s.phase,
{
}

impl DiscoveryView {
    /// Whether an event names B as a provider.
    pub open spec fn discovers(self, event: EventView) -> bool {
        self.pending() is FindService && (event matches EventView::Providers(Ok(providers))
            && providers.contains(self.b_id))
    }

    /// Whether an event tells that the scenario cannot pass any more: B could
    /// not advertise in the first place, or the limit has passed.
    pub open spec fn breaks(self, event: EventView) -> bool {
        ||| self.phase is Advertise && event matches EventView::Ack(Err(_))
        ||| self.pending() is ReadClock && (event matches EventView::Elapsed(ns) && ns
            > DISCOVERY_LIMIT_NS)
    }

    /// Whether B was named as a provider in a row of events.
    pub open spec fn ever_discovered(self, events: Seq<EventView>) -> bool
        decreases events.len(),
    {
        events.len() > 0 && (self.ever_discovered(events.drop_last()) || self.run(
            events.drop_last(),
        ).discovers(events.last()))
    }

    /// Whether the scenario broke in a row of events.
    pub open spec fn ever_broken(self, events: Seq<EventView>) -> bool
        decreases events.len(),
    {
        events.len() > 0 && (self.ever_broken(events.drop_last()) || self.run(
            events.drop_last(),
        ).breaks(events.last()))
    }
}

proof fn lemma_discovery_run(b_id: Seq<char>, events: Seq<EventView>)
    ensures
        ({
            let start = DiscoveryView::start(b_id);
            let s = start.run(events);
            &&& s.b_id == b_id && s.service == service_name(b_id)
            &&& s.found is Some <==> s.phase is Over
            &&& start.ever_discovered(events) <==> (s.found matches Some(v) && v.outcome
                == Outcome::Pass)
            &&& start.ever_broken(events) <==> (s.found matches Some(v) && v.outcome
                == Outcome::Fail)
            &&& s.found matches Some(v) ==> v.outcome != Outcome::Blocked
        }),
    decreases events.len(),
{
    if events.len() > 0 {
        lemma_discovery_run(b_id, events.drop_last());
    }
}

/// A scenario that is done has passed exactly if A was told B as a provider.
/// It has failed exactly if B could not advertise or the limit passed first.
/// All along, the service is the one that bears the identity of B.
pub proof fn discovery_passes_iff_discovered(b_id: Seq<char>, events: Seq<EventView>)
    ensures
        ({
            let start = DiscoveryView::start(b_id);
            let s = start.run(events);
            &&& s.service == service_name(b_id)
            &&& s.verdict() is Some <==> s.pending() is Rest
            &&& s.verdict() matches Some(v) ==> (v.outcome == Outcome::Pass
                <==> start.ever_discovered(events)) && (v.outcome == Outcome::Fail
                <==> start.ever_broken(events)) && v.outcome != Outcome::Blocked
        }),
{
    lemma_discovery_run(b_id, events);
}

/// A queries only right after B has advertised again.
pub proof fn discovery_advertises_before_each_query(s: DiscoveryView, event: EventView)
    requires
        !(s.pending() is FindService),
        s.next(event).pending() is FindService,
    ensures
        s.pending() == (ActionView::Advertise { service: s.service }),
        event is Ack,
{
}

/// After the clock was read, B advertises again, and A queries, only if it
/// showed no more than the limit.
pub proof fn discovery_queries_within_limit(s: DiscoveryView, event: EventView)
    requires
        s.pending() is ReadClock,
        s.next(event).pending() is Advertise,
    ensures
        event matches EventView::Elapsed(ns) && ns <= DISCOVERY_LIMIT_NS,
{
}

/// The trouble that shows once the limit has passed is that of the latest
/// query: its error, or the providers that it named in place of B.
pub proof fn discovery_shows_the_latest_trouble(
    s: DiscoveryView,
    e: Seq<char>,
    providers: Seq<Seq<char>>,
    ns: u128,
)
    requires
        s.pending() is FindService,
        ns > DISCOVERY_LIMIT_NS,
    ensures
        s.next(EventView::Providers(Err(e))).next(EventView::Done).next(
            EventView::Elapsed(ns),
        ).verdict() == Some(failed(not_found_text(s.service, e))),
        !providers.contains(s.b_id) ==> s.next(EventView::Providers(Ok(providers))).next(
            EventView::Done,
        ).next(EventView::Elapsed(ns)).verdict() == Some(
            failed(not_found_text(s.service, seen_text(quoted_list(providers)))),
        ),
{
}

impl DiscoveryView {
    /// Whether B has advertised in a row of events.
    pub open spec fn announced(self, events: Seq<EventView>) -> bool
        decreases events.len(),
    {
        events.len() > 0 && (self.announced(events.drop_last()) || (self.run(
            events.drop_last(),
        ).pending() is Advertise && (events.last() matches EventView::Ack(Ok(_)))))
    }

    /// The trouble of the latest query in a row of events: its error, or the
    /// providers that it named.
    pub open spec fn trouble(self, events: Seq<EventView>) -> Seq<char>
        decreases events.len(),
    {
        if events.len() == 0 {
            "(no attempt)"@
        } else {
            let before = self.run(events.drop_last()).pending();
            match (before, events.last()) {
                (ActionView::FindService { .. }, EventView::Providers(Err(e))) => e,
                (ActionView::FindService { .. }, EventView::Providers(Ok(p))) => "providers seen: "@
                    + quoted_list(p),
                _ => self.trouble(events.drop_last()),
            }
        }
    }
}

proof fn lemma_discovery_history(b_id: Seq<char>, events: Seq<EventView>)
    ensures
        ({
            let start = DiscoveryView::start(b_id);
            let s = start.run(events);
            &&& s.b_id == b_id
            &&& s.service == "ce-it-svc-"@ + first_ten(b_id)
            &&& !(s.phase is Over) ==> s.last == start.trouble(events)
            &&& !(s.phase is Over) ==> (start.announced(events) <==> !(s.phase is Advertise))
        }),
    decreases events.len(),
{
    short_id_is_the_first_ten(b_id);
    if events.len() > 0 {
        lemma_discovery_history(b_id, events.drop_last());
    }
}

/// Whatever came before, what B advertises and what A looks for is one service,
/// which bears the first ten characters of the identity of B. The pause is eight
/// tenths of a second.
pub proof fn service_bears_the_node(b_id: Seq<char>, events: Seq<EventView>)
    ensures
        match DiscoveryView::start(b_id).run(events).pending() {
            ActionView::Advertise { service } => service == "ce-it-svc-"@ + first_ten(b_id),
            ActionView::FindService { service } => service == "ce-it-svc-"@ + first_ten(b_id),
            ActionView::Sleep { ms } => ms == 800,
            _ => true,
        },
{
    lemma_discovery_history(b_id, events);
}

/// Whatever came before, a query passes exactly if one of the providers that it
/// names is B, by its whole identity. Any other query is followed by the pause.
pub proof fn query_passes_iff_it_names_the_node(
    b_id: Seq<char>,
    events: Seq<EventView>,
    providers: Seq<Seq<char>>,
    e: Seq<char>,
)
    requires
        DiscoveryView::start(b_id).run(events).pending() is FindService,
    ensures
        ({
            let s = DiscoveryView::start(b_id).run(events);
            let after = s.next(EventView::Providers(Ok(providers)));
            &&& if exists|i: int| 0 <= i < providers.len() && #[trigger] providers[i] == b_id {
                after.verdict() matches Some(v) && v.outcome == Outcome::Pass && v.detail
                    == "A discovered B as provider of '"@ + ("ce-it-svc-"@ + first_ten(b_id))
                    + "' via the DHT"@
            } else {
                after.verdict() is None && after.pending() is Sleep
            }
            &&& s.next(EventView::Providers(Err(e))).pending() is Sleep
        }),
{
    lemma_discovery_history(b_id, events);
}

/// Whatever came before, the clock ends the scenario exactly if it shows more than
/// twenty-five seconds: it has then failed, and tells the service and the latest
/// trouble. Else B advertises again.
pub proof fn clock_decides_the_discovery(b_id: Seq<char>, events: Seq<EventView>, ns: u128)
    requires
        DiscoveryView::start(b_id).run(events).pending() is ReadClock,
    ensures
        ({
            let start = DiscoveryView::start(b_id);
            let after = start.run(events).next(EventView::Elapsed(ns));
            if ns > 25_000_000_000 {
                after.verdict() matches Some(v) && v.outcome == Outcome::Fail && v.detail
                    == "A never found B as a provider of '"@ + ("ce-it-svc-"@ + first_ten(b_id))
                    + "': "@ + start.trouble(events)
            } else {
                after.pending() is Advertise
            }
        }),
{
    lemma_discovery_history(b_id, events);
}

/// Whatever came before, the first time that B advertises decides: the clock is
/// marked, or the scenario ends with the error. Later on A queries, whatever
/// comes of it. The mark and the pause are followed by the clock.
pub proof fn discovery_goes_its_way(b_id: Seq<char>, events: Seq<EventView>, e: Seq<char>)
    ensures
        ({
            let start = DiscoveryView::start(b_id);
            let s = start.run(events);
            let done = s.next(EventView::Done);
            let taken = s.next(EventView::Ack(Ok(())));
            let refused = s.next(EventView::Ack(Err(e)));
            &&& start.pending() is Advertise
            &&& s.pending() is Advertise && !start.announced(events) ==> taken.pending()
                is MarkClock
            &&& s.pending() is Advertise && !start.announced(events) ==> (
            refused.verdict() matches Some(v) && v.outcome == Outcome::Fail && v.detail
                == "B advertise failed: "@ + e)
            &&& s.pending() is Advertise && start.announced(events) ==> taken.pending()
                is FindService && refused.pending() is FindService
            &&& s.pending() is MarkClock ==> done.pending() is ReadClock
            &&& s.pending() is Sleep ==> done.pending() is ReadClock
        }),
{
    lemma_discovery_history(b_id, events);
}

} // verus!
