//! Blob availability: A stores a blob, B fetches it over the mesh.
use vstd::prelude::*;
use vstd::string::{StrSliceExecFns, StringExecFns};
use vstd::utf8::encode_utf8;

use crate::mesh::{
    answers, copy_verdict, fail, failed, no_attempt, pass, passed, verdict_view, Action,
    ActionView, Event, EventView, Verdict, VerdictView,
};
use crate::report::Outcome;
use crate::text::{
    decimal, decimal_text, first_ten, same_bytes, short_id, short_id_is_the_first_ten, shortened,
};

verus! {

/// How long the blob may take to become available, in nanoseconds.
pub const BLOB_LIMIT_NS: u128 = 25_000_000_000;

/// The pause after a fetch that failed, in milliseconds.
pub const FETCH_PAUSE_MS: u64 = 600;

/// The content that is stored, which bears the time and the identity of node B.
pub open spec fn blob_text(secs: u64, b_id: Seq<char>) -> Seq<char> {
    "ce-it blob payload "@ + decimal(secs as nat) + " "@ + shortened(b_id)
}

/// What fetched bytes amount to: `Pass` exactly where they are the content.
pub open spec fn fetched_verdict(
    bytes: Seq<u8>,
    content: Seq<char>,
    cid: Seq<char>,
) -> VerdictView {
    if bytes == encode_utf8(content) {
        passed(
            "B fetched CID "@ + shortened(cid) + " from A over the mesh ("@ + decimal(bytes.len())
                + " bytes, verified)"@,
        )
    } else {
        failed("B fetched the CID but bytes did not match"@)
    }
}

/// The detail of a blob that never became available.
pub open spec fn not_fetched_text(cid: Seq<char>, last: Seq<char>) -> Seq<char> {
    "B could not fetch CID "@ + shortened(cid) + " over the mesh: "@ + last
}

/// Judges the bytes that B fetched.
pub fn judge_fetched(bytes: &[u8], content: &str, cid: &str) -> (r: Verdict)
    ensures
        r@ == fetched_verdict(bytes@, content@, cid@),
{
    if same_bytes(bytes, content.as_bytes()) {
        pass(
            "B fetched CID ".to_owned().concat(short_id(cid).as_str()).concat(
                " from A over the mesh (",
            ).concat(decimal_text(bytes.len() as u64).as_str()).concat(" bytes, verified)"),
        )
    } else {
        fail("B fetched the CID but bytes did not match".to_owned())
    }
}

/// What the scenario waits for.
#[derive(Clone, Copy, Debug, PartialEq, Eq, Structural)]
pub enum BlobPhase {
    Time,
    Put,
    Mark,
    Check,
    Fetch,
    Pause,
    Over,
}

/// The scenario: A stores a blob, and B tries to fetch it until it has come
/// or the limit has passed.
pub struct Blob {
    b_id: String,
    content: String,
    cid: String,
    last: String,
    phase: BlobPhase,
    found: Option<Verdict>,
}

/// What a `Blob` holds.
pub struct BlobView {
    pub b_id: Seq<char>,
    pub content: Seq<char>,
    pub cid: Seq<char>,
    pub last: Seq<char>,
    pub phase: BlobPhase,
    pub found: Option<VerdictView>,
}

impl View for Blob {
    type V = BlobView;

    closed spec fn view(&self) -> BlobView {
        BlobView {
            b_id: self.b_id@,
            content: self.content@,
            cid: self.cid@,
            last: self.last@,
            phase: self.phase,
            found: verdict_view(self.found),
        }
    }
}

impl BlobView {
    pub open spec fn start(b_id: Seq<char>) -> Self {
        BlobView {
            b_id,
            content: Seq::empty(),
            cid: Seq::empty(),
            last: no_attempt(),
            phase: BlobPhase::Time,
            found: None,
        }
    }

    /// The verdict, once the scenario is done.
    pub open spec fn verdict(self) -> Option<VerdictView> {
        if self.phase is Over {
            self.found
        } else {
            None
        }
    }

    /// What the scenario asks for.
    pub open spec fn pending(self) -> ActionView {
        match self.phase {
            BlobPhase::Time => ActionView::ReadTime,
            BlobPhase::Put => ActionView::PutBlob { content: encode_utf8(self.content) },
            BlobPhase::Mark => ActionView::MarkClock,
            BlobPhase::Check => ActionView::ReadClock,
            BlobPhase::Fetch => ActionView::GetBlob { cid: self.cid },
            BlobPhase::Pause => ActionView::Sleep { ms: FETCH_PAUSE_MS },
            BlobPhase::Over => ActionView::Rest,
        }
    }

    /// The scenario after an event.
    pub open spec fn next(self, event: EventView) -> Self {
        match (self.phase, event) {
            (BlobPhase::Time, EventView::UnixTime(secs)) => BlobView {
                phase: BlobPhase::Put,
                content: blob_text(secs, self.b_id),
                ..self
            },
            (BlobPhase::Put, EventView::Cid(Ok(cid))) => BlobView {
                phase: BlobPhase::Mark,
                cid,
                ..self
            },
            (BlobPhase::Put, EventView::Cid(Err(e))) => BlobView {
                phase: BlobPhase::Over,
                found: Some(failed("A put_blob failed: "@ + e)),
                ..self
            },
            (BlobPhase::Mark, EventView::Done) => BlobView { phase: BlobPhase::Check, ..self },
            (BlobPhase::Check, EventView::Elapsed(ns)) => if ns > BLOB_LIMIT_NS {
                BlobView {
                    phase: BlobPhase::Over,
                    found: Some(failed(not_fetched_text(self.cid, self.last))),
                    ..self
                }
            } else {
                BlobView { phase: BlobPhase::Fetch, ..self }
            },
            (BlobPhase::Fetch, EventView::Bytes(Ok(bytes))) => BlobView {
                phase: BlobPhase::Over,
                found: Some(fetched_verdict(bytes, self.content, self.cid)),
                ..self
            },
            (BlobPhase::Fetch, EventView::Bytes(Err(e))) => BlobView {
                phase: BlobPhase::Pause,
                last: e,
                ..self
            },
            (BlobPhase::Pause, EventView::Done) => BlobView { phase: BlobPhase::Check, ..self },
            _ => self,
        }
    }

    /// The scenario after a row of events.
    pub open spec fn run(self, events: Seq<EventView>) -> Self
        decreases events.len(),
    {
        if events.len() == 0 {
            self
        } else {
            self.run(events.drop_last()).next(events.last())
        }
    }
}

impl Blob {
    /// The scenario, with a blob that bears the identity of node B.
    pub fn new(b_id: &str) -> (r: Self)
        ensures
            r@ == BlobView::start(b_id@),
    {
        Blob {
            b_id: b_id.to_owned(),
            content: String::new(),
            cid: String::new(),
            last: "(no attempt)".to_owned(),
            phase: BlobPhase::Time,
            found: None,
        }
    }

    /// What is to be done next.
    pub fn pending(&self) -> (r: Action)
        ensures
            r@ == self@.pending(),
    {
        match self.phase {
            BlobPhase::Time => Action::ReadTime,
            BlobPhase::Put => Action::PutBlob { content: self.content.as_str().as_bytes_vec() },
            BlobPhase::Mark => Action::MarkClock,
            BlobPhase::Check => Action::ReadClock,
            BlobPhase::Fetch => Action::GetBlob { cid: self.cid.clone() },
            BlobPhase::Pause => Action::Sleep { ms: FETCH_PAUSE_MS },
            BlobPhase::Over => Action::Rest,
        }
    }

    /// Takes in what came of the pending action. An event that does not
    /// answer it changes nothing.
    pub fn step(&mut self, event: Event)
        ensures
            final(self)@ == old(self)@.next(event@),
    {
        match (self.phase, event) {
            (BlobPhase::Time, Event::UnixTime(secs)) => {
                self.phase = BlobPhase::Put;
                self.content = "ce-it blob payload ".to_owned().concat(
                    decimal_text(secs).as_str(),
                ).concat(" ").concat(short_id(self.b_id.as_str()).as_str());
            },
            (BlobPhase::Put, Event::Cid(Ok(cid))) => {
                self.phase = BlobPhase::Mark;
                self.cid = cid;
            },
            (BlobPhase::Put, Event::Cid(Err(e))) => {
                self.phase = BlobPhase::Over;
                self.found = Some(fail("A put_blob failed: ".to_owned().concat(e.as_str())));
            },
            (BlobPhase::Mark, Event::Done) => {
                self.phase = BlobPhase::Check;
            },
            (BlobPhase::Check, Event::Elapsed(ns)) => {
                if ns > BLOB_LIMIT_NS {
                    self.phase = BlobPhase::Over;
                    self.found = Some(
                        fail(
                            "B could not fetch CID ".to_owned().concat(
                                short_id(self.cid.as_str()).as_str(),
                            ).concat(" over the mesh: ").concat(self.last.as_str()),
                        ),
                    );
                } else {
                    self.phase = BlobPhase::Fetch;
                }
            },
            (BlobPhase::Fetch, Event::Bytes(Ok(bytes))) => {
                self.phase = BlobPhase::Over;
                self.found = Some(
                    judge_fetched(bytes.as_slice(), self.content.as_str(), self.cid.as_str()),
                );
            },
            (BlobPhase::Fetch, Event::Bytes(Err(e))) => {
                self.phase = BlobPhase::Pause;
                self.last = e;
            },
            (BlobPhase::Pause, Event::Done) => {
                self.phase = BlobPhase::Check;
            },
            _ => {},
        }
    }

    /// The verdict, once the scenario is done.
    pub fn verdict(&self) -> (r: Option<Verdict>)
        ensures
            verdict_view(r) == self@.verdict(),
    {
        match self.phase {
            BlobPhase::Over => copy_verdict(&self.found),
            _ => None,
        }
    }
}

/// An event that does not answer what the scenario asks for changes nothing; one
/// that does moves it on.
pub proof fn blob_heeds_answers_only(s: BlobView, event: EventView)
    ensures
        !answers(s.pending(), event) ==> s.next(event) == s,
        answers(s.pending(), event) ==> s.next(event).phase != s.phase,
{
}

impl BlobView {
    /// Whether an event brings B the content that A stored.
    pub open spec fn arrives(self, event: EventView) -> bool {
        self.pending() is GetBlob && event == EventView::Bytes(Ok(encode_utf8(self.content)))
    }

    /// Whether an event tells that the scenario cannot pass any more: A could
    /// not store the blob, B fetched something else, or the limit has passed.
    pub open spec fn breaks(self, event: EventView) -> bool {
        ||| self.pending() is PutBlob && event matches EventView::Cid(Err(_))
        ||| self.pending() is GetBlob && (event matches EventView::Bytes(Ok(bytes)) && bytes
            != encode_utf8(self.content))
        ||| self.pending() is ReadClock && (event matches EventView::Elapsed(ns) && ns
            > BLOB_LIMIT_NS)
    }

    /// Whether the content came in a row of events.
    pub open spec fn ever_arrived(self, events: Seq<EventView>) -> bool
        decreases events.len(),
    {
        events.len() > 0 && (self.ever_arrived(events.drop_last()) || self.run(
            events.drop_last(),
        ).arrives(events.last()))
    }

    /// Whether the scenario broke in a row of events.
    pub open spec fn ever_broken(self, events: Seq<EventView>) -> bool
        decreases events.len(),
    {
        events.len() > 0 && (self.ever_broken(events.drop_last()) || self.run(
            events.drop_last(),
        ).breaks(events.last()))
    }

    /// Whether the content has been made.
    pub open spec fn content_is_made(self) -> bool {
        !(self.phase is Time)
    }

    /// Whether the blob has been stored.
    pub open spec fn is_stored(self) -> bool {
        !(self.phase is Time) && !(self.phase is Put)
    }
}

proof fn lemma_blob_run(b_id: Seq<char>, events: Seq<EventView>)
    ensures
        ({
            let start = BlobView::start(b_id);
            let s = start.run(events);
            &&& s.b_id == b_id
            &&& s.found is Some <==> s.phase is Over
            &&& start.ever_arrived(events) <==> (s.found matches Some(v) && v.outcome
                == Outcome::Pass)
            &&& start.ever_broken(events) <==> (s.found matches Some(v) && v.outcome
                == Outcome::Fail)
            &&& s.found matches Some(v) ==> v.outcome != Outcome::Blocked
        }),
    decreases events.len(),
{
    if events.len() > 0 {
        lemma_blob_run(b_id, events.drop_last());
    }
}

/// A scenario that is done has passed exactly if B fetched the very bytes that
/// A stored. It has failed exactly if A could not store them, B fetched other
/// bytes, or the limit passed first.
pub proof fn blob_passes_iff_arrived(b_id: Seq<char>, events: Seq<EventView>)
    ensures
        ({
            let start = BlobView::start(b_id);
            let s = start.run(events);
            &&& s.verdict() is Some <==> s.pending() is Rest
            &&& s.verdict() matches Some(v) ==> (v.outcome == Outcome::Pass
                <==> start.ever_arrived(events)) && (v.outcome == Outcome::Fail
                <==> start.ever_broken(events)) && v.outcome != Outcome::Blocked
        }),
{
    lemma_blob_run(b_id, events);
}

/// The content that fetched bytes are held against is the one that was stored,
/// and the blob that is fetched is the one that storing it named: once made,
/// neither changes.
pub proof fn blob_fetches_what_it_stored(s: BlobView, events: Seq<EventView>)
    requires
        s.content_is_made(),
    ensures
        s.run(events).content == s.content,
        s.run(events).content_is_made(),
        s.is_stored() ==> s.run(events).cid == s.cid && s.run(events).is_stored(),
    decreases events.len(),
{
    if events.len() > 0 {
        blob_fetches_what_it_stored(s, events.drop_last());
    }
}

/// Bytes that are fetched as they were stored pass.
pub proof fn blob_accepts_its_content(stored: BlobView, fetching: BlobView)
    requires
        stored.pending() is PutBlob,
        fetching.pending() is GetBlob,
        fetching.content == stored.content,
    ensures
        fetching.next(EventView::Bytes(Ok(stored.pending()->content))).verdict() matches Some(v)
            && v.outcome == Outcome::Pass,
{
}

/// B fetches only right after the clock has shown no more than the limit.
pub proof fn blob_fetches_within_limit(s: BlobView, event: EventView)
    requires
        !(s.pending() is GetBlob),
        s.next(event).pending() is GetBlob,
    ensures
        event matches EventView::Elapsed(ns) && ns <= BLOB_LIMIT_NS,
{
}

/// The trouble that shows once the limit has passed is that of the latest
/// fetch.
pub proof fn blob_shows_the_latest_trouble(s: BlobView, e: Seq<char>, ns: u128)
    requires
        s.pending() is GetBlob,
        ns > BLOB_LIMIT_NS,
    ensures
        s.next(EventView::Bytes(Err(e))).next(EventView::Done).next(
            EventView::Elapsed(ns),
        ).verdict() == Some(failed(not_fetched_text(s.cid, e))),
{
}

impl BlobView {
    /// The time that was told in a row of events, where it was.
    pub open spec fn told_time(self, events: Seq<EventView>) -> Option<u64>
        decreases events.len(),
    {
        if events.len() == 0 {
            None
        } else if self.run(events.drop_last()).pending() is ReadTime && events.last() is UnixTime {
            Some(events.last()->UnixTime_0)
        } else {
            self.told_time(events.drop_last())
        }
    }

    /// The bytes that A stored in a row of events, with the name that it got for
    /// them.
    pub open spec fn stored(self, events: Seq<EventView>) -> Option<(Seq<u8>, Seq<char>)>
        decreases events.len(),
    {
        if events.len() == 0 {
            None
        } else {
            let before = self.run(events.drop_last()).pending();
            if before is PutBlob && (events.last() matches EventView::Cid(Ok(_))) {
                Some((before->content, events.last()->Cid_0->Ok_0))
            } else {
                self.stored(events.drop_last())
            }
        }
    }

    /// The trouble of the latest fetch that failed in a row of events.
    pub open spec fn trouble(self, events: Seq<EventView>) -> Seq<char>
        decreases events.len(),
    {
        if events.len() == 0 {
            "(no attempt)"@
        } else if self.run(events.drop_last()).pending() is GetBlob && (
        events.last() matches EventView::Bytes(Err(_))) {
            events.last()->Bytes_0->Err_0
        } else {
            self.trouble(events.drop_last())
        }
    }
}

proof fn lemma_blob_history(b_id: Seq<char>, events: Seq<EventView>)
    ensures
        ({
            let start = BlobView::start(b_id);
            let s = start.run(events);
            &&& s.b_id == b_id
            &&& s.last == start.trouble(events)
            &&& s.phase is Put ==> (start.told_time(events) matches Some(secs) && s.content
                == "ce-it blob payload "@ + decimal(secs as nat) + " "@ + first_ten(b_id))
            &&& (s.phase is Mark || s.phase is Check || s.phase is Fetch || s.phase is Pause)
                ==> start.stored(events) == Some((encode_utf8(s.content), s.cid))
        }),
    decreases events.len(),
{
    short_id_is_the_first_ten(b_id);
    if events.len() > 0 {
        lemma_blob_history(b_id, events.drop_last());
    }
}

/// Whatever came before, what A stores bears the time that was told and the first
/// ten characters of the identity of B, and what B fetches is what A got the name
/// of. The pause is six tenths of a second.
pub proof fn blob_is_fetched_by_its_name(b_id: Seq<char>, events: Seq<EventView>)
    ensures
        ({
            let start = BlobView::start(b_id);
            match start.run(events).pending() {
                ActionView::PutBlob { content } => start.told_time(events) matches Some(secs)
                    && content == encode_utf8(
                    "ce-it blob payload "@ + decimal(secs as nat) + " "@ + first_ten(b_id),
                ),
                ActionView::GetBlob { cid } => start.stored(events) matches Some((_, name)) && cid
                    == name,
                ActionView::Sleep { ms } => ms == 600,
                _ => true,
            }
        }),
{
    lemma_blob_history(b_id, events);
}

/// Whatever came before, fetched bytes pass exactly if they are the bytes that A
/// stored, and the verdict tells the name and how many they are. Other bytes fail,
/// and a fetch that fails is followed by the pause.
pub proof fn fetch_passes_iff_it_brings_what_was_stored(
    b_id: Seq<char>,
    events: Seq<EventView>,
    bytes: Seq<u8>,
    e: Seq<char>,
)
    requires
        BlobView::start(b_id).run(events).pending() is GetBlob,
    ensures
        ({
            let start = BlobView::start(b_id);
            let s = start.run(events);
            &&& start.stored(events) matches Some((content, name)) && (s.next(
                EventView::Bytes(Ok(bytes)),
            ).verdict() matches Some(v) && (if bytes == content {
                v.outcome == Outcome::Pass && v.detail == "B fetched CID "@ + first_ten(name)
                    + " from A over the mesh ("@ + decimal(bytes.len()) + " bytes, verified)"@
            } else {
                v.outcome == Outcome::Fail && v.detail
                    == "B fetched the CID but bytes did not match"@
            }))
            &&& s.next(EventView::Bytes(Err(e))).pending() is Sleep
        }),
{
    lemma_blob_history(b_id, events);
    short_id_is_the_first_ten(BlobView::start(b_id).run(events).cid);
}

/// Whatever came before, the clock ends the scenario exactly if it shows more than
/// twenty-five seconds: it has then failed, and tells the name and the latest
/// trouble. Else B fetches.
pub proof fn clock_decides_the_blob(b_id: Seq<char>, events: Seq<EventView>, ns: u128)
    requires
        BlobView::start(b_id).run(events).pending() is ReadClock,
    ensures
        ({
            let start = BlobView::start(b_id);
            let after = start.run(events).next(EventView::Elapsed(ns));
            if ns > 25_000_000_000 {
                start.stored(events) matches Some((_, name)) && (after.verdict() matches Some(v)
                    && v.outcome == Outcome::Fail && v.detail == "B could not fetch CID "@
                    + first_ten(name) + " over the mesh: "@ + start.trouble(events))
            } else {
                after.pending() is GetBlob
            }
        }),
{
    lemma_blob_history(b_id, events);
    short_id_is_the_first_ten(BlobView::start(b_id).run(events).cid);
}

/// The time is told, the blob stored, the clock marked and read; the scenario ends
/// where A cannot store. The pause is followed by the clock.
pub proof fn blob_goes_its_way(b_id: Seq<char>, s: BlobView, secs: u64, text: Seq<char>)
    ensures
        BlobView::start(b_id).pending() is ReadTime,
        s.pending() is ReadTime ==> s.next(EventView::UnixTime(secs)).pending() is PutBlob,
        s.pending() is PutBlob ==> s.next(EventView::Cid(Ok(text))).pending() is MarkClock,
        s.pending() is PutBlob ==> (s.next(EventView::Cid(Err(text))).verdict() matches Some(v)
            && v.outcome == Outcome::Fail && v.detail == "A put_blob failed: "@ + text),
        s.pending() is MarkClock ==> s.next(EventView::Done).pending() is ReadClock,
        s.pending() is Sleep ==> s.next(EventView::Done).pending() is ReadClock,
{
}

/// Fetched bytes pass exactly if they are the bytes of the content, whatever the
/// content and the name. The verdict tells how many they are and the first ten
/// characters of the name.
pub proof fn fetched_bytes_pass_iff_they_are_the_content(
    bytes: Seq<u8>,
    content: Seq<char>,
    cid: Seq<char>,
)
    ensures
        ({
            let v = fetched_verdict(bytes, content, cid);
            if bytes == encode_utf8(content) {
                v.outcome == Outcome::Pass && v.detail == "B fetched CID "@ + first_ten(cid)
                    + " from A over the mesh ("@ + decimal(bytes.len()) + " bytes, verified)"@
            } else {
                v.outcome == Outcome::Fail && v.detail
                    == "B fetched the CID but bytes did not match"@
            }
        }),
{
    short_id_is_the_first_ten(cid);
}

} // verus!
