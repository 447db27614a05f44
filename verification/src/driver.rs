//! The whole run: the probe, then the scenarios in their order, then the matrix.
use vstd::prelude::*;
use vstd::string::StringExecFns;

use crate::blob::{blob_heeds_answers_only, Blob, BlobView};
use crate::discovery::{discovery_heeds_answers_only, Discovery, DiscoveryView};
use crate::mesh::{
    answers, verdict_view, Action, ActionView, Ending, Event, EventView, Verdict, VerdictView,
};
use crate::peering::{peering_heeds_answers_only, Peering, PeeringView};
use crate::pubsub::{pubsub_heeds_answers_only, Pubsub, PubsubView};
use crate::report::{
    has_failure, log_view, matrix, row_log, LogLine, LogLineView, Outcome, Report, RowView,
};
use crate::text::{short_id, shortened};
use crate::request_reply::{request_reply_heeds_answers_only, RequestReply, RequestReplyView};
use crate::tunnel::{
    lemma_probe_echo_is_something, tunnel_heeds_answers_only, tunnel_url, tunnel_verdict_and_stop,
    Tunnel, TunnelView,
};

verus! {

impl Ending {
    /// The exit code of the program.
    pub open spec fn code(self) -> int {
        match self {
            Ending::Success => 0,
            Ending::Failure => 1,
            Ending::NotPeered => 1,
        }
    }

    /// The exit code of the program.
    pub fn exit_code(self) -> (r: i32)
        ensures
            r == self.code(),
    {
        match self {
            Ending::Success => 0,
            Ending::Failure => 1,
            Ending::NotPeered => 1,
        }
    }
}

/// What is said where a run ends because the nodes never peered.
pub fn abort_message() -> (r: String)
    ensures
        r@ == "aborting: nodes failed to peer"@,
{
    "aborting: nodes failed to peer".to_owned()
}

/// What is said where a node does not answer when it is first asked.
pub fn connect_failure(name: &str, base: &str) -> (r: String)
    ensures
        r@ == name@ + ": GET /status failed at "@ + base@,
{
    name.to_owned().concat(": GET /status failed at ").concat(base)
}

/// What the log says of a node that answered.
pub fn connected_message(name: &str, base: &str, id: &str) -> (r: String)
    ensures
        r@ == "connected node "@ + name@ + " at "@ + base@ + " (id "@ + shortened(id@) + ")"@,
{
    "connected node ".to_owned().concat(name).concat(" at ").concat(base).concat(" (id ").concat(
        short_id(id).as_str(),
    ).concat(")")
}

/// What the log says of the identity of a node.
pub fn identity_message(name: &str, id: &str) -> (r: String)
    ensures
        r@ == "node "@ + name@ + " id="@ + id@,
{
    "node ".to_owned().concat(name).concat(" id=").concat(id)
}

/// The names of the rows of a full run, in their order.
pub open spec fn row_names() -> Seq<Seq<char>> {
    seq![
        "peering"@,
        "mesh request/reply"@,
        "pubsub"@,
        "blob availability"@,
        "discovery + tags"@,
        "tunnel"@,
    ]
}

enum Stage {
    Peering(Peering),
    RequestReply(RequestReply),
    Pubsub(Pubsub),
    Blob(Blob),
    Discovery(Discovery),
    Tunnel(Tunnel),
    Print(Ending),
    Exit(Ending),
}

/// How far a run has come.
pub enum StageView {
    Peering(PeeringView),
    RequestReply(RequestReplyView),
    Pubsub(PubsubView),
    Blob(BlobView),
    Discovery(DiscoveryView),
    Tunnel(TunnelView),
    Print(Ending),
    Exit(Ending),
}

impl View for Stage {
    type V = StageView;

    closed spec fn view(&self) -> StageView {
        match *self {
            Stage::Peering(m) => StageView::Peering(m@),
            Stage::RequestReply(m) => StageView::RequestReply(m@),
            Stage::Pubsub(m) => StageView::Pubsub(m@),
            Stage::Blob(m) => StageView::Blob(m@),
            Stage::Discovery(m) => StageView::Discovery(m@),
            Stage::Tunnel(m) => StageView::Tunnel(m@),
            Stage::Print(e) => StageView::Print(e),
            Stage::Exit(e) => StageView::Exit(e),
        }
    }
}

impl StageView {
    /// Whether the verdict is given and nothing of the scenario is left to be
    /// done.
    pub open spec fn is_done(self) -> bool {
        self.verdict() is Some && (self matches StageView::Tunnel(m) ==> m.phase is Over)
    }

    /// The verdict of the scenario, once it is given.
    pub open spec fn verdict(self) -> Option<VerdictView> {
        match self {
            StageView::Peering(m) => m.verdict(),
            StageView::RequestReply(m) => m.verdict(),
            StageView::Pubsub(m) => m.verdict(),
            StageView::Blob(m) => m.verdict(),
            StageView::Discovery(m) => m.verdict(),
            StageView::Tunnel(m) => m.verdict(),
            StageView::Print(_) => None,
            StageView::Exit(_) => None,
        }
    }

    /// The stage after an event.
    pub open spec fn next(self, event: EventView) -> Self {
        match self {
            StageView::Peering(m) => StageView::Peering(m.next(event)),
            StageView::RequestReply(m) => StageView::RequestReply(m.next(event)),
            StageView::Pubsub(m) => StageView::Pubsub(m.next(event)),
            StageView::Blob(m) => StageView::Blob(m.next(event)),
            StageView::Discovery(m) => StageView::Discovery(m.next(event)),
            StageView::Tunnel(m) => StageView::Tunnel(m.next(event)),
            StageView::Print(e) => if event is Done {
                StageView::Exit(e)
            } else {
                self
            },
            StageView::Exit(e) => self,
        }
    }

    /// The place of the stage among the rows of a full run.
    pub open spec fn place(self) -> int {
        match self {
            StageView::Peering(_) => 0,
            StageView::RequestReply(_) => 1,
            StageView::Pubsub(_) => 2,
            StageView::Blob(_) => 3,
            StageView::Discovery(_) => 4,
            StageView::Tunnel(_) => 5,
            StageView::Print(_) => 6,
            StageView::Exit(_) => 6,
        }
    }
}

/// A run of the whole suite against two nodes.
pub struct Driver {
    a_id: String,
    b_id: String,
    a_base: String,
    a_token: String,
    report: Report,
    stage: Stage,
}

/// What a `Driver` holds.
pub struct DriverView {
    pub a_id: Seq<char>,
    pub b_id: Seq<char>,
    pub a_base: Seq<char>,
    pub a_token: Seq<char>,
    pub rows: Seq<RowView>,
    pub stage: StageView,
}

impl View for Driver {
    type V = DriverView;

    closed spec fn view(&self) -> DriverView {
        DriverView {
            a_id: self.a_id@,
            b_id: self.b_id@,
            a_base: self.a_base@,
            a_token: self.a_token@,
            rows: self.report@,
            stage: self.stage@,
        }
    }
}

/// How a run that went through every scenario ends.
pub open spec fn ending_of(rows: Seq<RowView>) -> Ending {
    if has_failure(rows) {
        Ending::Failure
    } else {
        Ending::Success
    }
}

impl DriverView {
    pub open spec fn start(
        a_id: Seq<char>,
        b_id: Seq<char>,
        a_base: Seq<char>,
        a_token: Seq<char>,
        peer_timeout_secs: u64,
    ) -> Self {
        DriverView {
            a_id,
            b_id,
            a_base,
            a_token,
            rows: Seq::empty(),
            stage: StageView::Peering(PeeringView::start(b_id, peer_timeout_secs)),
        }
    }

    /// What the run asks for.
    pub open spec fn pending(self) -> ActionView {
        match self.stage {
            StageView::Peering(m) => m.pending(),
            StageView::RequestReply(m) => m.pending(),
            StageView::Pubsub(m) => m.pending(),
            StageView::Blob(m) => m.pending(),
            StageView::Discovery(m) => m.pending(),
            StageView::Tunnel(m) => m.pending(),
            StageView::Print(_) => ActionView::Print { text: matrix(self.rows) },
            StageView::Exit(e) => ActionView::Exit(e),
        }
    }

    /// The stage that follows once the present one has come out as `outcome`.
    /// Without peering, no further scenario means anything.
    pub open spec fn following(self, outcome: Outcome) -> StageView {
        match self.stage {
            StageView::Peering(_) => if outcome == Outcome::Pass {
                StageView::RequestReply(RequestReplyView::start(self.b_id))
            } else {
                StageView::Print(Ending::NotPeered)
            },
            StageView::RequestReply(_) => StageView::Pubsub(PubsubView::start(self.a_id)),
            StageView::Pubsub(_) => StageView::Blob(BlobView::start(self.b_id)),
            StageView::Blob(_) => StageView::Discovery(DiscoveryView::start(self.b_id)),
            StageView::Discovery(_) => StageView::Tunnel(
                TunnelView::start(self.a_base, self.a_token, self.b_id),
            ),
            StageView::Tunnel(_) => StageView::Print(ending_of(self.rows)),
            StageView::Print(_) => self.stage,
            StageView::Exit(_) => self.stage,
        }
    }

    /// The run with the verdict of the present stage, if it is given and not
    /// yet on record, put on record, and the next stage begun, if the present
    /// one is done.
    pub open spec fn settled(self) -> Self {
        match self.stage.verdict() {
            Some(v) => {
                let rows = if self.rows.len() == self.stage.place() {
                    self.rows.push((row_names()[self.stage.place()], v.outcome, v.detail))
                } else {
                    self.rows
                };
                let stage = if self.stage.is_done() {
                    (DriverView { rows, ..self }).following(v.outcome)
                } else {
                    self.stage
                };
                DriverView { rows, stage, ..self }
            },
            None => self,
        }
    }

    /// The run after an event.
    pub open spec fn next(self, event: EventView) -> Self {
        (DriverView { stage: self.stage.next(event), ..self }).settled()
    }

    /// The line that the log gets on an event: one where a row is recorded.
    pub open spec fn logged(self, event: EventView) -> Option<LogLineView> {
        let after = self.next(event);
        if after.rows.len() > self.rows.len() {
            Some(row_log(after.rows.last()))
        } else {
            None
        }
    }

    /// The run after a row of events.
    pub open spec fn run(self, events: Seq<EventView>) -> Self
        decreases events.len(),
    {
        if events.len() == 0 {
            self
        } else {
            self.run(events.drop_last()).next(events.last())
        }
    }

    /// The lines that the log gets in a row of events.
    pub open spec fn log(self, events: Seq<EventView>) -> Seq<LogLineView>
        decreases events.len(),
    {
        if events.len() == 0 {
            Seq::empty()
        } else {
            let lines = self.log(events.drop_last());
            match self.run(events.drop_last()).logged(events.last()) {
                Some(line) => lines.push(line),
                None => lines,
            }
        }
    }
}

impl Driver {
    /// A run against the nodes `a_id`, which answers at `a_base` to who bears
    /// `a_token`, and `b_id`. It takes two nodes: one identity for both is an
    /// error.
    pub fn new(
        a_id: &String,
        b_id: &String,
        a_base: &str,
        a_token: &str,
        peer_timeout_secs: u64,
    ) -> (r: Result<Self, String>)
        ensures
            r is Ok <==> a_id@ != b_id@,
            r matches Ok(d) ==> d@ == DriverView::start(
                a_id@,
                b_id@,
                a_base@,
                a_token@,
                peer_timeout_secs,
            ),
            r matches Err(e) ==> e@
                == "node A and node B report the same NodeId — they are not two distinct nodes"@,
    {
        if *a_id == *b_id {
            Err(
                "node A and node B report the same NodeId — they are not two distinct nodes".to_owned(),
            )
        } else {
            Ok(
                Driver {
                    a_id: a_id.clone(),
                    b_id: b_id.clone(),
                    a_base: a_base.to_owned(),
                    a_token: a_token.to_owned(),
                    report: Report::new(),
                    stage: Stage::Peering(Peering::new(b_id.as_str(), peer_timeout_secs)),
                },
            )
        }
    }

    /// What is to be done next.
    pub fn pending(&self) -> (r: Action)
        ensures
            r@ == self@.pending(),
    {
        match &self.stage {
            Stage::Peering(m) => m.pending(),
            Stage::RequestReply(m) => m.pending(),
            Stage::Pubsub(m) => m.pending(),
            Stage::Blob(m) => m.pending(),
            Stage::Discovery(m) => m.pending(),
            Stage::Tunnel(m) => m.pending(),
            Stage::Print(_) => Action::Print { text: self.report.render() },
            Stage::Exit(e) => Action::Exit(*e),
        }
    }

    /// The rows that are on record.
    pub fn report(&self) -> (r: &Report)
        ensures
            r@ == self@.rows,
    {
        &self.report
    }

    fn row_name(&self) -> (r: &'static str)
        ensures
            self@.stage.place() < 6 ==> r@ == row_names()[self@.stage.place()],
    {
        match &self.stage {
            Stage::Peering(_) => "peering",
            Stage::RequestReply(_) => "mesh request/reply",
            Stage::Pubsub(_) => "pubsub",
            Stage::Blob(_) => "blob availability",
            Stage::Discovery(_) => "discovery + tags",
            Stage::Tunnel(_) => "tunnel",
            Stage::Print(_) => "",
            Stage::Exit(_) => "",
        }
    }

    fn place(&self) -> (r: usize)
        ensures
            r == self@.stage.place(),
    {
        match &self.stage {
            Stage::Peering(_) => 0,
            Stage::RequestReply(_) => 1,
            Stage::Pubsub(_) => 2,
            Stage::Blob(_) => 3,
            Stage::Discovery(_) => 4,
            Stage::Tunnel(_) => 5,
            Stage::Print(_) => 6,
            Stage::Exit(_) => 6,
        }
    }

    fn verdict(&self) -> (r: Option<Verdict>)
        ensures
            verdict_view(r) == self@.stage.verdict(),
    {
        match &self.stage {
            Stage::Peering(m) => m.verdict(),
            Stage::RequestReply(m) => m.verdict(),
            Stage::Pubsub(m) => m.verdict(),
            Stage::Blob(m) => m.verdict(),
            Stage::Discovery(m) => m.verdict(),
            Stage::Tunnel(m) => m.verdict(),
            Stage::Print(_) => None,
            Stage::Exit(_) => None,
        }
    }

    fn follow(&mut self, outcome: Outcome)
        ensures
            final(self)@ == (DriverView { stage: old(self)@.following(outcome), ..old(self)@ }),
    {
        match &self.stage {
            Stage::Peering(_) => {
                self.stage = if outcome == Outcome::Pass {
                    Stage::RequestReply(RequestReply::new(self.b_id.as_str()))
                } else {
                    Stage::Print(Ending::NotPeered)
                };
            },
            Stage::RequestReply(_) => {
                self.stage = Stage::Pubsub(Pubsub::new(self.a_id.as_str()));
            },
            Stage::Pubsub(_) => {
                self.stage = Stage::Blob(Blob::new(self.b_id.as_str()));
            },
            Stage::Blob(_) => {
                self.stage = Stage::Discovery(Discovery::new(self.b_id.as_str()));
            },
            Stage::Discovery(_) => {
                self.stage = Stage::Tunnel(
                    Tunnel::new(
                        self.a_base.as_str(),
                        self.a_token.as_str(),
                        self.b_id.as_str(),
                    ),
                );
            },
            Stage::Tunnel(_) => {
                self.stage = Stage::Print(
                    if self.report.any_failed() {
                        Ending::Failure
                    } else {
                        Ending::Success
                    },
                );
            },
            Stage::Print(_) => {},
            Stage::Exit(_) => {},
        }
    }

    /// Takes in what came of the pending action, and gives the line that the
    /// log gets for it, if any. An event that does not answer the action changes
    /// nothing.
    pub fn step(&mut self, event: Event) -> (r: Option<LogLine>)
        ensures
            final(self)@ == old(self)@.next(event@),
            log_view(r) == old(self)@.logged(event@),
    {
        match &mut self.stage {
            Stage::Peering(m) => m.step(event),
            Stage::RequestReply(m) => m.step(event),
            Stage::Pubsub(m) => m.step(event),
            Stage::Blob(m) => m.step(event),
            Stage::Discovery(m) => m.step(event),
            Stage::Tunnel(m) => m.step(event),
            Stage::Print(e) => {
                let ending = *e;
                if let Event::Done = event {
                    self.stage = Stage::Exit(ending);
                }
            },
            Stage::Exit(_) => {},
        }
        let mut line: Option<LogLine> = None;
        if let Some(v) = self.verdict() {
            let outcome = v.outcome;
            if self.report.rows.len() == self.place() {
                let name = self.row_name();
                line = Some(self.report.record(name, outcome, v.detail));
            }
            let done = match &self.stage {
                Stage::Tunnel(m) => m.is_done(),
                _ => true,
            };
            if done {
                self.follow(outcome);
            }
        }
        line
    }
}

impl DriverView {
    /// The stage of a run that is under way: no scenario lies finished, and a
    /// verdict that stands is there only while something is still to be stopped.
    pub open spec fn stage_is_live(self) -> bool {
        match self.stage {
            StageView::Peering(m) => !(m.phase is Over) && m.found is None,
            StageView::RequestReply(m) => !(m.phase is Over) && (m.phase is Stop
                <==> m.found is Some) && (m.found matches Some(v) ==> v.outcome
                != Outcome::Blocked),
            StageView::Pubsub(m) => !(m.phase is Over) && m.found is None,
            StageView::Blob(m) => !(m.phase is Over) && m.found is None,
            StageView::Discovery(m) => !(m.phase is Over) && m.found is None,
            StageView::Tunnel(m) => !(m.phase is Over) && ((m.phase is Abort || m.phase is Stop)
                <==> m.found is Some),
            StageView::Print(_) => true,
            StageView::Exit(_) => true,
        }
    }

    /// How the run ends, once every scenario that is to be run has been run.
    pub open spec fn ending(self) -> Option<Ending> {
        match self.stage {
            StageView::Print(e) => Some(e),
            StageView::Exit(e) => Some(e),
            _ => None,
        }
    }

    /// How many rows are on record of a stage that is not done: one where the
    /// verdict is given and the echo server still to be stopped.
    pub open spec fn ahead(self) -> int {
        if self.stage.verdict() is Some {
            1
        } else {
            0
        }
    }

    /// What holds throughout a run: the rows are those of the stages that have
    /// come to a verdict, in their order, none but the tunnel is blocked, and
    /// nothing came behind a peering that failed.
    pub open spec fn is_sound(self) -> bool {
        &&& self.stage_is_live()
        &&& self.rows.len() <= 6
        &&& forall|i: int|
            0 <= i < self.rows.len() ==> (#[trigger] self.rows[i]).0 == row_names()[i] && (
            self.rows[i].1 == Outcome::Blocked ==> i == 5)
        &&& match self.ending() {
            Some(Ending::NotPeered) => self.rows.len() == 1 && self.rows[0].1 == Outcome::Fail,
            Some(e) => self.rows.len() == 6 && self.rows[0].1 == Outcome::Pass && e == ending_of(
                self.rows,
            ),
            None => self.rows.len() == self.stage.place() + self.ahead() && (self.rows.len() > 0
                ==> self.rows[0].1 == Outcome::Pass),
        }
    }
}

/// A sound run stays sound, and its rows only grow.
pub proof fn run_stays_sound(d: DriverView, event: EventView)
    requires
        d.is_sound(),
    ensures
        d.next(event).is_sound(),
        d.rows.is_prefix_of(d.next(event).rows),
        d.next(event).rows.len() <= d.rows.len() + 1,
{
    let moved = DriverView { stage: d.stage.next(event), ..d };
    let after = d.next(event);
    match moved.stage.verdict() {
        Some(v) => if d.ahead() == 1 {
            assert(after.rows == d.rows);
        } else {
            assert(moved.stage.place() == d.stage.place());
            assert(after.rows == d.rows.push((row_names()[d.stage.place()], v.outcome, v.detail)));
            assert forall|i: int| 0 <= i < after.rows.len() implies (#[trigger] after.rows[i]).0
                == row_names()[i] && (after.rows[i].1 == Outcome::Blocked ==> i == 5) by {
                if i < d.rows.len() {
                    assert(after.rows[i] == d.rows[i]);
                }
            }
            if d.rows.len() > 0 {
                assert(after.rows[0] == d.rows[0]);
            }
        },
        None => {},
    }
}

/// Every run is sound, whatever the nodes do.
pub proof fn every_run_is_sound(
    a_id: Seq<char>,
    b_id: Seq<char>,
    a_base: Seq<char>,
    a_token: Seq<char>,
    peer_timeout_secs: u64,
    events: Seq<EventView>,
)
    ensures
        DriverView::start(a_id, b_id, a_base, a_token, peer_timeout_secs).run(events).is_sound(),
    decreases events.len(),
{
    let start = DriverView::start(a_id, b_id, a_base, a_token, peer_timeout_secs);
    if events.len() > 0 {
        every_run_is_sound(a_id, b_id, a_base, a_token, peer_timeout_secs, events.drop_last());
        run_stays_sound(start.run(events.drop_last()), events.last());
    }
}

/// A run ends with the exit code 0 exactly if every scenario that was not
/// blocked passed.
pub proof fn exit_code_is_zero_iff_all_passed(d: DriverView, ending: Ending)
    requires
        d.is_sound(),
        d.pending() == ActionView::Exit(ending),
    ensures
        ending.code() == 0 <==> forall|i: int|
            0 <= i < d.rows.len() && (#[trigger] d.rows[i]).1 != Outcome::Blocked ==> d.rows[i].1
                == Outcome::Pass,
        ending.code() == 0 || ending.code() == 1,
{
    if ending == Ending::NotPeered {
        assert(d.rows[0].1 == Outcome::Fail);
    }
}

/// A run that has ended holds a row for each scenario, in order, unless the
/// nodes never peered: then it holds that failure alone.
pub proof fn ended_run_is_complete(d: DriverView, ending: Ending)
    requires
        d.is_sound(),
        d.pending() == ActionView::Exit(ending),
    ensures
        ending == Ending::NotPeered ==> d.rows.len() == 1 && d.rows[0].0 == "peering"@
            && d.rows[0].1 == Outcome::Fail,
        ending != Ending::NotPeered ==> d.rows.len() == 6 && forall|i: int|
            0 <= i < 6 ==> (#[trigger] d.rows[i]).0 == row_names()[i],
{
}

/// No scenario but the tunnel is ever blocked.
pub proof fn only_the_tunnel_is_blocked(d: DriverView, i: int)
    requires
        d.is_sound(),
        0 <= i < d.rows.len(),
        d.rows[i].1 == Outcome::Blocked,
    ensures
        d.rows[i].0 == "tunnel"@,
{
}

/// No scenario is begun before the nodes have peered.
pub proof fn no_scenario_without_peering(d: DriverView)
    requires
        d.is_sound(),
        !(d.stage is Peering),
        d.ending() != Some(Ending::NotPeered),
    ensures
        d.rows.len() > 0,
        d.rows[0].0 == "peering"@,
        d.rows[0].1 == Outcome::Pass,
{
}

/// The matrix is printed right before the run ends, and holds every row.
pub proof fn matrix_is_printed_at_the_end(d: DriverView, ending: Ending, event: EventView)
    requires
        d.is_sound(),
        !(d.pending() is Exit),
        d.next(event).pending() == ActionView::Exit(ending),
    ensures
        d.pending() == (ActionView::Print { text: matrix(d.rows) }),
        d.next(event).rows == d.rows,
        event is Done,
{
}

/// The matrix is printed once: the run ends behind it, and an ended run stays
/// as it is.
pub proof fn matrix_is_printed_once(d: DriverView, event: EventView)
    requires
        d.is_sound(),
        d.pending() is Print,
    ensures
        d.next(EventView::Done).pending() is Exit,
        d.next(EventView::Done).next(event) == d.next(EventView::Done),
{
}

/// Whatever the nodes do, the log gets one line for each row that is recorded,
/// in their order, when the row is recorded.
pub proof fn every_row_is_logged_once(
    a_id: Seq<char>,
    b_id: Seq<char>,
    a_base: Seq<char>,
    a_token: Seq<char>,
    peer_timeout_secs: u64,
    events: Seq<EventView>,
)
    ensures
        ({
            let start = DriverView::start(a_id, b_id, a_base, a_token, peer_timeout_secs);
            start.log(events) == start.run(events).rows.map_values(|row: RowView| row_log(row))
        }),
    decreases events.len(),
{
    let start = DriverView::start(a_id, b_id, a_base, a_token, peer_timeout_secs);
    let lines = start.run(events).rows.map_values(|row: RowView| row_log(row));
    if events.len() > 0 {
        let head = events.drop_last();
        let d = start.run(head);
        every_row_is_logged_once(a_id, b_id, a_base, a_token, peer_timeout_secs, head);
        every_run_is_sound(a_id, b_id, a_base, a_token, peer_timeout_secs, head);
        run_stays_sound(d, events.last());
        let after = d.next(events.last());
        if after.rows.len() > d.rows.len() {
            assert(after.rows =~= d.rows.push(after.rows.last()));
        } else {
            assert(after.rows =~= d.rows);
        }
    }
    assert(start.log(events) =~= lines);
}

/// Where the tunnel never opened, its row is recorded and logged before the
/// echo server is stopped; where bytes were driven through it, right after.
/// Either way the matrix comes next.
pub proof fn tunnel_row_and_stop(d: DriverView, event: EventView)
    requires
        d.is_sound(),
        !(d.pending() is StopEcho),
        d.next(event).pending() is StopEcho,
    ensures
        ({
            let stopping = d.next(event);
            let stopped = stopping.next(EventView::Done);
            let never_opened = d.pending() is FreePort || d.pending() is PostTunnel
                || d.pending() is ReadBody;
            &&& stopping.rows.len() == 6 <==> never_opened
            &&& d.logged(event) is Some <==> never_opened
            &&& stopping.logged(EventView::Done) is Some <==> !never_opened
            &&& stopped.rows.len() == 6
            &&& stopped.pending() is Print
        }),
{
    if let StageView::Tunnel(m) = d.stage {
        tunnel_verdict_and_stop(m, event);
    }
}

/// Whatever the nodes do, a tunnel is asked of node A alone, with the token of
/// A, and leads to B.
pub proof fn tunnel_is_asked_of_a(
    a_id: Seq<char>,
    b_id: Seq<char>,
    a_base: Seq<char>,
    a_token: Seq<char>,
    peer_timeout_secs: u64,
    events: Seq<EventView>,
)
    ensures
        DriverView::start(a_id, b_id, a_base, a_token, peer_timeout_secs).run(
            events,
        ).pending() matches ActionView::PostTunnel(post) ==> post.url == tunnel_url(a_base)
            && post.token == a_token && post.node_id == b_id,
{
    lemma_nodes_stay(a_id, b_id, a_base, a_token, peer_timeout_secs, events);
}

proof fn lemma_nodes_stay(
    a_id: Seq<char>,
    b_id: Seq<char>,
    a_base: Seq<char>,
    a_token: Seq<char>,
    peer_timeout_secs: u64,
    events: Seq<EventView>,
)
    ensures
        ({
            let d = DriverView::start(a_id, b_id, a_base, a_token, peer_timeout_secs).run(events);
            &&& d.a_base == a_base && d.a_token == a_token && d.b_id == b_id
            &&& d.stage matches StageView::Tunnel(m) ==> m.base == a_base && m.token == a_token
                && m.b_id == b_id
        }),
    decreases events.len(),
{
    if events.len() > 0 {
        lemma_nodes_stay(a_id, b_id, a_base, a_token, peer_timeout_secs, events.drop_last());
    }
}

/// A run never stalls: until it ends there is something to be done, and what
/// came of it moves the run on. An event that was not asked for changes
/// nothing.
pub proof fn run_never_stalls(d: DriverView, event: EventView)
    requires
        d.is_sound(),
    ensures
        d.pending() != ActionView::Rest,
        answers(d.pending(), event) ==> d.next(event) != d,
        !answers(d.pending(), event) ==> d.next(event) == d,
{
    match d.stage {
        StageView::Peering(m) => peering_heeds_answers_only(m, event),
        StageView::RequestReply(m) => request_reply_heeds_answers_only(m, event),
        StageView::Pubsub(m) => pubsub_heeds_answers_only(m, event),
        StageView::Blob(m) => blob_heeds_answers_only(m, event),
        StageView::Discovery(m) => discovery_heeds_answers_only(m, event),
        StageView::Tunnel(m) => tunnel_heeds_answers_only(m, event),
        StageView::Print(_) => {},
        StageView::Exit(_) => {},
    }
}

impl StageView {
    /// Whether an event is what the scenario is there to show: a ping was
    /// delivered, the request was echoed, the message landed, the blob arrived,
    /// B was named as a provider, the echo came back through the tunnel.
    pub open spec fn shows(self, event: EventView) -> bool {
        match self {
            StageView::Peering(m) => m.delivers(event),
            StageView::RequestReply(m) => m.echoes(event),
            StageView::Pubsub(m) => m.lands(event),
            StageView::Blob(m) => m.arrives(event),
            StageView::Discovery(m) => m.discovers(event),
            StageView::Tunnel(m) => m.echoes(event),
            StageView::Print(_) => false,
            StageView::Exit(_) => false,
        }
    }

    /// Whether the scenario has been shown what it is there to show, while its
    /// verdict is not yet on record.
    spec fn is_shown(self) -> bool {
        match self {
            StageView::Peering(m) => m.phase is Time || m.phase is Render,
            StageView::RequestReply(m) => m.found matches Some(v) && v.outcome == Outcome::Pass,
            StageView::Tunnel(m) => m.found matches Some(v) && v.outcome == Outcome::Pass,
            _ => false,
        }
    }
}

impl DriverView {
    /// Whether, in a row of events, the scenario at `place` was shown what it
    /// is there to show.
    pub open spec fn ever_shown(self, place: int, events: Seq<EventView>) -> bool
        decreases events.len(),
    {
        events.len() > 0 && (self.ever_shown(place, events.drop_last()) || (self.run(
            events.drop_last(),
        ).stage.place() == place && self.run(events.drop_last()).stage.shows(events.last())))
    }
}

proof fn lemma_shown(
    a_id: Seq<char>,
    b_id: Seq<char>,
    a_base: Seq<char>,
    a_token: Seq<char>,
    peer_timeout_secs: u64,
    events: Seq<EventView>,
    place: int,
)
    requires
        0 <= place < 6,
    ensures
        ({
            let start = DriverView::start(a_id, b_id, a_base, a_token, peer_timeout_secs);
            let d = start.run(events);
            start.ever_shown(place, events) <==> if place < d.rows.len() {
                d.rows[place].1 == Outcome::Pass
            } else {
                d.stage.place() == place && d.stage.is_shown()
            }
        }),
    decreases events.len(),
{
    let start = DriverView::start(a_id, b_id, a_base, a_token, peer_timeout_secs);
    if events.len() > 0 {
        let head = events.drop_last();
        let d = start.run(head);
        every_run_is_sound(a_id, b_id, a_base, a_token, peer_timeout_secs, head);
        lemma_shown(a_id, b_id, a_base, a_token, peer_timeout_secs, head, place);
        run_stays_sound(d, events.last());
        lemma_probe_echo_is_something();
        if place < d.rows.len() {
            assert(d.next(events.last()).rows[place] == d.rows[place]);
        }
    }
}

/// Whatever the nodes do, a scenario is on record as passed exactly if the run
/// was shown what the scenario is there to show.
pub proof fn rows_pass_iff_shown(
    a_id: Seq<char>,
    b_id: Seq<char>,
    a_base: Seq<char>,
    a_token: Seq<char>,
    peer_timeout_secs: u64,
    events: Seq<EventView>,
    place: int,
)
    requires
        0 <= place < DriverView::start(a_id, b_id, a_base, a_token, peer_timeout_secs).run(
            events,
        ).rows.len(),
    ensures
        ({
            let start = DriverView::start(a_id, b_id, a_base, a_token, peer_timeout_secs);
            start.run(events).rows[place].1 == Outcome::Pass <==> start.ever_shown(place, events)
        }),
{
    every_run_is_sound(a_id, b_id, a_base, a_token, peer_timeout_secs, events);
    lemma_shown(a_id, b_id, a_base, a_token, peer_timeout_secs, events, place);
}

/// The exit code is 0 for a run that ended well, and 1 for the others.
pub proof fn only_success_exits_with_zero(ending: Ending)
    ensures
        ending == Ending::Success ==> ending.code() == 0,
        ending != Ending::Success ==> ending.code() == 1,
{
}

} // verus!
