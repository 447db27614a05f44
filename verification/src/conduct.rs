//! What a run does, whatever the nodes do: whom it asks for what, how it goes
//! from scenario to scenario, and how it ends.
use vstd::prelude::*;
use vstd::utf8::encode_utf8;

use crate::blob::{blob_is_fetched_by_its_name, BlobView};
use crate::discovery::{service_bears_the_node, DiscoveryView};
use crate::driver::{every_run_is_sound, DriverView, StageView};
use crate::mesh::{ActionView, Ending, EventView};
use crate::peering::{pings_go_to_the_node, PeeringView};
use crate::pubsub::{publish_bears_the_time, PubsubView};
use crate::report::{matrix, row_log, Outcome, RowView};
use crate::request_reply::{request_goes_to_the_node, RequestReplyView};
use crate::text::{decimal, first_ten};
use crate::tunnel::{bare_of_slashes, request_asks_for_what_was_told, TunnelView};

verus! {

/// Whether a stage is its scenario, begun with the two nodes of the run, after
/// the events from number `k` on.
pub open spec fn is_under_way(
    stage: StageView,
    a_id: Seq<char>,
    b_id: Seq<char>,
    a_base: Seq<char>,
    a_token: Seq<char>,
    peer_timeout_secs: u64,
    events: Seq<EventView>,
    k: int,
) -> bool {
    let since = events.subrange(k, events.len() as int);
    match stage {
        StageView::Peering(m) => m == PeeringView::start(b_id, peer_timeout_secs).run(since),
        StageView::RequestReply(m) => m == RequestReplyView::start(b_id).run(since),
        StageView::Pubsub(m) => m == PubsubView::start(a_id).run(since),
        StageView::Blob(m) => m == BlobView::start(b_id).run(since),
        StageView::Discovery(m) => m == DiscoveryView::start(b_id).run(since),
        StageView::Tunnel(m) => m == TunnelView::start(a_base, a_token, b_id).run(since),
        StageView::Print(_) => true,
        StageView::Exit(_) => true,
    }
}

proof fn lemma_run_keeps_its_nodes(
    a_id: Seq<char>,
    b_id: Seq<char>,
    a_base: Seq<char>,
    a_token: Seq<char>,
    peer_timeout_secs: u64,
    events: Seq<EventView>,
)
    ensures
        ({
            let d = DriverView::start(a_id, b_id, a_base, a_token, peer_timeout_secs).run(events);
            d.a_id == a_id && d.b_id == b_id && d.a_base == a_base && d.a_token == a_token
        }),
    decreases events.len(),
{
    if events.len() > 0 {
        lemma_run_keeps_its_nodes(
            a_id,
            b_id,
            a_base,
            a_token,
            peer_timeout_secs,
            events.drop_last(),
        );
    }
}

/// Whatever the nodes do, the stage that a run is at is its scenario, begun with
/// the nodes of the run, after the latest of the events: what is proved of a
/// scenario after any row of events holds of the run.
pub proof fn stage_is_its_scenario(
    a_id: Seq<char>,
    b_id: Seq<char>,
    a_base: Seq<char>,
    a_token: Seq<char>,
    peer_timeout_secs: u64,
    events: Seq<EventView>,
)
    ensures
        exists|k: int|
            0 <= k <= events.len() && #[trigger] is_under_way(
                DriverView::start(a_id, b_id, a_base, a_token, peer_timeout_secs).run(events).stage,
                a_id,
                b_id,
                a_base,
                a_token,
                peer_timeout_secs,
                events,
                k,
            ),
    decreases events.len(),
{
    let start = DriverView::start(a_id, b_id, a_base, a_token, peer_timeout_secs);
    let stage = start.run(events).stage;
    let n = events.len() as int;
    assert(events.subrange(n, n) =~= Seq::<EventView>::empty());
    if events.len() == 0 {
        assert(is_under_way(stage, a_id, b_id, a_base, a_token, peer_timeout_secs, events, 0));
    } else {
        let head = events.drop_last();
        let before = start.run(head);
        stage_is_its_scenario(a_id, b_id, a_base, a_token, peer_timeout_secs, head);
        lemma_run_keeps_its_nodes(a_id, b_id, a_base, a_token, peer_timeout_secs, head);
        every_run_is_sound(a_id, b_id, a_base, a_token, peer_timeout_secs, head);
        let k = choose|k: int|
            0 <= k <= head.len() && #[trigger] is_under_way(
                before.stage,
                a_id,
                b_id,
                a_base,
                a_token,
                peer_timeout_secs,
                head,
                k,
            );
        assert(events.subrange(k, n).drop_last() =~= head.subrange(k, n - 1));
        assert(events.subrange(k, n).last() == events.last());
        if stage == before.stage.next(events.last()) {
            assert(is_under_way(stage, a_id, b_id, a_base, a_token, peer_timeout_secs, events, k));
        } else {
            assert(is_under_way(stage, a_id, b_id, a_base, a_token, peer_timeout_secs, events, n));
        }
    }
}

/// Whatever the nodes do, every ping and every request of a run goes to B; the
/// topic of pubsub bears the identity of A; what is advertised, looked for and
/// stored bears the identity of B; and a tunnel is asked of A, with its token, and
/// leads to B.
pub proof fn run_asks_the_right_node(
    a_id: Seq<char>,
    b_id: Seq<char>,
    a_base: Seq<char>,
    a_token: Seq<char>,
    peer_timeout_secs: u64,
    events: Seq<EventView>,
)
    ensures
        match DriverView::start(a_id, b_id, a_base, a_token, peer_timeout_secs).run(
            events,
        ).pending() {
            ActionView::SendMessage { to, topic, payload } => to == b_id && topic == "ce-it/ping"@
                && payload == encode_utf8("ping"@),
            ActionView::StartReplier { topic, prefix } => topic == "ce-it/echo"@ && prefix
                == encode_utf8("echo:"@),
            ActionView::Request { to, topic, body, timeout_ms } => to == b_id && topic
                == "ce-it/echo"@ && body == encode_utf8("hello-from-A"@) && timeout_ms == 15_000,
            ActionView::Subscribe { topic } => topic == "ce-it/news-"@ + first_ten(a_id),
            ActionView::Publish { topic, payload } => topic == "ce-it/news-"@ + first_ten(a_id)
                && exists|secs: u64|
                payload == encode_utf8("breaking-"@ + #[trigger] decimal(secs as nat)),
            ActionView::PutBlob { content } => exists|secs: u64|
                content == encode_utf8(
                    "ce-it blob payload "@ + #[trigger] decimal(secs as nat) + " "@ + first_ten(b_id),
                ),
            ActionView::Advertise { service } => service == "ce-it-svc-"@ + first_ten(b_id),
            ActionView::FindService { service } => service == "ce-it-svc-"@ + first_ten(b_id),
            ActionView::PostTunnel(post) => post.token == a_token && post.node_id == b_id && exists|
                stem: Seq<char>,
            | #[trigger]
                bare_of_slashes(a_base, stem) && post.url == stem + "/tunnel"@,
            ActionView::WriteIngress { bytes } => bytes == encode_utf8("ping-tunnel"@),
            _ => true,
        },
{
    let d = DriverView::start(a_id, b_id, a_base, a_token, peer_timeout_secs).run(events);
    stage_is_its_scenario(a_id, b_id, a_base, a_token, peer_timeout_secs, events);
    let k = choose|k: int|
        0 <= k <= events.len() && #[trigger] is_under_way(
            d.stage,
            a_id,
            b_id,
            a_base,
            a_token,
            peer_timeout_secs,
            events,
            k,
        );
    let since = events.subrange(k, events.len() as int);
    match d.stage {
        StageView::Peering(_) => pings_go_to_the_node(b_id, peer_timeout_secs, since),
        StageView::RequestReply(_) => request_goes_to_the_node(b_id, since),
        StageView::Pubsub(_) => publish_bears_the_time(a_id, since),
        StageView::Blob(_) => blob_is_fetched_by_its_name(b_id, since),
        StageView::Discovery(_) => service_bears_the_node(b_id, since),
        StageView::Tunnel(_) => request_asks_for_what_was_told(a_base, a_token, b_id, since),
        StageView::Print(_) => {},
        StageView::Exit(_) => {},
    }
}

/// Whatever the nodes do, a run asks for what the scenario that it is at asks
/// for; behind the last one, for the matrix to be printed, and then to end.
pub proof fn run_asks_what_the_scenario_asks(d: DriverView)
    ensures
        match d.stage {
            StageView::Peering(m) => d.pending() == m.pending(),
            StageView::RequestReply(m) => d.pending() == m.pending(),
            StageView::Pubsub(m) => d.pending() == m.pending(),
            StageView::Blob(m) => d.pending() == m.pending(),
            StageView::Discovery(m) => d.pending() == m.pending(),
            StageView::Tunnel(m) => d.pending() == m.pending(),
            StageView::Print(_) => d.pending() == (ActionView::Print { text: matrix(d.rows) }),
            StageView::Exit(ending) => d.pending() == ActionView::Exit(ending),
        },
{
}

/// Whatever the nodes do, an event goes to the scenario that the run is at. Once
/// that gives its verdict, a row with the name of the scenario, the outcome and
/// the detail is put behind the others and logged, and the next scenario is begun
/// with its nodes: request/reply, pubsub, blobs, discovery and tunnels behind
/// peering, in this order. Behind peering that did not pass, and behind the
/// tunnel, the matrix is printed, and then the run ends.
pub proof fn run_moves_from_scenario_to_scenario(
    a_id: Seq<char>,
    b_id: Seq<char>,
    a_base: Seq<char>,
    a_token: Seq<char>,
    peer_timeout_secs: u64,
    events: Seq<EventView>,
    event: EventView,
)
    ensures
        ({
            let d = DriverView::start(a_id, b_id, a_base, a_token, peer_timeout_secs).run(events);
            let after = d.next(event);
            match d.stage {
                StageView::Peering(m) => match m.next(event).verdict() {
                    Some(v) => after.rows == d.rows.push(("peering"@, v.outcome, v.detail))
                        && after.stage == if v.outcome == Outcome::Pass {
                        StageView::RequestReply(RequestReplyView::start(b_id))
                    } else {
                        StageView::Print(Ending::NotPeered)
                    },
                    None => after.rows == d.rows && after.stage == StageView::Peering(
                        m.next(event),
                    ),
                },
                StageView::RequestReply(m) => match m.next(event).verdict() {
                    Some(v) => after.rows == d.rows.push(
                        ("mesh request/reply"@, v.outcome, v.detail),
                    ) && after.stage == StageView::Pubsub(PubsubView::start(a_id)),
                    None => after.rows == d.rows && after.stage == StageView::RequestReply(
                        m.next(event),
                    ),
                },
                StageView::Pubsub(m) => match m.next(event).verdict() {
                    Some(v) => after.rows == d.rows.push(("pubsub"@, v.outcome, v.detail))
                        && after.stage == StageView::Blob(BlobView::start(b_id)),
                    None => after.rows == d.rows && after.stage == StageView::Pubsub(m.next(event)),
                },
                StageView::Blob(m) => match m.next(event).verdict() {
                    Some(v) => after.rows == d.rows.push(
                        ("blob availability"@, v.outcome, v.detail),
                    ) && after.stage == StageView::Discovery(DiscoveryView::start(b_id)),
                    None => after.rows == d.rows && after.stage == StageView::Blob(m.next(event)),
                },
                StageView::Discovery(m) => match m.next(event).verdict() {
                    Some(v) => after.rows == d.rows.push(
                        ("discovery + tags"@, v.outcome, v.detail),
                    ) && after.stage == StageView::Tunnel(
                        TunnelView::start(a_base, a_token, b_id),
                    ),
                    None => after.rows == d.rows && after.stage == StageView::Discovery(
                        m.next(event),
                    ),
                },
                StageView::Tunnel(m) => match m.next(event).verdict() {
                    Some(v) => {
                        &&& m.verdict() is None ==> after.rows == d.rows.push(
                            ("tunnel"@, v.outcome, v.detail),
                        )
                        &&& m.verdict() is Some ==> after.rows == d.rows
                        &&& m.next(event).pending() is Rest ==> after.stage is Print
                        &&& !(m.next(event).pending() is Rest) ==> after.stage
                            == StageView::Tunnel(m.next(event))
                    },
                    None => after.rows == d.rows && after.stage == StageView::Tunnel(m.next(event)),
                },
                StageView::Print(ending) => after.rows == d.rows && after.stage == if event is Done {
                    StageView::Exit(ending)
                } else {
                    StageView::Print(ending)
                },
                StageView::Exit(_) => after == d,
            }
        }),
        ({
            let d = DriverView::start(a_id, b_id, a_base, a_token, peer_timeout_secs).run(events);
            let after = d.next(event);
            d.logged(event) == if after.rows.len() > d.rows.len() {
                Some(row_log(after.rows.last()))
            } else {
                None
            }
        }),
{
    lemma_run_keeps_its_nodes(a_id, b_id, a_base, a_token, peer_timeout_secs, events);
    every_run_is_sound(a_id, b_id, a_base, a_token, peer_timeout_secs, events);
}

/// Whatever the nodes do, an ended run holds either the one row of a peering that
/// failed, or the six rows of a full run by their names, in order. It ends with
/// the exit code 0 exactly if every row that is not blocked passed, and with 1
/// else; only the tunnel can be blocked.
pub proof fn run_ends_as_its_rows_say(
    a_id: Seq<char>,
    b_id: Seq<char>,
    a_base: Seq<char>,
    a_token: Seq<char>,
    peer_timeout_secs: u64,
    events: Seq<EventView>,
    ending: Ending,
)
    requires
        DriverView::start(a_id, b_id, a_base, a_token, peer_timeout_secs).run(events).pending()
            == ActionView::Exit(ending),
    ensures
        ({
            let rows = DriverView::start(a_id, b_id, a_base, a_token, peer_timeout_secs).run(
                events,
            ).rows;
            let all_passed = forall|i: int|
                0 <= i < rows.len() && (#[trigger] rows[i]).1 != Outcome::Blocked ==> rows[i].1
                    == Outcome::Pass;
            &&& rows.len() == 1 || rows.len() == 6
            &&& rows[0].0 == "peering"@
            &&& rows.len() == 1 ==> rows[0].1 == Outcome::Fail && ending == Ending::NotPeered
            &&& rows.len() == 6 ==> {
                &&& rows[0].1 == Outcome::Pass
                &&& rows[1].0 == "mesh request/reply"@
                &&& rows[2].0 == "pubsub"@
                &&& rows[3].0 == "blob availability"@
                &&& rows[4].0 == "discovery + tags"@
                &&& rows[5].0 == "tunnel"@
                &&& ending == Ending::Success <==> all_passed
                &&& ending == Ending::Failure <==> !all_passed
            }
            &&& forall|i: int|
                0 <= i < rows.len() && (#[trigger] rows[i]).1 == Outcome::Blocked ==> i == 5
            &&& ending.code() == if all_passed {
                0int
            } else {
                1int
            }
        }),
{
    every_run_is_sound(a_id, b_id, a_base, a_token, peer_timeout_secs, events);
    let d = DriverView::start(a_id, b_id, a_base, a_token, peer_timeout_secs).run(events);
    let rows = d.rows;
    if rows.len() == 1 {
        assert(rows[0].1 == Outcome::Fail);
    }
    assert(rows[0].0 == "peering"@);
    if rows.len() == 6 {
        assert(rows[1].0 == "mesh request/reply"@);
        assert(rows[2].0 == "pubsub"@);
        assert(rows[3].0 == "blob availability"@);
        assert(rows[4].0 == "discovery + tags"@);
        assert(rows[5].0 == "tunnel"@);
    }
}

/// A run begins without rows, at the probe of B.
pub proof fn run_begins_with_the_probe(
    a_id: Seq<char>,
    b_id: Seq<char>,
    a_base: Seq<char>,
    a_token: Seq<char>,
    peer_timeout_secs: u64,
)
    ensures
        ({
            let start = DriverView::start(a_id, b_id, a_base, a_token, peer_timeout_secs);
            &&& start.rows =~= Seq::<RowView>::empty()
            &&& start.stage == StageView::Peering(PeeringView::start(b_id, peer_timeout_secs))
            &&& start.pending() is MarkClock
        }),
{
}

} // verus!
