use vstd::prelude::*;

use crate::nc_error::NCError;
use crate::nc_frame::{lemma_frame_round_trip, nc_frame_data, spec_unframe};
use crate::nc_node::NC_NodeMessage;
use crate::nc_util::{
    lemma_server_message_round_trip, nc_decode_node_message, nc_encode_server_message,
    spec_decode_node_message, spec_decode_server_message, spec_encode_server_message,
};

verus! {

/// Control message sent from the coordinator (server) to a worker (node).
#[derive(Debug, Clone)]
pub enum NC_ServerMessage {
    /// A new chunk of work for the requesting worker.
    ServerHasData(Vec<u8>),
    /// No more work: the worker must leave its client loop.
    ServerFinished,
}

/// Mathematical shape of an `NC_ServerMessage`: the payload as a byte
/// sequence.
pub enum ServerMessageView {
    HasData { data: Seq<u8> },
    Finished,
}

impl View for NC_ServerMessage {
    type V = ServerMessageView;

    open spec fn view(&self) -> ServerMessageView {
        match self {
            NC_ServerMessage::ServerHasData(data) => ServerMessageView::HasData { data: data@ },
            NC_ServerMessage::ServerFinished => ServerMessageView::Finished,
        }
    }
}

/// A server message is encodable when its payload length fits the frame
/// format's 8-byte length field.  Every `NC_ServerMessage` held in memory
/// satisfies this, since a `Vec` is no longer than `usize::MAX`.
pub open spec fn server_message_wf(m: ServerMessageView) -> bool {
    m matches ServerMessageView::HasData { data } ==> data.len() <= u64::MAX
}

/// Capability contract the embedding application supplies on the
/// coordinator side.  The runtime guarantees that the two methods are never
/// invoked concurrently on the same state: every call happens under the
/// coordinator-state lock, and the lock is released before any network I/O.
/// An error is reported as an opaque numeric code chosen by the
/// application: a richer error object cannot cross the verified boundary,
/// so the code stands for it, and the runtime that logs the failure keeps
/// any underlying cause on its own side.
pub trait NC_Server {
    /// Produce the next chunk of work for this worker.
    fn prepare_data_for_node(&mut self, node_id: u128) -> Result<Vec<u8>, u32>;

    /// Consume a worker's result; `Ok(true)` means the whole job is now
    /// complete, after which the core stops issuing work forever.
    fn process_data_from_node(&mut self, node_id: u128, data: &Vec<u8>) -> Result<bool, u32>;
}

/// Whether the accept loop takes one more connection: it runs until the
/// shutdown flag is set, and never after.
pub fn nc_server_should_accept(shutdown: bool) -> (r: bool)
    ensures
        r == !shutdown,
{
    !shutdown
}

/// The reply owed for a `NodeNeedsData` request once the shutdown flag and,
/// when work is still owed, the outcome of `prepare_data_for_node` are
/// known: a set flag is answered `Finished` (the capability trait is not
/// consulted at all); otherwise fresh work is handed out, and an application
/// failure terminates the connection with `ServerPrepare`.
pub open spec fn request_reply_view(shutdown: bool, prepared: Result<Seq<u8>, u32>) -> Result<
    ServerMessageView,
    NCError,
> {
    if shutdown {
        Ok(ServerMessageView::Finished)
    } else {
        match prepared {
            Ok(data) => Ok(ServerMessageView::HasData { data }),
            Err(code) => Err(NCError::ServerPrepare(code)),
        }
    }
}

/// Turn the outcome of `prepare_data_for_node` into the reply for the
/// requesting worker.  Only reached when the shutdown flag was read as
/// unset.
pub fn nc_server_reply_for_prepared(prepared: Result<Vec<u8>, u32>) -> (r: Result<
    NC_ServerMessage,
    NCError,
>)
    ensures
        match r {
            Ok(m) => request_reply_view(false, result_view(prepared)) == Ok::<
                ServerMessageView,
                NCError,
            >(m@),
            Err(e) => request_reply_view(false, result_view(prepared)) == Err::<
                ServerMessageView,
                NCError,
            >(e),
        },
{
    match prepared {
        Ok(data) => Ok(NC_ServerMessage::ServerHasData(data)),
        Err(code) => Err(NCError::ServerPrepare(code)),
    }
}

/// The view of a capability-call outcome: the payload as a byte sequence.
pub open spec fn result_view(r: Result<Vec<u8>, u32>) -> Result<Seq<u8>, u32> {
    match r {
        Ok(data) => Ok(data@),
        Err(code) => Err(code),
    }
}

/// The shutdown flag after the outcome of one `process_data_from_node`
/// call: a reported completion sets it; nothing ever clears it.
pub open spec fn flag_after_processed(flag: bool, processed: Result<bool, u32>) -> bool {
    flag || processed == Ok::<bool, u32>(true)
}

/// React to the outcome of `process_data_from_node`, for each value of it:
/// a reported completion sets the shutdown flag and answers the submitting
/// worker `ServerFinished`; a result that does not complete the job is
/// accepted silently with the flag untouched; an application failure
/// carries the application's own code out as `ServerProcess`, again with
/// the flag untouched.
pub fn nc_server_reaction_for_processed(shutdown: &mut bool, processed: Result<bool, u32>) -> (r:
    Result<Option<NC_ServerMessage>, NCError>)
    ensures
        *final(shutdown) == flag_after_processed(*old(shutdown), processed),
        processed == Ok::<bool, u32>(true) ==> (r matches Ok(Some(m)) && m is ServerFinished),
        processed == Ok::<bool, u32>(false) ==> r matches Ok(None),
        processed matches Err(code) ==> r == Err::<Option<NC_ServerMessage>, NCError>(
            NCError::ServerProcess(code),
        ),
        r matches Ok(Some(m)) ==> m is ServerFinished && *final(shutdown) && processed == Ok::<
            bool,
            u32,
        >(true),
        r matches Ok(None) ==> *final(shutdown) == *old(shutdown),
        r matches Err(e) ==> *final(shutdown) == *old(shutdown) && e matches
            NCError::ServerProcess(_),
{
    match processed {
        Ok(finished) => {
            if finished {
                *shutdown = true;
                Ok(Some(NC_ServerMessage::ServerFinished))
            } else {
                Ok(None)
            }
        },
        Err(code) => Err(NCError::ServerProcess(code)),
    }
}

/// Coordinator-side reaction to one decoded worker message, the heart of
/// the connection handler.  The caller holds the locks that make `nc_server`
/// and `shutdown` exclusive for the duration of this call and performs the
/// network I/O the result asks for: `Ok(Some(m))` is sent back framed,
/// `Ok(None)` closes the connection silently (a result was accepted but the
/// job goes on), and an error terminates the connection after logging.
///
/// The contract carries the protocol's safety guarantees: the shutdown flag
/// is never reset; a request that arrives after shutdown is answered
/// `ServerFinished` without consulting the capability trait; a request
/// before shutdown is answered with work, never `ServerFinished`; whenever
/// the flag flips, the submitting worker is told `ServerFinished`.  What
/// each outcome of the two capability calls leads to stands exactly in
/// `nc_server_reply_for_prepared` and `nc_server_reaction_for_processed`,
/// through which both arms run.
pub fn nc_server_handle_message<T: NC_Server>(
    nc_server: &mut T,
    shutdown: &mut bool,
    msg: &NC_NodeMessage,
) -> (r: Result<Option<NC_ServerMessage>, NCError>)
    ensures
        *old(shutdown) ==> *final(shutdown),
        msg is NodeNeedsData ==> *final(shutdown) == *old(shutdown),
        msg is NodeNeedsData && *old(shutdown) ==> (r matches Ok(Some(m)) && m is ServerFinished)
            && *final(nc_server) == *old(nc_server),
        msg is NodeNeedsData ==> (r matches Ok(reply) ==> reply is Some),
        msg is NodeNeedsData && !*old(shutdown) ==> (r matches Ok(Some(m)) ==> m is ServerHasData),
        r matches Ok(Some(m)) && m is ServerHasData ==> msg is NodeNeedsData && !*old(shutdown)
            && !*final(shutdown),
        msg is NodeHasData ==> (r matches Ok(Some(m)) ==> m is ServerFinished && *final(shutdown)),
        msg is NodeHasData ==> (r matches Ok(None) ==> *final(shutdown) == *old(shutdown)),
        msg is NodeHasData && *final(shutdown) != *old(shutdown) ==> (r matches Ok(Some(m)) && m
            is ServerFinished),
        r matches Err(e) ==> *final(shutdown) == *old(shutdown) && (e matches
            NCError::ServerPrepare(_) ==> msg is NodeNeedsData && !*old(shutdown)) && (e matches
            NCError::ServerProcess(_) ==> msg is NodeHasData) && (e matches
            NCError::ServerPrepare(_) || e matches NCError::ServerProcess(_)),
{
    match msg {
        NC_NodeMessage::NodeNeedsData(node_id) => {
            if *shutdown {
                Ok(Some(NC_ServerMessage::ServerFinished))
            } else {
                let prepared = nc_server.prepare_data_for_node(*node_id);
                match nc_server_reply_for_prepared(prepared) {
                    Ok(m) => Ok(Some(m)),
                    Err(e) => Err(e),
                }
            }
        },
        NC_NodeMessage::NodeHasData(node_id, data) => {
            let processed = nc_server.process_data_from_node(*node_id, data);
            nc_server_reaction_for_processed(shutdown, processed)
        },
    }
}

/// Encode one coordinator reply and wrap it in its frame, ready to write.
pub fn nc_server_reply_frame(msg: &NC_ServerMessage) -> (r: Vec<u8>)
    ensures
        spec_unframe(r@) == Some(spec_encode_server_message(msg@)),
        server_message_wf(msg@),
{
    let encoded = nc_encode_server_message(msg);
    let encoded_len: usize = encoded.len();
    let framed = nc_frame_data(&encoded);
    proof {
        assert(encoded_len <= u64::MAX);
        lemma_frame_round_trip(encoded@);
    }
    framed
}

/// The whole compute path of one connection, from the received frame
/// payload to the framed reply bytes: decode the worker message, react to
/// it against the shared state, encode and frame the reply.  The runtime
/// around it only reads the request frame, holds the locks, writes the
/// reply bytes of `Ok(Some(..))`, closes silently on `Ok(None)`, and on an
/// error logs it and closes — so a malformed frame, or a capability
/// failure, terminates this one connection and touches nothing shared.
pub fn nc_server_handle_frame<T: NC_Server>(
    nc_server: &mut T,
    shutdown: &mut bool,
    request: &Vec<u8>,
) -> (r: Result<Option<Vec<u8>>, NCError>)
    ensures
        *old(shutdown) ==> *final(shutdown),
        spec_decode_node_message(request@) is None ==> (r matches Err(e) && e
            == NCError::NodeMsgMismatch && *final(shutdown) == *old(shutdown) && *final(nc_server)
            == *old(nc_server)),
        (spec_decode_node_message(request@) matches Some(mv) && mv is NeedsData)
            ==> *final(shutdown) == *old(shutdown) && (r matches Ok(reply) ==> reply is Some),
        (spec_decode_node_message(request@) matches Some(mv) && mv is NeedsData && *old(shutdown))
            ==> (r matches Ok(Some(reply)) && spec_unframe(reply@) == Some(
            spec_encode_server_message(ServerMessageView::Finished),
        )) && *final(nc_server) == *old(nc_server),
        (spec_decode_node_message(request@) matches Some(mv) && mv is NeedsData && !*old(shutdown))
            ==> (r matches Ok(Some(reply)) ==> (spec_unframe(reply@) matches Some(p)
            && spec_decode_server_message(p) matches Some(m) && m is HasData)),
        (spec_decode_node_message(request@) matches Some(mv) && mv is HasData) ==> (r matches Ok(
            Some(reply),
        ) ==> spec_unframe(reply@) == Some(spec_encode_server_message(ServerMessageView::Finished))
            && *final(shutdown)),
        (spec_decode_node_message(request@) matches Some(mv) && mv is HasData) ==> (r matches Ok(
            None,
        ) ==> *final(shutdown) == *old(shutdown)),
        (spec_decode_node_message(request@) matches Some(mv) && mv is HasData) && *final(shutdown)
            != *old(shutdown) ==> (r matches Ok(Some(reply)) && spec_unframe(reply@) == Some(
            spec_encode_server_message(ServerMessageView::Finished),
        )),
        r matches Ok(Some(reply)) ==> (exists|m: ServerMessageView|
            server_message_wf(m) && spec_unframe(reply@) == Some(spec_encode_server_message(m))),
        r matches Err(e) ==> *final(shutdown) == *old(shutdown) && !e.spec_is_fatal(),
{
    let decoded = nc_decode_node_message(request);
    match decoded {
        Err(e) => Err(e),
        Ok(msg) => {
            let handled = nc_server_handle_message(nc_server, shutdown, &msg);
            match handled {
                Err(e) => Err(e),
                Ok(None) => Ok(None),
                Ok(Some(m)) => {
                    let framed = nc_server_reply_frame(&m);
                    proof {
                        assert(server_message_wf(m@) && spec_unframe(framed@) == Some(
                            spec_encode_server_message(m@),
                        ));
                        lemma_server_message_round_trip(m@);
                    }
                    Ok(Some(framed))
                },
            }
        },
    }
}

/// One connection-handler activation as the shutdown-flag model sees it:
/// the decoded message kind together with the outcome of the
/// `process_data_from_node` call a submitted result triggers.  (What
/// `prepare_data_for_node` returns never moves the flag and is left out.)
pub enum CoordEvent {
    Request { node_id: u128 },
    Submit { node_id: u128, processed: Result<bool, u32> },
}

/// The shutdown flag after one handler activation: a submitted result whose
/// processing reports completion sets it; nothing ever clears it.  The
/// `Submit` arm is the very transition `nc_server_reaction_for_processed`
/// ensures of the executable handler.
pub open spec fn flag_after_event(flag: bool, ev: CoordEvent) -> bool {
    match ev {
        CoordEvent::Request { .. } => flag,
        CoordEvent::Submit { processed, .. } => flag_after_processed(flag, processed),
    }
}

/// The shutdown flag after a sequence of handler activations, run in the
/// order the coordinator's locks serialized them.
pub open spec fn flag_after_events(flag: bool, evs: Seq<CoordEvent>) -> bool
    decreases evs.len(),
{
    if evs.len() == 0 {
        flag
    } else {
        flag_after_events(flag_after_event(flag, evs[0]), evs.skip(1))
    }
}

/// Once set, the shutdown flag survives any further handler activity.
pub proof fn lemma_flag_monotone(flag: bool, evs: Seq<CoordEvent>)
    ensures
        flag ==> flag_after_events(flag, evs),
    decreases evs.len(),
{
    if evs.len() > 0 {
        lemma_flag_monotone(flag_after_event(flag, evs[0]), evs.skip(1));
    }
}

/// Running a concatenation of event sequences equals running them in turn.
pub proof fn lemma_flag_after_events_append(flag: bool, a: Seq<CoordEvent>, b: Seq<CoordEvent>)
    ensures
        flag_after_events(flag, a + b) == flag_after_events(flag_after_events(flag, a), b),
    decreases a.len(),
{
    if a.len() == 0 {
        assert(a + b =~= b);
    } else {
        assert((a + b).skip(1) =~= a.skip(1) + b);
        lemma_flag_after_events_append(flag_after_event(flag, a[0]), a.skip(1), b);
    }
}

/// Shutdown finality: if the flag is set after the first `i` handler
/// activations, it is still set after any longer prefix `j`, and a work
/// request arriving then is answered `Finished` — whatever events lie in
/// between and whatever `prepare_data_for_node` would have returned.
pub proof fn lemma_shutdown_finality(
    flag0: bool,
    evs: Seq<CoordEvent>,
    i: int,
    j: int,
    prepared: Result<Seq<u8>, u32>,
)
    requires
        0 <= i <= j <= evs.len(),
        flag_after_events(flag0, evs.take(i)),
    ensures
        flag_after_events(flag0, evs.take(j)),
        request_reply_view(flag_after_events(flag0, evs.take(j)), prepared) == Ok::<
            ServerMessageView,
            NCError,
        >(ServerMessageView::Finished),
{
    assert(evs.take(j) =~= evs.take(i) + evs.subrange(i, j));
    lemma_flag_after_events_append(flag0, evs.take(i), evs.subrange(i, j));
    lemma_flag_monotone(flag_after_events(flag0, evs.take(i)), evs.subrange(i, j));
}

} // verus!
