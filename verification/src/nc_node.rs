use vstd::prelude::*;

use crate::nc_error::NCError;
use crate::nc_frame::{lemma_frame_round_trip, nc_frame_data, spec_unframe};
use crate::nc_util::{
    nc_decode_server_message, nc_encode_node_message, spec_decode_server_message,
    spec_encode_node_message,
};
use crate::nc_server::NC_ServerMessage;

verus! {

/// Control message sent from a worker (node) to the coordinator (server).
///
/// `node_id` is a caller-supplied opaque identifier, unique per worker for
/// the job's lifetime; the core only passes it through to the coordinator's
/// capability trait.
#[derive(Debug, Clone)]
pub enum NC_NodeMessage {
    /// The worker asks for a new chunk of work.
    NodeNeedsData(u128),
    /// The worker returns a processed chunk.
    NodeHasData(u128, Vec<u8>),
}

/// Mathematical shape of an `NC_NodeMessage`: the payload as a byte sequence.
pub enum NodeMessageView {
    NeedsData { node_id: u128 },
    HasData { node_id: u128, data: Seq<u8> },
}

impl View for NC_NodeMessage {
    type V = NodeMessageView;

    open spec fn view(&self) -> NodeMessageView {
        match self {
            NC_NodeMessage::NodeNeedsData(node_id) => NodeMessageView::NeedsData {
                node_id: *node_id,
            },
            NC_NodeMessage::NodeHasData(node_id, data) => NodeMessageView::HasData {
                node_id: *node_id,
                data: data@,
            },
        }
    }
}

/// A node message is encodable when its payload length fits the frame
/// format's 8-byte length field.  Every `NC_NodeMessage` held in memory
/// satisfies this, since a `Vec` is no longer than `usize::MAX`.
pub open spec fn node_message_wf(m: NodeMessageView) -> bool {
    m matches NodeMessageView::HasData { data, .. } ==> data.len() <= u64::MAX
}

/// Capability contract the embedding application supplies on the worker
/// side: one pure transformation of a work payload into a result payload,
/// with no network or coordinator-state access.  An error is reported as an
/// opaque numeric code chosen by the application: a richer error object
/// cannot cross the verified boundary, so the code stands for it, and the
/// runtime that logs the failure keeps any underlying cause on its own
/// side.
pub trait NC_Node {
    /// Turn one chunk of work into its result.
    fn process_data_from_server(&mut self, data: &Vec<u8>) -> Result<Vec<u8>, u32>;
}

/// What the worker runtime must do next, as decided by the protocol core.
#[derive(Debug, Clone)]
pub enum NodeStep {
    /// The job is complete: leave the client loop and report success.
    Exit,
    /// Submit this result payload to the coordinator, then loop again.
    Submit(Vec<u8>),
}

/// Turn the outcome of `process_data_from_server` into the worker's next
/// step, for each value of it: a computed result is submitted exactly as
/// the capability returned it; an application failure carries the
/// application's own code out as `NodeProcess`.
pub fn nc_node_step_for_processed(processed: Result<Vec<u8>, u32>) -> (r: Result<
    NodeStep,
    NCError,
>)
    ensures
        processed matches Ok(d) ==> (r matches Ok(s) && s matches NodeStep::Submit(out) && out@
            == d@),
        processed matches Err(code) ==> r == Err::<NodeStep, NCError>(NCError::NodeProcess(code)),
{
    match processed {
        Ok(result) => Ok(NodeStep::Submit(result)),
        Err(code) => Err(NCError::NodeProcess(code)),
    }
}

/// Worker-side reaction to one decoded coordinator reply: `ServerFinished`
/// ends the client loop; `ServerHasData` runs the worker capability trait on
/// the payload, and `nc_node_step_for_processed` fixes the step for each
/// outcome — the computed result is submitted unchanged, an application
/// failure terminates the loop with `NodeProcess` carrying the
/// application's code.  The runtime's retry policy decides what happens
/// then.
pub fn nc_node_handle_reply<T: NC_Node>(nc_node: &mut T, reply: &NC_ServerMessage) -> (r: Result<
    NodeStep,
    NCError,
>)
    ensures
        reply is ServerFinished <==> (r matches Ok(s) && s is Exit),
        r matches Ok(s) && s is Submit ==> reply is ServerHasData,
        r matches Err(e) ==> reply is ServerHasData && e matches NCError::NodeProcess(_),
{
    match reply {
        NC_ServerMessage::ServerFinished => Ok(NodeStep::Exit),
        NC_ServerMessage::ServerHasData(data) => {
            let processed = nc_node.process_data_from_server(data);
            nc_node_step_for_processed(processed)
        },
    }
}

/// Encode one worker message and wrap it in its frame, ready to write.
pub fn nc_node_message_frame(msg: &NC_NodeMessage) -> (r: Vec<u8>)
    ensures
        spec_unframe(r@) == Some(spec_encode_node_message(msg@)),
        node_message_wf(msg@),
{
    let encoded = nc_encode_node_message(msg);
    let encoded_len: usize = encoded.len();
    let framed = nc_frame_data(&encoded);
    proof {
        assert(encoded_len <= u64::MAX);
        lemma_frame_round_trip(encoded@);
    }
    framed
}

/// The frame a worker sends to ask for work.
pub fn nc_node_request_frame(node_id: u128) -> (r: Vec<u8>)
    ensures
        spec_unframe(r@) == Some(
            spec_encode_node_message(NodeMessageView::NeedsData { node_id }),
        ),
{
    nc_node_message_frame(&NC_NodeMessage::NodeNeedsData(node_id))
}

/// The frame a worker sends to submit a processed chunk.
pub fn nc_node_submit_frame(node_id: u128, result: Vec<u8>) -> (r: Vec<u8>)
    ensures
        spec_unframe(r@) == Some(
            spec_encode_node_message(
                NodeMessageView::HasData { node_id, data: result@ },
            ),
        ),
{
    nc_node_message_frame(&NC_NodeMessage::NodeHasData(node_id, result))
}

/// Worker-side compute path for one received reply frame: decode the
/// coordinator message and react to it.  A buffer that does not decode
/// terminates this cycle with the protocol-mismatch error; the retry policy
/// decides what the runtime does next.
pub fn nc_node_handle_frame<T: NC_Node>(nc_node: &mut T, reply: &Vec<u8>) -> (r: Result<
    NodeStep,
    NCError,
>)
    ensures
        spec_decode_server_message(reply@) is None ==> r == Err::<
            NodeStep,
            NCError,
        >(NCError::ServerMsgMismatch),
        (spec_decode_server_message(reply@) matches Some(m) && m is Finished) <==> (
        r matches Ok(s) && s is Exit),
        r matches Ok(s) && s is Submit ==> (spec_decode_server_message(reply@)
            matches Some(m) && m is HasData),
        r matches Err(e) ==> e == NCError::ServerMsgMismatch || e matches NCError::NodeProcess(_),
{
    let decoded = nc_decode_server_message(reply);
    match decoded {
        Err(e) => Err(e),
        Ok(msg) => nc_node_handle_reply(nc_node, &msg),
    }
}

/// Retry policy of the worker runtime, applied when one connection's
/// request/response cycle failed: a transport failure is retried on a fresh
/// connection until the configured number of attempts is spent; a protocol
/// mismatch or an application error aborts at once.
pub fn nc_node_should_retry(e: &NCError, attempts_used: u64, max_attempts: u64) -> (r: bool)
    ensures
        r == (e is IOError && attempts_used < max_attempts),
{
    match e {
        NCError::IOError => attempts_used < max_attempts,
        _ => false,
    }
}

} // verus!
