use vstd::prelude::*;

use vstd::bytes::*;
use vstd::slice::{slice_subrange, slice_to_vec};

use crate::nc_error::NCError;
use crate::nc_node::{node_message_wf, NC_NodeMessage, NodeMessageView};
use crate::nc_server::{server_message_wf, NC_ServerMessage, ServerMessageView};

verus! {

/// Wire codec for the two control-message enums.
///
/// Both ends agree on one stable scheme: a one-byte variant tag, then the
/// variant's fields in order, integers little-endian and fixed-width
/// (`u128` worker ids as 16 bytes), byte payloads prefixed by their length
/// as a `u64`.  Schema evolution is not supported.
pub const NODE_NEEDS_DATA_TAG: u8 = 0;

pub const NODE_HAS_DATA_TAG: u8 = 1;

pub const SERVER_HAS_DATA_TAG: u8 = 0;

pub const SERVER_FINISHED_TAG: u8 = 1;

/// The encoding of a worker message.
pub open spec fn spec_encode_node_message(m: NodeMessageView) -> Seq<u8> {
    match m {
        NodeMessageView::NeedsData { node_id } => seq![NODE_NEEDS_DATA_TAG]
            + spec_u128_to_le_bytes(node_id),
        NodeMessageView::HasData { node_id, data } => seq![NODE_HAS_DATA_TAG]
            + spec_u128_to_le_bytes(node_id) + spec_u64_to_le_bytes(data.len() as u64) + data,
    }
}

/// The worker message a buffer holds, if it holds exactly one.
pub open spec fn spec_decode_node_message(b: Seq<u8>) -> Option<NodeMessageView> {
    if b.len() < 1 {
        None
    } else if b[0] == NODE_NEEDS_DATA_TAG {
        if b.len() == 17 {
            Some(NodeMessageView::NeedsData { node_id: spec_u128_from_le_bytes(b.subrange(1, 17)) })
        } else {
            None
        }
    } else if b[0] == NODE_HAS_DATA_TAG {
        if b.len() >= 25 && b.len() == 25 + spec_u64_from_le_bytes(b.subrange(17, 25)) {
            Some(
                NodeMessageView::HasData {
                    node_id: spec_u128_from_le_bytes(b.subrange(1, 17)),
                    data: b.subrange(25, b.len() as int),
                },
            )
        } else {
            None
        }
    } else {
        None
    }
}

/// The encoding of a coordinator message.
pub open spec fn spec_encode_server_message(m: ServerMessageView) -> Seq<u8> {
    match m {
        ServerMessageView::HasData { data } => seq![SERVER_HAS_DATA_TAG] + spec_u64_to_le_bytes(
            data.len() as u64,
        ) + data,
        ServerMessageView::Finished => seq![SERVER_FINISHED_TAG],
    }
}

/// The coordinator message a buffer holds, if it holds exactly one.
pub open spec fn spec_decode_server_message(b: Seq<u8>) -> Option<ServerMessageView> {
    if b.len() < 1 {
        None
    } else if b[0] == SERVER_HAS_DATA_TAG {
        if b.len() >= 9 && b.len() == 9 + spec_u64_from_le_bytes(b.subrange(1, 9)) {
            Some(ServerMessageView::HasData { data: b.subrange(9, b.len() as int) })
        } else {
            None
        }
    } else if b[0] == SERVER_FINISHED_TAG {
        if b.len() == 1 {
            Some(ServerMessageView::Finished)
        } else {
            None
        }
    } else {
        None
    }
}

/// Message round trip, worker side: decoding an encoded message gives the
/// message back, for every encodable message.
pub proof fn lemma_node_message_round_trip(m: NodeMessageView)
    requires
        node_message_wf(m),
    ensures
        spec_decode_node_message(spec_encode_node_message(m)) == Some(m),
{
    lemma_auto_spec_u128_to_from_le_bytes();
    lemma_auto_spec_u64_to_from_le_bytes();
    let enc = spec_encode_node_message(m);
    match m {
        NodeMessageView::NeedsData { node_id } => {
            assert(enc.subrange(1, 17) =~= spec_u128_to_le_bytes(node_id));
        },
        NodeMessageView::HasData { node_id, data } => {
            assert(enc.subrange(1, 17) =~= spec_u128_to_le_bytes(node_id));
            assert(enc.subrange(17, 25) =~= spec_u64_to_le_bytes(data.len() as u64));
            assert(enc.subrange(25, enc.len() as int) =~= data);
        },
    }
}

/// Decoding is exact, worker side: a buffer decodes only to the message
/// whose encoding it is, byte for byte.
pub proof fn lemma_node_message_decode_exact(b: Seq<u8>)
    ensures
        spec_decode_node_message(b) matches Some(m) ==> b == spec_encode_node_message(m)
            && node_message_wf(m),
{
    lemma_auto_spec_u128_to_from_le_bytes();
    lemma_auto_spec_u64_to_from_le_bytes();
    match spec_decode_node_message(b) {
        Some(m) => match m {
            NodeMessageView::NeedsData { node_id } => {
                assert(spec_encode_node_message(m) =~= b);
            },
            NodeMessageView::HasData { node_id, data } => {
                assert(spec_u64_to_le_bytes(data.len() as u64) =~= b.subrange(17, 25));
                assert(spec_encode_node_message(m) =~= b);
            },
        },
        None => {},
    }
}

/// Message round trip, coordinator side.
pub proof fn lemma_server_message_round_trip(m: ServerMessageView)
    requires
        server_message_wf(m),
    ensures
        spec_decode_server_message(spec_encode_server_message(m)) == Some(m),
{
    lemma_auto_spec_u64_to_from_le_bytes();
    let enc = spec_encode_server_message(m);
    match m {
        ServerMessageView::HasData { data } => {
            assert(enc.subrange(1, 9) =~= spec_u64_to_le_bytes(data.len() as u64));
            assert(enc.subrange(9, enc.len() as int) =~= data);
        },
        ServerMessageView::Finished => {},
    }
}

/// Decoding is exact, coordinator side.
pub proof fn lemma_server_message_decode_exact(b: Seq<u8>)
    ensures
        spec_decode_server_message(b) matches Some(m) ==> b == spec_encode_server_message(m)
            && server_message_wf(m),
{
    lemma_auto_spec_u64_to_from_le_bytes();
    match spec_decode_server_message(b) {
        Some(m) => match m {
            ServerMessageView::HasData { data } => {
                assert(spec_u64_to_le_bytes(data.len() as u64) =~= b.subrange(1, 9));
                assert(spec_encode_server_message(m) =~= b);
            },
            ServerMessageView::Finished => {
                assert(spec_encode_server_message(m) =~= b);
            },
        },
        None => {},
    }
}

/// Serialize one worker message.
pub fn nc_encode_node_message(msg: &NC_NodeMessage) -> (r: Vec<u8>)
    ensures
        r@ == spec_encode_node_message(msg@),
{
    match msg {
        NC_NodeMessage::NodeNeedsData(node_id) => {
            let mut r: Vec<u8> = Vec::new();
            r.push(NODE_NEEDS_DATA_TAG);
            let mut id_bytes = u128_to_le_bytes(*node_id);
            r.append(&mut id_bytes);
            proof {
                assert(r@ =~= spec_encode_node_message(msg@));
            }
            r
        },
        NC_NodeMessage::NodeHasData(node_id, data) => {
            let mut r: Vec<u8> = Vec::new();
            r.push(NODE_HAS_DATA_TAG);
            let mut id_bytes = u128_to_le_bytes(*node_id);
            r.append(&mut id_bytes);
            let mut len_bytes = u64_to_le_bytes(data.len() as u64);
            r.append(&mut len_bytes);
            r.extend_from_slice(data.as_slice());
            proof {
                assert(r@ =~= spec_encode_node_message(msg@));
            }
            r
        },
    }
}

/// Deserialize one worker message; any malformed buffer is answered with
/// the protocol-mismatch error and nothing else.
pub fn nc_decode_node_message(b: &Vec<u8>) -> (r: Result<NC_NodeMessage, NCError>)
    ensures
        match r {
            Ok(m) => spec_decode_node_message(b@) == Some(m@),
            Err(e) => spec_decode_node_message(b@) is None && e == NCError::NodeMsgMismatch,
        },
{
    if b.len() < 1 {
        return Err(NCError::NodeMsgMismatch);
    }
    let tag = b[0];
    if tag == NODE_NEEDS_DATA_TAG {
        if b.len() == 17 {
            let node_id = u128_from_le_bytes(slice_subrange(b.as_slice(), 1, 17));
            Ok(NC_NodeMessage::NodeNeedsData(node_id))
        } else {
            Err(NCError::NodeMsgMismatch)
        }
    } else if tag == NODE_HAS_DATA_TAG {
        if b.len() < 25 {
            return Err(NCError::NodeMsgMismatch);
        }
        let node_id = u128_from_le_bytes(slice_subrange(b.as_slice(), 1, 17));
        let n = u64_from_le_bytes(slice_subrange(b.as_slice(), 17, 25));
        let rest: usize = b.len() - 25;
        if rest as u64 == n {
            let data = slice_to_vec(slice_subrange(b.as_slice(), 25, b.len()));
            Ok(NC_NodeMessage::NodeHasData(node_id, data))
        } else {
            Err(NCError::NodeMsgMismatch)
        }
    } else {
        Err(NCError::NodeMsgMismatch)
    }
}

/// Serialize one coordinator message.
pub fn nc_encode_server_message(msg: &NC_ServerMessage) -> (r: Vec<u8>)
    ensures
        r@ == spec_encode_server_message(msg@),
{
    match msg {
        NC_ServerMessage::ServerHasData(data) => {
            let mut r: Vec<u8> = Vec::new();
            r.push(SERVER_HAS_DATA_TAG);
            let mut len_bytes = u64_to_le_bytes(data.len() as u64);
            r.append(&mut len_bytes);
            r.extend_from_slice(data.as_slice());
            proof {
                assert(r@ =~= spec_encode_server_message(msg@));
            }
            r
        },
        NC_ServerMessage::ServerFinished => {
            let mut r: Vec<u8> = Vec::new();
            r.push(SERVER_FINISHED_TAG);
            proof {
                assert(r@ =~= spec_encode_server_message(msg@));
            }
            r
        },
    }
}

/// Deserialize one coordinator message; any malformed buffer is answered
/// with the protocol-mismatch error and nothing else.
pub fn nc_decode_server_message(b: &Vec<u8>) -> (r: Result<NC_ServerMessage, NCError>)
    ensures
        match r {
            Ok(m) => spec_decode_server_message(b@) == Some(m@),
            Err(e) => spec_decode_server_message(b@) is None && e == NCError::ServerMsgMismatch,
        },
{
    if b.len() < 1 {
        return Err(NCError::ServerMsgMismatch);
    }
    let tag = b[0];
    if tag == SERVER_HAS_DATA_TAG {
        if b.len() < 9 {
            return Err(NCError::ServerMsgMismatch);
        }
        let n = u64_from_le_bytes(slice_subrange(b.as_slice(), 1, 9));
        let rest: usize = b.len() - 9;
        if rest as u64 == n {
            let data = slice_to_vec(slice_subrange(b.as_slice(), 9, b.len()));
            Ok(NC_ServerMessage::ServerHasData(data))
        } else {
            Err(NCError::ServerMsgMismatch)
        }
    } else if tag == SERVER_FINISHED_TAG {
        if b.len() == 1 {
            Ok(NC_ServerMessage::ServerFinished)
        } else {
            Err(NCError::ServerMsgMismatch)
        }
    } else {
        Err(NCError::ServerMsgMismatch)
    }
}

} // verus!
