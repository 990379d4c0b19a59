//! Scenario tests that run several simulated workers concurrently against
//! one shared coordinator state, the way the runtime does: every handler
//! activation happens under one lock, and the lock is released before the
//! simulated network transfer.

use std::sync::atomic::{AtomicU32, Ordering};
use std::sync::{Arc, Mutex};

use node_crunch::nc_error::NCError;
use node_crunch::nc_frame::nc_unframe_data;
use node_crunch::nc_node::{
    nc_node_handle_frame, nc_node_request_frame, nc_node_submit_frame, NC_Node, NodeStep,
};
use node_crunch::nc_server::{nc_server_handle_frame, NC_Server};

/// Coordinator capability instrumented with a non-reentrant guard counter:
/// both methods step it up on entry and down on exit and record the largest
/// value ever observed.  Mutual exclusion holds exactly when that maximum
/// never exceeds one.
struct GuardedServer {
    chunks_left: u32,
    total_chunks: u32,
    results: Vec<Vec<u8>>,
    completions_reported: u32,
    guard: Arc<AtomicU32>,
    guard_max: Arc<AtomicU32>,
}

impl GuardedServer {
    fn new(chunks: u32, guard: Arc<AtomicU32>, guard_max: Arc<AtomicU32>) -> Self {
        GuardedServer {
            chunks_left: chunks,
            total_chunks: chunks,
            results: Vec::new(),
            completions_reported: 0,
            guard,
            guard_max,
        }
    }

    fn enter(&self) {
        let now = self.guard.fetch_add(1, Ordering::SeqCst) + 1;
        self.guard_max.fetch_max(now, Ordering::SeqCst);
        // Widen the race window so interleaving, were it possible, would be seen.
        let mut x = 0u64;
        for i in 0..2000u64 {
            x = x.wrapping_add(i * i);
        }
        std::hint::black_box(x);
    }

    fn leave(&self) {
        self.guard.fetch_sub(1, Ordering::SeqCst);
    }
}

impl NC_Server for GuardedServer {
    fn prepare_data_for_node(&mut self, node_id: u128) -> Result<Vec<u8>, u32> {
        self.enter();
        let chunk = if self.chunks_left > 0 {
            self.chunks_left -= 1;
            vec![self.chunks_left as u8, node_id as u8]
        } else {
            // No chunk is left but the job is not complete yet: hand out a
            // filler the workers bounce straight back.
            vec![]
        };
        self.leave();
        Ok(chunk)
    }

    fn process_data_from_node(&mut self, _node_id: u128, data: &Vec<u8>) -> Result<bool, u32> {
        self.enter();
        if !data.is_empty() {
            self.results.push(data.clone());
        }
        let newly_complete =
            self.results.len() == self.total_chunks as usize && self.completions_reported == 0;
        if newly_complete {
            self.completions_reported += 1;
        }
        self.leave();
        Ok(newly_complete)
    }
}

struct EchoNode;

impl NC_Node for EchoNode {
    fn process_data_from_server(&mut self, data: &Vec<u8>) -> Result<Vec<u8>, u32> {
        Ok(data.clone())
    }
}

type Shared = Arc<Mutex<(GuardedServer, bool)>>;

/// One worker client loop over the in-memory transport: request work, hand
/// the result back, until the coordinator says the job is finished.
fn worker_loop(shared: Shared, node_id: u128) -> Result<u32, NCError> {
    let mut node = EchoNode;
    let mut cycles = 0u32;
    loop {
        cycles += 1;
        let request = nc_node_request_frame(node_id);
        let payload = nc_unframe_data(&request)?;
        let reply = {
            let mut guard = shared.lock().unwrap();
            let (ref mut server, ref mut shutdown) = *guard;
            nc_server_handle_frame(server, shutdown, &payload)?
        };
        let reply = reply.expect("a work request is always answered");
        let reply_payload = nc_unframe_data(&reply)?;
        match nc_node_handle_frame(&mut node, &reply_payload)? {
            NodeStep::Exit => return Ok(cycles),
            NodeStep::Submit(result) => {
                let frame = nc_node_submit_frame(node_id, result);
                let submit_payload = nc_unframe_data(&frame)?;
                let ack = {
                    let mut guard = shared.lock().unwrap();
                    let (ref mut server, ref mut shutdown) = *guard;
                    nc_server_handle_frame(server, shutdown, &submit_payload)?
                };
                if let Some(ack) = ack {
                    let ack_payload = nc_unframe_data(&ack)?;
                    match nc_node_handle_frame(&mut node, &ack_payload)? {
                        NodeStep::Exit => return Ok(cycles),
                        NodeStep::Submit(_) => panic!("a submission is never answered with work"),
                    }
                }
            }
        }
    }
}

fn run_job(chunks: u32, workers: u32) -> (GuardedServer, bool, u32) {
    let guard = Arc::new(AtomicU32::new(0));
    let guard_max = Arc::new(AtomicU32::new(0));
    let shared: Shared = Arc::new(Mutex::new((
        GuardedServer::new(chunks, guard, Arc::clone(&guard_max)),
        false,
    )));

    let runtime = tokio::runtime::Builder::new_multi_thread()
        .worker_threads(4)
        .build()
        .unwrap();
    runtime.block_on(async {
        let mut handles = Vec::new();
        for w in 0..workers {
            let shared = Arc::clone(&shared);
            handles.push(tokio::task::spawn_blocking(move || {
                worker_loop(shared, w as u128 + 1)
            }));
        }
        for handle in handles {
            let cycles = handle.await.unwrap().unwrap();
            assert!(cycles >= 1);
        }
    });

    let max_guard = guard_max.load(Ordering::SeqCst);
    let state = Arc::try_unwrap(shared).ok().unwrap().into_inner().unwrap();
    (state.0, state.1, max_guard)
}

#[test]
fn end_to_end_two_workers_three_chunks() {
    let (server, shutdown, max_guard) = run_job(3, 2);
    assert!(shutdown);
    assert_eq!(server.chunks_left, 0);
    assert_eq!(server.results.len(), 3);
    assert_eq!(server.completions_reported, 1);
    assert!(max_guard <= 1, "capability calls interleaved");
}

#[test]
fn mutual_exclusion_under_many_workers() {
    let (server, shutdown, max_guard) = run_job(24, 8);
    assert!(shutdown);
    assert_eq!(server.results.len(), 24);
    assert_eq!(server.completions_reported, 1);
    assert!(max_guard <= 1, "capability calls interleaved");
}

#[test]
fn shutdown_finality_across_workers() {
    let guard = Arc::new(AtomicU32::new(0));
    let guard_max = Arc::new(AtomicU32::new(0));
    let shared: Shared = Arc::new(Mutex::new((
        GuardedServer::new(1, guard, guard_max),
        false,
    )));

    // One worker finishes the whole job.
    worker_loop(Arc::clone(&shared), 1).unwrap();
    assert!(shared.lock().unwrap().1);

    // Every subsequent request from any worker is told to exit at once.
    for w in 2..6u128 {
        let cycles = worker_loop(Arc::clone(&shared), w).unwrap();
        assert_eq!(cycles, 1);
    }
    // No further chunk was handed out and completion stayed reported once.
    let state = shared.lock().unwrap();
    assert_eq!(state.0.completions_reported, 1);
}
