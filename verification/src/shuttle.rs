//! The bidirectional data pump between the two shims.
//!
//! The pump is a readiness-driven state machine over two half-duplex
//! directions, client to server and server to client.  Each direction stays
//! open until its source's read side observes end-of-stream (or a read
//! error, treated the same); the pump then deregisters that source, shuts
//! the peer's connection down for writing so the close propagates, and
//! marks the source no longer alive.  Bytes that a read did produce are
//! delivered to the peer verbatim.
//!
//! [`copy_data`] is one step of that machine: it takes the event one
//! readiness wake-up produced and decides what happens, mutating only the
//! modelled agent state and handing the I/O to perform back to the caller.
//! [`shuttle`] runs the whole machine over two scripted connections, for
//! any interleaving of wake-ups, and is proved to terminate, to deliver
//! each direction's bytes exactly and in order, and to propagate both
//! half-closes before it returns.

use vstd::prelude::*;

use crate::agent::Agent;

verus! {

/// What one readiness wake-up produced on a side's connection: a chunk of
/// bytes, or end-of-stream.  A read error is reported as `Closed`: the pump
/// treats it the same as a clean close.
#[derive(Debug, PartialEq, Eq)]
pub enum ReadEvent {
    Data(Vec<u8>),
    Closed,
}

/// What the pump asks its caller to do in reaction to one event: write the
/// bytes to the peer's connection verbatim, or close the direction down
/// (deregister the source's readiness and shut the peer's write side).
#[derive(Debug, PartialEq, Eq)]
pub enum PumpAction {
    Forward(Vec<u8>),
    CloseDirection,
}

/// Whether an event ends its direction: end-of-stream does, and so does a
/// read of zero bytes, which is how a stream reports end-of-stream.
pub open spec fn event_closes(event: ReadEvent) -> bool {
    match event {
        ReadEvent::Data(bytes) => bytes@.len() == 0,
        ReadEvent::Closed => true,
    }
}

/// One step of the pump: handle one readiness event observed on `from`'s
/// connection, whose peer is `to`.  Bytes are forwarded untouched; on
/// end-of-stream, `from` stops being alive for good and `to`'s connection
/// is shut down for writing before anything else happens.
pub fn copy_data(from: &mut Agent, to: &mut Agent, event: ReadEvent) -> (action: PumpAction)
    requires
        old(from).alive,
    ensures
        !event_closes(event) ==> {
            &&& event matches ReadEvent::Data(bytes) && action == PumpAction::Forward(bytes)
            &&& *final(from) == *old(from)
            &&& *final(to) == *old(to)
        },
        event_closes(event) ==> {
            &&& action == PumpAction::CloseDirection
            &&& *final(from) == (Agent { alive: false, ..*old(from) })
            &&& *final(to) == (Agent { write_shutdown: true, ..*old(to) })
        },
{
    match event {
        ReadEvent::Data(bytes) => {
            if bytes.len() > 0 {
                PumpAction::Forward(bytes)
            } else {
                from.alive = false;
                to.write_shutdown = true;
                PumpAction::CloseDirection
            }
        },
        ReadEvent::Closed => {
            from.alive = false;
            to.write_shutdown = true;
            PumpAction::CloseDirection
        },
    }
}

/// One side of a scripted shuttle run: the agent's modelled state, the
/// chunks its shim emits before closing its connection, and the bytes the
/// pump has delivered to it from the peer.
pub struct Endpoint {
    pub agent: Agent,
    pub outgoing: Vec<Vec<u8>>,
    pub received: Vec<u8>,
}

/// The bytes of a chunked stream, in order.
pub open spec fn stream_bytes(chunks: Seq<Vec<u8>>) -> Seq<u8> {
    chunks.map_values(|chunk: Vec<u8>| chunk@).flatten()
}

/// Every chunk of a scripted stream carries at least one byte, as a
/// readable socket hands over at least one byte or end-of-stream.
pub open spec fn chunks_nonempty(chunks: Seq<Vec<u8>>) -> bool {
    forall|i: int| 0 <= i < chunks.len() ==> #[trigger] chunks[i]@.len() > 0
}

proof fn lemma_stream_bytes_step(chunks: Seq<Vec<u8>>, i: int)
    requires
        0 <= i < chunks.len(),
    ensures
        stream_bytes(chunks.take(i + 1)) == stream_bytes(chunks.take(i)) + chunks[i]@,
{
    let prefix = chunks.take(i).map_values(|chunk: Vec<u8>| chunk@);
    assert(chunks.take(i + 1).map_values(|chunk: Vec<u8>| chunk@) =~= prefix.push(chunks[i]@));
    prefix.lemma_flatten_push(chunks[i]@);
}

/// Copy a chunk into a fresh buffer, as a read fills the pump's buffer.
fn copy_bytes(source: &Vec<u8>) -> (r: Vec<u8>)
    ensures
        r@ == source@,
{
    let mut r: Vec<u8> = Vec::new();
    let mut i: usize = 0;
    while i < source.len()
        invariant
            i <= source.len(),
            r@ == source@.take(i as int),
        decreases source.len() - i,
    {
        r.push(source[i]);
        i = i + 1;
        assert(r@ =~= source@.take(i as int));
    }
    assert(r@ =~= source@);
    r
}

/// Run the pump to completion over two scripted connections.
///
/// `schedule` stands for the order in which the poller happens to report
/// readiness: `true` wakes the client's side, `false` the server's, and
/// once the schedule runs out the sides still open are drained in turn, so
/// the run covers every interleaving the poller could produce.  The run
/// returns only once both directions are closed; each side then holds
/// exactly the bytes the other's shim emitted, in order, and both
/// connections have had their write side shut down.
pub fn shuttle(client: &mut Endpoint, server: &mut Endpoint, schedule: &Vec<bool>)
    requires
        old(client).agent.alive,
        old(server).agent.alive,
        old(client).received@.len() == 0,
        old(server).received@.len() == 0,
        chunks_nonempty(old(client).outgoing@),
        chunks_nonempty(old(server).outgoing@),
    ensures
        !final(client).agent.alive,
        !final(server).agent.alive,
        final(client).agent.write_shutdown,
        final(server).agent.write_shutdown,
        final(server).received@ == stream_bytes(old(client).outgoing@),
        final(client).received@ == stream_bytes(old(server).outgoing@),
        final(client).agent.status == old(client).agent.status,
        final(server).agent.status == old(server).agent.status,
        final(client).agent.name == old(client).agent.name,
        final(server).agent.name == old(server).agent.name,
        final(client).outgoing@ == old(client).outgoing@,
        final(server).outgoing@ == old(server).outgoing@,
{
    let mut next: usize = 0;
    let mut sent_c: usize = 0;
    let mut sent_s: usize = 0;
    while client.agent.alive || server.agent.alive
        invariant
            sent_c <= client.outgoing.len(),
            sent_s <= server.outgoing.len(),
            next <= schedule.len(),
            !client.agent.alive ==> sent_c == client.outgoing@.len()
                && server.agent.write_shutdown,
            !server.agent.alive ==> sent_s == server.outgoing@.len()
                && client.agent.write_shutdown,
            server.received@ == stream_bytes(client.outgoing@.take(sent_c as int)),
            client.received@ == stream_bytes(server.outgoing@.take(sent_s as int)),
            client.outgoing@ == old(client).outgoing@,
            server.outgoing@ == old(server).outgoing@,
            client.agent.status == old(client).agent.status,
            server.agent.status == old(server).agent.status,
            client.agent.name == old(client).agent.name,
            server.agent.name == old(server).agent.name,
            chunks_nonempty(client.outgoing@),
            chunks_nonempty(server.outgoing@),
        decreases
            schedule.len() - next + (client.outgoing.len() - sent_c) + (server.outgoing.len()
                - sent_s) + (if client.agent.alive {
                1int
            } else {
                0int
            }) + (if server.agent.alive {
                1int
            } else {
                0int
            }),
    {
        let from_client: bool = if next < schedule.len() {
            let pick = schedule[next];
            next = next + 1;
            pick
        } else {
            client.agent.alive
        };
        if from_client && client.agent.alive {
            let event = if sent_c < client.outgoing.len() {
                let chunk = copy_bytes(&client.outgoing[sent_c]);
                sent_c = sent_c + 1;
                ReadEvent::Data(chunk)
            } else {
                ReadEvent::Closed
            };
            let action = copy_data(&mut client.agent, &mut server.agent, event);
            match action {
                PumpAction::Forward(mut bytes) => {
                    proof {
                        lemma_stream_bytes_step(client.outgoing@, sent_c as int - 1);
                    }
                    server.received.append(&mut bytes);
                },
                PumpAction::CloseDirection => {},
            }
        } else if !from_client && server.agent.alive {
            let event = if sent_s < server.outgoing.len() {
                let chunk = copy_bytes(&server.outgoing[sent_s]);
                sent_s = sent_s + 1;
                ReadEvent::Data(chunk)
            } else {
                ReadEvent::Closed
            };
            let action = copy_data(&mut server.agent, &mut client.agent, event);
            match action {
                PumpAction::Forward(mut bytes) => {
                    proof {
                        lemma_stream_bytes_step(server.outgoing@, sent_s as int - 1);
                    }
                    client.received.append(&mut bytes);
                },
                PumpAction::CloseDirection => {},
            }
        }
    }
    proof {
        assert(client.outgoing@.take(client.outgoing@.len() as int) =~= client.outgoing@);
        assert(server.outgoing@.take(server.outgoing@.len() as int) =~= server.outgoing@);
    }
}

} // verus!
