//! One live session: the dispatch decision the read loop makes for each
//! inbound frame, and the bounded outbound mailbox that serializes every
//! outbound frame through a single writer.
use vstd::prelude::*;
use vstd::string::*;
use crate::command::{CommandModel, RemoteCommand};
use crate::config::RemoteControlConfig;
use crate::frames::{render_hello_frame, spec_hello_frame};
use crate::parse::{parse_remote_command, spec_parse_command};

verus! {

/// What the transport hands the read loop, reduced to plain values: a
/// text frame, a ping with its payload, a close, a read error, or any
/// other frame kind (ignored).
pub enum Frame {
    Text(String),
    Ping(Vec<u8>),
    Close,
    ReadError,
    Other,
}

/// The mathematical model of an inbound frame.
pub ghost enum FrameModel {
    Text(Seq<char>),
    Ping(Seq<u8>),
    Close,
    ReadError,
    Other,
}

impl View for Frame {
    type V = FrameModel;

    open spec fn view(&self) -> FrameModel {
        match self {
            Frame::Text(t) => FrameModel::Text(t@),
            Frame::Ping(d) => FrameModel::Ping(d@),
            Frame::Close => FrameModel::Close,
            Frame::ReadError => FrameModel::ReadError,
            Frame::Other => FrameModel::Other,
        }
    }
}

/// What the read loop does with one frame: spawn an execution unit for a
/// parsed command, answer a ping with a pong, end the session, or read
/// on.
pub enum DispatchAction {
    SpawnCommand(RemoteCommand),
    SendPong(Vec<u8>),
    Terminate,
    Ignore,
}

/// The mathematical model of a dispatch decision.
pub ghost enum DispatchModel {
    SpawnCommand(CommandModel),
    SendPong(Seq<u8>),
    Terminate,
    Ignore,
}

impl View for DispatchAction {
    type V = DispatchModel;

    open spec fn view(&self) -> DispatchModel {
        match self {
            DispatchAction::SpawnCommand(c) => DispatchModel::SpawnCommand(c@),
            DispatchAction::SendPong(d) => DispatchModel::SendPong(d@),
            DispatchAction::Terminate => DispatchModel::Terminate,
            DispatchAction::Ignore => DispatchModel::Ignore,
        }
    }
}

/// The dispatch decision for one inbound frame: a text frame spawns an
/// execution unit exactly when it parses as a command and is ignored
/// otherwise; a ping is answered with a pong through the outbound
/// mailbox; a close or a read error ends the session; anything else is
/// ignored.
pub open spec fn spec_dispatch_frame(f: FrameModel) -> DispatchModel {
    match f {
        FrameModel::Text(t) => match spec_parse_command(t) {
            Option::Some(m) => DispatchModel::SpawnCommand(m),
            Option::None => DispatchModel::Ignore,
        },
        FrameModel::Ping(d) => DispatchModel::SendPong(d),
        FrameModel::Close => DispatchModel::Terminate,
        FrameModel::ReadError => DispatchModel::Terminate,
        FrameModel::Other => DispatchModel::Ignore,
    }
}

pub fn dispatch_frame(f: Frame) -> (a: DispatchAction)
    ensures
        a@ == spec_dispatch_frame(f@),
{
    match f {
        Frame::Text(t) => match parse_remote_command(t.as_str()) {
            Option::Some(c) => DispatchAction::SpawnCommand(c),
            Option::None => DispatchAction::Ignore,
        },
        Frame::Ping(d) => DispatchAction::SendPong(d),
        Frame::Close => DispatchAction::Terminate,
        Frame::ReadError => DispatchAction::Terminate,
        Frame::Other => DispatchAction::Ignore,
    }
}

/// Law: a text frame that parses as a command is dispatched to exactly
/// one execution unit, carrying exactly the parsed command.
pub proof fn lemma_valid_command_spawns_unit(t: Seq<char>)
    requires
        spec_parse_command(t) is Some,
    ensures
        spec_dispatch_frame(FrameModel::Text(t)) == DispatchModel::SpawnCommand(
            spec_parse_command(t)->Some_0,
        ),
{
}

/// Law: a malformed text frame spawns no execution unit — so no result
/// is ever attributed to it — and does not end the session: the read
/// loop goes on to the next frame.
pub proof fn lemma_malformed_frame_ignored(t: Seq<char>)
    requires
        spec_parse_command(t) is None,
    ensures
        spec_dispatch_frame(FrameModel::Text(t)) == DispatchModel::Ignore,
        spec_dispatch_frame(FrameModel::Text(t)) != DispatchModel::Terminate,
{
}

/// The commands a session's read loop hands to execution units, given
/// the inbound frames in arrival order: one command per frame that
/// parses, nothing for an ignored frame, and nothing at all past the
/// first terminal frame.
pub open spec fn spec_session_commands(frames: Seq<FrameModel>) -> Seq<CommandModel>
    decreases frames.len(),
{
    if frames.len() == 0 {
        Seq::<CommandModel>::empty()
    } else {
        match spec_dispatch_frame(frames[0]) {
            DispatchModel::Terminate => Seq::<CommandModel>::empty(),
            DispatchModel::SpawnCommand(m) => seq![m] + spec_session_commands(
                frames.drop_first(),
            ),
            _ => spec_session_commands(frames.drop_first()),
        }
    }
}

/// Law: a malformed text frame leaves the rest of the session exactly as
/// it would have been — the read loop goes on processing the subsequent
/// frames, and the malformed frame contributes no command.
pub proof fn lemma_malformed_frame_continues(t: Seq<char>, rest: Seq<FrameModel>)
    requires
        spec_parse_command(t) is None,
    ensures
        spec_session_commands(seq![FrameModel::Text(t)] + rest) == spec_session_commands(rest),
{
    let fs = seq![FrameModel::Text(t)] + rest;
    assert(fs[0] == FrameModel::Text(t));
    assert(fs.drop_first() =~= rest);
}

/// Law: two command frames received back to back each contribute their
/// own command, in arrival order, whatever their kinds; neither is
/// dropped.
#[verifier::rlimit(100)]
#[verifier::spinoff_prover]
pub proof fn lemma_two_commands_both_processed(t1: Seq<char>, t2: Seq<char>, rest: Seq<FrameModel>)
    requires
        spec_parse_command(t1) is Some,
        spec_parse_command(t2) is Some,
    ensures
        spec_session_commands(seq![FrameModel::Text(t1), FrameModel::Text(t2)] + rest) == seq![
            spec_parse_command(t1)->Some_0,
            spec_parse_command(t2)->Some_0,
        ] + spec_session_commands(rest),
{
    let m1 = spec_parse_command(t1)->Some_0;
    let m2 = spec_parse_command(t2)->Some_0;
    lemma_valid_command_spawns_unit(t1);
    lemma_valid_command_spawns_unit(t2);
    let fs = seq![FrameModel::Text(t1), FrameModel::Text(t2)] + rest;
    assert(fs[0] == FrameModel::Text(t1));
    assert(fs.drop_first() =~= seq![FrameModel::Text(t2)] + rest);
    let fs2 = seq![FrameModel::Text(t2)] + rest;
    assert(fs2[0] == FrameModel::Text(t2));
    assert(fs2.drop_first() =~= rest);
    assert(spec_session_commands(fs) == seq![m1] + spec_session_commands(fs2));
    assert(spec_session_commands(fs2) == seq![m2] + spec_session_commands(rest));
    assert(seq![m1] + (seq![m2] + spec_session_commands(rest)) =~= seq![m1, m2]
        + spec_session_commands(rest));
}

/// Law: a close frame — or a read error — ends the session at once: no
/// later frame spawns a command.
pub proof fn lemma_terminal_frame_ends_session(f: FrameModel, rest: Seq<FrameModel>)
    requires
        f is Close || f is ReadError,
    ensures
        spec_session_commands(seq![f] + rest) == Seq::<CommandModel>::empty(),
{
    let fs = seq![f] + rest;
    assert(fs[0] == f);
}

/// How many frames the outbound mailbox holds at most.
pub const OUTBOUND_QUEUE_CAPACITY: usize = 100;

/// The bounded outbound mailbox: many producers submit frames, one
/// writer drains them strictly in arrival order. A submission to a full
/// mailbox fails rather than blocking; the caller treats that failure as
/// a transport failure.
pub struct OutboundQueue {
    frames: Vec<String>,
    capacity: usize,
}

impl OutboundQueue {
    /// The queued frame texts, oldest first.
    pub closed spec fn contents(&self) -> Seq<Seq<char>> {
        self.frames@.map_values(|f: String| f@)
    }

    pub closed spec fn capacity(&self) -> usize {
        self.capacity
    }

    pub fn with_capacity(capacity: usize) -> (q: Self)
        ensures
            q.contents() == Seq::<Seq<char>>::empty(),
            q.capacity() == capacity,
    {
        let q = OutboundQueue { frames: Vec::new(), capacity };
        proof {
            assert(q.contents() =~= Seq::<Seq<char>>::empty());
        }
        q
    }

    /// Submits one frame. It is appended in arrival order when there is
    /// room; a full mailbox leaves the queue unchanged and reports
    /// failure.
    pub fn submit(&mut self, frame: String) -> (ok: bool)
        ensures
            ok == (old(self).contents().len() < old(self).capacity()),
            final(self).capacity() == old(self).capacity(),
            ok ==> final(self).contents() == old(self).contents().push(frame@),
            !ok ==> final(self).contents() == old(self).contents(),
    {
        if self.frames.len() < self.capacity {
            self.frames.push(frame);
            proof {
                assert(self.contents() =~= old(self).contents().push(frame@));
            }
            true
        } else {
            false
        }
    }

    /// Hands the writer the oldest queued frame, in strict arrival
    /// order.
    pub fn pop_next(&mut self) -> (r: Option<String>)
        ensures
            final(self).capacity() == old(self).capacity(),
            old(self).contents().len() == 0 ==> r is None && final(self).contents() == old(
                self,
            ).contents(),
            old(self).contents().len() > 0 ==> r is Some && r->Some_0@ == old(self).contents()[0]
                && final(self).contents() == old(self).contents().drop_first(),
    {
        if self.frames.len() == 0 {
            Option::None
        } else {
            let f = self.frames.remove(0);
            proof {
                assert(self.contents() =~= old(self).contents().drop_first());
            }
            Option::Some(f)
        }
    }

    /// How many frames are queued.
    pub fn len(&self) -> (n: usize)
        ensures
            n == self.contents().len(),
    {
        self.frames.len()
    }
}

/// Opens the outbound side of a fresh session: a mailbox at the standard
/// capacity whose first — and so far only — frame is the hello frame, so
/// the hello is the first text the new connection carries.
pub fn open_session(
    config: &RemoteControlConfig,
    timestamp: &str,
    platform: &str,
    version: &str,
) -> (q: OutboundQueue)
    ensures
        q.capacity() == OUTBOUND_QUEUE_CAPACITY,
        q.contents() == seq![
            spec_hello_frame(config.client_id@, timestamp@, platform@, version@),
        ],
{
    let mut q = OutboundQueue::with_capacity(OUTBOUND_QUEUE_CAPACITY);
    let hello = render_hello_frame(config.client_id.as_str(), timestamp, platform, version);
    let ok = q.submit(hello);
    proof {
        assert(q.contents() =~= seq![
            spec_hello_frame(config.client_id@, timestamp@, platform@, version@),
        ]);
    }
    q
}

} // verus!
