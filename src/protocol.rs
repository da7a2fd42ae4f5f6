//! The worker's side of the coordinator protocol: message records, the
//! decisions of the init and run handlers, and the hand-off of outbound
//! messages to the socket sender's channel.
use vstd::prelude::*;
use crate::channel_pool::{queues_after_send, ChannelPool};

verus! {

/// The static auth code carried by every message.
pub const AUTH_CODE: u64 = 0x24420251131;

/// The channel on which the socket sender task receives outbound messages.
pub const THREAD_WS_SEND: usize = 0;

/// The inner record of an envelope: the operator id, the short payload and
/// the auth code.
#[derive(Clone)]
pub struct MsgInfo {
    pub operator_id: u64,
    pub payload: String,
    pub auth_code: u64,
}

impl MsgInfo {
    pub fn new(operator_id_: u64, payload: String) -> (r: MsgInfo)
        ensures
            r.operator_id == operator_id_,
            r.payload == payload,
            r.auth_code == AUTH_CODE,
    {
        MsgInfo { operator_id: operator_id_, payload, auth_code: AUTH_CODE }
    }
}

/// An envelope: the correlation id and the encoded inner record, with the
/// decoded record kept once it has been read.
pub struct BaseMsg {
    pub event_id: u64,
    pub payload: String,
    /// The decoded inner record, once read.
    pub msg_info: Option<MsgInfo>,
}

impl BaseMsg {
    /// An envelope for `msg`, whose encoded form is `payload`.
    pub fn new(event_id: u64, msg: MsgInfo, payload: String) -> (r: BaseMsg)
        ensures
            r.event_id == event_id,
            r.payload == payload,
            r.msg_info == Some(msg),
    {
        BaseMsg { event_id, payload, msg_info: Some(msg) }
    }

    /// An envelope read off the wire, not decoded yet.
    pub fn received(event_id: u64, payload: String) -> (r: BaseMsg)
        ensures
            r.event_id == event_id,
            r.payload == payload,
            r.msg_info is None,
    {
        BaseMsg { event_id, payload, msg_info: None }
    }

    /// The inner record, if it has been read already.
    pub fn get_msg(&self) -> (r: Option<&MsgInfo>)
        ensures
            match self.msg_info {
                Some(m) => r matches Some(q) && *q == m,
                None => r is None,
            },
    {
        match &self.msg_info {
            Some(m) => Some(m),
            None => None,
        }
    }

    /// Keeps `msg` as the decoded inner record, unless one was read before:
    /// an envelope is decoded at most once.
    pub fn set_msg(&mut self, msg: MsgInfo)
        ensures
            final(self).event_id == old(self).event_id,
            final(self).payload == old(self).payload,
            final(self).msg_info == (match old(self).msg_info {
                Some(m) => Some(m),
                None => Some(msg),
            }),
    {
        if self.msg_info.is_none() {
            self.msg_info = Some(msg);
        }
    }
}

/// A request to run a function of the loaded program.
pub struct RunCodePayload {
    pub source_uid: String,
    pub func: String,
    pub input: String,
    pub output: i16,
}

/// A request to load a program.
pub struct InitCodePayload {
    pub source_uid: String,
    pub code: String,
}

/// The type into which a run's result is converted, selected by the
/// request's output tag.
#[derive(Clone, Copy, PartialEq, Eq, Structural)]
pub enum OutputKind {
    I32,
    F32,
    Str,
    VecI32,
    VecF32,
    VecVecI32,
    VecVecF32,
}

/// The output kind of each tag; tags outside 1..=7 select none.
pub open spec fn output_kind_of(tag: i16) -> Option<OutputKind> {
    if tag == 1 {
        Some(OutputKind::I32)
    } else if tag == 2 {
        Some(OutputKind::F32)
    } else if tag == 3 {
        Some(OutputKind::Str)
    } else if tag == 4 {
        Some(OutputKind::VecI32)
    } else if tag == 5 {
        Some(OutputKind::VecF32)
    } else if tag == 6 {
        Some(OutputKind::VecVecI32)
    } else if tag == 7 {
        Some(OutputKind::VecVecF32)
    } else {
        None
    }
}

pub fn output_kind(tag: i16) -> (r: Option<OutputKind>)
    ensures
        r == output_kind_of(tag),
{
    match tag {
        1 => Some(OutputKind::I32),
        2 => Some(OutputKind::F32),
        3 => Some(OutputKind::Str),
        4 => Some(OutputKind::VecI32),
        5 => Some(OutputKind::VecF32),
        6 => Some(OutputKind::VecVecI32),
        7 => Some(OutputKind::VecVecF32),
        _ => None,
    }
}

/// The answer to a run request.
pub struct RunCodeResult {
    pub source_uid: String,
    pub error: String,
    pub result: String,
}

/// The error text of a run request that arrives before any program loaded.
pub open spec fn no_program_text() -> Seq<char> {
    "dync manager no exsis"@
}

/// The error text of a run request whose output tag selects no type.
pub open spec fn unsupported_type_text() -> Seq<char> {
    "no support this type"@
}

impl RunCodeResult {
    /// The answer when no program is loaded: only the error is set.
    pub fn no_program() -> (r: RunCodeResult)
        ensures
            r.source_uid@ == Seq::<char>::empty(),
            r.result@ == Seq::<char>::empty(),
            r.error@ == no_program_text(),
    {
        proof {
            reveal_strlit("dync manager no exsis");
        }
        RunCodeResult {
            source_uid: String::new(),
            error: "dync manager no exsis".to_owned(),
            result: String::new(),
        }
    }

    /// The answer to a run whose outcome was `outcome`: its text as the
    /// result, or its error text as the error; and, for a tag that selects
    /// no type, the unsupported-type error.
    pub fn answer(source_uid: String, outcome: Option<Result<String, String>>) -> (r: RunCodeResult)
        ensures
            r.source_uid == source_uid,
            match outcome {
                Some(Ok(text)) => r.result == text && r.error@ == Seq::<char>::empty(),
                Some(Err(e)) => r.result@ == Seq::<char>::empty() && r.error == e,
                None => r.result@ == Seq::<char>::empty() && r.error@ == unsupported_type_text(),
            },
    {
        proof {
            reveal_strlit("no support this type");
        }
        match outcome {
            Some(Ok(text)) => RunCodeResult { source_uid, error: String::new(), result: text },
            Some(Err(e)) => RunCodeResult { source_uid, error: e, result: String::new() },
            None => RunCodeResult {
                source_uid,
                error: "no support this type".to_owned(),
                result: String::new(),
            },
        }
    }
}

/// The state of the loaded program when a run request arrives.
#[derive(Clone, Copy, PartialEq, Eq, Structural)]
pub enum ProgramAccess {
    /// No program has been loaded.
    Absent,
    /// A program is loaded but an earlier run still holds it.
    Busy,
    /// A program is loaded and free to run.
    Free,
}

/// The error text of a run request that arrives while an earlier run holds
/// the program.
pub open spec fn busy_text() -> Seq<char> {
    "program is busy"@
}

/// What a run request leads to: an answer without calling the program, or a
/// call of the program whose result is converted to `OutputKind`.
pub enum RunStep {
    Answer(RunCodeResult),
    Call(RunCodePayload, OutputKind),
}

/// Decides a run request. The checks come in this order: a program must be
/// loaded, the request must parse (`request` holds the parse error
/// otherwise), its output tag must select a type, and the program must be
/// free; only then is the program called.
pub fn run_step(access: ProgramAccess, request: Result<RunCodePayload, String>) -> (r: RunStep)
    ensures
        access == ProgramAccess::Absent ==> (r matches RunStep::Answer(a) && a.source_uid@ == Seq::<
            char,
        >::empty() && a.result@ == Seq::<char>::empty() && a.error@ == no_program_text()),
        access != ProgramAccess::Absent ==> match request {
            Err(e) => r matches RunStep::Answer(a) && a.source_uid@ == Seq::<char>::empty()
                && a.result@ == Seq::<char>::empty() && a.error == e,
            Ok(call) => match output_kind_of(call.output) {
                None => r matches RunStep::Answer(a) && a.source_uid == call.source_uid
                    && a.result@ == Seq::<char>::empty() && a.error@ == unsupported_type_text(),
                Some(kind) => if access == ProgramAccess::Busy {
                    r matches RunStep::Answer(a) && a.source_uid == call.source_uid
                        && a.result@ == Seq::<char>::empty() && a.error@ == busy_text()
                } else {
                    r matches RunStep::Call(c, k) && c == call && k == kind
                },
            },
        },
{
    if access == ProgramAccess::Absent {
        return RunStep::Answer(RunCodeResult::no_program());
    }
    match request {
        Err(e) => RunStep::Answer(RunCodeResult::answer(String::new(), Some(Err(e)))),
        Ok(call) => match output_kind(call.output) {
            None => RunStep::Answer(RunCodeResult::answer(call.source_uid, None)),
            Some(kind) => {
                if access == ProgramAccess::Busy {
                    proof {
                        reveal_strlit("program is busy");
                    }
                    RunStep::Answer(
                        RunCodeResult::answer(call.source_uid, Some(Err("program is busy".to_owned()))),
                    )
                } else {
                    RunStep::Call(call, kind)
                }
            },
        },
    }
}

/// The answer to a load request.
pub struct InitCodeResult {
    pub source_uid: String,
    pub succ: bool,
    pub payload: String,
}

/// A message for the socket sender: its route, short payload and large
/// payload.
pub struct WsClientMsg {
    pub route: String,
    pub payload: String,
    pub big_payload: String,
}

/// Hands a message to the socket sender's channel.
pub fn send_msg_to_ws_server(
    pool: &mut ChannelPool<WsClientMsg>,
    route: String,
    payload: String,
    big_payload: String,
) -> (woke: bool)
    requires
        old(pool).wf(),
    ensures
        final(pool).wf(),
        final(pool).queues() == queues_after_send(
            old(pool).queues(),
            THREAD_WS_SEND as int,
            WsClientMsg { route, payload, big_payload },
        ),
        woke == old(pool).waiting()[THREAD_WS_SEND as int],
        final(pool).waiting() == old(pool).waiting().update(THREAD_WS_SEND as int, false),
{
    pool.send(THREAD_WS_SEND, WsClientMsg { route, payload, big_payload })
}

/// The route of the liveness announcement.
pub open spec fn hello_route() -> Seq<char> {
    "worker/hello"@
}

/// Hands the liveness announcement, whose envelope text is `envelope`, to
/// the socket sender's channel.
pub fn worker_hello(pool: &mut ChannelPool<WsClientMsg>, envelope: String) -> (woke: bool)
    requires
        old(pool).wf(),
    ensures
        final(pool).wf(),
        ({
            let q = final(pool).queues()[THREAD_WS_SEND as int];
            let m = q.last();
            &&& final(pool).queues() == queues_after_send(old(pool).queues(), THREAD_WS_SEND as int, m)
            &&& m.route@ == hello_route()
            &&& m.payload == envelope
            &&& m.big_payload@ == Seq::<char>::empty()
        }),
        woke == old(pool).waiting()[THREAD_WS_SEND as int],
        final(pool).waiting() == old(pool).waiting().update(THREAD_WS_SEND as int, false),
{
    proof {
        reveal_strlit("worker/hello");
    }
    send_msg_to_ws_server(pool, "worker/hello".to_owned(), envelope, String::new())
}

} // verus!
