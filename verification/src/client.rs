//! The execution client: the connection descriptor, the execute request,
//! and the reply-driven execution-state machine.
//!
//! The client owns the session (signing key and session id) and the current
//! execution state. The surrounding program moves frames between the client
//! and its two channels: `execute` yields the frames to send on the request
//! channel, and each multipart message received on the broadcast channel is
//! handed to `handle_message`, which advances the state machine and says
//! what to do with the message.

use vstd::prelude::*;
use vstd::utf8::valid_utf8;
use crate::bytes::spec_status;
use crate::bytes::spec_stream;
use crate::bytes::spec_execute_input;
use crate::bytes::spec_error;
use crate::bytes::spec_starting;
use crate::bytes::spec_idle;
use crate::bytes::spec_busy;
use crate::bytes::spec_stdout;
use crate::bytes::spec_stderr;
use crate::bytes::spec_execute_request;
use crate::bytes::execute_request;
use crate::bytes::bytes_eq;
use crate::bytes::lemma_ascii_valid_utf8;
use crate::codec::WireError;
use crate::codec::spec_serialize;
use crate::codec::spec_built_envelope;
use crate::codec::build_envelope;
use crate::codec::serialize;
use crate::codec::deserialize;
use crate::codec::spec_deserialize;
use crate::json::jmap_new;
use crate::json::jmap_set_string;
use crate::json::jmap_set_bool;
use crate::json::jmap_set_null;
use crate::json::json_string_field;
use crate::json::json_string_array_field;
use crate::json::json_object_field;
use crate::json::json_u64_field;
use crate::json::json_string_repr;
use crate::json::spec_true_repr;
use crate::json::spec_false_repr;
use crate::json::spec_null_repr;
use crate::json::empty_model;
use crate::json::get_string_field;
use crate::json::get_string_array_field;
use crate::json::get_object_field;
use crate::json::get_u64_field;

verus! {

/// The kernel's execution state, as reported by `status` replies.
#[derive(Clone, Copy, Debug, PartialEq, Eq, Structural)]
pub enum ExecutionState {
    Starting,
    Idle,
    Busy,
}

/// What the caller should do with one dispatched broadcast message.
#[derive(Clone, Debug, PartialEq, Eq)]
pub enum Action {
    /// Nothing to surface: a `status` update or an `execute_input` echo.
    Quiet,
    /// A `stream` reply for standard output: print its text.
    EmitStdout(Vec<u8>),
    /// A `stream` reply for standard error: print its text there.
    EmitStderr(Vec<u8>),
    /// A `stream` reply named an unknown stream: report it, do not abort.
    ReportUnknownStream(Vec<u8>),
    /// The submitted code raised an error in the kernel.
    ReportError { ename: Option<Vec<u8>>, evalue: Option<Vec<u8>>, traceback: Option<Vec<Vec<u8>>> },
    /// A message type outside the understood subset: report, do not abort.
    ReportUnknownType(Vec<u8>),
}

/// The state named by a `status` reply's `execution_state` value, if it is
/// one of the three the protocol allows.
pub open spec fn spec_status_state(es: Seq<u8>) -> Option<ExecutionState> {
    if es == spec_starting() {
        Option::Some(ExecutionState::Starting)
    } else if es == spec_idle() {
        Option::Some(ExecutionState::Idle)
    } else if es == spec_busy() {
        Option::Some(ExecutionState::Busy)
    } else {
        Option::None
    }
}

/// State machine law: `starting`, `busy` and `idle` name their states, and
/// every other `execution_state` value names none, which `handle_message`
/// turns into the fatal `UnknownExecutionState`.
pub proof fn lemma_status_transitions()
    ensures
        spec_status_state(spec_starting()) == Option::Some(ExecutionState::Starting),
        spec_status_state(spec_busy()) == Option::Some(ExecutionState::Busy),
        spec_status_state(spec_idle()) == Option::Some(ExecutionState::Idle),
        forall|s: Seq<u8>|
            s != spec_starting() && s != spec_busy() && s != spec_idle()
                ==> #[trigger] spec_status_state(s) is None,
{
    assert(spec_starting().len() == 8);
    assert(spec_idle().len() == 4);
    assert(spec_busy().len() == 4);
    assert(spec_idle()[0] == 105u8);
    assert(spec_busy()[0] == 98u8);
}

/// The protocol's message-type, stream-name and state tokens are pairwise
/// distinct.
proof fn lemma_tokens_distinct()
    ensures
        spec_status() != spec_stream(),
        spec_status() != spec_execute_input(),
        spec_status() != spec_error(),
        spec_stream() != spec_execute_input(),
        spec_stream() != spec_error(),
        spec_execute_input() != spec_error(),
        spec_stdout() != spec_stderr(),
        spec_starting() != spec_idle(),
        spec_starting() != spec_busy(),
        spec_idle() != spec_busy(),
{
    assert(spec_status().len() == 6);
    assert(spec_stream().len() == 6);
    assert(spec_execute_input().len() == 13);
    assert(spec_error().len() == 5);
    assert(spec_status()[2] == 97u8);
    assert(spec_stream()[2] == 114u8);
    assert(spec_stdout().len() == 6);
    assert(spec_stderr().len() == 6);
    assert(spec_stdout()[3] == 111u8);
    assert(spec_stderr()[3] == 101u8);
    assert(spec_starting().len() == 8);
    assert(spec_idle().len() == 4);
    assert(spec_busy().len() == 4);
    assert(spec_idle()[0] == 105u8);
    assert(spec_busy()[0] == 98u8);
}

/// The text of a `stream` reply, or nothing when the field is absent.
pub open spec fn spec_text_or_empty(tx: Option<Seq<u8>>) -> Seq<u8> {
    match tx {
        Option::Some(t) => t,
        Option::None => Seq::empty(),
    }
}

/// Relates an optional byte vector to the optional byte string it holds.
pub open spec fn opt_bytes_matches(o: Option<Vec<u8>>, s: Option<Seq<u8>>) -> bool {
    match o {
        Option::Some(v) => s == Option::Some(v@),
        Option::None => s is None,
    }
}

/// Relates an optional list of byte vectors to the byte strings it holds.
pub open spec fn opt_lines_matches(o: Option<Vec<Vec<u8>>>, s: Option<Seq<Seq<u8>>>) -> bool {
    match o {
        Option::Some(v) => s == Option::Some(v.deep_view()),
        Option::None => s is None,
    }
}

/// The content of an `execute_request` for the given code: execute it, not
/// silently, storing history, with no user expressions, allowing stdin, and
/// stopping on error.
pub open spec fn spec_execute_content(code: Seq<u8>) -> Map<Seq<char>, Seq<u8>> {
    empty_model().insert("code"@, json_string_repr(code)).insert(
        "silent"@,
        spec_false_repr(),
    ).insert("store_history"@, spec_true_repr()).insert(
        "user_expressions"@,
        spec_null_repr(),
    ).insert("allow_stdin"@, spec_true_repr()).insert("stop_on_error"@, spec_true_repr())
}

/// The connection data the bootstrapper hands over: the signing key and the
/// two channel ports.
#[derive(Debug)]
pub struct ConnectionDescriptor {
    pub signing_key: Vec<u8>,
    pub shell_port: u16,
    pub iopub_port: u16,
}

/// What parsing a descriptor yields: the key's bytes and the two ports, or
/// `InvalidPayload` when a field is missing, of the wrong kind, or not a
/// port number.
pub open spec fn spec_parse_descriptor(j: Seq<u8>) -> Result<(Seq<u8>, u16, u16), WireError> {
    match json_string_field(j, "key"@) {
        Option::None => Result::Err(WireError::InvalidPayload),
        Option::Some(k) => match json_object_field(j, "ports"@) {
            Option::None => Result::Err(WireError::InvalidPayload),
            Option::Some(p) => match json_u64_field(p, "shell"@) {
                Option::None => Result::Err(WireError::InvalidPayload),
                Option::Some(s) => match json_u64_field(p, "iopub"@) {
                    Option::None => Result::Err(WireError::InvalidPayload),
                    Option::Some(io) => if s <= 65535 && io <= 65535 {
                        Result::Ok((k, s as u16, io as u16))
                    } else {
                        Result::Err(WireError::InvalidPayload)
                    },
                },
            },
        },
    }
}

/// Parses a connection descriptor: a JSON object with at least
/// `{key: string, ports: {shell: number, iopub: number}}`.
pub fn parse_descriptor(json: &Vec<u8>) -> (r: Result<ConnectionDescriptor, WireError>)
    ensures
        (r matches Ok(d) ==> spec_parse_descriptor(json@) == Result::<
            (Seq<u8>, u16, u16),
            WireError,
        >::Ok((d.signing_key@, d.shell_port, d.iopub_port))),
        (r matches Err(e) ==> spec_parse_descriptor(json@) == Result::<
            (Seq<u8>, u16, u16),
            WireError,
        >::Err(e)),
{
    let key = match get_string_field(json, "key") {
        Some(k) => k,
        None => {
            return Err(WireError::InvalidPayload);
        },
    };
    let ports = match get_object_field(json, "ports") {
        Some(p) => p,
        None => {
            return Err(WireError::InvalidPayload);
        },
    };
    let shell = match get_u64_field(&ports, "shell") {
        Some(s) => s,
        None => {
            return Err(WireError::InvalidPayload);
        },
    };
    let iopub = match get_u64_field(&ports, "iopub") {
        Some(io) => io,
        None => {
            return Err(WireError::InvalidPayload);
        },
    };
    if shell <= 65535 && iopub <= 65535 {
        Ok(
            ConnectionDescriptor {
                signing_key: key,
                shell_port: shell as u16,
                iopub_port: iopub as u16,
            },
        )
    } else {
        Err(WireError::InvalidPayload)
    }
}

/// The execution client: the session it signs with, the outbound message
/// counter, the execution state driven by `status` replies, and the
/// display-only execution counter.
pub struct Client {
    pub signing_key: Vec<u8>,
    pub session_id: Vec<u8>,
    pub message_count: u64,
    pub execution_state: ExecutionState,
    pub execution_count: u64,
}

impl Client {
    /// A fresh client: counters at one, state `Idle`.
    pub fn new(signing_key: Vec<u8>, session_id: Vec<u8>) -> (r: Client)
        ensures
            r.signing_key@ == signing_key@,
            r.session_id@ == session_id@,
            r.message_count == 1,
            r.execution_state == ExecutionState::Idle,
            r.execution_count == 1,
    {
        Client {
            signing_key,
            session_id,
            message_count: 1,
            execution_state: ExecutionState::Idle,
            execution_count: 1,
        }
    }

    /// Builds, signs and serializes an `execute_request` for `code` and sets
    /// the state to `Busy`; the caller sends the frames on the request
    /// channel. The message counter is deliberately left where it is: the
    /// behaviour modelled here holds it at its initial value, so every
    /// message id repeats it.
    pub fn execute(&mut self, code: &Vec<u8>) -> (r: Result<Vec<Vec<u8>>, WireError>)
        ensures
            (r matches Ok(frames) ==> frames.deep_view() == spec_serialize(
                spec_built_envelope(
                    old(self).session_id@,
                    old(self).message_count,
                    spec_execute_request(),
                    spec_execute_content(code@),
                ),
                old(self).signing_key@,
            ) && final(self).execution_state == ExecutionState::Busy && final(self).signing_key@ == old(self).signing_key@ && final(self).session_id@ == old(self).session_id@ && final(self).message_count == old(self).message_count && final(self).execution_count == old(self).execution_count),
            (r matches Err(e) ==> e == WireError::InvalidEncoding && *final(self) == *old(self)),
            (r is Ok <==> valid_utf8(old(self).session_id@) && valid_utf8(code@)),
    {
        let mut content = jmap_new();
        if !jmap_set_string(&mut content, "code", code) {
            return Err(WireError::InvalidEncoding);
        }
        jmap_set_bool(&mut content, "silent", false);
        jmap_set_bool(&mut content, "store_history", true);
        jmap_set_null(&mut content, "user_expressions");
        jmap_set_bool(&mut content, "allow_stdin", true);
        jmap_set_bool(&mut content, "stop_on_error", true);
        let msg_type = execute_request();
        proof {
            assert(forall|i: int|
                0 <= i < spec_execute_request().len() ==> #[trigger] spec_execute_request()[i]
                    < 128);
            lemma_ascii_valid_utf8(spec_execute_request());
        }
        let env = match build_envelope(&self.session_id, self.message_count, &msg_type, &content) {
            Ok(env) => env,
            Err(e) => {
                return Err(e);
            },
        };
        let frames = serialize(&env, &self.signing_key);
        self.execution_state = ExecutionState::Busy;
        Ok(frames)
    }

    /// Decodes one broadcast message and dispatches it by its header's
    /// `msg_type`: `status` replies drive the execution state (an unknown
    /// `execution_state` value is the fatal `UnknownExecutionState`);
    /// `stream` replies yield their text for the named output, and an
    /// unknown stream name is reported without touching the state;
    /// `execute_input` advances the display counter; `error` surfaces the
    /// kernel's error data; every other type is reported and skipped.
    pub fn handle_message(&mut self, frames: &Vec<Vec<u8>>) -> (r: Result<Action, WireError>)
        ensures
            (spec_deserialize(frames.deep_view()) matches Err(e) ==> r == Result::<
                Action,
                WireError,
            >::Err(e) && *final(self) == *old(self)),
            (spec_deserialize(frames.deep_view()) matches Ok(env) ==> {
                let msgty = json_string_field(env.header, "msg_type"@);
                let es = json_string_field(env.content, "execution_state"@);
                let name = json_string_field(env.content, "name"@);
                let text = json_string_field(env.content, "text"@);
                &&& (msgty == Option::Some(spec_status()) ==> {
                    &&& (es matches Option::Some(s) ==> (spec_status_state(s) matches Option::Some(
                        st,
                    ) ==> r == Result::<Action, WireError>::Ok(Action::Quiet) && final(self).execution_state == st && final(self).signing_key@ == old(self).signing_key@
                        && final(self).session_id@ == old(self).session_id@ && final(self).message_count == old(self).message_count && final(self).execution_count
                        == old(self).execution_count))
                    &&& (es matches Option::Some(s) ==> (spec_status_state(s) is None ==> r
                        == Result::<Action, WireError>::Err(WireError::UnknownExecutionState)
                        && *final(self) == *old(self)))
                    &&& (es is None ==> r == Result::<Action, WireError>::Err(
                        WireError::UnknownExecutionState,
                    ) && *final(self) == *old(self))
                })
                &&& (msgty == Option::Some(spec_stream()) ==> *final(self) == *old(self) && {
                    &&& (name == Option::Some(spec_stdout()) ==> (r matches Ok(a) && a matches
                        Action::EmitStdout(t) && t@ == spec_text_or_empty(text)))
                    &&& (name == Option::Some(spec_stderr()) ==> (r matches Ok(a) && a matches
                        Action::EmitStderr(t) && t@ == spec_text_or_empty(text)))
                    &&& (name matches Option::Some(n) ==> ((n != spec_stdout() && n
                        != spec_stderr()) ==> (r matches Ok(a) && a matches
                        Action::ReportUnknownStream(v) && v@ == n)))
                    &&& (name is None ==> (r matches Ok(a) && a matches Action::ReportUnknownStream(
                        v,
                    ) && v@ == Seq::<u8>::empty()))
                })
                &&& (msgty == Option::Some(spec_execute_input()) ==> r == Result::<
                    Action,
                    WireError,
                >::Ok(Action::Quiet) && final(self).execution_count == (if old(self).execution_count < 0xffff_ffff_ffff_ffffu64 {
                    old(self).execution_count as int + 1
                } else {
                    old(self).execution_count as int
                }) && final(self).execution_state == old(self).execution_state && final(self).signing_key@ == old(self).signing_key@ && final(self).session_id@ == old(self).session_id@ && final(self).message_count == old(self).message_count)
                &&& (msgty == Option::Some(spec_error()) ==> *final(self) == *old(self) && (
                r matches Ok(a) && a matches Action::ReportError { ename, evalue, traceback }
                    && opt_bytes_matches(ename, json_string_field(env.content, "ename"@))
                    && opt_bytes_matches(evalue, json_string_field(env.content, "evalue"@))
                    && opt_lines_matches(
                    traceback,
                    json_string_array_field(env.content, "traceback"@),
                )))
                &&& (msgty matches Option::Some(t) ==> ((t != spec_status() && t != spec_stream()
                    && t != spec_execute_input() && t != spec_error()) ==> *final(self) == *old(self) && (r matches Ok(a) && a matches Action::ReportUnknownType(v) && v@ == t)))
                &&& (msgty is None ==> *final(self) == *old(self) && (r matches Ok(a) && a matches
                    Action::ReportUnknownType(v) && v@ == Seq::<u8>::empty()))
            }),
    {
        proof {
            lemma_tokens_distinct();
        }
        let env = match deserialize(frames) {
            Ok(env) => env,
            Err(e) => {
                return Err(e);
            },
        };
        let msgty = match get_string_field(&env.header, "msg_type") {
            Some(t) => t,
            None => {
                return Ok(Action::ReportUnknownType(Vec::new()));
            },
        };
        if bytes_eq(&msgty, &tok_status()) {
            let es = match get_string_field(&env.content, "execution_state") {
                Some(s) => s,
                None => {
                    return Err(WireError::UnknownExecutionState);
                },
            };
            if bytes_eq(&es, &tok_starting()) {
                self.execution_state = ExecutionState::Starting;
                Ok(Action::Quiet)
            } else if bytes_eq(&es, &tok_idle()) {
                self.execution_state = ExecutionState::Idle;
                Ok(Action::Quiet)
            } else if bytes_eq(&es, &tok_busy()) {
                self.execution_state = ExecutionState::Busy;
                Ok(Action::Quiet)
            } else {
                Err(WireError::UnknownExecutionState)
            }
        } else if bytes_eq(&msgty, &tok_stream()) {
            let name = match get_string_field(&env.content, "name") {
                Some(n) => n,
                None => {
                    return Ok(Action::ReportUnknownStream(Vec::new()));
                },
            };
            let text = match get_string_field(&env.content, "text") {
                Some(t) => t,
                None => Vec::new(),
            };
            if bytes_eq(&name, &tok_stdout()) {
                Ok(Action::EmitStdout(text))
            } else if bytes_eq(&name, &tok_stderr()) {
                Ok(Action::EmitStderr(text))
            } else {
                Ok(Action::ReportUnknownStream(name))
            }
        } else if bytes_eq(&msgty, &tok_execute_input()) {
            if self.execution_count < 0xffff_ffff_ffff_ffffu64 {
                self.execution_count = self.execution_count + 1;
            }
            Ok(Action::Quiet)
        } else if bytes_eq(&msgty, &tok_error()) {
            let ename = get_string_field(&env.content, "ename");
            let evalue = get_string_field(&env.content, "evalue");
            let traceback = get_string_array_field(&env.content, "traceback");
            Ok(Action::ReportError { ename, evalue, traceback })
        } else {
            Ok(Action::ReportUnknownType(msgty))
        }
    }
}

/// The token `status`.
fn tok_status() -> (r: Vec<u8>)
    ensures
        r@ == spec_status(),
{
    let r: Vec<u8> = vec![115u8, 116u8, 97u8, 116u8, 117u8, 115u8];
    proof {
        assert(r@ =~= spec_status());
    }
    r
}

/// The token `stream`.
fn tok_stream() -> (r: Vec<u8>)
    ensures
        r@ == spec_stream(),
{
    let r: Vec<u8> = vec![115u8, 116u8, 114u8, 101u8, 97u8, 109u8];
    proof {
        assert(r@ =~= spec_stream());
    }
    r
}

/// The token `execute_input`.
fn tok_execute_input() -> (r: Vec<u8>)
    ensures
        r@ == spec_execute_input(),
{
    let r: Vec<u8> = vec![
        101u8,
        120u8,
        101u8,
        99u8,
        117u8,
        116u8,
        101u8,
        95u8,
        105u8,
        110u8,
        112u8,
        117u8,
        116u8,
    ];
    proof {
        assert(r@ =~= spec_execute_input());
    }
    r
}

/// The token `error`.
fn tok_error() -> (r: Vec<u8>)
    ensures
        r@ == spec_error(),
{
    let r: Vec<u8> = vec![101u8, 114u8, 114u8, 111u8, 114u8];
    proof {
        assert(r@ =~= spec_error());
    }
    r
}

/// The token `starting`.
fn tok_starting() -> (r: Vec<u8>)
    ensures
        r@ == spec_starting(),
{
    let r: Vec<u8> = vec![115u8, 116u8, 97u8, 114u8, 116u8, 105u8, 110u8, 103u8];
    proof {
        assert(r@ =~= spec_starting());
    }
    r
}

/// The token `idle`.
fn tok_idle() -> (r: Vec<u8>)
    ensures
        r@ == spec_idle(),
{
    let r: Vec<u8> = vec![105u8, 100u8, 108u8, 101u8];
    proof {
        assert(r@ =~= spec_idle());
    }
    r
}

/// The token `busy`.
fn tok_busy() -> (r: Vec<u8>)
    ensures
        r@ == spec_busy(),
{
    let r: Vec<u8> = vec![98u8, 117u8, 115u8, 121u8];
    proof {
        assert(r@ =~= spec_busy());
    }
    r
}

/// The token `stdout`.
fn tok_stdout() -> (r: Vec<u8>)
    ensures
        r@ == spec_stdout(),
{
    let r: Vec<u8> = vec![115u8, 116u8, 100u8, 111u8, 117u8, 116u8];
    proof {
        assert(r@ =~= spec_stdout());
    }
    r
}

/// The token `stderr`.
fn tok_stderr() -> (r: Vec<u8>)
    ensures
        r@ == spec_stderr(),
{
    let r: Vec<u8> = vec![115u8, 116u8, 100u8, 101u8, 114u8, 114u8];
    proof {
        assert(r@ =~= spec_stderr());
    }
    r
}

} // verus!
