//! The events a session's output reader sends to the event sink: one per
//! chunk of output, then one when the stream ends.
use vstd::prelude::*;
use vstd::string::*;

verus! {

broadcast use vstd::string::group_string_axioms;

/// The text that lossy UTF-8 decoding makes of `bytes`.
pub uninterp spec fn utf8_lossy(bytes: Seq<u8>) -> Seq<char>;

/// Relies on `String::from_utf8_lossy`: decodes `bytes`, each invalid
/// sequence replaced by U+FFFD; the text depends on the bytes alone.
#[verifier::external_body]
fn decode_lossy(bytes: &[u8]) -> (r: String)
    ensures
        r@ == utf8_lossy(bytes@),
{
    String::from_utf8_lossy(bytes).to_string()
}

/// A chunk of a session's output.
#[derive(Debug, Clone, PartialEq, Eq)]
pub struct OutputEvent {
    pub topic: String,
    pub session_id: String,
    pub agent_id: String,
    pub data: String,
}

/// The end of a session's output stream.
#[derive(Debug, Clone, PartialEq, Eq)]
pub struct ExitEvent {
    pub topic: String,
    pub session_id: String,
    pub exit_code: i32,
}

pub open spec fn data_topic_of(id: Seq<char>) -> Seq<char> {
    "pty://data/"@ + id
}

pub open spec fn exit_topic_of(id: Seq<char>) -> Seq<char> {
    "pty://exit/"@ + id
}

/// The topic of output events of session `session_id`.
pub fn data_topic(session_id: &str) -> (r: String)
    ensures
        r@ == data_topic_of(session_id@),
{
    let mut r = String::from_str("pty://data/");
    r.append(session_id);
    r
}

/// The topic of the exit event of session `session_id`.
pub fn exit_topic(session_id: &str) -> (r: String)
    ensures
        r@ == exit_topic_of(session_id@),
{
    let mut r = String::from_str("pty://exit/");
    r.append(session_id);
    r
}

/// What the reader makes of one read of `chunk`: an output event, or `None`
/// when the read was empty, which ends the stream.
pub fn output_event(session_id: &str, agent_id: &str, chunk: &[u8]) -> (r: Option<OutputEvent>)
    ensures
        r is None <==> chunk@.len() == 0,
        r matches Some(e) ==> e.topic@ == data_topic_of(session_id@) && e.session_id@ == session_id@
            && e.agent_id@ == agent_id@ && e.data@ == utf8_lossy(chunk@),
{
    if chunk.len() == 0 {
        None
    } else {
        Some(OutputEvent {
            topic: data_topic(session_id),
            session_id: String::from_str(session_id),
            agent_id: String::from_str(agent_id),
            data: decode_lossy(chunk),
        })
    }
}

/// The event sent when the output of session `session_id` ends. No exit
/// status is captured: the code is always 0.
pub fn exit_event(session_id: &str) -> (r: ExitEvent)
    ensures
        r.topic@ == exit_topic_of(session_id@),
        r.session_id@ == session_id@,
        r.exit_code == 0,
{
    ExitEvent { topic: exit_topic(session_id), session_id: String::from_str(session_id), exit_code: 0 }
}

} // verus!
