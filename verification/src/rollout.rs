//! Following Codex rollout files to tell the extension when a turn has ended.
use vstd::prelude::*;
use serde_json::Value;
use crate::pending::str_eq;
use crate::text::{
    append_str, chars_contains, chars_ends_with, contains_seq, ends_with, string_from_chars,
    to_chars, trim, trim_chars,
};

verus! {

/// The fields of a rollout line that tell whether a turn ended: whether it has a
/// `payload`, the payload's `type` and `turn_id`, and the line's own `type`, `kind`
/// and `turn_id`; each field is absent unless it is a JSON string.
pub struct RolloutLine {
    pub has_payload: bool,
    pub payload_type: Option<String>,
    pub payload_turn_id: Option<String>,
    pub record_type: Option<String>,
    pub kind: Option<String>,
    pub turn_id: Option<String>,
}

/// The fields of a rollout line, as text.
pub struct RolloutFields {
    pub has_payload: bool,
    pub payload_type: Option<Seq<char>>,
    pub payload_turn_id: Option<Seq<char>>,
    pub record_type: Option<Seq<char>>,
    pub kind: Option<Seq<char>>,
    pub turn_id: Option<Seq<char>>,
}

pub open spec fn text_of(o: Option<String>) -> Option<Seq<char>> {
    match o {
        Some(s) => Some(s@),
        None => None,
    }
}

impl View for RolloutLine {
    type V = RolloutFields;

    open spec fn view(&self) -> RolloutFields {
        RolloutFields {
            has_payload: self.has_payload,
            payload_type: text_of(self.payload_type),
            payload_turn_id: text_of(self.payload_turn_id),
            record_type: text_of(self.record_type),
            kind: text_of(self.kind),
            turn_id: text_of(self.turn_id),
        }
    }
}

/// The fields `serde_json` reads from a rollout line; none when the line is not JSON.
pub uninterp spec fn rollout_line_fields(line: Seq<char>) -> Option<RolloutFields>;

/// `serde_json::from_str::<Value>` of the line, and the string fields picked from the
/// parsed value with `Value::get` and `Value::as_str`. The result is named
/// `rollout_line_fields`.
#[verifier::external_body]
fn parse_rollout_line(line: &str) -> (r: Option<RolloutLine>)
    ensures
        match r {
            Some(l) => rollout_line_fields(line@) == Some(l@),
            None => rollout_line_fields(line@) is None,
        },
{
    let value: Value = match serde_json::from_str(line) {
        Ok(value) => value,
        Err(_) => return None,
    };
    let payload = value.get("payload");
    Some(RolloutLine {
        has_payload: payload.is_some(),
        payload_type: payload.and_then(|p| p.get("type")).and_then(Value::as_str).map(str::to_string),
        payload_turn_id: payload.and_then(|p| p.get("turn_id")).and_then(Value::as_str).map(str::to_string),
        record_type: value.get("type").and_then(Value::as_str).map(str::to_string),
        kind: value.get("kind").and_then(Value::as_str).map(str::to_string),
        turn_id: value.get("turn_id").and_then(Value::as_str).map(str::to_string),
    })
}

pub open spec fn is_text(o: Option<Seq<char>>, s: Seq<char>) -> bool {
    o == Some(s)
}

/// A line ends turn `turn_id` when its payload (the line itself when it has none) is a
/// `task_complete` for that turn, or when it is a `turn` record of kind `end`,
/// `completed` or `complete` for it.
pub open spec fn marks_turn_complete(f: RolloutFields, turn_id: Seq<char>) -> bool {
    let (payload_type, payload_turn_id) = if f.has_payload {
        (f.payload_type, f.payload_turn_id)
    } else {
        (f.record_type, f.turn_id)
    };
    (is_text(payload_type, "task_complete"@) && is_text(payload_turn_id, turn_id)) || (is_text(
        f.record_type,
        "turn"@,
    ) && (is_text(f.kind, "end"@) || is_text(f.kind, "completed"@) || is_text(f.kind, "complete"@))
        && is_text(f.turn_id, turn_id))
}

fn text_is(o: &Option<String>, s: &str) -> (r: bool)
    ensures
        r == is_text(text_of(*o), s@),
{
    match o {
        Some(x) => str_eq(x.as_str(), s),
        None => false,
    }
}

/// Whether a line of a rollout file ends turn `turn_id`; a line that is not JSON
/// ends nothing.
pub fn line_marks_turn_complete(line: &str, turn_id: &str) -> (r: bool)
    ensures
        r == match rollout_line_fields(line@) {
            None => false,
            Some(f) => marks_turn_complete(f, turn_id@),
        },
{
    let l = match parse_rollout_line(line) {
        Some(l) => l,
        None => return false,
    };
    let (payload_type, payload_turn_id) = if l.has_payload {
        (&l.payload_type, &l.payload_turn_id)
    } else {
        (&l.record_type, &l.turn_id)
    };
    if text_is(payload_type, "task_complete") && text_is(payload_turn_id, turn_id) {
        return true;
    }
    text_is(&l.record_type, "turn") && (text_is(&l.kind, "end") || text_is(&l.kind, "completed")
        || text_is(&l.kind, "complete")) && text_is(&l.turn_id, turn_id)
}

/// A `turn` record of kind `end`, `completed` or `complete` for the watched turn
/// ends it; so does a `task_complete` event for it (in the payload when the line has
/// one, else in the line itself); and a line that names no other turn id than
/// another turn's ends nothing.
pub proof fn law_turn_end_records_end_the_turn(f: RolloutFields, turn_id: Seq<char>)
    ensures
        f.record_type == Some("turn"@) && (f.kind == Some("end"@) || f.kind == Some("completed"@)
            || f.kind == Some("complete"@)) && f.turn_id == Some(turn_id) ==> marks_turn_complete(
            f,
            turn_id,
        ),
        f.has_payload && f.payload_type == Some("task_complete"@) && f.payload_turn_id == Some(turn_id)
            ==> marks_turn_complete(f, turn_id),
        !f.has_payload && f.record_type == Some("task_complete"@) && f.turn_id == Some(turn_id)
            ==> marks_turn_complete(f, turn_id),
        f.turn_id != Some(turn_id) && (f.has_payload ==> f.payload_turn_id != Some(turn_id))
            ==> !marks_turn_complete(f, turn_id),
        f.record_type == Some("turn"@) && f.kind != Some("end"@) && f.kind != Some("completed"@)
            && f.kind != Some("complete"@) && (f.has_payload ==> f.payload_type != Some(
            "task_complete"@,
        )) ==> !marks_turn_complete(f, turn_id),
{
    reveal_strlit("turn");
    reveal_strlit("task_complete");
    assert("turn"@.len() != "task_complete"@.len());
    assert("turn"@ != "task_complete"@);
}

/// A string parameter, trimmed; a blank one counts as missing.
pub open spec fn non_blank(o: Option<Seq<char>>) -> Option<Seq<char>> {
    match o {
        Some(s) => if trim(s).len() > 0 {
            Some(trim(s))
        } else {
            None
        },
        None => None,
    }
}

pub open spec fn opt_str(o: Option<&str>) -> Option<Seq<char>> {
    match o {
        Some(s) => Some(s@),
        None => None,
    }
}

fn non_blank_text(o: Option<&str>) -> (r: Option<String>)
    ensures
        match r {
            Some(s) => non_blank(opt_str(o)) == Some(s@),
            None => non_blank(opt_str(o)) is None,
        },
{
    match o {
        None => None,
        Some(s) => {
            let c = to_chars(s);
            let t = trim_chars(c.as_slice());
            if t.len() == 0 {
                None
            } else {
                Some(string_from_chars(t.as_slice()))
            }
        },
    }
}

/// The session and turn a browser request belongs to, from its `session_id` and
/// `turn_id` parameters; both must be non-blank strings.
pub fn session_turn(session_id: Option<&str>, turn_id: Option<&str>) -> (r: Option<(String, String)>)
    ensures
        match r {
            Some((s, t)) => non_blank(opt_str(session_id)) == Some(s@) && non_blank(opt_str(turn_id))
                == Some(t@),
            None => non_blank(opt_str(session_id)) is None || non_blank(opt_str(turn_id)) is None,
        },
{
    let s = match non_blank_text(session_id) {
        Some(s) => s,
        None => return None,
    };
    let t = match non_blank_text(turn_id) {
        Some(t) => t,
        None => return None,
    };
    Some((s, t))
}

/// The key a turn is watched under: session and turn on two lines.
pub fn observed_turn_key(session_id: &str, turn_id: &str) -> (r: String)
    ensures
        r@ == session_id@ + "\n"@ + turn_id@,
{
    let mut v = to_chars(session_id);
    append_str(&mut v, "\n");
    append_str(&mut v, turn_id);
    string_from_chars(v.as_slice())
}

/// The id of the `turnEnded` notification for a turn.
pub fn turn_ended_id(session_id: &str, turn_id: &str) -> (r: String)
    ensures
        r@ == "native-turn-ended:"@ + session_id@ + ":"@ + turn_id@,
{
    let mut v = to_chars("native-turn-ended:");
    append_str(&mut v, session_id);
    append_str(&mut v, ":");
    append_str(&mut v, turn_id);
    string_from_chars(v.as_slice())
}

/// A rollout file of a session: its name holds the session id and ends in `.jsonl`
/// or `.json`.
pub fn is_rollout_file_name(file_name: &str, session_id: &str) -> (r: bool)
    ensures
        r == (contains_seq(file_name@, session_id@) && (ends_with(file_name@, ".jsonl"@) || ends_with(
            file_name@,
            ".json"@,
        ))),
{
    let name = to_chars(file_name);
    let id = to_chars(session_id);
    let jsonl = to_chars(".jsonl");
    let json = to_chars(".json");
    chars_contains(name.as_slice(), id.as_slice()) && (chars_ends_with(name.as_slice(), jsonl.as_slice())
        || chars_ends_with(name.as_slice(), json.as_slice()))
}

/// Whether an error message from Chrome says that `chrome.runtime.getVersion` is
/// missing, which older Chrome builds answer to `getInfo`.
pub fn is_missing_get_version_message(message: Option<&str>) -> (r: bool)
    ensures
        r == (message matches Some(m) && contains_seq(m@, "chrome.runtime.getVersion is not a function"@)),
{
    match message {
        None => false,
        Some(m) => {
            let c = to_chars(m);
            let needle = to_chars("chrome.runtime.getVersion is not a function");
            chars_contains(c.as_slice(), needle.as_slice())
        },
    }
}

/// What the tracker knows of a watched turn: whether its rollout file has been
/// found, and how far that file has been read.
#[derive(Clone, Copy, Debug, PartialEq, Eq, Structural)]
pub struct TurnWatch {
    pub found: bool,
    pub offset: u64,
}

/// What happened to a watched turn: a scan began (and whether the turn outlived its
/// time to live), the rollout file was searched for, or the file was read on to
/// `offset`, with whether the turn's completion was seen.
#[derive(Clone, Copy, Debug, PartialEq, Eq, Structural)]
pub enum TurnEvent {
    Scan { expired: bool },
    Searched { found: bool },
    Drained { offset: u64, complete: bool },
}

/// What the tracker does next for the turn: stop watching it silently, look for its
/// rollout file, read the file on from `offset`, wait for the next scan, or stop
/// watching it and announce that it ended.
#[derive(Clone, Copy, Debug, PartialEq, Eq, Structural)]
pub enum TurnAction {
    Forget,
    Search,
    Drain { offset: u64 },
    Wait,
    Announce,
}

/// One step of watching a turn. An expired turn is forgotten; a turn whose rollout
/// file is unknown is searched for, and a newly found file is read from its start;
/// a known file is read on from where the last scan stopped.
pub open spec fn turn_next(w: TurnWatch, e: TurnEvent) -> (TurnWatch, TurnAction) {
    match e {
        TurnEvent::Scan { expired } => if expired {
            (w, TurnAction::Forget)
        } else if !w.found {
            (w, TurnAction::Search)
        } else {
            (w, TurnAction::Drain { offset: w.offset })
        },
        TurnEvent::Searched { found } => if found {
            (TurnWatch { found: true, offset: 0 }, TurnAction::Drain { offset: 0 })
        } else {
            (w, TurnAction::Wait)
        },
        TurnEvent::Drained { offset, complete } => (
            TurnWatch { found: w.found, offset },
            if complete {
                TurnAction::Announce
            } else {
                TurnAction::Wait
            },
        ),
    }
}

/// Takes one step of watching a turn.
pub fn step_turn(w: TurnWatch, e: TurnEvent) -> (r: (TurnWatch, TurnAction))
    ensures
        r == turn_next(w, e),
{
    match e {
        TurnEvent::Scan { expired } => if expired {
            (w, TurnAction::Forget)
        } else if !w.found {
            (w, TurnAction::Search)
        } else {
            (w, TurnAction::Drain { offset: w.offset })
        },
        TurnEvent::Searched { found } => if found {
            (TurnWatch { found: true, offset: 0 }, TurnAction::Drain { offset: 0 })
        } else {
            (w, TurnAction::Wait)
        },
        TurnEvent::Drained { offset, complete } => (
            TurnWatch { found: w.found, offset },
            if complete {
                TurnAction::Announce
            } else {
                TurnAction::Wait
            },
        ),
    }
}

} // verus!
