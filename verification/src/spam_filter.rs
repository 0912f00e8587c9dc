//! What to do with an incoming event, as the user's filter script rules.
//!
//! The script is asked only about events that are shown in feeds and whose
//! author the user does not follow; everything else is allowed unasked.

use vstd::prelude::*;
use crate::script::{
    call_script, compile_script, constant, new_scope, push_constant_int, push_flag, push_int,
    push_text, scope_entries, variable, ScriptEntry, ScriptValue,
};

verus! {

/// A filter's ruling on an event.
#[derive(Clone, Copy, Debug, PartialEq, Eq, Hash, Structural)]
pub enum EventFilterAction {
    Deny,
    Allow,
    MuteAuthor,
}

/// The part of the client that asks for a ruling.
#[derive(Clone, Copy, Debug, PartialEq, Eq, Structural)]
pub enum EventFilterCaller {
    Process,
    Thread,
    Inbox,
    Global,
}

/// What is on record about an event's author.
pub struct Author {
    /// Whether the author's NIP-05 name has been checked and holds.
    pub nip05_valid: bool,
    /// The best name known for the author.
    pub name: String,
    /// When the author was first seen, in seconds since the epoch.
    pub first_encountered: i64,
}

/// An event's author, kind and content, and where its author stands with
/// the user.
pub struct Note {
    /// The author's public key in hexadecimal.
    pub pubkey: String,
    pub kind: u32,
    /// Whether events of this kind are shown in feeds.
    pub feed_displayable: bool,
    pub content: String,
    pub author: Option<Author>,
    pub muted: bool,
    pub followed: bool,
}

/// An event as the filter is handed it.
pub struct FilterEvent {
    /// The event's identifier in hexadecimal.
    pub id: String,
    /// The proof of work that the event carries.
    pub pow: u8,
    /// Whether the event is a gift wrap.
    pub giftwrap: bool,
    /// The event itself.
    pub note: Note,
    /// For a gift wrap that could be opened, what was inside.
    pub rumor: Option<Note>,
}

/// The ruling that a script's return code stands for.
pub open spec fn ruling(code: int) -> EventFilterAction {
    if code == 0 {
        EventFilterAction::Deny
    } else if code == 2 {
        EventFilterAction::MuteAuthor
    } else {
        EventFilterAction::Allow
    }
}

/// The ruling that a script's run comes to: its code's, or to allow where
/// it failed.
pub open spec fn ruling_of(outcome: Result<i64, Box<rhai::EvalAltResult>>) -> EventFilterAction {
    match outcome {
        Ok(code) => ruling(code as int),
        Err(_) => EventFilterAction::Allow,
    }
}

/// The name under which a script knows a caller.
pub open spec fn caller_text(caller: EventFilterCaller) -> Seq<char> {
    match caller {
        EventFilterCaller::Process => "Process"@,
        EventFilterCaller::Thread => "Thread"@,
        EventFilterCaller::Inbox => "Inbox"@,
        EventFilterCaller::Global => "Global"@,
    }
}

/// The seconds from `since` to `now`, kept within what an `i64` holds.
pub open spec fn seconds_between(now: i64, since: i64) -> int {
    if now - since > i64::MAX {
        i64::MAX as int
    } else if now - since < i64::MIN {
        i64::MIN as int
    } else {
        now - since
    }
}

/// The note that a ruling is about: a gift wrap is judged by what is
/// inside, and not at all if it could not be opened.
pub open spec fn judged(event: FilterEvent) -> Option<Note> {
    if event.giftwrap {
        event.rumor
    } else {
        Some(event.note)
    }
}

/// Whether the script is asked about a note.
pub open spec fn is_asked(note: Note) -> bool {
    note.feed_displayable && !note.followed
}

/// What a script is shown of a note, in this order.
pub open spec fn script_scope(
    id: Seq<char>,
    note: Note,
    pow: u8,
    caller: EventFilterCaller,
    spamsafe: bool,
    now: i64,
) -> Seq<ScriptEntry> {
    seq![
        variable("id"@, ScriptValue::Text(id)),
        variable("pubkey"@, ScriptValue::Text(note.pubkey@)),
        variable("kind"@, ScriptValue::Int(note.kind as i64)),
        variable("content"@, ScriptValue::Text(note.content@)),
        variable(
            "nip05valid"@,
            ScriptValue::Flag(
                match note.author {
                    Some(author) => author.nip05_valid,
                    None => false,
                },
            ),
        ),
        variable(
            "name"@,
            ScriptValue::Text(
                match note.author {
                    Some(author) => author.name@,
                    None => Seq::<char>::empty(),
                },
            ),
        ),
        variable("caller"@, ScriptValue::Text(caller_text(caller))),
        variable(
            "seconds_known"@,
            ScriptValue::Int(
                match note.author {
                    Some(author) => seconds_between(now, author.first_encountered) as i64,
                    None => 0,
                },
            ),
        ),
        variable("pow"@, ScriptValue::Int(pow as i64)),
        variable("spamsafe"@, ScriptValue::Flag(spamsafe)),
        variable("muted"@, ScriptValue::Flag(note.muted)),
        constant("DENY"@, 0),
        constant("ALLOW"@, 1),
        constant("MUTE"@, 2),
    ]
}

/// Reads a script's return code: 0 denies, 2 mutes the author, and 1 or
/// anything else allows.
pub fn action_from_code(code: i64) -> (action: EventFilterAction)
    ensures
        action == ruling(code as int),
{
    match code {
        0 => EventFilterAction::Deny,
        1 => EventFilterAction::Allow,
        2 => EventFilterAction::MuteAuthor,
        _ => EventFilterAction::Allow,
    }
}

/// Reads a script's run: a script that fails allows.
pub fn action_from_outcome(outcome: Result<i64, Box<rhai::EvalAltResult>>) -> (action:
    EventFilterAction)
    ensures
        action == ruling_of(outcome),
{
    match outcome {
        Ok(code) => action_from_code(code),
        Err(_) => EventFilterAction::Allow,
    }
}

/// The name under which a script knows a caller.
pub fn caller_name(caller: EventFilterCaller) -> (name: &'static str)
    ensures
        name@ == caller_text(caller),
{
    match caller {
        EventFilterCaller::Process => "Process",
        EventFilterCaller::Thread => "Thread",
        EventFilterCaller::Inbox => "Inbox",
        EventFilterCaller::Global => "Global",
    }
}

/// The seconds for which an author has been known at `now`.
pub fn seconds_known(now: i64, first_encountered: i64) -> (seconds: i64)
    ensures
        seconds == seconds_between(now, first_encountered),
{
    match now.checked_sub(first_encountered) {
        Some(seconds) => seconds,
        None => if first_encountered < 0 {
            i64::MAX
        } else {
            i64::MIN
        },
    }
}

/// Reads a compilation's outcome: a script that compiled is the filter, and
/// one that did not leaves none.
pub fn script_from(outcome: Result<rhai::AST, rhai::ParseError>) -> (filter: Option<rhai::AST>)
    ensures
        match outcome {
            Ok(ast) => filter == Some(ast),
            Err(_) => filter is None,
        },
{
    match outcome {
        Ok(ast) => Some(ast),
        Err(_) => None,
    }
}

/// Compiles the user's filter script, if there is one. `None` where there
/// is no script or it does not compile.
pub fn load_script(engine: &rhai::Engine, script: Option<&str>) -> (filter: Option<rhai::AST>)
    ensures
        script is None ==> filter is None,
{
    match script {
        None => None,
        Some(text) => script_from(compile_script(engine, text)),
    }
}

/// Lays out what the script is shown of a note.
pub fn build_scope(
    id: String,
    note: Note,
    pow: u8,
    caller: EventFilterCaller,
    spamsafe: bool,
    now: i64,
) -> (scope: rhai::Scope<'static>)
    ensures
        scope_entries(scope) == script_scope(id@, note, pow, caller, spamsafe, now),
{
    let (nip05_valid, name, known) = match note.author {
        Some(author) => (
            author.nip05_valid,
            author.name,
            seconds_known(now, author.first_encountered),
        ),
        None => (false, String::new(), 0i64),
    };
    let mut scope = new_scope();
    push_text(&mut scope, "id", id);
    push_text(&mut scope, "pubkey", note.pubkey);
    push_int(&mut scope, "kind", note.kind as i64);
    push_text(&mut scope, "content", note.content);
    push_flag(&mut scope, "nip05valid", nip05_valid);
    push_text(&mut scope, "name", name);
    push_text(&mut scope, "caller", caller_name(caller).to_string());
    push_int(&mut scope, "seconds_known", known);
    push_int(&mut scope, "pow", pow as i64);
    push_flag(&mut scope, "spamsafe", spamsafe);
    push_flag(&mut scope, "muted", note.muted);
    push_constant_int(&mut scope, "DENY", 0);
    push_constant_int(&mut scope, "ALLOW", 1);
    push_constant_int(&mut scope, "MUTE", 2);
    scope
}

/// Picks what a ruling is about: the judged note, with the identifier and
/// the proof of work of the event itself. For a gift wrap the note is what
/// was inside, and there is none if it could not be opened.
pub fn judged_note(event: FilterEvent) -> (r: Option<(String, Note, u8)>)
    ensures
        r == match judged(event) {
            Some(note) => Some((event.id, note, event.pow)),
            None => None,
        },
{
    if event.giftwrap {
        match event.rumor {
            Some(rumor) => Some((event.id, rumor, event.pow)),
            None => None,
        }
    } else {
        Some((event.id, event.note, event.pow))
    }
}

/// Lays out the scope for a note that the script is asked about. A note
/// of a kind that feeds do not show, or of an author whom the user
/// follows, gets none.
pub fn asked_scope(
    id: String,
    note: Note,
    pow: u8,
    caller: EventFilterCaller,
    spamsafe: bool,
    now: i64,
) -> (r: Option<rhai::Scope<'static>>)
    ensures
        match r {
            Some(scope) => is_asked(note) && scope_entries(scope) == script_scope(
                id@,
                note,
                pow,
                caller,
                spamsafe,
                now,
            ),
            None => !is_asked(note),
        },
{
    if !note.feed_displayable {
        return None;
    }
    if note.followed {
        return None;
    }
    Some(build_scope(id, note, pow, caller, spamsafe, now))
}

/// Runs the script's `filter` function on a scope and reads its ruling.
/// Without a script everything is allowed.
fn filter_with_script(engine: &rhai::Engine, filter: Option<&rhai::AST>, scope: rhai::Scope<'static>)
    -> (action: EventFilterAction)
    ensures
        filter is None ==> action == EventFilterAction::Allow,
{
    let mut scope = scope;
    match filter {
        None => EventFilterAction::Allow,
        Some(ast) => action_from_outcome(call_script(engine, &mut scope, ast, "filter")),
    }
}

/// Rules on one note. A note of a kind that feeds do not show, or of an
/// author whom the user follows, is allowed unasked.
fn inner_filter(
    engine: &rhai::Engine,
    filter: Option<&rhai::AST>,
    id: String,
    note: Note,
    pow: u8,
    caller: EventFilterCaller,
    spamsafe: bool,
    now: i64,
) -> (action: EventFilterAction)
    ensures
        filter is None || !is_asked(note) ==> action == EventFilterAction::Allow,
{
    match asked_scope(id, note, pow, caller, spamsafe, now) {
        Some(scope) => filter_with_script(engine, filter, scope),
        None => EventFilterAction::Allow,
    }
}

/// Rules on an event. Without a script, and for a gift wrap that could
/// not be opened, the ruling is to allow. A gift wrap is judged by what is
/// inside, under its own identifier and proof of work.
pub fn filter_event(
    engine: &rhai::Engine,
    filter: Option<&rhai::AST>,
    event: FilterEvent,
    caller: EventFilterCaller,
    spamsafe: bool,
    now: i64,
) -> (action: EventFilterAction)
    ensures
        filter is None ==> action == EventFilterAction::Allow,
        judged(event) is None ==> action == EventFilterAction::Allow,
        judged(event) matches Some(note) ==> !is_asked(note) ==> action
            == EventFilterAction::Allow,
{
    if filter.is_none() {
        return EventFilterAction::Allow;
    }
    match judged_note(event) {
        Some((id, note, pow)) => inner_filter(engine, filter, id, note, pow, caller, spamsafe, now),
        None => EventFilterAction::Allow,
    }
}

} // verus!
