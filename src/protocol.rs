//! The line protocol spoken from a sandboxed child to its supervisor.
//!
//! Every event is one line of JSON in the externally tagged shape
//! (`{"Log":{"Info":"..."}}`, `{"Exit":"Ok"}`), terminated by a newline.
//! The text of every payload is written as a JSON string literal by
//! serde_json, which escapes control characters, so a payload never breaks
//! the line framing.
use vstd::prelude::*;
use vstd::string::*;

verus! {

/// What serde_json writes for a string: one JSON string literal.
pub uninterp spec fn json_quote(s: Seq<char>) -> Seq<char>;

/// What serde_json reads back from a text that should hold one JSON string.
pub uninterp spec fn json_unquote(t: Seq<char>) -> Option<Seq<char>>;

/// Relies on `serde_json::to_string` for a `str`: one JSON string literal, in
/// which a newline is escaped (`\n`) and never written raw. Serialising a
/// `str` into memory cannot fail.
#[verifier::external_body]
fn quote(s: &str) -> (r: String)
    ensures
        r@ == json_quote(s@),
        forall|i: int| 0 <= i < r@.len() ==> r@[i] != '\n',
{
    serde_json::to_string(s).unwrap_or_default()
}

/// Relies on `serde_json::from_str::<String>`: `Some` when the text is one JSON
/// string literal, and the literal that `serde_json::to_string` wrote for a
/// string reads back as that very string.
#[verifier::external_body]
fn unquote(t: &str) -> (r: Option<String>)
    ensures
        match r {
            Some(v) => json_unquote(t@) == Some(v@),
            None => json_unquote(t@) is None,
        },
        forall|s: Seq<char>| #[trigger] json_quote(s) == t@ ==> (r is Some && r->Some_0@ == s),
{
    serde_json::from_str::<String>(t).ok()
}

/// A message of the child's log.
#[derive(Clone, Debug)]
pub enum LogEvent {
    Info(String),
    Warn(String),
    Error(String),
}

/// How a module run ended, as the child reports it.
#[derive(Clone, Debug)]
pub enum ExitEvent {
    /// The module returned success (`"Ok"` on the wire).
    Success,
    /// The module failed with this message (`{"Err":...}` on the wire).
    Failure(String),
}

/// A message from the child to its supervisor.
///
/// `Database` and `Stdio` carry the request text that the owner of the
/// resource interprets; the child waits for one reply to each.
#[derive(Clone, Debug)]
pub enum Event {
    Log(LogEvent),
    Database(String),
    Stdio(String),
    Exit(ExitEvent),
}

/// The mathematical value of an event.
pub enum EventView {
    LogInfo(Seq<char>),
    LogWarn(Seq<char>),
    LogError(Seq<char>),
    Database(Seq<char>),
    Stdio(Seq<char>),
    ExitOk,
    ExitErr(Seq<char>),
}

impl View for Event {
    type V = EventView;

    open spec fn view(&self) -> EventView {
        match self {
            Event::Log(LogEvent::Info(s)) => EventView::LogInfo(s@),
            Event::Log(LogEvent::Warn(s)) => EventView::LogWarn(s@),
            Event::Log(LogEvent::Error(s)) => EventView::LogError(s@),
            Event::Database(s) => EventView::Database(s@),
            Event::Stdio(s) => EventView::Stdio(s@),
            Event::Exit(ExitEvent::Success) => EventView::ExitOk,
            Event::Exit(ExitEvent::Failure(s)) => EventView::ExitErr(s@),
        }
    }
}

/// Why a line from the child could not be taken as an event.
#[derive(Clone, Copy, Debug, PartialEq, Eq, Structural)]
pub enum RecvError {
    /// The stream ended before a line came.
    Closed,
    /// The line is not an event.
    Malformed,
}

/// The kinds of event that carry a text, in the order the decoder tries them.
#[derive(Clone, Copy, Debug, PartialEq, Eq)]
pub enum Tag {
    LogInfo,
    LogWarn,
    LogError,
    Database,
    Stdio,
    ExitErr,
}

/// The one line of an event without a text: a successful exit.
pub open spec fn exit_ok_line() -> Seq<char> {
    "{\"Exit\":\"Ok\"}"@
}

pub open spec fn tag_prefix(t: Tag) -> Seq<char> {
    match t {
        Tag::LogInfo => "{\"Log\":{\"Info\":"@,
        Tag::LogWarn => "{\"Log\":{\"Warn\":"@,
        Tag::LogError => "{\"Log\":{\"Error\":"@,
        Tag::Database => "{\"Database\":"@,
        Tag::Stdio => "{\"Stdio\":"@,
        Tag::ExitErr => "{\"Exit\":{\"Err\":"@,
    }
}

pub open spec fn tag_suffix(t: Tag) -> Seq<char> {
    match t {
        Tag::LogInfo | Tag::LogWarn | Tag::LogError | Tag::ExitErr => "}}"@,
        Tag::Database | Tag::Stdio => "}"@,
    }
}

pub open spec fn tagged(t: Tag, s: Seq<char>) -> EventView {
    match t {
        Tag::LogInfo => EventView::LogInfo(s),
        Tag::LogWarn => EventView::LogWarn(s),
        Tag::LogError => EventView::LogError(s),
        Tag::Database => EventView::Database(s),
        Tag::Stdio => EventView::Stdio(s),
        Tag::ExitErr => EventView::ExitErr(s),
    }
}

/// A line (without its newline) that holds `body` between the prefix and the
/// suffix of tag `t`.
pub open spec fn framed(t: Tag, body: Seq<char>) -> Seq<char> {
    tag_prefix(t) + body + tag_suffix(t)
}

/// The text of an event's line, without the newline.
pub open spec fn event_line(e: EventView) -> Seq<char> {
    match e {
        EventView::LogInfo(s) => framed(Tag::LogInfo, json_quote(s)),
        EventView::LogWarn(s) => framed(Tag::LogWarn, json_quote(s)),
        EventView::LogError(s) => framed(Tag::LogError, json_quote(s)),
        EventView::Database(s) => framed(Tag::Database, json_quote(s)),
        EventView::Stdio(s) => framed(Tag::Stdio, json_quote(s)),
        EventView::ExitOk => exit_ok_line(),
        EventView::ExitErr(s) => framed(Tag::ExitErr, json_quote(s)),
    }
}

/// `l` starts with the prefix and ends with the suffix of `t`, apart.
pub open spec fn has_frame(l: Seq<char>, t: Tag) -> bool {
    let p = tag_prefix(t);
    let s = tag_suffix(t);
    &&& p.len() + s.len() <= l.len()
    &&& l.subrange(0, p.len() as int) == p
    &&& l.subrange(l.len() - s.len(), l.len() as int) == s
}

/// What lies between the prefix and the suffix of `t`.
pub open spec fn frame_body(l: Seq<char>, t: Tag) -> Seq<char> {
    l.subrange(tag_prefix(t).len() as int, l.len() - tag_suffix(t).len())
}

/// What a line framed by `t` decodes to: its body read as a JSON string.
pub open spec fn decode_tagged(l: Seq<char>, t: Tag) -> Option<EventView> {
    match json_unquote(frame_body(l, t)) {
        Some(s) => Some(tagged(t, s)),
        None => None,
    }
}

/// What a line (without its newline) decodes to: `None` for a malformed line.
pub open spec fn decode_line(l: Seq<char>) -> Option<EventView> {
    if l == exit_ok_line() {
        Some(EventView::ExitOk)
    } else if has_frame(l, Tag::LogInfo) {
        decode_tagged(l, Tag::LogInfo)
    } else if has_frame(l, Tag::LogWarn) {
        decode_tagged(l, Tag::LogWarn)
    } else if has_frame(l, Tag::LogError) {
        decode_tagged(l, Tag::LogError)
    } else if has_frame(l, Tag::Database) {
        decode_tagged(l, Tag::Database)
    } else if has_frame(l, Tag::Stdio) {
        decode_tagged(l, Tag::Stdio)
    } else if has_frame(l, Tag::ExitErr) {
        decode_tagged(l, Tag::ExitErr)
    } else {
        None
    }
}

/// A buffer as read from a stream up to and including a newline: the line
/// without that newline.
pub open spec fn strip_newline(b: Seq<char>) -> Seq<char> {
    if b.len() > 0 && b.last() == '\n' {
        b.drop_last()
    } else {
        b
    }
}

/// What one read of a line from the child yields.
pub open spec fn recv_spec(b: Seq<char>) -> Result<EventView, RecvError> {
    if b.len() == 0 {
        Err(RecvError::Closed)
    } else {
        match decode_line(strip_newline(b)) {
            Some(e) => Ok(e),
            None => Err(RecvError::Malformed),
        }
    }
}

fn has_prefix(l: &str, p: &str) -> (r: bool)
    ensures
        r == (p@.len() <= l@.len() && l@.subrange(0, p@.len() as int) == p@),
{
    let n = p.unicode_len();
    let m = l.unicode_len();
    if n > m {
        return false;
    }
    let mut i: usize = 0;
    while i < n
        invariant
            n == p@.len(),
            m == l@.len(),
            n <= m,
            i <= n,
            forall|j: int| 0 <= j < i ==> l@[j] == p@[j],
        decreases n - i,
    {
        if l.get_char(i) != p.get_char(i) {
            assert(l@.subrange(0, n as int)[i as int] != p@[i as int]);
            return false;
        }
        i += 1;
    }
    assert(l@.subrange(0, n as int) =~= p@);
    true
}

fn has_suffix(l: &str, s: &str) -> (r: bool)
    ensures
        r == (s@.len() <= l@.len() && l@.subrange(l@.len() - s@.len(), l@.len() as int) == s@),
{
    let n = s.unicode_len();
    let m = l.unicode_len();
    if n > m {
        return false;
    }
    let d: usize = m - n;
    let mut i: usize = 0;
    while i < n
        invariant
            n == s@.len(),
            m == l@.len(),
            n <= m,
            d == m - n,
            i <= n,
            forall|j: int| 0 <= j < i ==> l@[d + j] == s@[j],
        decreases n - i,
    {
        if l.get_char(d + i) != s.get_char(i) {
            assert(l@.subrange(d as int, m as int)[i as int] != s@[i as int]);
            return false;
        }
        i += 1;
    }
    assert(l@.subrange(d as int, m as int) =~= s@);
    true
}


/// The prefixes of distinct tags differ within both, and the fixed line of a
/// successful exit is none of the framed lines: a framed line has exactly one
/// frame, and its body is what was framed.
proof fn lemma_frame_unique(t: Tag, body: Seq<char>)
    ensures
        has_frame(framed(t, body), t),
        frame_body(framed(t, body), t) == body,
        forall|u: Tag| u != t ==> !has_frame(framed(t, body), u),
        framed(t, body) != exit_ok_line(),
{
    reveal_strlit("{\"Exit\":\"Ok\"}");
    reveal_strlit("{\"Log\":{\"Info\":");
    reveal_strlit("{\"Log\":{\"Warn\":");
    reveal_strlit("{\"Log\":{\"Error\":");
    reveal_strlit("{\"Database\":");
    reveal_strlit("{\"Stdio\":");
    reveal_strlit("{\"Exit\":{\"Err\":");
    reveal_strlit("}}");
    reveal_strlit("}");
    let l = framed(t, body);
    let p = tag_prefix(t);
    let s = tag_suffix(t);
    assert(l.subrange(0, p.len() as int) =~= p);
    assert(l.subrange(l.len() - s.len(), l.len() as int) =~= s);
    assert(frame_body(l, t) =~= body);
    assert forall|u: Tag| u != t implies !has_frame(framed(t, body), u) by {
        let q = tag_prefix(u);
        if has_frame(l, u) {
            let k: int = if (t is Database || t is Stdio || u is Database || u is Stdio
                || ((t is ExitErr) != (u is ExitErr))) {
                2
            } else {
                9
            };
            assert(l.subrange(0, q.len() as int)[k] == q[k]);
            assert(l[k] == p[k]);
        }
    }
    if l == exit_ok_line() {
        let k: int = if t is ExitErr { 8 } else { 2 };
        assert(l[k] == p[k]);
    }
}


fn prefix_of(t: Tag) -> (r: &'static str)
    ensures
        r@ == tag_prefix(t),
{
    match t {
        Tag::LogInfo => "{\"Log\":{\"Info\":",
        Tag::LogWarn => "{\"Log\":{\"Warn\":",
        Tag::LogError => "{\"Log\":{\"Error\":",
        Tag::Database => "{\"Database\":",
        Tag::Stdio => "{\"Stdio\":",
        Tag::ExitErr => "{\"Exit\":{\"Err\":",
    }
}

fn suffix_of(t: Tag) -> (r: &'static str)
    ensures
        r@ == tag_suffix(t),
{
    match t {
        Tag::LogInfo | Tag::LogWarn | Tag::LogError | Tag::ExitErr => "}}",
        Tag::Database | Tag::Stdio => "}",
    }
}

fn event_of(t: Tag, s: String) -> (e: Event)
    ensures
        e@ == tagged(t, s@),
{
    match t {
        Tag::LogInfo => Event::Log(LogEvent::Info(s)),
        Tag::LogWarn => Event::Log(LogEvent::Warn(s)),
        Tag::LogError => Event::Log(LogEvent::Error(s)),
        Tag::Database => Event::Database(s),
        Tag::Stdio => Event::Stdio(s),
        Tag::ExitErr => Event::Exit(ExitEvent::Failure(s)),
    }
}

/// Writes `body` as a JSON string between the prefix and suffix of `t`.
fn frame(t: Tag, body: &str) -> (r: String)
    ensures
        r@ == framed(t, json_quote(body@)),
        forall|i: int| 0 <= i < r@.len() ==> r@[i] != '\n',
{
    proof {
        reveal_strlit("{\"Log\":{\"Info\":");
        reveal_strlit("{\"Log\":{\"Warn\":");
        reveal_strlit("{\"Log\":{\"Error\":");
        reveal_strlit("{\"Database\":");
        reveal_strlit("{\"Stdio\":");
        reveal_strlit("{\"Exit\":{\"Err\":");
        reveal_strlit("}}");
        reveal_strlit("}");
    }
    let mut r = prefix_of(t).to_owned();
    let q = quote(body);
    r.append(q.as_str());
    r.append(suffix_of(t));
    r
}

/// Encodes an event as one line of the protocol, newline included.
pub fn encode_event(e: &Event) -> (r: String)
    ensures
        r@ == event_line(e@).push('\n'),
        forall|i: int| 0 <= i < r@.len() - 1 ==> r@[i] != '\n',
{
    proof {
        reveal_strlit("{\"Exit\":\"Ok\"}");
    }
    let mut r = match e {
        Event::Log(LogEvent::Info(s)) => frame(Tag::LogInfo, s.as_str()),
        Event::Log(LogEvent::Warn(s)) => frame(Tag::LogWarn, s.as_str()),
        Event::Log(LogEvent::Error(s)) => frame(Tag::LogError, s.as_str()),
        Event::Database(s) => frame(Tag::Database, s.as_str()),
        Event::Stdio(s) => frame(Tag::Stdio, s.as_str()),
        Event::Exit(ExitEvent::Success) => "{\"Exit\":\"Ok\"}".to_owned(),
        Event::Exit(ExitEvent::Failure(s)) => frame(Tag::ExitErr, s.as_str()),
    };
    let ghost before = r@;
    r.append("\n");
    proof {
        reveal_strlit("\n");
        assert(r@ =~= before.push('\n'));
    }
    r
}

/// Decodes the body of a line known to carry the frame of `t`.
fn decode_framed(l: &str, t: Tag) -> (r: Option<Event>)
    requires
        has_frame(l@, t),
    ensures
        match r {
            Some(e) => decode_tagged(l@, t) == Some(e@),
            None => decode_tagged(l@, t) is None,
        },
        forall|s: Seq<char>| l@ == #[trigger] framed(t, json_quote(s)) ==> (r is Some && r->Some_0@ == tagged(t, s)),
{
    let n = l.unicode_len();
    let from = prefix_of(t).unicode_len();
    let to = n - suffix_of(t).unicode_len();
    let body = l.substring_char(from, to);
    assert(body@ == frame_body(l@, t));
    proof {
        assert forall|s: Seq<char>| l@ == #[trigger] framed(t, json_quote(s)) implies json_quote(s) == body@ by {
            lemma_frame_unique(t, json_quote(s));
        }
    }
    match unquote(body) {
        Some(s) => Some(event_of(t, s)),
        None => None,
    }
}

fn frame_matches(l: &str, t: Tag) -> (r: bool)
    ensures
        r == has_frame(l@, t),
{
    let p = prefix_of(t);
    let s = suffix_of(t);
    p.unicode_len() <= l.unicode_len() && l.unicode_len() - p.unicode_len() >= s.unicode_len()
        && has_prefix(l, p) && has_suffix(l, s)
}


/// The frame that the decoder tries at position `i`.
pub open spec fn tag_at(i: int) -> Tag {
    if i == 0 {
        Tag::LogInfo
    } else if i == 1 {
        Tag::LogWarn
    } else if i == 2 {
        Tag::LogError
    } else if i == 3 {
        Tag::Database
    } else if i == 4 {
        Tag::Stdio
    } else {
        Tag::ExitErr
    }
}

/// The frame and text of an event that carries one.
pub open spec fn event_frame(e: EventView) -> Option<(Tag, Seq<char>)> {
    match e {
        EventView::LogInfo(s) => Some((Tag::LogInfo, s)),
        EventView::LogWarn(s) => Some((Tag::LogWarn, s)),
        EventView::LogError(s) => Some((Tag::LogError, s)),
        EventView::Database(s) => Some((Tag::Database, s)),
        EventView::Stdio(s) => Some((Tag::Stdio, s)),
        EventView::ExitOk => None,
        EventView::ExitErr(s) => Some((Tag::ExitErr, s)),
    }
}

/// Decodes one line of the protocol, without its newline.
///
/// The line of every event decodes back to that event; anything that is not
/// an event is `Malformed`.
pub fn decode_event(l: &str) -> (r: Result<Event, RecvError>)
    ensures
        match r {
            Ok(e) => decode_line(l@) == Some(e@),
            Err(err) => decode_line(l@) is None && err == RecvError::Malformed,
        },
        forall|e: EventView| l@ == #[trigger] event_line(e) ==> (r is Ok && r->Ok_0@ == e),
{
    if l.unicode_len() == 13 && has_prefix(l, "{\"Exit\":\"Ok\"}") {
        proof {
            reveal_strlit("{\"Exit\":\"Ok\"}");
            assert(l@ =~= exit_ok_line());
            assert forall|e: EventView| l@ == #[trigger] event_line(e) implies e == EventView::ExitOk by {
                if let Some((u, s)) = event_frame(e) {
                    lemma_frame_unique(u, json_quote(s));
                }
            }
        }
        return Ok(Event::Exit(ExitEvent::Success));
    }
    proof {
        reveal_strlit("{\"Exit\":\"Ok\"}");
        if l@ == exit_ok_line() {
            assert(l@.subrange(0, 13) =~= l@);
        }
    }
    let order = [Tag::LogInfo, Tag::LogWarn, Tag::LogError, Tag::Database, Tag::Stdio, Tag::ExitErr];
    let mut i: usize = 0;
    while i < 6
        invariant
            i <= 6,
            l@ != exit_ok_line(),
            forall|j: int| 0 <= j < 6 ==> order[j] == tag_at(j),
            forall|j: int| 0 <= j < i ==> !has_frame(l@, #[trigger] tag_at(j)),
        decreases 6 - i,
    {
        let t = order[i];
        if frame_matches(l, t) {
            let r = match decode_framed(l, t) {
                Some(e) => Ok(e),
                None => Err(RecvError::Malformed),
            };
            assert(decode_line(l@) == decode_tagged(l@, t)) by {
                assert(!has_frame(l@, tag_at(0)) || i == 0);
                assert(!has_frame(l@, tag_at(1)) || i <= 1);
                assert(!has_frame(l@, tag_at(2)) || i <= 2);
                assert(!has_frame(l@, tag_at(3)) || i <= 3);
                assert(!has_frame(l@, tag_at(4)) || i <= 4);
            }
            proof {
                assert forall|e: EventView| l@ == #[trigger] event_line(e) implies (r is Ok && r->Ok_0@ == e) by {
                    assert(event_frame(e) is Some);
                    let (u, s) = event_frame(e)->Some_0;
                    lemma_frame_unique(u, json_quote(s));
                    assert(u == t);
                    assert(l@ == framed(t, json_quote(s)));
                    assert(tagged(t, s) == e);
                }
            }
            return r;
        }
        i += 1;
    }
    assert(!has_frame(l@, tag_at(0)));
    assert(!has_frame(l@, tag_at(1)));
    assert(!has_frame(l@, tag_at(2)));
    assert(!has_frame(l@, tag_at(3)));
    assert(!has_frame(l@, tag_at(4)));
    assert(!has_frame(l@, tag_at(5)));
    proof {
        assert forall|e: EventView| l@ == #[trigger] event_line(e) implies false by {
            assert(event_frame(e) is Some);
            let (u, s) = event_frame(e)->Some_0;
            lemma_frame_unique(u, json_quote(s));
        }
    }
    Err(RecvError::Malformed)
}


/// Takes one line out of what a read up to a newline returned: an empty
/// read means the stream closed before a line came.
pub fn take_line(b: &str) -> (r: Result<&str, RecvError>)
    ensures
        b@.len() == 0 ==> r == Err::<&str, RecvError>(RecvError::Closed),
        b@.len() > 0 ==> (r is Ok && r->Ok_0@ == strip_newline(b@)),
{
    let n = b.unicode_len();
    if n == 0 {
        Err(RecvError::Closed)
    } else if b.get_char(n - 1) == '\n' {
        let l = b.substring_char(0, n - 1);
        assert(l@ =~= strip_newline(b@));
        Ok(l)
    } else {
        assert(b@.subrange(0, n as int) =~= b@);
        Ok(b.substring_char(0, n))
    }
}

/// Reads one event out of what a read up to a newline returned.
///
/// The line that `encode_event` wrote for an event reads back as that event.
pub fn recv_event(b: &str) -> (r: Result<Event, RecvError>)
    ensures
        match r {
            Ok(e) => recv_spec(b@) == Ok::<EventView, RecvError>(e@),
            Err(err) => recv_spec(b@) == Err::<EventView, RecvError>(err),
        },
        forall|e: EventView| b@ == #[trigger] event_line(e).push('\n') ==> (r is Ok && r->Ok_0@ == e),
{
    match take_line(b) {
        Err(err) => Err(err),
        Ok(l) => {
            proof {
                assert forall|e: EventView| b@ == #[trigger] event_line(e).push('\n') implies l@ == event_line(e) by {
                    assert(event_line(e).push('\n').drop_last() =~= event_line(e));
                }
            }
            decode_event(l)
        },
    }
}

} // verus!
