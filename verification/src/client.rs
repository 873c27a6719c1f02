//! The client's side of the daemon protocol: splitting and reading event
//! streams, error answers, request paths and the decisions of a connect.

use vstd::prelude::*;
use vstd::slice::*;
use vstd::string::*;

use crate::error::DaemonError;
use crate::ids::{id_text, Uuid};
use crate::json::{lookup, Json, JsonValue};
use crate::protocol::{DaemonMeta, DAEMON_PROTOCOL_VERSION};
use crate::recovery::{lossy_text, read_lossy};
use crate::text::{after_prefix, begins_with, chars_of, decimal, parse_number, parsed_number};
use crate::text::{show_u64, show_usize, string_of, texts, trim, trimmed};

verus! {

/// The end of the first frame at or after a position: the place behind the
/// blank line that ends it.
pub open spec fn boundary_from(buf: Seq<u8>, from: int) -> Option<int>
    decreases buf.len() - from,
{
    if from < 0 || from + 1 >= buf.len() {
        None
    } else if buf[from] == 10 && buf[from + 1] == 10 {
        Some(from + 2)
    } else {
        boundary_from(buf, from + 1)
    }
}

/// Splits an event stream at the blank line between frames: gives the end of
/// the first frame.
pub fn find_event_boundary(buf: &[u8]) -> (r: Option<usize>)
    ensures
        match r {
            Some(end) => boundary_from(buf@, 0) == Some(end as int) && 2 <= end <= buf@.len(),
            None => boundary_from(buf@, 0) is None,
        },
{
    let mut i: usize = 0;
    while i < buf.len() && i + 1 < buf.len()
        invariant
            i <= buf@.len(),
            boundary_from(buf@, 0) == boundary_from(buf@, i as int),
        decreases buf.len() - i,
    {
        if buf[i] == 10 && buf[i + 1] == 10 {
            return Some(i + 2);
        }
        i += 1;
    }
    None
}

proof fn boundary_within(buf: Seq<u8>, from: int)
    requires
        0 <= from,
    ensures
        boundary_from(buf, from) matches Some(end) ==> from + 2 <= end <= buf.len(),
    decreases buf.len() - from,
{
    if from + 1 < buf.len() {
        boundary_within(buf, from + 1);
    }
}

/// The complete frames of an event stream.
pub open spec fn frames(buf: Seq<u8>) -> Seq<Seq<u8>>
    decreases buf.len(),
{
    match boundary_from(buf, 0) {
        Some(end) => if 0 < end <= buf.len() {
            seq![buf.take(end)] + frames(buf.skip(end))
        } else {
            Seq::empty()
        },
        None => Seq::empty(),
    }
}

/// What stands behind the complete frames: the beginning of the next one.
pub open spec fn unfinished(buf: Seq<u8>) -> Seq<u8>
    decreases buf.len(),
{
    match boundary_from(buf, 0) {
        Some(end) => if 0 < end <= buf.len() {
            unfinished(buf.skip(end))
        } else {
            buf
        },
        None => buf,
    }
}

/// The bytes of frames, one after the other.
pub open spec fn joined(list: Seq<Seq<u8>>) -> Seq<u8>
    decreases list.len(),
{
    if list.len() == 0 {
        Seq::empty()
    } else {
        list[0] + joined(list.drop_first())
    }
}

/// Nothing is lost or made up: the frames and what stands behind them are the
/// stream.
pub proof fn frames_are_the_stream(buf: Seq<u8>)
    ensures
        joined(frames(buf)) + unfinished(buf) == buf,
    decreases buf.len(),
{
    boundary_within(buf, 0);
    match boundary_from(buf, 0) {
        Some(end) => {
            frames_are_the_stream(buf.skip(end));
            let rest = frames(buf.skip(end));
            assert((seq![buf.take(end)] + rest).drop_first() =~= rest);
            assert(buf.take(end) + joined(rest) + unfinished(buf.skip(end)) =~= buf.take(end) + (
            joined(rest) + unfinished(buf.skip(end))));
            assert(buf.take(end) + buf.skip(end) =~= buf);
        },
        None => {
            assert(Seq::<u8>::empty() + buf =~= buf);
        },
    }
}

proof fn boundary_of_longer(a: Seq<u8>, b: Seq<u8>, from: int)
    requires
        0 <= from,
        boundary_from(a, from) is Some,
    ensures
        boundary_from(a + b, from) == boundary_from(a, from),
    decreases a.len() - from,
{
    assert((a + b)[from] == a[from] && (a + b)[from + 1] == a[from + 1]);
    if !(a[from] == 10 && a[from + 1] == 10) {
        boundary_of_longer(a, b, from + 1);
    }
}

/// How a stream is cut into chunks makes no difference: reading a chunk and
/// then another behind what the first left over gives the frames of both
/// together.
pub proof fn chunking_is_irrelevant(a: Seq<u8>, b: Seq<u8>)
    ensures
        frames(a + b) == frames(a) + frames(unfinished(a) + b),
        unfinished(a + b) == unfinished(unfinished(a) + b),
    decreases a.len(),
{
    boundary_within(a, 0);
    match boundary_from(a, 0) {
        Some(end) => {
            boundary_of_longer(a, b, 0);
            let rest = a.skip(end);
            chunking_is_irrelevant(rest, b);
            assert((a + b).take(end) =~= a.take(end));
            assert((a + b).skip(end) =~= rest + b);
            assert(seq![a.take(end)] + frames(rest) + frames(unfinished(rest) + b) =~= seq![
                a.take(end),
            ] + (frames(rest) + frames(unfinished(rest) + b)));
        },
        None => {
            assert(Seq::<Seq<u8>>::empty() + frames(a + b) =~= frames(a + b));
        },
    }
}

/// The bytes of each frame.
pub open spec fn frame_bytes(list: Seq<Vec<u8>>) -> Seq<Seq<u8>> {
    Seq::new(list.len(), |i: int| list[i]@)
}

fn copy_bytes(bytes: &[u8], from: usize, to: usize) -> (r: Vec<u8>)
    requires
        from <= to <= bytes@.len(),
    ensures
        r@ == bytes@.subrange(from as int, to as int),
{
    let mut out: Vec<u8> = Vec::new();
    let mut i: usize = from;
    assert(out@ =~= bytes@.subrange(from as int, from as int));
    while i < to
        invariant
            from <= i <= to <= bytes@.len(),
            out@ == bytes@.subrange(from as int, i as int),
        decreases to - i,
    {
        out.push(bytes[i]);
        i += 1;
        assert(out@ =~= bytes@.subrange(from as int, i as int));
    }
    out
}

/// A reader of event streams: takes chunks and gives the frames that are
/// complete.
pub struct FrameReader {
    buf: Vec<u8>,
}

impl FrameReader {
    /// The beginning of the next frame, as far as it was read.
    pub closed spec fn pending(self) -> Seq<u8> {
        self.buf@
    }

    /// A reader at the beginning of a stream.
    pub fn new() -> (r: Self)
        ensures
            r.pending() == Seq::<u8>::empty(),
    {
        FrameReader { buf: Vec::new() }
    }

    /// Takes a chunk and gives the frames that it completes.
    pub fn feed(&mut self, chunk: &[u8]) -> (r: Vec<Vec<u8>>)
        ensures
            frame_bytes(r@) == frames(old(self).pending() + chunk@),
            final(self).pending() == unfinished(old(self).pending() + chunk@),
    {
        let ghost all = self.buf@ + chunk@;
        let mut i: usize = 0;
        while i < chunk.len()
            invariant
                i <= chunk@.len(),
                self.buf@ == old(self).buf@ + chunk@.take(i as int),
            decreases chunk.len() - i,
        {
            self.buf.push(chunk[i]);
            i += 1;
            assert(self.buf@ =~= old(self).buf@ + chunk@.take(i as int));
        }
        assert(chunk@.take(i as int) =~= chunk@);
        let mut out: Vec<Vec<u8>> = Vec::new();
        let mut start: usize = 0;
        let mut more: bool = true;
        assert(all.skip(0) =~= all);
        assert(frame_bytes(out@) + frames(all) =~= frames(all));
        while more
            invariant
                start <= all.len(),
                self.buf@ == all,
                frames(all) == frame_bytes(out@) + frames(all.skip(start as int)),
                unfinished(all) == unfinished(all.skip(start as int)),
                !more ==> boundary_from(all.skip(start as int), 0) is None,
            decreases all.len() - start,
                (if more {
                    1int
                } else {
                    0int
                }),
        {
            let ghost rest = all.skip(start as int);
            let tail = slice_subrange(self.buf.as_slice(), start, self.buf.len());
            assert(tail@ =~= rest);
            match find_event_boundary(tail) {
                Some(end) => {
                    let frame = copy_bytes(self.buf.as_slice(), start, start + end);
                    assert(frame@ =~= rest.take(end as int));
                    let ghost before = out@;
                    out.push(frame);
                    assert(frame_bytes(out@) =~= frame_bytes(before) + seq![rest.take(end as int)]);
                    assert(rest.skip(end as int) =~= all.skip(start + end));
                    assert(frame_bytes(out@) + frames(all.skip(start + end)) =~= frame_bytes(before)
                        + frames(rest));
                    start = start + end;
                },
                None => {
                    more = false;
                },
            }
        }
        assert(frame_bytes(out@) + frames(all.skip(start as int)) =~= frame_bytes(out@));
        let rest = copy_bytes(self.buf.as_slice(), start, self.buf.len());
        assert(rest@ =~= all.skip(start as int));
        self.buf = rest;
        out
    }
}

/// The end of the first line at or after a position, where a line feed ends
/// it.
pub open spec fn line_feed_from(text: Seq<char>, from: int) -> Option<int>
    decreases text.len() - from,
{
    if from < 0 || from >= text.len() {
        None
    } else if text[from] == '\n' {
        Some(from)
    } else {
        line_feed_from(text, from + 1)
    }
}

/// A line without the carriage return before its line feed.
pub open spec fn without_return(line: Seq<char>) -> Seq<char> {
    if line.len() > 0 && line.last() == '\r' {
        line.drop_last()
    } else {
        line
    }
}

/// The lines of a text: each ends with a line feed, and a carriage return
/// before it is dropped; what stands behind the last line feed is a line too,
/// unless it is empty.
pub open spec fn lines_of(text: Seq<char>) -> Seq<Seq<char>>
    decreases text.len(),
{
    if text.len() == 0 {
        Seq::empty()
    } else {
        match line_feed_from(text, 0) {
            Some(end) => if 0 <= end < text.len() {
                seq![without_return(text.take(end))] + lines_of(text.skip(end + 1))
            } else {
                Seq::empty()
            },
            None => seq![text],
        }
    }
}

fn find_line_feed(chars: &[char], from: usize) -> (r: Option<usize>)
    requires
        from <= chars@.len(),
    ensures
        match r {
            Some(end) => line_feed_from(chars@.skip(from as int), 0) == Some(end - from) && from
                <= end < chars@.len(),
            None => line_feed_from(chars@.skip(from as int), 0) is None,
        },
{
    let ghost rest = chars@.skip(from as int);
    let mut i: usize = from;
    while i < chars.len()
        invariant
            from <= i <= chars@.len(),
            rest == chars@.skip(from as int),
            line_feed_from(rest, 0) == line_feed_from(rest, i - from),
        decreases chars.len() - i,
    {
        assert(rest[i - from] == chars@[i as int]);
        if chars[i] == '\n' {
            return Some(i);
        }
        i += 1;
    }
    None
}

/// The lines of a text.
pub fn lines(text: &str) -> (r: Vec<String>)
    ensures
        texts(r@) == lines_of(text@),
{
    let chars = chars_of(text);
    let ghost all = text@;
    let mut out: Vec<String> = Vec::new();
    let mut start: usize = 0;
    assert(all.skip(0) =~= all);
    assert(texts(out@) + lines_of(all) =~= lines_of(all));
    while start < chars.len()
        invariant
            chars@ == all,
            start <= all.len(),
            lines_of(all) == texts(out@) + lines_of(all.skip(start as int)),
        decreases all.len() - start,
    {
        let ghost rest = all.skip(start as int);
        let ghost before = out@;
        match find_line_feed(chars.as_slice(), start) {
            Some(end) => {
                let stop: usize = if end > start && chars[end - 1] == '\r' {
                    end - 1
                } else {
                    end
                };
                let line = string_of(chars.as_slice(), start, stop);
                proof {
                    let whole = rest.take(end - start);
                    assert(whole =~= all.subrange(start as int, end as int));
                    if end > start {
                        assert(whole.last() == all[end - 1]);
                        assert(whole.drop_last() =~= all.subrange(start as int, end - 1));
                    }
                    assert(line@ =~= without_return(whole));
                }
                out.push(line);
                start = end + 1;
                proof {
                    assert(rest.skip(end - (all.len() - rest.len()) + 1) =~= all.skip(
                        start as int,
                    ));
                    assert(texts(out@) =~= texts(before).push(line@));
                    assert(texts(out@) + lines_of(all.skip(start as int)) =~= texts(before)
                        + lines_of(rest));
                }
            },
            None => {
                let line = string_of(chars.as_slice(), start, chars.len());
                assert(line@ =~= rest);
                out.push(line);
                start = chars.len();
                proof {
                    assert(texts(out@) =~= texts(before).push(line@));
                    assert(all.skip(start as int) =~= Seq::<char>::empty());
                    assert(texts(out@) + lines_of(all.skip(start as int)) =~= texts(before)
                        + lines_of(rest));
                }
            },
        }
    }
    assert(all.skip(start as int) =~= Seq::<char>::empty());
    assert(texts(out@) + lines_of(all.skip(start as int)) =~= texts(out@));
    out
}

/// The event id that the lines of a frame give: that of the last `id:` line,
/// if it is a number.
pub open spec fn frame_id(lines: Seq<Seq<char>>) -> Option<nat>
    decreases lines.len(),
{
    if lines.len() == 0 {
        None
    } else if begins_with(lines.last(), "id:"@) {
        parsed_number(trimmed(lines.last().skip(3)), u64::MAX as nat)
    } else {
        frame_id(lines.drop_last())
    }
}

/// The data that the lines of a frame give: that of all `data:` lines.
pub open spec fn frame_data(lines: Seq<Seq<char>>) -> Seq<char>
    decreases lines.len(),
{
    if lines.len() == 0 {
        Seq::empty()
    } else if begins_with(lines.last(), "id:"@) {
        frame_data(lines.drop_last())
    } else if begins_with(lines.last(), "data:"@) {
        frame_data(lines.drop_last()) + trimmed(lines.last().skip(5))
    } else {
        frame_data(lines.drop_last())
    }
}

/// One event as it stands in a frame.
#[derive(Debug, PartialEq, Eq)]
pub struct Frame {
    pub id: Option<u64>,
    /// The JSON of the event.
    pub data: String,
}

/// Whether a frame reads as a text says; one without data is none.
pub open spec fn is_frame_of(r: Option<Frame>, text: Seq<char>) -> bool {
    let lines = lines_of(text);
    match r {
        Some(frame) => {
            &&& frame_data(lines).len() > 0
            &&& frame.data@ == frame_data(lines)
            &&& match frame.id {
                Some(n) => frame_id(lines) == Some(n as nat),
                None => frame_id(lines) is None,
            }
        },
        None => frame_data(lines).len() == 0,
    }
}

/// Reads the text of a single frame (`id:` and `data:` lines).
pub fn parse_frame_text(text: &str) -> (r: Option<Frame>)
    ensures
        is_frame_of(r, text@),
{
    let list = lines(text);
    let ghost all = texts(list@);
    let mut id: Option<u64> = None;
    let mut data = String::new();
    let mut i: usize = 0;
    proof {
        reveal_strlit("id:");
        reveal_strlit("data:");
        assert(all.take(0) =~= Seq::<Seq<char>>::empty());
    }
    while i < list.len()
        invariant
            i <= list@.len(),
            all == texts(list@),
            "id:"@.len() == 3,
            "data:"@.len() == 5,
            data@ == frame_data(all.take(i as int)),
            match id {
                Some(n) => frame_id(all.take(i as int)) == Some(n as nat),
                None => frame_id(all.take(i as int)) is None,
            },
        decreases list.len() - i,
    {
        proof {
            assert(all.take(i + 1).drop_last() =~= all.take(i as int));
            assert(all.take(i + 1).last() == list@[i as int]@);
        }
        match after_prefix(list[i].as_str(), "id:") {
            Some(value) => {
                id = parse_number(trim(value.as_str()).as_str(), u64::MAX);
            },
            None => {
                if let Some(value) = after_prefix(list[i].as_str(), "data:") {
                    data.append(trim(value.as_str()).as_str());
                }
            },
        }
        i += 1;
    }
    assert(all.take(i as int) =~= all);
    if data.as_str().is_empty() {
        None
    } else {
        Some(Frame { id, data })
    }
}

/// Reads a single frame of an event stream.
pub fn parse_sse_frame(frame: &[u8]) -> (r: Option<Frame>)
    ensures
        is_frame_of(r, lossy_text(frame@)),
{
    let text = read_lossy(frame);
    parse_frame_text(text.as_str())
}

/// The text of an entry in the `error` object of an answer.
pub open spec fn error_entry(body: Json, key: Seq<char>) -> Option<Seq<char>> {
    match body {
        Json::Object(entries) => match lookup(entries, "error"@) {
            Some(Json::Object(inner)) => match lookup(inner, key) {
                Some(Json::Text(text)) => Some(text),
                _ => None,
            },
            _ => None,
        },
        _ => None,
    }
}

fn error_part(body: &JsonValue, key: &str, fallback: &str) -> (r: String)
    ensures
        r@ == (match error_entry(body@, key@) {
            Some(text) => text,
            None => fallback@,
        }),
{
    if let Some(error) = body.get("error") {
        if let Some(value) = error.get(key) {
            if let Some(text) = value.as_str() {
                return text.to_owned();
            }
        }
    }
    fallback.to_owned()
}

/// The error that an answer other than success stands for: a refused token, or
/// what the daemon says of it.
pub fn parse_error_response(status: u16, body: &JsonValue) -> (r: DaemonError)
    ensures
        status == 401 ==> r == DaemonError::Unauthorized,
        status != 401 ==> (r matches DaemonError::Api { code, message } && code@ == (
        match error_entry(body@, "code"@) {
            Some(text) => text,
            None => "daemon_internal"@,
        }) && message@ == (match error_entry(body@, "message"@) {
            Some(text) => text,
            None => "daemon error"@,
        })),
        r is Unauthorized <==> status == 401,
{
    if status == 401 {
        return DaemonError::Unauthorized;
    }
    DaemonError::api(
        error_part(body, "code", "daemon_internal"),
        error_part(body, "message", "daemon error"),
    )
}

/// The address of a daemon's API.
pub fn base_url(meta: &DaemonMeta) -> (r: String)
    ensures
        r@ == "http://"@ + meta.address@,
{
    "http://".to_owned().concat(meta.address.as_str())
}

/// The path of an action on one resource, such as `/v1/tasks/{id}/cancel`; an
/// empty action is the resource itself.
pub fn resource_path(collection: &str, id: &Uuid, action: &str) -> (r: String)
    ensures
        r@ == "/v1/"@ + collection@ + "/"@ + id_text(id.bits) + (if action@.len() == 0 {
            Seq::empty()
        } else {
            "/"@ + action@
        }),
{
    let resource = "/v1/".to_owned().concat(collection).concat("/").concat(id.to_text().as_str());
    if action.is_empty() {
        assert(resource@ + Seq::<char>::empty() =~= resource@);
        resource
    } else {
        let tail = "/".to_owned().concat(action);
        resource.concat(tail.as_str())
    }
}

/// The path of the events of a task or workflow, from a sequence number on.
pub fn events_path(collection: &str, id: &Uuid, after: u64) -> (r: String)
    ensures
        r@ == "/v1/"@ + collection@ + "/"@ + id_text(id.bits) + "/events?after="@ + decimal(
            after as nat,
        ),
{
    "/v1/".to_owned().concat(collection).concat("/").concat(id.to_text().as_str()).concat(
        "/events?after=",
    ).concat(show_u64(after).as_str())
}

/// The path of a listing with a limit and an optional filter.
pub fn listing_path(collection: &str, limit: usize, filter: &str, value: Option<&str>) -> (r: String)
    ensures
        r@ == "/v1/"@ + collection@ + "?limit="@ + decimal(limit as nat) + (match value {
            Some(v) => "&"@ + filter@ + "="@ + v@,
            None => Seq::empty(),
        }),
{
    let path = "/v1/".to_owned().concat(collection).concat("?limit=").concat(
        show_usize(limit).as_str(),
    );
    match value {
        Some(v) => {
            let tail = "&".to_owned().concat(filter).concat("=").concat(v);
            path.concat(tail.as_str())
        },
        None => {
            assert(path@ + Seq::<char>::empty() =~= path@);
            path
        },
    }
}

/// A daemon may be asked only where its metadata is there and speaks the same
/// protocol version.
pub fn probe_gate(meta: Option<&DaemonMeta>) -> (r: Result<(), DaemonError>)
    ensures
        match meta {
            None => r == Err::<(), DaemonError>(DaemonError::NotRunning),
            Some(m) => if m.protocol_version != DAEMON_PROTOCOL_VERSION {
                r == Err::<(), DaemonError>(DaemonError::ProtocolMismatch)
            } else {
                r is Ok
            },
        },
        r is Ok <==> meta is Some && meta->0.protocol_version == DAEMON_PROTOCOL_VERSION,
{
    match meta {
        None => Err(DaemonError::NotRunning),
        Some(m) => if m.protocol_version != DAEMON_PROTOCOL_VERSION {
            Err(DaemonError::ProtocolMismatch)
        } else {
            Ok(())
        },
    }
}

/// What a client that started a daemon does next.
#[derive(Debug, PartialEq, Eq)]
pub enum StartupStep {
    /// The daemon answers.
    Connected,
    /// It did not answer in time.
    GiveUp(DaemonError),
    /// Ask again a little later.
    Wait,
}

/// How long a started daemon has to become healthy, in seconds.
pub const STARTUP_SECONDS: u64 = 10;

/// What a client that started a daemon does next, by whether the daemon
/// answers and whether its time is over.
pub fn startup_step(answers: bool, overdue: bool) -> (r: StartupStep)
    ensures
        r == (if answers {
            StartupStep::Connected
        } else if overdue {
            StartupStep::GiveUp(DaemonError::StartupTimeout(STARTUP_SECONDS))
        } else {
            StartupStep::Wait
        }),
        r is Connected <==> answers,
        r is GiveUp <==> !answers && overdue,
{
    if answers {
        StartupStep::Connected
    } else if overdue {
        StartupStep::GiveUp(DaemonError::StartupTimeout(STARTUP_SECONDS))
    } else {
        StartupStep::Wait
    }
}

/// An event ends behind the first two line feeds in a row, and there is no end
/// where no two stand together.
pub proof fn boundary_is_the_first_blank_line(buf: Seq<u8>, k: int)
    ensures
        boundary_from(buf, 0) is None <==> forall|i: int|
            0 <= i < buf.len() - 1 ==> !(#[trigger] buf[i] == 10 && buf[i + 1] == 10),
        0 <= k < buf.len() - 1 && buf[k] == 10 && buf[k + 1] == 10 && (forall|i: int|
            0 <= i < k ==> !(#[trigger] buf[i] == 10 && buf[i + 1] == 10)) ==> boundary_from(buf, 0)
            == Some(k + 2),
{
    boundary_is_first_from(buf, 0, k);
}

proof fn boundary_is_first_from(buf: Seq<u8>, from: int, k: int)
    requires
        0 <= from,
    ensures
        boundary_from(buf, from) is None <==> forall|i: int|
            from <= i < buf.len() - 1 ==> !(#[trigger] buf[i] == 10 && buf[i + 1] == 10),
        from <= k < buf.len() - 1 && buf[k] == 10 && buf[k + 1] == 10 && (forall|i: int|
            from <= i < k ==> !(#[trigger] buf[i] == 10 && buf[i + 1] == 10)) ==> boundary_from(
            buf,
            from,
        ) == Some(k + 2),
    decreases buf.len() - from,
{
    if from + 1 < buf.len() && !(buf[from] == 10 && buf[from + 1] == 10) {
        boundary_is_first_from(buf, from + 1, k);
    }
}

/// Every frame of a stream ends with a blank line and holds none before, and
/// what is left unfinished holds none.
pub proof fn frames_end_at_blank_lines(buf: Seq<u8>, n: int)
    ensures
        forall|i: int|
            0 <= i < unfinished(buf).len() - 1 ==> !(#[trigger] unfinished(buf)[i] == 10
                && unfinished(buf)[i + 1] == 10),
        0 <= n < frames(buf).len() ==> {
            let frame = frames(buf)[n];
            &&& frame.len() >= 2
            &&& frame[frame.len() - 2] == 10 && frame[frame.len() - 1] == 10
            &&& forall|i: int|
                0 <= i < frame.len() - 2 ==> !(#[trigger] frame[i] == 10 && frame[i + 1] == 10)
        },
    decreases buf.len(),
{
    boundary_is_the_first_blank_line(buf, 0);
    boundary_within(buf, 0);
    if let Some(end) = boundary_from(buf, 0) {
        found_boundary_is_first(buf, 0);
        frames_end_at_blank_lines(buf.skip(end), n - 1);
        let first = buf.take(end);
        assert forall|i: int| 0 <= i < first.len() - 2 implies !(#[trigger] first[i] == 10 && first[i
            + 1] == 10) by {
            assert(!(buf[i] == 10 && buf[i + 1] == 10));
        }
        assert(unfinished(buf) == unfinished(buf.skip(end)));
    } else {
        assert(unfinished(buf) == buf);
    }
}

proof fn found_boundary_is_first(buf: Seq<u8>, from: int)
    requires
        0 <= from,
        boundary_from(buf, from) is Some,
    ensures
        ({
            let end = boundary_from(buf, from)->0;
            &&& from + 2 <= end <= buf.len()
            &&& buf[end - 2] == 10 && buf[end - 1] == 10
            &&& forall|i: int|
                from <= i < end - 2 ==> !(#[trigger] buf[i] == 10 && buf[i + 1] == 10)
        }),
    decreases buf.len() - from,
{
    if !(buf[from] == 10 && buf[from + 1] == 10) {
        found_boundary_is_first(buf, from + 1);
    }
}

/// The lines of a text: one that ends in a line feed, with or without a carriage
/// return before it, comes first without either, and then those of the rest; a
/// text without a line feed is one line, and an empty one none.
pub proof fn lines_end_at_line_feeds(line: Seq<char>, rest: Seq<char>)
    requires
        forall|i: int| 0 <= i < line.len() ==> #[trigger] line[i] != '\n',
        line.len() > 0 ==> line.last() != '\r',
    ensures
        lines_of(Seq::empty()).len() == 0,
        line.len() > 0 ==> lines_of(line) == seq![line],
        lines_of(line + seq!['\n'] + rest) == seq![line] + lines_of(rest),
        lines_of(line + seq!['\r', '\n'] + rest) == seq![line] + lines_of(rest),
{
    if line.len() > 0 {
        no_line_feed(line, 0);
    }
    let plain = line + seq!['\n'] + rest;
    line_feed_is_at(plain, 0, line.len() as int);
    assert(plain.take(line.len() as int) =~= line);
    assert(plain.skip((line.len() + 1) as int) =~= rest);
    let returned = line + seq!['\r', '\n'] + rest;
    line_feed_is_at(returned, 0, (line.len() + 1) as int);
    assert(returned.take((line.len() + 1) as int) =~= line.push('\r'));
    assert(line.push('\r').drop_last() =~= line);
    assert(returned.skip((line.len() + 2) as int) =~= rest);
}

proof fn no_line_feed(text: Seq<char>, from: int)
    requires
        0 <= from,
        forall|i: int| from <= i < text.len() ==> #[trigger] text[i] != '\n',
    ensures
        line_feed_from(text, from) is None,
    decreases text.len() - from,
{
    if from < text.len() {
        no_line_feed(text, from + 1);
    }
}

proof fn line_feed_is_at(text: Seq<char>, from: int, at: int)
    requires
        0 <= from <= at < text.len(),
        text[at] == '\n',
        forall|i: int| from <= i < at ==> #[trigger] text[i] != '\n',
    ensures
        line_feed_from(text, from) == Some(at),
    decreases at - from,
{
    if from < at {
        line_feed_is_at(text, from + 1, at);
    }
}

/// One more line of a frame: an id line sets the id, by the number that it
/// holds; a data line adds its text to the data; any other line changes
/// neither.
pub proof fn frame_lines_add_id_and_data(lines: Seq<Seq<char>>, line: Seq<char>)
    ensures
        frame_id(Seq::empty()) is None,
        frame_data(Seq::empty()).len() == 0,
        begins_with(line, "id:"@) ==> frame_id(lines.push(line)) == parsed_number(
            trimmed(line.skip(3)),
            u64::MAX as nat,
        ) && frame_data(lines.push(line)) == frame_data(lines),
        begins_with(line, "data:"@) ==> frame_data(lines.push(line)) == frame_data(lines)
            + trimmed(line.skip(5)) && frame_id(lines.push(line)) == frame_id(lines),
        !begins_with(line, "id:"@) && !begins_with(line, "data:"@) ==> frame_id(lines.push(line))
            == frame_id(lines) && frame_data(lines.push(line)) == frame_data(lines),
{
    assert(lines.push(line).drop_last() =~= lines);
    reveal_strlit("id:");
    reveal_strlit("data:");
    if begins_with(line, "data:"@) && begins_with(line, "id:"@) {
        assert(line.subrange(0, 5)[0] == line[0]);
        assert(line.subrange(0, 3)[0] == line[0]);
        assert("id:"@[0] == 'i');
        assert("data:"@[0] == 'd');
    }
}

/// An error answer is read from where it is written: the text under the code or
/// the message of its error object.
#[verifier::rlimit(40)]
pub proof fn error_answers_are_read_back(code: Seq<char>, message: Seq<char>)
    ensures
        ({
            let inner = seq![("code"@, Json::Text(code)), ("message"@, Json::Text(message))];
            let body = Json::Object(seq![("error"@, Json::Object(inner))]);
            &&& error_entry(body, "code"@) == Some(code)
            &&& error_entry(body, "message"@) == Some(message)
            &&& error_entry(Json::Object(inner), "code"@) is None
            &&& error_entry(Json::Text(code), "code"@) is None
        }),
{
    reveal_strlit("code");
    reveal_strlit("message");
    reveal_strlit("error");
    assert("code"@.len() == 4);
    assert("message"@.len() == 7);
    assert("error"@.len() == 5);
    let first = seq![("code"@, Json::Text(code))];
    let inner = seq![("code"@, Json::Text(code)), ("message"@, Json::Text(message))];
    assert(inner.drop_last() =~= first);
    assert(lookup(first, "code"@) == Some(Json::Text(code)));
    assert(lookup(inner, "message"@) == Some(Json::Text(message)));
    assert(lookup(inner, "code"@) == Some(Json::Text(code)));
    let outer = seq![("error"@, Json::Object(inner))];
    assert(lookup(outer, "error"@) == Some(Json::Object(inner)));
    assert(first.drop_last() =~= Seq::<(Seq<char>, Json)>::empty());
    assert(lookup(first.drop_last(), "error"@) is None);
    assert(lookup(first, "error"@) is None);
    assert(lookup(inner, "error"@) is None);
}

/// A frame without data is none; one with data has all of it, and the id that
/// its lines give.
pub proof fn only_data_makes_a_frame(r: Option<Frame>, text: Seq<char>)
    requires
        is_frame_of(r, text),
    ensures
        r is Some <==> frame_data(lines_of(text)).len() > 0,
        r matches Some(frame) ==> frame.data@ == frame_data(lines_of(text)),
        r matches Some(frame) ==> (frame.id is Some <==> frame_id(lines_of(text)) is Some),
        r matches Some(frame) ==> (frame.id matches Some(n) ==> frame_id(lines_of(text)) == Some(
            n as nat,
        )),
{
}

} // verus!
