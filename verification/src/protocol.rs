//! The messages between a client and the daemon.
//!
//! A message is one line of JSON. The client sends a [`Request`], the daemon
//! answers with a [`Reply`]; the connection is then closed.
use vstd::prelude::*;
use vstd::string::*;
use vstd::utf8::*;
use crate::error::Error;

verus! {

/// The number of bytes that no message, command or prompt may reach.
pub const LIMIT: u64 = 1048576;

/// What is known of an optional text.
pub open spec fn optional_text(text: Option<String>) -> Option<Seq<char>> {
    match text {
        Some(text) => Some(text@),
        None => None,
    }
}

/// A command, and where it would run.
#[derive(Debug)]
pub struct Context {
    pub command: String,
    pub cwd: String,
    pub shell: String,
    pub path: String,
    pub os: String,
    pub uid: u32,
}

/// The model of a [`Context`].
#[verifier::ext_equal]
pub struct ContextView {
    pub command: Seq<char>,
    pub cwd: Seq<char>,
    pub shell: Seq<char>,
    pub path: Seq<char>,
    pub os: Seq<char>,
    pub uid: u32,
}

impl View for Context {
    type V = ContextView;

    open spec fn view(&self) -> ContextView {
        ContextView {
            command: self.command@,
            cwd: self.cwd@,
            shell: self.shell@,
            path: self.path@,
            os: self.os@,
            uid: self.uid,
        }
    }
}

/// What a client asks of the daemon.
#[derive(Debug)]
pub struct Request {
    pub context: Context,
    pub model: String,
    pub endpoint: String,
    pub api_key: String,
    /// The review policy; the daemon's own where there is none.
    pub prompt: Option<String>,
    /// Nothing checks the command; a text records the user's answer to a
    /// confirmation.
    pub answer: Option<String>,
}

/// The model of a [`Request`].
#[verifier::ext_equal]
pub struct RequestView {
    pub context: ContextView,
    pub model: Seq<char>,
    pub endpoint: Seq<char>,
    pub api_key: Seq<char>,
    pub prompt: Option<Seq<char>>,
    pub answer: Option<Seq<char>>,
}

impl View for Request {
    type V = RequestView;

    open spec fn view(&self) -> RequestView {
        RequestView {
            context: self.context@,
            model: self.model@,
            endpoint: self.endpoint@,
            api_key: self.api_key@,
            prompt: optional_text(self.prompt),
            answer: optional_text(self.answer),
        }
    }
}

/// What the daemon answers.
#[derive(Debug)]
pub struct Reply {
    pub verdict: String,
    pub error: Option<String>,
    /// Whether the verdict was known before it was asked for.
    pub cache_hit: Option<bool>,
    /// Whether the daemon heeds the prompt of a request.
    pub prompt_supported: bool,
}

/// Whether a reply tells that a request ended in `result`. A failure is told by a
/// denial that carries the words of the error.
pub open spec fn tells(
    reply: Reply,
    result: Result<Seq<char>, Error>,
    cache_hit: Option<bool>,
) -> bool {
    &&& reply.cache_hit == cache_hit
    &&& reply.prompt_supported
    &&& match result {
        Ok(verdict) => reply.verdict@ == verdict && reply.error is None,
        Err(error) => {
            &&& reply.verdict@ == "deny"@
            &&& optional_text(reply.error) == Some(error.words())
        },
    }
}

/// The reply to a request that ended in `result`.
pub fn reply(result: Result<String, Error>, cache_hit: Option<bool>) -> (reply: Reply)
    ensures
        tells(
            reply,
            match result {
                Ok(verdict) => Ok(verdict@),
                Err(error) => Err(error),
            },
            cache_hit,
        ),
{
    match result {
        Ok(verdict) => Reply { verdict, error: None, cache_hit, prompt_supported: true },
        Err(error) => Reply {
            verdict: "deny".to_owned(),
            error: Some(error.message()),
            cache_hit,
            prompt_supported: true,
        },
    }
}

/// A message on the wire: its JSON text and the end of the line.
pub open spec fn framed(json: Seq<u8>) -> Seq<u8> {
    json.push(10u8)
}

/// Puts a message on the wire.
pub fn send(json: Vec<u8>) -> (line: Vec<u8>)
    ensures
        line@ == framed(json@),
{
    let mut line = json;
    line.push(10u8);
    line
}

/// What reading one line gives, where at most [`LIMIT`] bytes of the stream are
/// read: everything up to the first end of line, or all there is without one.
pub open spec fn line_read(stream: Seq<u8>) -> Seq<u8>
{
    first_line(if stream.len() > LIMIT { stream.take(LIMIT as int) } else { stream })
}

/// `stream` up to and with its first end of line, or all of it without one.
pub open spec fn first_line(stream: Seq<u8>) -> Seq<u8>
    decreases stream.len(),
{
    if stream.len() == 0 {
        stream
    } else if stream.first() == 10u8 {
        stream.take(1)
    } else {
        stream.take(1) + first_line(stream.drop_first())
    }
}

/// Whether a line that was read is a whole message.
pub open spec fn whole_line(line: Seq<u8>) -> bool {
    line.len() > 0 && line.last() == 10u8
}

/// Takes a line that was read for a message, unless its end is missing.
pub fn receive(line: String) -> (message: Result<String, Error>)
    ensures
        message is Ok <==> whole_line(encode_utf8(line@)),
        message matches Ok(text) ==> text == line,
        message matches Err(error) ==> error == Error::MessageIncomplete,
{
    let bytes = line.as_str().as_bytes();
    let len: usize = bytes.len();
    if len == 0 {
        return Err(Error::MessageIncomplete);
    }
    if bytes[len - 1] != 10u8 {
        return Err(Error::MessageIncomplete);
    }
    Ok(line)
}

proof fn lemma_first_line(body: Seq<u8>, rest: Seq<u8>)
    requires
        forall|i: int| 0 <= i < body.len() ==> #[trigger] body[i] != 10u8,
    ensures
        first_line(body) == body,
        first_line(framed(body) + rest) == framed(body),
    decreases body.len(),
{
    let stream = framed(body) + rest;
    if body.len() == 0 {
        assert(stream.first() == 10u8);
        assert(stream.take(1) =~= framed(body));
    } else {
        let tail = body.drop_first();
        assert forall|i: int| 0 <= i < tail.len() implies #[trigger] tail[i] != 10u8 by {
            assert(tail[i] == body[i + 1]);
        }
        lemma_first_line(tail, rest);
        assert(stream.first() == body[0]);
        assert(stream.drop_first() =~= framed(tail) + rest);
        assert(stream.take(1) + framed(tail) =~= framed(body));
        assert(body.take(1) + tail =~= body);
    }
}

/// A message of one line that stays below the limit arrives as it was sent,
/// whatever follows it on the stream.
pub proof fn sent_message_is_received(json: Seq<u8>, rest: Seq<u8>)
    requires
        forall|i: int| 0 <= i < json.len() ==> #[trigger] json[i] != 10u8,
        json.len() < LIMIT,
    ensures
        line_read(framed(json) + rest) == framed(json),
        whole_line(line_read(framed(json) + rest)),
{
    let stream = framed(json) + rest;
    lemma_first_line(json, rest);
    if stream.len() > LIMIT {
        let kept = rest.take(LIMIT - framed(json).len());
        assert(stream.take(LIMIT as int) =~= framed(json) + kept);
        lemma_first_line(json, kept);
    }
}

/// A message that reaches the limit is not received, and neither is one that
/// breaks off before its end.
pub proof fn oversized_or_broken_message_is_refused(json: Seq<u8>, sent: int, rest: Seq<u8>)
    requires
        forall|i: int| 0 <= i < json.len() ==> #[trigger] json[i] != 10u8,
        0 <= sent <= json.len(),
    ensures
        json.len() >= LIMIT ==> !whole_line(line_read(framed(json) + rest)),
        !whole_line(line_read(json.take(sent))),
{
    if json.len() >= LIMIT {
        let stream = framed(json) + rest;
        let kept = json.take(LIMIT as int);
        assert(stream.take(LIMIT as int) =~= kept);
        lemma_first_line(kept, rest);
        assert(kept.last() == json[LIMIT - 1]);
    }
    let part = json.take(sent);
    lemma_first_line(part, rest);
    if part.len() > LIMIT {
        let kept = part.take(LIMIT as int);
        lemma_first_line(kept, rest);
        assert(kept.last() == json[LIMIT - 1]);
    } else if part.len() > 0 {
        assert(part.last() == json[sent - 1]);
    }
}

proof fn lemma_newline_byte(c: char)
    ensures
        c == '\n' ==> encode_scalar(c as u32) == seq![10u8],
        c != '\n' ==> forall|i: int|
            0 <= i < encode_scalar(c as u32).len() ==> #[trigger] encode_scalar(c as u32)[i]
                != 10u8,
{
    let scalar = c as u32;
    assert(has_width_1_encoding(scalar) && scalar != 10 ==> leading_byte_width_1(scalar) != 10u8)
        by (bit_vector);
    assert(leading_byte_width_1(10) == 10u8) by (bit_vector);
    assert(leading_byte_width_2(scalar) != 10u8) by (bit_vector);
    assert(leading_byte_width_3(scalar) != 10u8) by (bit_vector);
    assert(leading_byte_width_4(scalar) != 10u8) by (bit_vector);
    assert(last_continuation_byte(scalar) != 10u8) by (bit_vector);
    assert(second_last_continuation_byte(scalar) != 10u8) by (bit_vector);
    assert(third_last_continuation_byte(scalar) != 10u8) by (bit_vector);
}

proof fn lemma_text_bytes(text: Seq<char>)
    requires
        forall|i: int| 0 <= i < text.len() ==> #[trigger] text[i] != '\n',
    ensures
        forall|i: int|
            0 <= i < encode_utf8(text).len() ==> #[trigger] encode_utf8(text)[i] != 10u8,
        encode_utf8(text.push('\n')) == framed(encode_utf8(text)),
    decreases text.len(),
{
    let line = text.push('\n');
    if text.len() == 0 {
        lemma_newline_byte('\n');
        assert(line.drop_first() =~= Seq::<char>::empty());
        assert(encode_utf8(line.drop_first()) =~= Seq::<u8>::empty());
        assert(encode_utf8(line) =~= framed(encode_utf8(text)));
    } else {
        let tail = text.drop_first();
        assert forall|i: int| 0 <= i < tail.len() implies #[trigger] tail[i] != '\n' by {
            assert(tail[i] == text[i + 1]);
        }
        lemma_newline_byte(text[0]);
        lemma_text_bytes(tail);
        assert(line.drop_first() =~= tail.push('\n'));
        assert(encode_utf8(line) =~= framed(encode_utf8(text)));
    }
}

/// A text of one line is received if and only if its bytes and the end of the
/// line are no more than the limit. What is received is then that text and the
/// end of the line, whatever follows on the stream; of a longer one, or of one
/// whose end did not come, nothing is.
pub proof fn sent_text_is_received(text: Seq<char>, rest: Seq<u8>, sent: int)
    requires
        forall|i: int| 0 <= i < text.len() ==> #[trigger] text[i] != '\n',
        0 <= sent <= encode_utf8(text).len(),
    ensures
        ({
            let bytes = encode_utf8(text);
            let line = line_read(framed(bytes) + rest);
            &&& whole_line(line) <==> bytes.len() + 1 <= LIMIT
            &&& whole_line(line) ==> line == encode_utf8(text.push('\n'))
            &&& !whole_line(line_read(bytes.take(sent)))
        }),
{
    let bytes = encode_utf8(text);
    lemma_text_bytes(text);
    oversized_or_broken_message_is_refused(bytes, sent, rest);
    if bytes.len() < LIMIT {
        sent_message_is_received(bytes, rest);
    }
}

/// The value that `read` makes of the message on a stream; none where the message
/// is not received, or cannot be read.
pub open spec fn message_read<T>(
    stream: Seq<u8>,
    read: spec_fn(Seq<char>) -> Option<T>,
) -> Option<T> {
    let line = line_read(stream);
    if whole_line(line) && valid_utf8(line) {
        read(decode_utf8(line))
    } else {
        None
    }
}

/// However values are written as texts of one line and read from them: if the text
/// and the end of the line are no more than the limit, what is received is what is
/// read from exactly that line, and so the value itself where reading undoes
/// writing. Of a longer message, or of a part of one, nothing is received.
pub proof fn sent_value_is_received<T>(
    value: T,
    write: spec_fn(T) -> Seq<char>,
    read: spec_fn(Seq<char>) -> Option<T>,
    rest: Seq<u8>,
    sent: int,
)
    requires
        forall|i: int| 0 <= i < write(value).len() ==> #[trigger] write(value)[i] != '\n',
        0 <= sent <= encode_utf8(write(value)).len(),
    ensures
        ({
            let bytes = encode_utf8(write(value));
            let line = write(value).push('\n');
            let received = message_read(framed(bytes) + rest, read);
            &&& received == if bytes.len() + 1 <= LIMIT {
                read(line)
            } else {
                None
            }
            &&& read(line) == Some(value) && bytes.len() + 1 <= LIMIT ==> received == Some(value)
            &&& message_read(bytes.take(sent), read) is None
        }),
{
    let line = write(value).push('\n');
    sent_text_is_received(write(value), rest, sent);
    encode_utf8_valid_utf8(line);
    encode_utf8_decode_utf8(line);
}

/// What a client makes of what it received: the daemon's error is its own, and
/// a daemon that would ignore the prompt is not listened to.
pub open spec fn rpc_result(
    request: RequestView,
    received: Result<Reply, Error>,
    pid_file: String,
) -> Result<Reply, Error> {
    match received {
        Err(error) => Err(error),
        Ok(reply) => if request.prompt is Some && !reply.prompt_supported {
            Err(Error::DaemonOutdated(pid_file))
        } else {
            match reply.error {
                Some(words) => Err(Error::Outside(words)),
                None => Ok(reply),
            }
        },
    }
}

/// What a client knows of the cache after a round trip: what the reply to a
/// check says. The reply to an answer says nothing new.
pub open spec fn rpc_cache_hit(
    request: RequestView,
    received: Result<Reply, Error>,
    known: Option<bool>,
) -> Option<bool> {
    match received {
        Ok(reply) if request.answer is None && (request.prompt is None || reply.prompt_supported) =>
            reply.cache_hit,
        _ => known,
    }
}

/// One round trip to the daemon: `received` is what came back for `request`.
pub fn rpc(
    request: &Request,
    received: Result<Reply, Error>,
    pid_file: String,
    cache_hit: &mut Option<bool>,
) -> (result: Result<Reply, Error>)
    ensures
        result == rpc_result(request@, received, pid_file),
        *final(cache_hit) == rpc_cache_hit(request@, received, *old(cache_hit)),
{
    match received {
        Err(error) => Err(error),
        Ok(reply) => {
            if request.prompt.is_some() && !reply.prompt_supported {
                return Err(Error::DaemonOutdated(pid_file));
            }
            if request.answer.is_none() {
                *cache_hit = reply.cache_hit;
            }
            match &reply.error {
                Some(words) => {
                    return Err(Error::Outside(words.clone()));
                },
                None => {},
            }
            Ok(reply)
        },
    }
}

/// The longest time that can be measured, in nanoseconds.
pub const LONGEST_WAIT: u128 = 18446744073709551615999999999;

/// One round trip to the daemon that took `elapsed` nanoseconds, which is added
/// to the time waited.
pub fn timed_rpc(
    request: &Request,
    received: Result<Reply, Error>,
    pid_file: String,
    elapsed: u128,
    waiting: &mut u128,
    cache_hit: &mut Option<bool>,
) -> (result: Result<Reply, Error>)
    requires
        *old(waiting) + elapsed <= LONGEST_WAIT,
    ensures
        result == rpc_result(request@, received, pid_file),
        *final(cache_hit) == rpc_cache_hit(request@, received, *old(cache_hit)),
        *final(waiting) == *old(waiting) + elapsed,
{
    let result = rpc(request, received, pid_file, cache_hit);
    *waiting = *waiting + elapsed;
    result
}

/// The client that made a request learns how it ended: the verdict, or an error
/// in the same words; and after a check, what was known.
pub proof fn outcome_reaches_the_client(
    request: RequestView,
    result: Result<Seq<char>, Error>,
    cache_hit: Option<bool>,
    reply: Reply,
    pid_file: String,
)
    requires
        tells(reply, result, cache_hit),
    ensures
        match result {
            Ok(verdict) => {
                &&& rpc_result(request, Ok(reply), pid_file) matches Ok(told)
                &&& told.verdict@ == verdict
            },
            Err(error) => {
                &&& rpc_result(request, Ok(reply), pid_file) matches Err(told)
                &&& told.words() == error.words()
            },
        },
        request.answer is None ==> rpc_cache_hit(request, Ok(reply), None) == cache_hit,
{
}

/// The model of an optional text is there if and only if the text is, and holds all
/// of it.
pub proof fn optional_text_is_kept(text: String)
    ensures
        optional_text(Some(text)) == Some(text@),
        optional_text(None) is None,
{
}

/// The model of a request holds each of its fields.
pub proof fn request_is_modelled_in_full(request: Request)
    ensures
        request@.context.command == request.context.command@,
        request@.context.cwd == request.context.cwd@,
        request@.context.shell == request.context.shell@,
        request@.context.path == request.context.path@,
        request@.context.os == request.context.os@,
        request@.context.uid == request.context.uid,
        request@.model == request.model@,
        request@.endpoint == request.endpoint@,
        request@.api_key == request.api_key@,
        request.prompt is None <==> request@.prompt is None,
        request.prompt matches Some(prompt) ==> request@.prompt == Some(prompt@),
        request.answer is None <==> request@.answer is None,
        request.answer matches Some(answer) ==> request@.answer == Some(answer@),
{
}

/// A reply tells a verdict as it is and without an error, and a failure as a denial
/// with the words of the error; in either case also what was known, and that the
/// prompt is heeded.
pub proof fn reply_holds_the_outcome(
    reply: Reply,
    result: Result<Seq<char>, Error>,
    cache_hit: Option<bool>,
)
    requires
        tells(reply, result, cache_hit),
    ensures
        reply.cache_hit == cache_hit,
        reply.prompt_supported,
        result matches Ok(verdict) ==> reply.verdict@ == verdict && reply.error is None,
        result matches Err(error) ==> {
            &&& reply.verdict@ == "deny"@
            &&& reply.error matches Some(words)
            &&& words@ == error.words()
        },
{
}

/// A message on the wire is its text and one end of line, and no line counts as one
/// without that end. A message is shorter than a mebibyte, and the wait for it fits
/// into as many seconds as can be counted.
pub proof fn message_ends_its_line(json: Seq<u8>, line: Seq<u8>)
    ensures
        framed(json).len() == json.len() + 1,
        framed(json).take(json.len() as int) == json,
        framed(json)[json.len() as int] == 10,
        whole_line(line) <==> line.len() > 0 && line[line.len() - 1] == 10,
        LIMIT == 1024 * 1024,
        LONGEST_WAIT == u64::MAX * 1000000000 + 999999999,
{
    assert(framed(json).take(json.len() as int) =~= json);
}

/// What fails on the way fails the round trip. A reply of a daemon that ignores a
/// prompt which the request names is refused, and tells nothing of the cache. Any
/// other reply is taken at its word: its error is the client's, and without one it
/// is the result. Only the reply to a check tells of the cache.
pub proof fn reply_is_taken_at_its_word(
    request: RequestView,
    reply: Reply,
    error: Error,
    pid_file: String,
    known: Option<bool>,
)
    ensures
        rpc_result(request, Err(error), pid_file) == Err::<Reply, Error>(error),
        rpc_cache_hit(request, Err(error), known) == known,
        ({
            let result = rpc_result(request, Ok(reply), pid_file);
            let heeded = reply.prompt_supported || request.prompt is None;
            &&& !heeded ==> result == Err::<Reply, Error>(Error::DaemonOutdated(pid_file))
            &&& heeded && reply.error is None ==> result == Ok::<Reply, Error>(reply)
            &&& heeded && reply.error is Some ==> result == Err::<Reply, Error>(
                Error::Outside(reply.error->0),
            )
            &&& rpc_cache_hit(request, Ok(reply), known) == if heeded && request.answer is None {
                reply.cache_hit
            } else {
                known
            }
        }),
{
}

} // verus!
