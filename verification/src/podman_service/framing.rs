//! Framing of response bodies that are read piece by piece: newline-terminated
//! text lines and sequences of JSON values.
use vstd::prelude::*;
use vstd::utf8::{decode_utf8, valid_utf8};
use asynchronous_codec::{BytesMut, Decoder, JsonCodec, JsonCodecError, LinesCodec};
use crate::error::PodtenderError;

verus! {

/// `serde_json::Value`: any JSON value.
#[verifier::external_type_specification]
#[verifier::external_body]
pub struct ExJsonValue(serde_json::Value);

/// The position of the first line feed among the bytes, if there is one.
pub open spec fn first_newline(bytes: Seq<u8>) -> Option<int>
    decreases bytes.len(),
{
    if bytes.len() == 0 {
        None
    } else if bytes[0] == 10u8 {
        Some(0)
    } else {
        match first_newline(bytes.skip(1)) {
            Some(position) => Some(position + 1),
            None => None,
        }
    }
}

/// What the JSON decoder makes of the bytes at the front of a buffer.
pub enum JsonFraming {
    /// A complete JSON value, which takes up the first `consumed` bytes.
    Value { consumed: nat },
    /// No complete value yet: the bytes hold only whitespace or the beginning of a value.
    Incomplete,
    /// The bytes at the front are no JSON.
    Malformed,
}

/// What `asynchronous_codec::JsonCodec::decode`, decoding into `serde_json::Value`, finds at
/// the front of the given bytes.
pub uninterp spec fn json_framing(bytes: Seq<u8>) -> JsonFraming;

/// `asynchronous_codec::LinesCodec::decode` on a buffer held as a vector.
///
/// Without a line feed in the buffer nothing is taken and nothing returned. Otherwise
/// the bytes up to and including the first line feed leave the buffer; they are returned
/// as text where they are valid UTF-8 and give an error where they are not.
#[verifier::external_body]
fn lines_codec_decode(buffer: &mut Vec<u8>) -> (r: Result<Option<String>, std::io::Error>)
    ensures
        match first_newline(old(buffer)@) {
            None => r matches Ok(None) && final(buffer)@ == old(buffer)@,
            Some(position) => {
                &&& final(buffer)@ == old(buffer)@.skip(position + 1)
                &&& valid_utf8(old(buffer)@.take(position + 1)) ==> (r matches Ok(Some(line))
                    && line@ == decode_utf8(old(buffer)@.take(position + 1)))
                &&& !valid_utf8(old(buffer)@.take(position + 1)) ==> r is Err
            },
        },
{
    let mut bytes = BytesMut::from(&buffer[..]);
    let decoded = LinesCodec.decode(&mut bytes);
    *buffer = bytes.to_vec();
    decoded
}

/// `asynchronous_codec::JsonCodec::decode` on a buffer held as a vector, decoding into
/// `serde_json::Value`.
///
/// Where the front of the buffer holds a complete JSON value, the value is returned and
/// its bytes leave the buffer. Where it holds none yet, or no JSON at all, the buffer
/// stays as it is.
#[verifier::external_body]
fn json_codec_decode(buffer: &mut Vec<u8>) -> (r: Result<
    Option<serde_json::Value>,
    JsonCodecError,
>)
    ensures
        match json_framing(old(buffer)@) {
            JsonFraming::Value { consumed } => {
                &&& r matches Ok(Some(_))
                &&& consumed <= old(buffer)@.len()
                &&& final(buffer)@ == old(buffer)@.skip(consumed as int)
            },
            JsonFraming::Incomplete => r matches Ok(None) && final(buffer)@ == old(buffer)@,
            JsonFraming::Malformed => r is Err && final(buffer)@ == old(buffer)@,
        },
{
    let mut bytes = BytesMut::from(&buffer[..]);
    let decoded = JsonCodec::<serde_json::Value, serde_json::Value>::new().decode(&mut bytes);
    *buffer = bytes.to_vec();
    decoded
}

/// The error that `std::io::Error::new` makes of the kind `UnexpectedEof` and the given
/// message.
pub uninterp spec fn unexpected_eof(message: Seq<char>) -> std::io::Error;

/// `std::io::Error::new` with the kind `UnexpectedEof` and the given message. The error
/// holds the kind and the message and nothing else, so the message decides it.
#[verifier::external_body]
fn unexpected_eof_error(message: &str) -> (r: std::io::Error)
    ensures
        r == unexpected_eof(message@),
{
    std::io::Error::new(std::io::ErrorKind::UnexpectedEof, message)
}

/// The error for bytes that are left over when a body ends inside a frame: an
/// unexpected end of the input, with the message `bytes remaining in stream`.
pub open spec fn bytes_remaining() -> std::io::Error {
    unexpected_eof("bytes remaining in stream"@)
}

/// Makes the error for bytes that are left over when a body ends inside a frame.
fn bytes_remaining_error() -> (r: std::io::Error)
    ensures
        r == bytes_remaining(),
{
    unexpected_eof_error("bytes remaining in stream")
}

/// `JsonCodecError::from` an I/O error.
#[verifier::external_body]
fn json_codec_io_error(error: std::io::Error) -> (r: JsonCodecError) {
    JsonCodecError::from(error)
}

/// `JsonCodecError::from` a JSON error.
#[verifier::external_body]
fn json_codec_json_error(error: serde_json::Error) -> (r: JsonCodecError) {
    JsonCodecError::from(error)
}

/// The outcome of one step of the line framing on a buffer.
pub open spec fn is_next_line(
    before: Seq<u8>,
    after: Seq<u8>,
    r: Result<Option<String>, PodtenderError>,
) -> bool {
    match first_newline(before) {
        None => r matches Ok(None) && after == before,
        Some(position) => {
            &&& after == before.skip(position + 1)
            &&& if valid_utf8(before.take(position + 1)) {
                r matches Ok(Some(line)) && line@ == decode_utf8(before.take(position + 1))
            } else {
                r matches Err(error) && error is IoError
            }
        },
    }
}

/// Takes the next line off the front of the buffer.
///
/// A line ends with a line feed, which stays part of it. Without a line feed in the
/// buffer there is no line yet, and the buffer stays as it is.
pub fn next_line(buffer: &mut Vec<u8>) -> (r: Result<Option<String>, PodtenderError>)
    ensures
        is_next_line(old(buffer)@, final(buffer)@, r),
{
    match lines_codec_decode(buffer) {
        Ok(line) => Ok(line),
        Err(error) => Err(PodtenderError::IoError(error)),
    }
}

/// Whether a byte is JSON whitespace: a space, a tab, a line feed or a carriage return.
pub open spec fn is_json_whitespace(byte: u8) -> bool {
    byte == 32u8 || byte == 9u8 || byte == 10u8 || byte == 13u8
}

/// The bytes without the JSON whitespace at their front.
pub open spec fn trim_front(bytes: Seq<u8>) -> Seq<u8>
    decreases bytes.len(),
{
    if bytes.len() > 0 && is_json_whitespace(bytes[0]) {
        trim_front(bytes.skip(1))
    } else {
        bytes
    }
}

/// Trimming takes bytes off the front only, and what it leaves starts with a byte that
/// is no whitespace.
pub proof fn lemma_trim_front(bytes: Seq<u8>)
    ensures
        trim_front(bytes).len() <= bytes.len(),
        trim_front(bytes) == bytes.skip(bytes.len() - trim_front(bytes).len()),
        trim_front(bytes).len() > 0 ==> !is_json_whitespace(trim_front(bytes)[0]),
        forall|i: int|
            0 <= i < bytes.len() - trim_front(bytes).len() ==> is_json_whitespace(bytes[i]),
    decreases bytes.len(),
{
    if bytes.len() > 0 && is_json_whitespace(bytes[0]) {
        let tail = bytes.skip(1);
        lemma_trim_front(tail);
        let kept = trim_front(tail).len();
        assert(tail.skip(tail.len() - kept) =~= bytes.skip(bytes.len() - kept));
        assert forall|i: int| 0 <= i < bytes.len() - kept implies is_json_whitespace(
            bytes[i],
        ) by {
            if i > 0 {
                assert(bytes[i] == tail[i - 1]);
            }
        }
    } else {
        assert(bytes.skip(0) =~= bytes);
    }
}

/// Decides whether a byte is JSON whitespace.
pub fn is_whitespace(byte: u8) -> (r: bool)
    ensures
        r == is_json_whitespace(byte),
{
    byte == 32 || byte == 9 || byte == 10 || byte == 13
}

/// Counts the JSON whitespace at the front of the bytes.
pub fn leading_whitespace(bytes: &Vec<u8>) -> (count: usize)
    ensures
        count <= bytes@.len(),
        trim_front(bytes@) == bytes@.skip(count as int),
{
    let mut count: usize = 0;
    proof {
        assert(bytes@.skip(0) =~= bytes@);
    }
    while count < bytes.len() && is_whitespace(bytes[count])
        invariant
            count <= bytes@.len(),
            trim_front(bytes@) == trim_front(bytes@.skip(count as int)),
        decreases bytes@.len() - count,
    {
        proof {
            assert(bytes@.skip(count as int).skip(1) =~= bytes@.skip(count as int + 1));
        }
        count = count + 1;
    }
    count
}

/// Takes the JSON whitespace off the front of the buffer.
pub fn trim_buffer(buffer: &mut Vec<u8>)
    ensures
        final(buffer)@ == trim_front(old(buffer)@),
{
    let count = leading_whitespace(buffer);
    if count > 0 {
        let rest = buffer.split_off(count);
        proof {
            assert(rest@ =~= old(buffer)@.skip(count as int));
        }
        *buffer = rest;
    } else {
        proof {
            assert(buffer@.skip(0) =~= buffer@);
        }
    }
}

/// The outcome of one step of the JSON framing on a buffer.
///
/// Whitespace before a value belongs to no frame: it leaves the buffer first. What is
/// left is empty, or starts a value that the decoder is asked for.
pub open spec fn is_next_json_frame(
    before: Seq<u8>,
    after: Seq<u8>,
    r: Result<Option<Vec<u8>>, PodtenderError>,
) -> bool {
    let trimmed = trim_front(before);
    if trimmed.len() == 0 {
        r matches Ok(None) && after == trimmed
    } else {
        match json_framing(trimmed) {
            JsonFraming::Value { consumed } => if 0 < consumed <= trimmed.len() {
                &&& r matches Ok(Some(frame))
                &&& frame@ == trimmed.take(consumed as int)
                &&& after == trimmed.skip(consumed as int)
            } else {
                r matches Ok(None) && after == trimmed
            },
            JsonFraming::Incomplete => r matches Ok(None) && after == trimmed,
            JsonFraming::Malformed => r matches Err(error) && error is MyJsonCodecError && after
                == trimmed,
        }
    }
}

/// Takes the bytes of the next JSON value off the front of the buffer.
///
/// Whitespace before the value is dropped and is no part of the frame. Where the buffer
/// then holds no complete value yet, there is no frame and the rest stays in the buffer.
/// A buffer that holds nothing but whitespace holds no value, and the decoder is not
/// asked.
pub fn next_json_frame(buffer: &mut Vec<u8>) -> (r: Result<Option<Vec<u8>>, PodtenderError>)
    ensures
        is_next_json_frame(old(buffer)@, final(buffer)@, r),
{
    trim_buffer(buffer);
    if buffer.len() == 0 {
        return Ok(None);
    }
    let ghost trimmed = buffer@;
    let mut frame = buffer.clone();
    match json_codec_decode(buffer) {
        Ok(Some(_)) => {
            if buffer.len() < frame.len() {
                let consumed: usize = frame.len() - buffer.len();
                frame.truncate(consumed);
                Ok(Some(frame))
            } else {
                proof {
                    assert(buffer@ =~= trimmed);
                }
                Ok(None)
            }
        },
        Ok(None) => Ok(None),
        Err(error) => Err(PodtenderError::MyJsonCodecError(error)),
    }
}

/// What a framing makes of a whole body: the items in the order in which their frames
/// end, whether it stopped at a frame that could not be decoded, and the bytes left over.
pub struct Framed<T> {
    pub items: Seq<T>,
    pub failed: bool,
    pub rest: Seq<u8>,
}

/// The lines of a body. The framing stops at the first line that is no UTF-8 text.
pub open spec fn lines_of(bytes: Seq<u8>) -> Framed<Seq<char>>
    decreases bytes.len(),
{
    let position = first_newline(bytes);
    if position is Some && 0 <= position->Some_0 < bytes.len() {
        let line = bytes.take(position->Some_0 + 1);
        if valid_utf8(line) {
            let tail = lines_of(bytes.skip(position->Some_0 + 1));
            Framed { items: seq![decode_utf8(line)] + tail.items, failed: tail.failed, rest: tail.rest }
        } else {
            Framed { items: Seq::empty(), failed: true, rest: bytes.skip(position->Some_0 + 1) }
        }
    } else {
        Framed { items: Seq::empty(), failed: false, rest: bytes }
    }
}

/// The JSON frames of a body. Whitespace between the values belongs to no frame. The
/// framing stops at the first bytes that are no JSON.
pub open spec fn json_frames_of(bytes: Seq<u8>) -> Framed<Seq<u8>>
    decreases bytes.len(),
{
    if bytes.len() == 0 {
        Framed { items: Seq::empty(), failed: false, rest: bytes }
    } else if is_json_whitespace(bytes[0]) {
        json_frames_of(bytes.skip(1))
    } else {
        match json_framing(bytes) {
            JsonFraming::Value { consumed } => if 0 < consumed <= bytes.len() {
                let tail = json_frames_of(bytes.skip(consumed as int));
                Framed {
                    items: seq![bytes.take(consumed as int)] + tail.items,
                    failed: tail.failed,
                    rest: tail.rest,
                }
            } else {
                Framed { items: Seq::empty(), failed: false, rest: bytes }
            },
            JsonFraming::Incomplete => Framed { items: Seq::empty(), failed: false, rest: bytes },
            JsonFraming::Malformed => Framed { items: Seq::empty(), failed: true, rest: bytes },
        }
    }
}

/// Whitespace at the front of a body changes nothing about its frames.
pub proof fn lemma_json_frames_of_trimmed(bytes: Seq<u8>)
    ensures
        json_frames_of(bytes) == json_frames_of(trim_front(bytes)),
    decreases bytes.len(),
{
    if bytes.len() > 0 && is_json_whitespace(bytes[0]) {
        lemma_json_frames_of_trimmed(bytes.skip(1));
    }
}

/// Where `first_newline` finds a line feed, it is the first one; where it finds none,
/// there is none.
pub proof fn lemma_first_newline(bytes: Seq<u8>)
    ensures
        match first_newline(bytes) {
            Some(position) => {
                &&& 0 <= position < bytes.len()
                &&& bytes[position] == 10u8
                &&& forall|i: int| 0 <= i < position ==> bytes[i] != 10u8
            },
            None => forall|i: int| 0 <= i < bytes.len() ==> bytes[i] != 10u8,
        },
    decreases bytes.len(),
{
    if bytes.len() > 0 && bytes[0] != 10u8 {
        let tail = bytes.skip(1);
        lemma_first_newline(tail);
        match first_newline(tail) {
            Some(position) => {
                assert(bytes[position + 1] == tail[position]);
                assert forall|i: int| 0 <= i < position + 1 implies bytes[i] != 10u8 by {
                    if i > 0 {
                        assert(bytes[i] == tail[i - 1]);
                    }
                }
            },
            None => {
                assert forall|i: int| 0 <= i < bytes.len() implies bytes[i] != 10u8 by {
                    if i > 0 {
                        assert(bytes[i] == tail[i - 1]);
                    }
                }
            },
        }
    }
}

/// The items of a stream, in the order in which they were decoded, and the error that
/// ended it, if one did. No item follows the error.
#[derive(Debug)]
pub struct StreamOutcome<T> {
    pub items: Vec<T>,
    pub terminal_error: Option<PodtenderError>,
}

/// How a stream of lines over a body ends.
///
/// `interruption` is the failure that cut the body short, if one did. A line that is no
/// text ends the stream first; then the interruption; then bytes left over after the
/// last line feed. Otherwise the stream ends without an error.
pub open spec fn is_lines_end(
    framed: Framed<Seq<char>>,
    interruption: Option<std::io::Error>,
    terminal_error: Option<PodtenderError>,
) -> bool {
    if framed.failed {
        terminal_error matches Some(error) && error is IoError
    } else if interruption is Some {
        terminal_error == Some(PodtenderError::IoError(interruption->Some_0))
    } else if framed.rest.len() > 0 {
        terminal_error == Some(PodtenderError::IoError(bytes_remaining()))
    } else {
        terminal_error is None
    }
}

/// How a stream of JSON frames over a body ends.
///
/// `interruption` is the failure that cut the body short, if one did. Bytes that are no
/// JSON end the stream first; then the interruption; then bytes other than whitespace
/// that are left over after the last complete value. Otherwise the stream ends without
/// an error: whitespace after the last value is a clean end.
pub open spec fn is_json_end(
    framed: Framed<Seq<u8>>,
    interruption: Option<std::io::Error>,
    terminal_error: Option<PodtenderError>,
) -> bool {
    if framed.failed || interruption is Some || trim_front(framed.rest).len() > 0 {
        terminal_error matches Some(error) && error is MyJsonCodecError
    } else {
        terminal_error is None
    }
}

/// How a stream of lines ends when the body ends with `rest` still in the buffer.
pub fn lines_close(rest: &Vec<u8>, interruption: Option<std::io::Error>) -> (r: Option<
    PodtenderError,
>)
    ensures
        is_lines_close(rest@, interruption, r),
{
    match interruption {
        Some(error) => Some(PodtenderError::IoError(error)),
        None => if rest.len() > 0 {
            Some(PodtenderError::IoError(bytes_remaining_error()))
        } else {
            None
        },
    }
}

/// How a stream of JSON frames ends when the body ends with `rest` still in the buffer.
pub fn json_close(rest: &Vec<u8>, interruption: Option<std::io::Error>) -> (r: Option<
    PodtenderError,
>)
    ensures
        is_json_close(rest@, interruption, r),
{
    match interruption {
        Some(error) => Some(PodtenderError::MyJsonCodecError(json_codec_io_error(error))),
        None => if leading_whitespace(rest) < rest.len() {
            Some(PodtenderError::MyJsonCodecError(json_codec_io_error(bytes_remaining_error())))
        } else {
            None
        },
    }
}

/// Splits the bytes of a body into its lines.
///
/// `body` holds the bytes that arrived, `interruption` the failure that cut the body
/// short, if one did.
pub fn decode_lines(body: Vec<u8>, interruption: Option<std::io::Error>) -> (r: StreamOutcome<
    String,
>)
    ensures
        r.items.deep_view() == lines_of(body@).items,
        is_lines_end(lines_of(body@), interruption, r.terminal_error),
{
    let ghost whole = body@;
    let mut buffer = body;
    let mut items: Vec<String> = Vec::new();
    let mut failure: Option<PodtenderError> = None;
    let mut more = true;
    assert(items.deep_view() =~= Seq::<Seq<char>>::empty());
    while more
        invariant
            more ==> failure is None && lines_of(whole).items == items.deep_view() + lines_of(
                buffer@,
            ).items && lines_of(whole).failed == lines_of(buffer@).failed && lines_of(whole).rest
                == lines_of(buffer@).rest,
            !more ==> lines_of(whole).items == items.deep_view(),
            !more && lines_of(whole).failed ==> (failure matches Some(error) && error is IoError),
            !more && !lines_of(whole).failed ==> failure is None && lines_of(whole).rest
                == buffer@,
        decreases buffer.len() + if more { 1int } else { 0int },
    {
        let ghost before = buffer@;
        let ghost collected = items.deep_view();
        proof {
            lemma_first_newline(before);
        }
        match next_line(&mut buffer) {
            Ok(Some(line)) => {
                items.push(line);
                proof {
                    assert(items.deep_view() =~= collected.push(line@));
                    assert(lines_of(whole).items =~= items.deep_view() + lines_of(buffer@).items);
                }
            },
            Ok(None) => {
                more = false;
                proof {
                    assert(lines_of(whole).items =~= items.deep_view());
                }
            },
            Err(error) => {
                failure = Some(error);
                more = false;
                proof {
                    assert(lines_of(whole).items =~= items.deep_view());
                }
            },
        }
    }
    let terminal_error = match failure {
        Some(error) => Some(error),
        None => lines_close(&buffer, interruption),
    };
    StreamOutcome { items, terminal_error }
}

/// Splits the bytes of a body into the frames of its JSON values.
///
/// `body` holds the bytes that arrived, `interruption` the failure that cut the body
/// short, if one did.
pub fn decode_json_frames(body: Vec<u8>, interruption: Option<std::io::Error>) -> (r:
    StreamOutcome<Vec<u8>>)
    ensures
        r.items.deep_view() == json_frames_of(body@).items,
        is_json_end(json_frames_of(body@), interruption, r.terminal_error),
{
    let ghost whole = body@;
    let mut buffer = body;
    let mut items: Vec<Vec<u8>> = Vec::new();
    let mut failure: Option<PodtenderError> = None;
    let mut more = true;
    assert(items.deep_view() =~= Seq::<Seq<u8>>::empty());
    while more
        invariant
            more ==> failure is None && json_frames_of(whole).items == items.deep_view()
                + json_frames_of(buffer@).items && json_frames_of(whole).failed == json_frames_of(
                buffer@,
            ).failed && json_frames_of(whole).rest == json_frames_of(buffer@).rest,
            !more ==> json_frames_of(whole).items == items.deep_view(),
            !more && json_frames_of(whole).failed ==> (failure matches Some(error)
                && error is MyJsonCodecError),
            !more && !json_frames_of(whole).failed ==> failure is None && json_frames_of(
                whole,
            ).rest == buffer@,
        decreases buffer.len() + if more { 1int } else { 0int },
    {
        let ghost collected = items.deep_view();
        proof {
            lemma_trim_front(buffer@);
            lemma_json_frames_of_trimmed(buffer@);
        }
        match next_json_frame(&mut buffer) {
            Ok(Some(frame)) => {
                items.push(frame);
                proof {
                    assert(frame.deep_view() =~= frame@);
                    assert(items.deep_view() =~= collected.push(frame@));
                    assert(json_frames_of(whole).items =~= items.deep_view() + json_frames_of(
                        buffer@,
                    ).items);
                }
            },
            Ok(None) => {
                more = false;
                proof {
                    assert(json_frames_of(whole).items =~= items.deep_view());
                }
            },
            Err(error) => {
                failure = Some(error);
                more = false;
                proof {
                    assert(json_frames_of(whole).items =~= items.deep_view());
                }
            },
        }
    }
    let terminal_error = match failure {
        Some(error) => Some(error),
        None => json_close(&buffer, interruption),
    };
    StreamOutcome { items, terminal_error }
}

/// The bytes of the given pieces, one after the other.
pub open spec fn concat(pieces: Seq<Seq<u8>>) -> Seq<u8>
    decreases pieces.len(),
{
    if pieces.len() == 0 {
        Seq::empty()
    } else {
        pieces[0] + concat(pieces.skip(1))
    }
}

/// The given units as lines: each followed by a line feed.
pub open spec fn as_lines(units: Seq<Seq<u8>>) -> Seq<Seq<u8>> {
    Seq::new(units.len(), |i: int| units[i] + seq![10u8])
}

/// Whether every unit is a line's content: without a line feed in it, and UTF-8 text
/// together with the line feed that ends it.
pub open spec fn are_line_units(units: Seq<Seq<u8>>) -> bool {
    forall|i: int|
        0 <= i < units.len() ==> !(#[trigger] units[i]).contains(10u8) && valid_utf8(
            units[i] + seq![10u8],
        )
}

/// Whether every unit is a JSON value on a line of its own: it starts with a byte
/// that is no whitespace, and it is what the decoder takes as one value off the front of
/// the lines that start with it.
pub open spec fn are_json_units(units: Seq<Seq<u8>>) -> bool {
    forall|i: int|
        0 <= i < units.len() ==> (#[trigger] units[i]).len() > 0 && !is_json_whitespace(
            units[i][0],
        ) && json_framing(concat(as_lines(units.skip(i)))) == (JsonFraming::Value {
            consumed: units[i].len(),
        })
}

/// Lines keep their order: a body made of N lines, none with a line feed inside, gives
/// exactly those N lines, in the order in which they stand in the body, and ends without
/// an error.
pub proof fn lemma_lines_keep_order(units: Seq<Seq<u8>>)
    requires
        are_line_units(units),
    ensures
        lines_of(concat(as_lines(units))).items == Seq::new(
            units.len(),
            |i: int| decode_utf8(units[i] + seq![10u8]),
        ),
        !lines_of(concat(as_lines(units))).failed,
        lines_of(concat(as_lines(units))).rest.len() == 0,
    decreases units.len(),
{
    let body = concat(as_lines(units));
    let texts = Seq::new(units.len(), |i: int| decode_utf8(units[i] + seq![10u8]));
    lemma_first_newline(body);
    if units.len() == 0 {
        assert(body.len() == 0);
        assert(lines_of(body).items =~= texts);
    } else {
        let first = units[0];
        let tail = units.skip(1);
        assert(as_lines(units).skip(1) =~= as_lines(tail));
        assert(as_lines(units)[0] == first + seq![10u8]);
        let tail_body = concat(as_lines(tail));
        assert(body == (first + seq![10u8]) + tail_body);
        assert(body[first.len() as int] == 10u8);
        assert forall|i: int| 0 <= i < first.len() implies body[i] != 10u8 by {
            assert(body[i] == first[i]);
            assert(!units[0].contains(10u8));
        }
        let position = first_newline(body);
        assert(position == Some(first.len() as int));
        assert(body.take(first.len() as int + 1) =~= first + seq![10u8]);
        assert(body.skip(first.len() as int + 1) =~= tail_body);
        assert(are_line_units(tail)) by {
            assert forall|i: int| 0 <= i < tail.len() implies !(#[trigger] tail[i]).contains(10u8)
                && valid_utf8(tail[i] + seq![10u8]) by {
                assert(tail[i] == units[i + 1]);
            }
        }
        lemma_lines_keep_order(tail);
        let tail_texts = Seq::new(tail.len(), |i: int| decode_utf8(tail[i] + seq![10u8]));
        assert(texts =~= seq![decode_utf8(first + seq![10u8])] + tail_texts) by {
            assert forall|i: int| 1 <= i < units.len() implies texts[i] == tail_texts[i - 1] by {
                assert(tail[i - 1] == units[i]);
            }
        }
    }
}

/// Lines do not depend on the pieces in which a body arrives: framing the first piece,
/// and then what it left over together with the second piece, gives the lines of the
/// two pieces taken as one body.
pub proof fn lemma_lines_of_pieces(first: Seq<u8>, second: Seq<u8>)
    ensures
        !lines_of(first).failed ==> {
            let continued = lines_of(lines_of(first).rest + second);
            &&& lines_of(first + second).items == lines_of(first).items + continued.items
            &&& lines_of(first + second).failed == continued.failed
            &&& lines_of(first + second).rest == continued.rest
        },
        lines_of(first).failed ==> lines_of(first + second).failed && lines_of(
            first + second,
        ).items == lines_of(first).items,
    decreases first.len(),
{
    let whole = first + second;
    lemma_first_newline(first);
    lemma_first_newline(whole);
    match first_newline(first) {
        None => {
            assert(lines_of(first).rest + second == whole);
            assert(lines_of(first).items + lines_of(whole).items =~= lines_of(whole).items);
        },
        Some(position) => {
            assert(whole[position] == first[position]);
            assert forall|i: int| 0 <= i < position implies whole[i] != 10u8 by {
                assert(whole[i] == first[i]);
            }
            assert(first_newline(whole) == Some(position));
            assert(whole.take(position + 1) =~= first.take(position + 1));
            assert(whole.skip(position + 1) =~= first.skip(position + 1) + second);
            if valid_utf8(first.take(position + 1)) {
                lemma_lines_of_pieces(first.skip(position + 1), second);
                let tail = lines_of(first.skip(position + 1));
                if !tail.failed {
                    let continued = lines_of(tail.rest + second);
                    assert(lines_of(whole).items =~= lines_of(first).items + continued.items);
                } else {
                    assert(lines_of(whole).items =~= lines_of(first).items);
                }
            }
        },
    }
}

/// JSON values keep their order: a body made of N values, each followed by a line feed,
/// gives exactly those N values as its frames, in the order in which they stand in the
/// body, and ends without an error.
pub proof fn lemma_json_frames_keep_order(units: Seq<Seq<u8>>)
    requires
        are_json_units(units),
    ensures
        json_frames_of(concat(as_lines(units))).items == units,
        !json_frames_of(concat(as_lines(units))).failed,
        json_frames_of(concat(as_lines(units))).rest.len() == 0,
        is_json_end(json_frames_of(concat(as_lines(units))), None, None),
    decreases units.len(),
{
    let body = concat(as_lines(units));
    if units.len() == 0 {
        assert(json_frames_of(body).items =~= units);
    } else {
        let first = units[0];
        let tail = units.skip(1);
        let tail_body = concat(as_lines(tail));
        assert(units.skip(0) =~= units);
        assert(as_lines(units).skip(1) =~= as_lines(tail));
        assert(as_lines(units)[0] == first + seq![10u8]);
        assert(body == (first + seq![10u8]) + tail_body);
        assert(body[0] == first[0]);
        assert(json_framing(body) == (JsonFraming::Value { consumed: first.len() }));
        assert(body.take(first.len() as int) =~= first);
        let after = body.skip(first.len() as int);
        assert(after =~= seq![10u8] + tail_body);
        assert(after.skip(1) =~= tail_body);
        assert(json_frames_of(after) == json_frames_of(tail_body));
        assert(are_json_units(tail)) by {
            assert forall|i: int| 0 <= i < tail.len() implies (#[trigger] tail[i]).len() > 0
                && !is_json_whitespace(tail[i][0]) && json_framing(
                concat(as_lines(tail.skip(i))),
            ) == (JsonFraming::Value { consumed: tail[i].len() }) by {
                assert(tail[i] == units[i + 1]);
                assert(tail.skip(i) =~= units.skip(i + 1));
            }
        }
        lemma_json_frames_keep_order(tail);
        assert(json_frames_of(body).items =~= units);
    }
}

/// Whether `error` is how a stream of lines ends when the body ends with `rest` still
/// in the buffer: with the interruption, if there was one; else with an error for the
/// bytes left over, if there are any; else without an error.
pub open spec fn is_lines_close(
    rest: Seq<u8>,
    interruption: Option<std::io::Error>,
    error: Option<PodtenderError>,
) -> bool {
    is_lines_end(Framed { items: Seq::empty(), failed: false, rest }, interruption, error)
}

/// Whether `error` is how a stream of JSON frames ends when the body ends with `rest`
/// still in the buffer.
pub open spec fn is_json_close(
    rest: Seq<u8>,
    interruption: Option<std::io::Error>,
    error: Option<PodtenderError>,
) -> bool {
    is_json_end(Framed { items: Seq::empty(), failed: false, rest }, interruption, error)
}

/// The state of a stream of lines over a body that arrives piece by piece: the bytes
/// that arrived and have not been handed out, and whether the stream is over.
#[derive(Debug)]
pub struct LineReader {
    pub buffer: Vec<u8>,
    pub ended: bool,
}

impl LineReader {
    /// A reader at the start of a body.
    pub fn new() -> (r: Self)
        ensures
            r.buffer@.len() == 0,
            !r.ended,
    {
        LineReader { buffer: Vec::new(), ended: false }
    }

    /// Takes in the next piece of the body.
    pub fn feed(&mut self, chunk: &[u8])
        ensures
            final(self).buffer@ == old(self).buffer@ + chunk@,
            final(self).ended == old(self).ended,
    {
        self.buffer.extend_from_slice(chunk);
    }

    /// Hands out the next line. `Ok(None)` says that the stream is over, or, where it is
    /// not, that the buffer holds no whole line. A line that is no text ends the stream.
    pub fn next(&mut self) -> (r: Result<Option<String>, PodtenderError>)
        ensures
            old(self).ended ==> (r matches Ok(None) && *final(self) == *old(self)),
            !old(self).ended ==> is_next_line(old(self).buffer@, final(self).buffer@, r)
                && final(self).ended == (r is Err),
    {
        if self.ended {
            return Ok(None);
        }
        let line = next_line(&mut self.buffer);
        if line.is_err() {
            self.ended = true;
        }
        line
    }

    /// Ends the stream when the body has ended. `interruption` is the failure that cut
    /// the body short, if one did. The result is the error that the stream ends with.
    pub fn finish(&mut self, interruption: Option<std::io::Error>) -> (r: Option<PodtenderError>)
        ensures
            final(self).ended,
            final(self).buffer == old(self).buffer,
            old(self).ended ==> r is None,
            !old(self).ended ==> is_lines_close(old(self).buffer@, interruption, r),
    {
        if self.ended {
            return None;
        }
        self.ended = true;
        lines_close(&self.buffer, interruption)
    }
}

/// The state of a stream of JSON frames over a body that arrives piece by piece: the
/// bytes that arrived and have not been handed out, and whether the stream is over.
#[derive(Debug)]
pub struct JsonFrameReader {
    pub buffer: Vec<u8>,
    pub ended: bool,
}

impl JsonFrameReader {
    /// A reader at the start of a body.
    pub fn new() -> (r: Self)
        ensures
            r.buffer@.len() == 0,
            !r.ended,
    {
        JsonFrameReader { buffer: Vec::new(), ended: false }
    }

    /// Takes in the next piece of the body.
    pub fn feed(&mut self, chunk: &[u8])
        ensures
            final(self).buffer@ == old(self).buffer@ + chunk@,
            final(self).ended == old(self).ended,
    {
        self.buffer.extend_from_slice(chunk);
    }

    /// Hands out the bytes of the next JSON value. `Ok(None)` says that the stream is
    /// over, or, where it is not, that the buffer holds no whole value. Bytes that are no
    /// JSON end the stream.
    pub fn next(&mut self) -> (r: Result<Option<Vec<u8>>, PodtenderError>)
        ensures
            old(self).ended ==> (r matches Ok(None) && *final(self) == *old(self)),
            !old(self).ended ==> is_next_json_frame(old(self).buffer@, final(self).buffer@, r)
                && final(self).ended == (r is Err),
    {
        if self.ended {
            return Ok(None);
        }
        let frame = next_json_frame(&mut self.buffer);
        if frame.is_err() {
            self.ended = true;
        }
        frame
    }

    /// Takes in the outcome of decoding a frame into the value that the caller expects.
    /// A frame that cannot be decoded ends the stream with the codec's error for it.
    pub fn decoded<T>(&mut self, item: Result<T, serde_json::Error>) -> (r: Result<
        T,
        PodtenderError,
    >)
        ensures
            final(self).buffer == old(self).buffer,
            match item {
                Ok(value) => r == Ok::<T, PodtenderError>(value) && final(self).ended == old(
                    self,
                ).ended,
                Err(error) => (r matches Err(failure) && failure is MyJsonCodecError)
                    && final(self).ended,
            },
    {
        match item {
            Ok(value) => Ok(value),
            Err(error) => {
                self.ended = true;
                Err(PodtenderError::MyJsonCodecError(json_codec_json_error(error)))
            },
        }
    }

    /// Ends the stream when the body has ended. `interruption` is the failure that cut
    /// the body short, if one did. The result is the error that the stream ends with.
    pub fn finish(&mut self, interruption: Option<std::io::Error>) -> (r: Option<PodtenderError>)
        ensures
            final(self).ended,
            final(self).buffer == old(self).buffer,
            old(self).ended ==> r is None,
            !old(self).ended ==> is_json_close(old(self).buffer@, interruption, r),
    {
        if self.ended {
            return None;
        }
        self.ended = true;
        json_close(&self.buffer, interruption)
    }
}

} // verus!
