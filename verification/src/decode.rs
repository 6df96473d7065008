//! Response decoders: the incremental chat-stream decoder over framed lines,
//! and the whole-body decoders for vision and image-generation responses.

use vstd::prelude::*;

use crate::chat::{ChatApiResponse, ChatChoice, ChatDelta};
use crate::errors::GptError;
use crate::framing::{frame_lines, lemma_frame_lines_append, LineFramer};
use crate::images::{DalleApiResponse, DalleImageGeneration};
use crate::vision::{VisionApiResponse, VisionChoice, VisionMessage};

verus! {

/// An ASCII whitespace byte, as trimmed from the edges of a framed line.
pub open spec fn is_ws(b: u8) -> bool {
    b == 32u8 || b == 9u8 || b == 10u8 || b == 13u8
}

/// `s` with its leading whitespace bytes dropped.
pub open spec fn trim_start_spec(s: Seq<u8>) -> Seq<u8>
    decreases s.len(),
{
    if s.len() > 0 && is_ws(s[0]) {
        trim_start_spec(s.skip(1))
    } else {
        s
    }
}

/// `s` with its trailing whitespace bytes dropped.
pub open spec fn trim_end_spec(s: Seq<u8>) -> Seq<u8>
    decreases s.len(),
{
    if s.len() > 0 && is_ws(s[s.len() - 1]) {
        trim_end_spec(s.take(s.len() - 1))
    } else {
        s
    }
}

/// `s` with whitespace dropped from both edges.
pub open spec fn trim_spec(s: Seq<u8>) -> Seq<u8> {
    trim_end_spec(trim_start_spec(s))
}

/// The bytes of the literal `data: ` marker that opens a data line.
pub open spec fn data_prefix() -> Seq<u8> {
    seq![100u8, 97u8, 116u8, 97u8, 58u8, 32u8]
}

/// `line` with one leading `data: ` marker dropped, if it carries one.
pub open spec fn strip_data_prefix_spec(line: Seq<u8>) -> Seq<u8> {
    if line.len() >= 6 && line.take(6) == data_prefix() {
        line.skip(6)
    } else {
        line
    }
}

/// The payload of a framed line: the line without its `data: ` marker,
/// trimmed of surrounding whitespace.
pub open spec fn payload_spec(line: Seq<u8>) -> Seq<u8> {
    trim_spec(strip_data_prefix_spec(line))
}

/// Whether this byte counts as trimmable whitespace.
fn is_ws_byte(b: u8) -> (r: bool)
    ensures
        r == is_ws(b),
{
    b == 32 || b == 9 || b == 10 || b == 13
}

/// Whether the line opens with the `data: ` marker.
fn has_data_prefix(line: &[u8]) -> (r: bool)
    ensures
        r == (line@.len() >= 6 && line@.take(6) == data_prefix()),
{
    if line.len() >= 6 {
        let r = line[0] == 100 && line[1] == 97 && line[2] == 116 && line[3] == 97 && line[4] == 58
            && line[5] == 32;
        proof {
            if r {
                assert(line@.take(6) =~= data_prefix());
            } else {
                assert(line@.take(6)[0] == line@[0] && line@.take(6)[1] == line@[1] && line@.take(
                    6,
                )[2] == line@[2] && line@.take(6)[3] == line@[3] && line@.take(6)[4] == line@[4]
                    && line@.take(6)[5] == line@[5]);
            }
        }
        r
    } else {
        false
    }
}

/// Extracts the payload of one framed line: strips a leading `data: `
/// marker if present, then trims surrounding whitespace.
pub fn extract_payload(line: &[u8]) -> (r: Vec<u8>)
    ensures
        r@ == payload_spec(line@),
{
    let base: usize = if has_data_prefix(line) {
        6
    } else {
        0
    };
    let ghost stripped = strip_data_prefix_spec(line@);
    proof {
        assert(stripped =~= line@.skip(base as int));
    }
    let mut start: usize = base;
    while start < line.len() && is_ws_byte(line[start])
        invariant
            base <= start <= line@.len(),
            stripped == line@.skip(base as int),
            trim_start_spec(stripped) == trim_start_spec(line@.skip(start as int)),
        decreases line@.len() - start,
    {
        proof {
            assert(line@.skip(start as int)[0] == line@[start as int]);
            assert(line@.skip(start as int).skip(1) =~= line@.skip(start as int + 1));
        }
        start += 1;
    }
    let ghost t1 = trim_start_spec(stripped);
    proof {
        assert(t1 == line@.skip(start as int));
    }
    let mut end: usize = line.len();
    proof {
        assert(t1.take(end - start) =~= t1);
    }
    while end > start && is_ws_byte(line[end - 1])
        invariant
            start <= end <= line@.len(),
            t1 == line@.skip(start as int),
            trim_end_spec(t1) == trim_end_spec(t1.take(end - start)),
        decreases end,
    {
        proof {
            let m = end - start;
            assert(t1.take(m)[m - 1] == line@[end - 1]);
            assert(t1.take(m).take(m - 1) =~= t1.take(m - 1));
        }
        end -= 1;
    }
    proof {
        assert(trim_end_spec(t1.take(end - start)) == t1.take(end - start));
    }
    let mut r: Vec<u8> = Vec::new();
    let mut j: usize = start;
    while j < end
        invariant
            start <= j <= end <= line@.len(),
            r@ == line@.subrange(start as int, j as int),
        decreases end - j,
    {
        r.push(line[j]);
        proof {
            assert(line@.subrange(start as int, j as int).push(line@[j as int]) =~= line@.subrange(
                start as int,
                j as int + 1,
            ));
        }
        j += 1;
    }
    proof {
        assert(t1.take(end - start) =~= line@.subrange(start as int, end as int));
    }
    r
}

/// Whether the bytes parse as one chat record, and the delta content of each
/// of its choices if so; a function of the bytes alone.
pub uninterp spec fn chat_deltas_of(payload: Seq<u8>) -> Option<Seq<Option<Seq<char>>>>;

/// Relies on serde_json::from_slice: a chat record is a JSON document
/// `{"choices":[{"delta":{"content":...}}]}`; a choice's content is absent
/// or null when the record carries no text for it.
#[verifier::external_body]
fn parse_chat_record(payload: &[u8]) -> (r: Option<ChatApiResponse>)
    ensures
        r is Some <==> chat_deltas_of(payload@) is Some,
        r matches Some(resp) ==> chat_deltas_of(payload@) == Some(resp.deltas()),
{
    let v: serde_json::Value = serde_json::from_slice(payload).ok()?;
    let choices = v.get("choices")?.as_array()?.iter().map(
        |c| match c.get("delta")?.get("content") {
            None | Some(serde_json::Value::Null) => Some(ChatChoice { delta: ChatDelta { content: None } }),
            Some(serde_json::Value::String(s)) => Some(ChatChoice { delta: ChatDelta { content: Some(s.clone()) } }),
            Some(_) => None,
        },
    ).collect::<Option<Vec<ChatChoice>>>()?;
    Some(ChatApiResponse { choices })
}

/// Whether the bytes parse as one vision response, and the message text of
/// each of its choices if so; a function of the bytes alone.
pub uninterp spec fn vision_contents_of(body: Seq<u8>) -> Option<Seq<Seq<char>>>;

/// Relies on serde_json::from_slice: a vision response is a JSON document
/// `{"choices":[{"message":{"content":"..."}}]}`.
#[verifier::external_body]
fn parse_vision_body(body: &[u8]) -> (r: Option<VisionApiResponse>)
    ensures
        r is Some <==> vision_contents_of(body@) is Some,
        r matches Some(resp) ==> vision_contents_of(body@) == Some(resp.contents()),
{
    let v: serde_json::Value = serde_json::from_slice(body).ok()?;
    let choices = v.get("choices")?.as_array()?.iter().map(
        |c| {
            let content = c.get("message")?.get("content")?.as_str()?;
            Some(VisionChoice { message: VisionMessage { content: content.to_string() } })
        },
    ).collect::<Option<Vec<VisionChoice>>>()?;
    Some(VisionApiResponse { choices })
}

/// Whether the bytes parse as one image-generation response, and the URL of
/// each generated image if so; a function of the bytes alone.
pub uninterp spec fn dalle_urls_of(body: Seq<u8>) -> Option<Seq<Seq<char>>>;

/// Relies on serde_json::from_slice: an image-generation response is a JSON
/// document `{"data":[{"url":"..."}]}`.
#[verifier::external_body]
fn parse_dalle_body(body: &[u8]) -> (r: Option<DalleApiResponse>)
    ensures
        r is Some <==> dalle_urls_of(body@) is Some,
        r matches Some(resp) ==> dalle_urls_of(body@) == Some(resp.urls()),
{
    let v: serde_json::Value = serde_json::from_slice(body).ok()?;
    let data = v.get("data")?.as_array()?.iter().map(
        |g| Some(DalleImageGeneration { url: g.get("url")?.as_str()?.to_string() }),
    ).collect::<Option<Vec<DalleImageGeneration>>>()?;
    Some(DalleApiResponse { data })
}

/// The texts a parsed chat record emits: the content of each delta that
/// carries one, in choice order.
pub open spec fn deltas_texts(deltas: Seq<Option<Seq<char>>>) -> Seq<Seq<char>>
    decreases deltas.len(),
{
    if deltas.len() == 0 {
        Seq::empty()
    } else {
        let rest = deltas_texts(deltas.skip(1));
        match deltas[0] {
            Some(t) => seq![t] + rest,
            None => rest,
        }
    }
}

/// Emitting one more delta appends its text, if it carries one.
proof fn lemma_deltas_texts_push(deltas: Seq<Option<Seq<char>>>, x: Option<Seq<char>>)
    ensures
        deltas_texts(deltas.push(x)) == deltas_texts(deltas) + (match x {
            Some(t) => seq![t],
            None => Seq::<Seq<char>>::empty(),
        }),
    decreases deltas.len(),
{
    let tail = (match x {
        Some(t) => seq![t],
        None => Seq::<Seq<char>>::empty(),
    });
    if deltas.len() == 0 {
        reveal_with_fuel(deltas_texts, 2);
        assert(deltas.push(x)[0] == x);
        assert(deltas.push(x).skip(1) =~= Seq::<Option<Seq<char>>>::empty());
        assert(deltas_texts(deltas.push(x)) =~= tail);
        assert(deltas_texts(deltas) + tail =~= tail);
    } else {
        lemma_deltas_texts_push(deltas.skip(1), x);
        assert(deltas.push(x)[0] == deltas[0]);
        assert(deltas.push(x).skip(1) =~= deltas.skip(1).push(x));
        match deltas[0] {
            Some(t) => {
                assert(seq![t] + (deltas_texts(deltas.skip(1)) + tail) =~= (seq![t] + deltas_texts(
                    deltas.skip(1),
                )) + tail);
            },
            None => {},
        }
    }
}

/// The texts one complete framed line emits: nothing for an empty payload
/// or one that is no chat record, else the texts of the record's deltas.
pub open spec fn line_texts(line: Seq<u8>) -> Seq<Seq<char>> {
    let payload = payload_spec(line);
    if payload.len() == 0 {
        Seq::empty()
    } else {
        match chat_deltas_of(payload) {
            Some(deltas) => deltas_texts(deltas),
            None => Seq::empty(),
        }
    }
}

/// The texts a sequence of framed lines emits, in order.
pub open spec fn lines_texts(lines: Seq<Seq<u8>>) -> Seq<Seq<char>>
    decreases lines.len(),
{
    if lines.len() == 0 {
        Seq::empty()
    } else {
        line_texts(lines[0]) + lines_texts(lines.skip(1))
    }
}

/// One more line emits its own texts after those before it.
proof fn lemma_lines_texts_push(lines: Seq<Seq<u8>>, x: Seq<u8>)
    ensures
        lines_texts(lines.push(x)) == lines_texts(lines) + line_texts(x),
    decreases lines.len(),
{
    if lines.len() == 0 {
        reveal_with_fuel(lines_texts, 2);
        assert(lines.push(x)[0] == x);
        assert(lines.push(x).skip(1) =~= Seq::<Seq<u8>>::empty());
        assert(line_texts(x) + Seq::<Seq<char>>::empty() =~= line_texts(x));
        assert(lines_texts(lines) + line_texts(x) =~= line_texts(x));
    } else {
        lemma_lines_texts_push(lines.skip(1), x);
        assert(lines.push(x)[0] == lines[0]);
        assert(lines.push(x).skip(1) =~= lines.skip(1).push(x));
        assert(line_texts(lines[0]) + (lines_texts(lines.skip(1)) + line_texts(x)) =~= (line_texts(
            lines[0],
        ) + lines_texts(lines.skip(1))) + line_texts(x));
    }
}

/// Concatenated line sequences emit their texts in sequence.
proof fn lemma_lines_texts_append(x: Seq<Seq<u8>>, y: Seq<Seq<u8>>)
    ensures
        lines_texts(x + y) == lines_texts(x) + lines_texts(y),
    decreases x.len(),
{
    if x.len() == 0 {
        assert(x + y =~= y);
        assert(lines_texts(x) + lines_texts(y) =~= lines_texts(y));
    } else {
        lemma_lines_texts_append(x.skip(1), y);
        assert((x + y)[0] == x[0]);
        assert((x + y).skip(1) =~= x.skip(1) + y);
        assert(line_texts(x[0]) + (lines_texts(x.skip(1)) + lines_texts(y)) =~= (line_texts(x[0])
            + lines_texts(x.skip(1))) + lines_texts(y));
    }
}

/// The texts a decoder with `pending` bytes emits on receiving `chunk`.
pub open spec fn chunk_texts(pending: Seq<u8>, chunk: Seq<u8>) -> Seq<Seq<char>> {
    lines_texts(frame_lines(pending, chunk).0)
}

/// However the stream's bytes are cut into two chunks, the decoder emits
/// the same texts in the same order and retains the same remainder: feeding
/// `a + b` in one call equals feeding `a` and then `b`.
pub proof fn lemma_chunk_split(pending: Seq<u8>, a: Seq<u8>, b: Seq<u8>)
    ensures
        chunk_texts(pending, a + b) == chunk_texts(pending, a) + chunk_texts(
            frame_lines(pending, a).1,
            b,
        ),
        frame_lines(pending, a + b).1 == frame_lines(frame_lines(pending, a).1, b).1,
{
    lemma_frame_lines_append(pending, a, b);
    lemma_lines_texts_append(frame_lines(pending, a).0, frame_lines(frame_lines(pending, a).1, b).0);
}

/// Decodes the texts one complete framed line emits.
fn decode_line(line: &[u8]) -> (texts: Vec<String>)
    ensures
        texts.deep_view() == line_texts(line@),
{
    let payload = extract_payload(line);
    let mut texts: Vec<String> = Vec::new();
    proof {
        assert(texts.deep_view() =~= Seq::<Seq<char>>::empty());
    }
    if payload.len() == 0 {
        return texts;
    }
    match parse_chat_record(payload.as_slice()) {
        None => texts,
        Some(resp) => {
            let ghost deltas = resp.deltas();
            let mut j: usize = 0;
            proof {
                assert(deltas_texts(deltas.take(0)) =~= Seq::<Seq<char>>::empty());
            }
            while j < resp.choices.len()
                invariant
                    0 <= j <= resp.choices@.len(),
                    deltas == resp.deltas(),
                    deltas.len() == resp.choices@.len(),
                    texts.deep_view() == deltas_texts(deltas.take(j as int)),
                decreases resp.choices@.len() - j,
            {
                proof {
                    lemma_deltas_texts_push(deltas.take(j as int), deltas[j as int]);
                    assert(deltas.take(j as int).push(deltas[j as int]) =~= deltas.take(
                        j as int + 1,
                    ));
                }
                match &resp.choices[j].delta.content {
                    Some(content) => {
                        let ghost prev = texts.deep_view();
                        texts.push(content.clone());
                        proof {
                            assert(deltas[j as int] == Some(content@));
                            assert(texts.deep_view() =~= prev.push(content@));
                            assert(prev.push(content@) =~= prev + seq![content@]);
                        }
                    },
                    None => {
                        proof {
                            assert(deltas[j as int] is None);
                        }
                    },
                }
                j += 1;
            }
            proof {
                assert(deltas.take(deltas.len() as int) =~= deltas);
            }
            texts
        },
    }
}

/// Decodes a streamed chat response incrementally: each received chunk is
/// framed into lines, every complete line's payload that parses as a chat
/// record has its delta texts emitted in arrival order, and a trailing
/// partial line is carried over to the next chunk. Lines with an empty
/// payload or one that is no chat record are skipped, never an error.
pub struct ChatStreamDecoder {
    framer: LineFramer,
}

impl View for ChatStreamDecoder {
    type V = Seq<u8>;

    closed spec fn view(&self) -> Seq<u8> {
        self.framer@
    }
}

impl ChatStreamDecoder {
    /// A decoder with nothing pending.
    pub fn new() -> (r: ChatStreamDecoder)
        ensures
            r@ == Seq::<u8>::empty(),
    {
        ChatStreamDecoder { framer: LineFramer::new() }
    }

    /// Feeds one received chunk and returns the texts to emit for it, in
    /// arrival order.
    pub fn feed(&mut self, chunk: &[u8]) -> (texts: Vec<String>)
        ensures
            texts.deep_view() == chunk_texts(old(self)@, chunk@),
            final(self)@ == frame_lines(old(self)@, chunk@).1,
    {
        let lines = self.framer.feed(chunk);
        let ghost framed = lines.deep_view();
        let mut texts: Vec<String> = Vec::new();
        let mut j: usize = 0;
        proof {
            assert(texts.deep_view() =~= Seq::<Seq<char>>::empty());
            assert(lines_texts(framed.take(0)) =~= Seq::<Seq<char>>::empty());
        }
        while j < lines.len()
            invariant
                0 <= j <= lines@.len(),
                framed == lines.deep_view(),
                framed.len() == lines@.len(),
                texts.deep_view() == lines_texts(framed.take(j as int)),
            decreases lines@.len() - j,
        {
            proof {
                lemma_lines_texts_push(framed.take(j as int), framed[j as int]);
                assert(framed.take(j as int).push(framed[j as int]) =~= framed.take(j as int + 1));
            }
            let mut line_out = decode_line(lines[j].as_slice());
            let ghost prev = texts.deep_view();
            let ghost emitted = line_out.deep_view();
            proof {
                assert(lines[j as int].deep_view() == framed[j as int]);
                assert(lines[j as int].deep_view() =~= lines[j as int]@);
            }
            texts.append(&mut line_out);
            proof {
                assert(texts.deep_view() =~= prev + emitted);
            }
            j += 1;
        }
        proof {
            assert(framed.take(framed.len() as int) =~= framed);
        }
        texts
    }
}

/// The text a parsed vision response displays: the first choice's message
/// text, or the fixed placeholder when the choice list is empty.
pub fn vision_output(resp: &VisionApiResponse) -> (r: String)
    ensures
        r@ == if resp.contents().len() == 0 {
            "No content in response"@
        } else {
            resp.contents()[0]
        },
{
    if resp.choices.len() == 0 {
        String::from_str("No content in response")
    } else {
        resp.choices[0].message.content.clone()
    }
}

/// Decodes a whole vision response body: the first choice's message text,
/// the fixed placeholder when the choice list is empty, or a decode error
/// when the body is no vision response document.
pub fn decode_vision_body(body: &[u8]) -> (r: Result<String, GptError>)
    ensures
        r is Ok <==> vision_contents_of(body@) is Some,
        r matches Ok(s) ==> (vision_contents_of(body@) matches Some(contents) && s@ == (
        if contents.len() == 0 {
            "No content in response"@
        } else {
            contents[0]
        })),
        r matches Err(e) ==> e matches GptError::Decode,
{
    match parse_vision_body(body) {
        None => Err(GptError::Decode),
        Some(resp) => Ok(vision_output(&resp)),
    }
}

/// Decodes a whole image-generation response body: every returned URL, one
/// per output line, in the server's order, or a decode error when the body
/// is no image-generation response document.
pub fn decode_dalle_body(body: &[u8]) -> (r: Result<Vec<String>, GptError>)
    ensures
        r is Ok <==> dalle_urls_of(body@) is Some,
        r matches Ok(urls) ==> dalle_urls_of(body@) == Some(urls.deep_view()),
        r matches Err(e) ==> e matches GptError::Decode,
{
    match parse_dalle_body(body) {
        None => Err(GptError::Decode),
        Some(resp) => {
            let mut urls: Vec<String> = Vec::new();
            let mut j: usize = 0;
            proof {
                assert(urls.deep_view() =~= resp.urls().take(0));
            }
            while j < resp.data.len()
                invariant
                    0 <= j <= resp.data@.len(),
                    resp.urls().len() == resp.data@.len(),
                    urls.deep_view() == resp.urls().take(j as int),
                decreases resp.data@.len() - j,
            {
                let ghost prev = urls.deep_view();
                urls.push(resp.data[j].url.clone());
                proof {
                    assert(urls.deep_view() =~= prev.push(resp.urls()[j as int]));
                    assert(prev.push(resp.urls()[j as int]) =~= resp.urls().take(j as int + 1));
                }
                j += 1;
            }
            proof {
                assert(resp.urls().take(resp.urls().len() as int) =~= resp.urls());
            }
            Ok(urls)
        },
    }
}

} // verus!
