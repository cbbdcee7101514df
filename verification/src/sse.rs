//! Server-sent-event frame decoder.
//!
//! The upstream chat-completion API streams its reply as a line-oriented
//! byte stream: each event is a line prefixed `data: `, the payload `[DONE]`
//! is a terminal sentinel, and every other payload is a JSON object that may
//! carry one content delta. Byte chunks arrive with arbitrary boundaries —
//! a chunk may end in the middle of a line or of a UTF-8 sequence — so the
//! decoder buffers bytes until it has seen a full line terminator and only
//! then interprets the line. The deltas produced are therefore a function of
//! the concatenated byte stream alone, never of how it was chunked.

use vstd::prelude::*;

verus! {

/// The bytes of the frame prefix `data: `.
pub open spec fn data_prefix() -> Seq<u8> {
    seq![100u8, 97u8, 116u8, 97u8, 58u8, 32u8]
}

/// The bytes of the terminal sentinel payload `[DONE]`.
pub open spec fn done_payload() -> Seq<u8> {
    seq![91u8, 68u8, 79u8, 78u8, 69u8, 93u8]
}

/// The content delta carried by one frame payload: the string at
/// `choices[0].delta.content` of the payload parsed as JSON, or nothing when
/// the payload is not a JSON object of that shape. The payload alone
/// determines the result.
pub uninterp spec fn delta_of(payload: Seq<u8>) -> Option<Seq<char>>;

/// Relies on `serde_json::from_slice` and `serde_json::Value::{get, as_str}`:
/// parses the payload as JSON and extracts `choices[0].delta.content` when it
/// is present as a string; the result is a function of the payload bytes
/// alone.
#[verifier::external_body]
fn parse_delta_payload(payload: &[u8]) -> (r: Option<String>)
    ensures
        r is Some <==> delta_of(payload@) is Some,
        r is Some ==> r->0@ == delta_of(payload@)->0,
{
    let v: serde_json::Value = match serde_json::from_slice(payload) {
        Ok(v) => v,
        Err(_) => return None,
    };
    let s = v.get("choices")?.get(0)?.get("delta")?.get("content")?.as_str()?;
    Some(s.to_string())
}

/// A line with one trailing carriage return removed, as the line terminator
/// may be `\r\n` as well as `\n`.
pub open spec fn strip_cr(line: Seq<u8>) -> Seq<u8> {
    if line.len() > 0 && line.last() == 13u8 {
        line.drop_last()
    } else {
        line
    }
}

/// The delta one completed line contributes: only `data: ` frames carry one,
/// the `[DONE]` sentinel is consumed silently, and a payload without a
/// content delta (among them every malformed payload) is skipped.
pub open spec fn line_delta(line: Seq<u8>) -> Option<Seq<char>> {
    let content = strip_cr(line);
    if content.len() >= 6 && content.take(6) == data_prefix() {
        let payload = content.skip(6);
        if payload == done_payload() {
            None
        } else {
            delta_of(payload)
        }
    } else {
        None
    }
}

/// The byte stream split at `\n`: always one more segment than newline
/// bytes, the last segment being the (possibly empty) unterminated tail.
pub open spec fn segments(s: Seq<u8>) -> Seq<Seq<u8>>
    decreases s.len(),
{
    if s.len() == 0 {
        seq![Seq::<u8>::empty()]
    } else {
        let prev = segments(s.drop_last());
        if s.last() == 10u8 {
            prev + seq![Seq::<u8>::empty()]
        } else {
            prev.drop_last() + seq![prev.last() + seq![s.last()]]
        }
    }
}

pub proof fn lemma_segments_nonempty(s: Seq<u8>)
    ensures
        segments(s).len() >= 1,
    decreases s.len(),
{
    if s.len() > 0 {
        lemma_segments_nonempty(s.drop_last());
    }
}

/// The deltas contributed by a sequence of completed lines, in order.
pub open spec fn lines_deltas(lines: Seq<Seq<u8>>) -> Seq<Seq<char>>
    decreases lines.len(),
{
    if lines.len() == 0 {
        Seq::<Seq<char>>::empty()
    } else {
        lines_deltas(lines.drop_last()) + match line_delta(lines.last()) {
            Some(d) => seq![d],
            None => Seq::<Seq<char>>::empty(),
        }
    }
}

/// The deltas of the newline-terminated part of a byte stream.
pub open spec fn stream_deltas(s: Seq<u8>) -> Seq<Seq<char>> {
    lines_deltas(segments(s).drop_last())
}

/// The deltas of a whole byte stream once it has ended, the unterminated
/// tail treated as a final line.
pub open spec fn final_deltas(s: Seq<u8>) -> Seq<Seq<char>> {
    lines_deltas(segments(s))
}

/// An incremental SSE decoder. A fresh decoder is created for every
/// streaming call; it is fed byte chunks as they arrive and hands back the
/// content deltas completed by each chunk.
pub struct SseDecoder {
    buf: Vec<u8>,
    consumed: Ghost<Seq<u8>>,
    emitted: Ghost<Seq<Seq<char>>>,
}

impl SseDecoder {
    /// All bytes fed to the decoder so far.
    pub closed spec fn consumed(self) -> Seq<u8> {
        self.consumed@
    }

    /// All deltas handed out so far.
    pub closed spec fn emitted(self) -> Seq<Seq<char>> {
        self.emitted@
    }

    /// The decoder buffers exactly the unterminated tail of its input, and
    /// has handed out exactly the deltas of the newline-terminated part.
    pub closed spec fn wf(self) -> bool {
        &&& self.buf@ == segments(self.consumed@).last()
        &&& self.emitted@ == stream_deltas(self.consumed@)
    }

    /// What has been emitted is a function of what has been consumed.
    pub proof fn lemma_emitted_is_stream_deltas(self)
        requires
            self.wf(),
        ensures
            self.emitted() == stream_deltas(self.consumed()),
    {
    }

    /// A fresh decoder.
    pub fn new() -> (d: SseDecoder)
        ensures
            d.wf(),
            d.consumed() == Seq::<u8>::empty(),
            d.emitted() == Seq::<Seq<char>>::empty(),
    {
        let d = SseDecoder {
            buf: Vec::new(),
            consumed: Ghost(Seq::empty()),
            emitted: Ghost(Seq::empty()),
        };
        proof {
            assert(segments(Seq::<u8>::empty()).last() =~= Seq::<u8>::empty());
            assert(segments(Seq::<u8>::empty()).drop_last() =~= Seq::<Seq<u8>>::empty());
        }
        d
    }

    /// Feed one byte chunk; returns the deltas whose lines this chunk
    /// completed, in stream order.
    pub fn feed(&mut self, chunk: &[u8]) -> (out: Vec<String>)
        requires
            old(self).wf(),
        ensures
            final(self).wf(),
            final(self).consumed() == old(self).consumed() + chunk@,
            final(self).emitted() == old(self).emitted() + out.deep_view(),
    {
        let mut out: Vec<String> = Vec::new();
        let ghost consumed0 = self.consumed@;
        let ghost emitted0 = self.emitted@;
        let mut i: usize = 0;
        while i < chunk.len()
            invariant
                i <= chunk@.len(),
                self.wf(),
                self.consumed@ == consumed0 + chunk@.take(i as int),
                self.emitted@ == emitted0 + out.deep_view(),
            decreases chunk@.len() - i,
        {
            let b = chunk[i];
            let ghost c_before = self.consumed@;
            proof {
                self.consumed@ = self.consumed@ + seq![b];
                assert((c_before + seq![b]).drop_last() =~= c_before);
                assert(self.consumed@ =~= consumed0 + chunk@.take(i as int + 1));
                lemma_segments_nonempty(c_before);
            }
            if b == 10 {
                let delta_opt = process_line(&self.buf);
                self.buf.clear();
                proof {
                    assert(segments(self.consumed@) =~= segments(c_before) + seq![
                        Seq::<u8>::empty(),
                    ]);
                    assert(segments(self.consumed@).last() =~= Seq::<u8>::empty());
                    assert(segments(self.consumed@).drop_last() =~= segments(c_before));
                    assert(segments(c_before).drop_last() =~= segments(
                        self.consumed@,
                    ).drop_last().drop_last());
                    assert(lines_deltas(segments(self.consumed@).drop_last()) == lines_deltas(
                        segments(c_before).drop_last(),
                    ) + match line_delta(segments(c_before).last()) {
                        Some(d) => seq![d],
                        None => Seq::<Seq<char>>::empty(),
                    });
                }
                match delta_opt {
                    Some(d) => {
                        proof {
                            self.emitted@ = self.emitted@ + seq![d@];
                        }
                        out.push(d);
                        proof {
                            assert(out.deep_view() =~= out.deep_view().drop_last() + seq![
                                out.deep_view().last(),
                            ]);
                            assert(self.emitted@ =~= emitted0 + out.deep_view());
                            assert(self.emitted@ == stream_deltas(self.consumed@));
                        }
                    },
                    None => {
                        proof {
                            assert(self.emitted@ =~= stream_deltas(self.consumed@));
                        }
                    },
                }
            } else {
                self.buf.push(b);
                proof {
                    assert(segments(self.consumed@) =~= segments(c_before).drop_last() + seq![
                        segments(c_before).last() + seq![b],
                    ]);
                    assert(segments(self.consumed@).last() =~= segments(c_before).last() + seq![b]);
                    assert(segments(self.consumed@).drop_last() =~= segments(
                        c_before,
                    ).drop_last());
                    assert(self.emitted@ == stream_deltas(self.consumed@));
                }
            }
            proof {
                assert(self.emitted@ == stream_deltas(self.consumed@));
                assert(self.buf@ == segments(self.consumed@).last());
                assert(self.emitted@ == emitted0 + out.deep_view());
                assert(self.consumed@ == consumed0 + chunk@.take(i as int + 1));
            }
            i = i + 1;
        }
        proof {
            assert(chunk@.take(chunk@.len() as int) =~= chunk@);
        }
        out
    }

    /// End the stream: the buffered unterminated tail, if any, is treated as
    /// a final line, exactly as when the upstream closes the response after a
    /// line without a terminator.
    pub fn finish(self) -> (out: Option<String>)
        requires
            self.wf(),
        ensures
            out is Some <==> line_delta(segments(self.consumed()).last()) is Some,
            out is Some ==> final_deltas(self.consumed()) == self.emitted() + seq![out->0@],
            out is None ==> final_deltas(self.consumed()) == self.emitted(),
    {
        proof {
            lemma_segments_nonempty(self.consumed@);
            assert(final_deltas(self.consumed@) == lines_deltas(
                segments(self.consumed@).drop_last(),
            ) + match line_delta(segments(self.consumed@).last()) {
                Some(d) => seq![d],
                None => Seq::<Seq<char>>::empty(),
            });
        }
        let out = process_line(&self.buf);
        proof {
            if out is Some {
                assert(final_deltas(self.consumed@) =~= self.emitted@ + seq![out->0@]);
            } else {
                assert(final_deltas(self.consumed@) =~= self.emitted@);
            }
        }
        out
    }
}

/// Interpret one completed line.
fn process_line(line: &Vec<u8>) -> (r: Option<String>)
    ensures
        r is Some <==> line_delta(line@) is Some,
        r is Some ==> r->0@ == line_delta(line@)->0,
{
    let mut n = line.len();
    if n > 0 && line[n - 1] == 13 {
        n = n - 1;
    }
    proof {
        assert(strip_cr(line@) =~= line@.take(n as int));
    }
    if n < 6 {
        return None;
    }
    if line[0] != 100 || line[1] != 97 || line[2] != 116 || line[3] != 97 || line[4] != 58
        || line[5] != 32 {
        proof {
            let content = strip_cr(line@);
            assert(content.take(6) != data_prefix()) by {
                if content.take(6) == data_prefix() {
                    assert(content.take(6)[0] == 100u8 && content.take(6)[1] == 97u8
                        && content.take(6)[2] == 116u8 && content.take(6)[3] == 97u8
                        && content.take(6)[4] == 58u8 && content.take(6)[5] == 32u8);
                }
            }
        }
        return None;
    }
    proof {
        let content = strip_cr(line@);
        assert(content.take(6) =~= data_prefix());
    }
    let mut payload: Vec<u8> = Vec::new();
    let mut j: usize = 6;
    while j < n
        invariant
            6 <= j <= n,
            n <= line@.len(),
            payload@ == line@.take(n as int).skip(6).take(j - 6),
        decreases n - j,
    {
        payload.push(line[j]);
        proof {
            assert(payload@ =~= line@.take(n as int).skip(6).take(j - 6 + 1));
        }
        j = j + 1;
    }
    proof {
        assert(payload@ =~= strip_cr(line@).skip(6));
    }
    if payload.len() == 6 && payload[0] == 91 && payload[1] == 68 && payload[2] == 79 && payload[3]
        == 78 && payload[4] == 69 && payload[5] == 93 {
        proof {
            assert(payload@ =~= done_payload());
        }
        return None;
    }
    proof {
        assert(payload@ != done_payload()) by {
            if payload@ == done_payload() {
                assert(payload@.len() == 6 && payload@[0] == 91u8 && payload@[1] == 68u8
                    && payload@[2] == 79u8 && payload@[3] == 78u8 && payload@[4] == 69u8
                    && payload@[5] == 93u8);
            }
        }
    }
    parse_delta_payload(payload.as_slice())
}

/// Chunk boundaries are irrelevant: two decoders that have consumed the same
/// bytes — however differently those bytes were split into chunks — have
/// handed out the same deltas and buffer the same tail.
pub proof fn lemma_chunking_irrelevant(d1: SseDecoder, d2: SseDecoder)
    requires
        d1.wf(),
        d2.wf(),
        d1.consumed() == d2.consumed(),
    ensures
        d1.emitted() == d2.emitted(),
{
}

/// A `data: [DONE]` line never yields a delta, with or without a trailing
/// carriage return.
pub proof fn lemma_done_yields_nothing(line: Seq<u8>)
    requires
        strip_cr(line) == data_prefix() + done_payload(),
    ensures
        line_delta(line) is None,
{
    let content = strip_cr(line);
    assert(content.take(6) =~= data_prefix());
    assert(content.skip(6) =~= done_payload());
}

/// A line that is not a `data: ` frame, or whose payload carries no content
/// delta (among them every payload that is not parseable JSON), is skipped:
/// it contributes nothing, and the surrounding stream is decoded exactly as
/// if the line were absent.
pub proof fn lemma_undecodable_line_skipped(lines: Seq<Seq<u8>>, i: int)
    requires
        0 <= i < lines.len(),
        line_delta(lines[i]) is None,
    ensures
        lines_deltas(lines) == lines_deltas(lines.remove(i)),
    decreases lines.len(),
{
    if lines.len() > 0 {
        if i == lines.len() - 1 {
            assert(lines.remove(i) =~= lines.drop_last());
        } else {
            lemma_undecodable_line_skipped(lines.drop_last(), i);
            assert(lines.remove(i).drop_last() =~= lines.drop_last().remove(i));
            assert(lines.remove(i).last() == lines.last());
        }
    }
}

} // verus!
