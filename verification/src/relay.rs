//! Stream relay: drives one streaming chat-completion call.
//!
//! The relay owns the decoder and the accumulated transcript of one call.
//! Its driver performs the HTTP transfer and hands every received byte chunk
//! in; the relay appends each decoded delta to the transcript and hands the
//! deltas back for the driver to push to its listener, in the exact order
//! they arrived. The cancellation signal is checked at every chunk boundary:
//! once it is observed the call fails with `Cancelled`, but text already
//! accumulated and already emitted is not rolled back.

use vstd::prelude::*;
use crate::sse::{SseDecoder, final_deltas, line_delta, segments, stream_deltas};

verus! {

/// Why a generation call failed. Exhaustion of the continuation budget is
/// deliberately not here: it returns partial content as a success.
#[derive(Debug)]
pub enum GenError {
    /// The request could not even be built: bad credentials or URL. Not
    /// retried, surfaced immediately.
    Config(String),
    /// The network transport failed. Surfaced, never retried by this crate.
    Transport(String),
    /// The upstream answered with a non-success HTTP status; carries the
    /// response body for diagnostics.
    Upstream(String),
    /// The user cancelled the generation: a distinct, non-fatal condition,
    /// so a caller can tell "stopped" from "broke".
    Cancelled,
}

impl GenError {
    /// The user-facing message of this error.
    pub fn message(&self) -> (r: String)
        ensures
            r@ == match *self {
                GenError::Config(m) => m@,
                GenError::Transport(m) => m@,
                GenError::Upstream(b) => "API错误: "@ + b@,
                GenError::Cancelled => "生成已被用户中断"@,
            },
    {
        match self {
            GenError::Config(m) => m.clone(),
            GenError::Transport(m) => m.clone(),
            GenError::Upstream(b) => {
                let mut r = String::new();
                r.append("API错误: ");
                r.append(b.as_str());
                proof {
                    assert(r@ =~= "API错误: "@ + b@);
                }
                r
            },
            GenError::Cancelled => String::from_str("生成已被用户中断"),
        }
    }
}

/// Accept exactly the success statuses of the upstream reply; any other
/// status fails the call with the response body attached.
pub fn check_status(status: u16, body: String) -> (r: Result<(), GenError>)
    ensures
        (200 <= status < 300) ==> r is Ok,
        !(200 <= status < 300) ==> (r matches Err(GenError::Upstream(b)) && b@ == body@),
{
    if 200 <= status && status < 300 {
        Ok(())
    } else {
        Err(GenError::Upstream(body))
    }
}

/// All deltas joined in order: the text a stream stands for.
pub open spec fn concat_deltas(ds: Seq<Seq<char>>) -> Seq<char>
    decreases ds.len(),
{
    if ds.len() == 0 {
        Seq::<char>::empty()
    } else {
        concat_deltas(ds.drop_last()) + ds.last()
    }
}

pub proof fn lemma_concat_deltas_append(a: Seq<Seq<char>>, b: Seq<Seq<char>>)
    ensures
        concat_deltas(a + b) == concat_deltas(a) + concat_deltas(b),
    decreases b.len(),
{
    if b.len() == 0 {
        assert(a + b =~= a);
        assert(concat_deltas(a) + concat_deltas(b) =~= concat_deltas(a));
    } else {
        lemma_concat_deltas_append(a, b.drop_last());
        assert((a + b).drop_last() =~= a + b.drop_last());
        assert((a + b).last() == b.last());
        assert(concat_deltas(a) + concat_deltas(b) =~= (concat_deltas(a) + concat_deltas(
            b.drop_last(),
        )) + b.last());
    }
}

/// One streaming call: a decoder and the transcript accumulated so far.
pub struct Relay {
    decoder: SseDecoder,
    transcript: String,
}

impl Relay {
    /// All bytes of the response body consumed so far.
    pub closed spec fn consumed(self) -> Seq<u8> {
        self.decoder.consumed()
    }

    /// All deltas emitted to the listener so far, in order.
    pub closed spec fn emitted(self) -> Seq<Seq<char>> {
        self.decoder.emitted()
    }

    /// The accumulated transcript.
    pub closed spec fn transcript(self) -> Seq<char> {
        self.transcript@
    }

    /// The transcript is exactly the emitted deltas joined in order, and
    /// both are functions of the consumed bytes.
    pub closed spec fn wf(self) -> bool {
        &&& self.decoder.wf()
        &&& self.transcript@ == concat_deltas(self.decoder.emitted())
    }

    /// The transcript and the emitted deltas are functions of the consumed
    /// bytes alone — chunk boundaries never matter.
    pub proof fn lemma_state_is_function_of_consumed(self)
        requires
            self.wf(),
        ensures
            self.emitted() == stream_deltas(self.consumed()),
            self.transcript() == concat_deltas(stream_deltas(self.consumed())),
    {
        self.decoder.lemma_emitted_is_stream_deltas();
    }

    /// A fresh relay for one streaming call.
    pub fn new() -> (r: Relay)
        ensures
            r.wf(),
            r.consumed() == Seq::<u8>::empty(),
            r.emitted() == Seq::<Seq<char>>::empty(),
            r.transcript() == Seq::<char>::empty(),
    {
        Relay { decoder: SseDecoder::new(), transcript: String::new() }
    }

    /// Take one byte chunk of the response body. When cancellation has been
    /// requested the call fails with `Cancelled` and nothing changes — the
    /// driver aborts the transfer; what was already emitted stands.
    /// Otherwise the chunk's completed deltas are appended to the transcript
    /// and handed back, in stream order, for the listener.
    pub fn on_chunk(&mut self, cancelled: bool, chunk: &[u8]) -> (r: Result<Vec<String>, GenError>)
        requires
            old(self).wf(),
        ensures
            final(self).wf(),
            cancelled ==> (r matches Err(GenError::Cancelled)
                && final(self).consumed() == old(self).consumed()
                && final(self).emitted() == old(self).emitted()
                && final(self).transcript() == old(self).transcript()),
            !cancelled ==> (r matches Ok(out)
                && final(self).consumed() == old(self).consumed() + chunk@
                && final(self).emitted() == old(self).emitted() + out.deep_view()
                && final(self).transcript() == old(self).transcript() + concat_deltas(
                out.deep_view())),
    {
        if cancelled {
            return Err(GenError::Cancelled);
        }
        let out = self.decoder.feed(chunk);
        let ghost transcript0 = self.transcript@;
        let ghost dec1 = self.decoder;
        let mut i: usize = 0;
        while i < out.len()
            invariant
                i <= out@.len(),
                self.decoder == dec1,
                self.transcript@ == transcript0 + concat_deltas(out.deep_view().take(i as int)),
            decreases out@.len() - i,
        {
            self.transcript.append(out[i].as_str());
            proof {
                let dv = out.deep_view();
                assert(dv.take(i as int + 1).drop_last() =~= dv.take(i as int));
                assert(dv.take(i as int + 1).last() == dv[i as int]);
                assert(dv[i as int] == out@[i as int]@);
                assert(self.transcript@ =~= transcript0 + concat_deltas(dv.take(i as int + 1)));
            }
            i = i + 1;
        }
        proof {
            assert(out.deep_view().take(out@.len() as int) =~= out.deep_view());
            lemma_concat_deltas_append(old(self).decoder.emitted(), out.deep_view());
            assert(self.decoder.emitted() =~= old(self).decoder.emitted() + out.deep_view());
            assert(self.transcript@ == concat_deltas(self.decoder.emitted()));
        }
        Ok(out)
    }

    /// End of the response body: interpret the unterminated tail, if any, as
    /// a final line. Returns the delta it contributed, if one, and the full
    /// transcript of the call.
    pub fn finish(self) -> (r: (Option<String>, String))
        requires
            self.wf(),
        ensures
            r.1@ == concat_deltas(final_deltas(self.consumed())),
            r.0 is Some <==> line_delta(segments(self.consumed()).last()) is Some,
            r.0 matches Some(d) ==> r.1@ == self.transcript() + d@,
            r.0 is None ==> r.1@ == self.transcript(),
    {
        let ghost consumed = self.decoder.consumed();
        let ghost emitted = self.decoder.emitted();
        let Relay { decoder, transcript } = self;
        let mut transcript = transcript;
        let tail = decoder.finish();
        match &tail {
            Some(d) => {
                transcript.append(d.as_str());
                proof {
                    lemma_concat_deltas_append(emitted, seq![d@]);
                    assert(seq![d@].drop_last() =~= Seq::<Seq<char>>::empty());
                    assert(concat_deltas(seq![d@]) =~= concat_deltas(Seq::<Seq<char>>::empty())
                        + d@);
                    assert(concat_deltas(seq![d@]) =~= d@);
                    assert(transcript@ =~= concat_deltas(final_deltas(consumed)));
                }
            },
            None => {
                proof {
                    assert(transcript@ =~= concat_deltas(final_deltas(consumed)));
                }
            },
        }
        (tail, transcript)
    }
}

} // verus!
