//! Stream relay and log buffer.
//!
//! A relay drains one output stream of a build: each read hands it a
//! byte chunk, which it decodes as best-effort text, returns for
//! immediate delivery to the observer, and appends to the shared log
//! buffer. A zero-byte read means end of stream. The buffer keeps the
//! full transcript: at every point it equals the concatenation, in
//! arrival order, of all chunks appended so far.

use vstd::prelude::*;

verus! {

/// The best-effort text decoding of a byte chunk, as
/// `String::from_utf8_lossy` computes it: invalid sequences are replaced,
/// never fatal.
pub uninterp spec fn lossy_decode(bytes: Seq<u8>) -> Seq<char>;

/// Relies on `String::from_utf8_lossy`: the result is a function of the
/// bytes alone, and no bytes decode to no text.
#[verifier::external_body]
fn decode_chunk(bytes: &[u8]) -> (r: String)
    ensures
        r@ == lossy_decode(bytes@),
        bytes@.len() == 0 ==> r@.len() == 0,
{
    String::from_utf8_lossy(bytes).into_owned()
}

/// The concatenation of a sequence of chunks, in order.
pub open spec fn spec_concat(chunks: Seq<Seq<char>>) -> Seq<char>
    decreases chunks.len(),
{
    if chunks.len() == 0 {
        Seq::empty()
    } else {
        spec_concat(chunks.drop_last()) + chunks.last()
    }
}

/// The transcript of one build: an append-only text store shared by the
/// relays of a session, persisted once after all relays have finished.
pub struct LogBuffer {
    text: String,
    chunks: Ghost<Seq<Seq<char>>>,
}

impl LogBuffer {
    /// The accumulated transcript.
    pub closed spec fn transcript(&self) -> Seq<char> {
        self.text@
    }

    /// The chunks appended so far, in arrival order.
    pub closed spec fn history(&self) -> Seq<Seq<char>> {
        self.chunks@
    }

    /// The buffer's invariant: the transcript is exactly the
    /// concatenation of the appended chunks, in arrival order.
    pub open spec fn wf(&self) -> bool {
        self.transcript() == spec_concat(self.history())
    }

    /// An empty buffer, created at build start.
    pub fn new() -> (r: Self)
        ensures
            r.wf(),
            r.transcript() == Seq::<char>::empty(),
            r.history() == Seq::<Seq<char>>::empty(),
    {
        let r = LogBuffer { text: String::new(), chunks: Ghost(Seq::empty()) };
        proof {
            assert(spec_concat(r.chunks@) == Seq::<char>::empty());
        }
        r
    }

    /// Appends one decoded chunk to the transcript.
    pub fn append(&mut self, chunk: &str)
        requires
            old(self).wf(),
        ensures
            final(self).wf(),
            final(self).history() == old(self).history().push(chunk@),
            final(self).transcript() == old(self).transcript() + chunk@,
    {
        self.text.append(chunk);
        proof {
            self.chunks@ = self.chunks@.push(chunk@);
            assert(self.chunks@.drop_last() =~= old(self).chunks@);
        }
    }

    /// The transcript as text, for persistence after the relays finish.
    pub fn contents(&self) -> (r: &str)
        ensures
            r@ == self.transcript(),
    {
        self.text.as_str()
    }

    /// Whether anything was appended yet.
    pub fn is_empty(&self) -> (r: bool)
        ensures
            r == (self.transcript().len() == 0),
    {
        self.text.as_str().is_empty()
    }
}

proof fn lemma_concat_holds_chunk(chunks: Seq<Seq<char>>, i: int)
    requires
        0 <= i < chunks.len(),
    ensures
        spec_concat(chunks).len() >= chunks[i].len(),
    decreases chunks.len(),
{
    if i < chunks.len() - 1 {
        lemma_concat_holds_chunk(chunks.drop_last(), i);
    }
}

/// A persisted transcript is non-empty whenever any output was produced:
/// if any appended chunk held text, the buffer's contents do too.
pub proof fn lemma_transcript_nonempty(buffer: &LogBuffer, i: int)
    requires
        buffer.wf(),
        0 <= i < buffer.history().len(),
        buffer.history()[i].len() > 0,
    ensures
        buffer.transcript().len() > 0,
{
    lemma_concat_holds_chunk(buffer.history(), i);
}

/// What one read of the stream yields: a decoded chunk to hand to the
/// observer, or the end of the stream.
pub enum RelayStep {
    Chunk(String),
    EndOfStream,
}

/// Processes one read from an output stream: a zero-byte read ends the
/// stream and leaves the buffer untouched; anything else is decoded as
/// best-effort text, appended to the buffer, and returned for the
/// observer. A read error is treated by the caller as a zero-byte read:
/// partial output beats no output.
pub fn relay_read(buffer: &mut LogBuffer, bytes: &[u8]) -> (step: RelayStep)
    requires
        old(buffer).wf(),
    ensures
        final(buffer).wf(),
        bytes@.len() == 0 ==> step is EndOfStream && *final(buffer) == *old(buffer),
        bytes@.len() > 0 ==> {
            &&& step matches RelayStep::Chunk(c) && c@ == lossy_decode(bytes@)
            &&& final(buffer).history() == old(buffer).history().push(lossy_decode(bytes@))
            &&& final(buffer).transcript() == old(buffer).transcript() + lossy_decode(bytes@)
        },
{
    if bytes.len() == 0 {
        return RelayStep::EndOfStream;
    }
    let decoded = decode_chunk(bytes);
    buffer.append(decoded.as_str());
    RelayStep::Chunk(decoded)
}

/// Processes one read of a stream that is drained without a transcript,
/// as the recovery sequence does: the chunk goes to the observer only.
pub fn relay_read_unbuffered(bytes: &[u8]) -> (step: RelayStep)
    ensures
        bytes@.len() == 0 ==> step is EndOfStream,
        bytes@.len() > 0 ==> (step matches RelayStep::Chunk(c) && c@ == lossy_decode(bytes@)),
{
    if bytes.len() == 0 {
        return RelayStep::EndOfStream;
    }
    RelayStep::Chunk(decode_chunk(bytes))
}

/// The number of reads a stream yields before its first zero-byte read.
pub open spec fn spec_stream_len(reads: Seq<Seq<u8>>) -> int
    decreases reads.len(),
{
    if reads.len() == 0 {
        0
    } else if reads[0].len() == 0 {
        0
    } else {
        1 + spec_stream_len(reads.skip(1))
    }
}

proof fn lemma_stream_len_bounds(reads: Seq<Seq<u8>>)
    ensures
        0 <= spec_stream_len(reads) <= reads.len(),
        forall|i: int|
            0 <= i < spec_stream_len(reads) ==> #[trigger] reads[i].len() > 0,
        spec_stream_len(reads) < reads.len() ==> reads[spec_stream_len(reads)].len() == 0,
    decreases reads.len(),
{
    if reads.len() > 0 && reads[0].len() > 0 {
        lemma_stream_len_bounds(reads.skip(1));
        assert forall|i: int| 0 <= i < spec_stream_len(reads) implies #[trigger] reads[i].len()
            > 0 by {
            if i > 0 {
                assert(reads.skip(1)[i - 1].len() > 0);
            }
        }
    }
}

/// Drains a whole stream of reads to completion: every chunk before the
/// first zero-byte read is decoded, handed back in order for the
/// observer, and appended to the buffer; the zero-byte read ends the
/// stream and nothing after it is touched.
pub fn relay_stream(buffer: &mut LogBuffer, reads: &Vec<Vec<u8>>) -> (emitted: Vec<String>)
    requires
        old(buffer).wf(),
    ensures
        final(buffer).wf(),
        emitted@.len() == spec_stream_len(reads.deep_view()),
        forall|i: int|
            0 <= i < emitted@.len() ==> emitted@[i]@ == lossy_decode(reads@[i]@),
        final(buffer).history() == old(buffer).history() + emitted@.map_values(|c: String| c@),
        final(buffer).transcript() == old(buffer).transcript() + spec_concat(
            emitted@.map_values(|c: String| c@),
        ),
{
    proof {
        lemma_stream_len_bounds(reads.deep_view());
    }
    let ghost n = spec_stream_len(reads.deep_view());
    let mut emitted: Vec<String> = Vec::new();
    let mut i: usize = 0;
    loop
        invariant
            buffer.wf(),
            n == spec_stream_len(reads.deep_view()),
            0 <= n <= reads@.len(),
            forall|k: int| 0 <= k < n ==> #[trigger] reads.deep_view()[k].len() > 0,
            n < reads@.len() ==> reads.deep_view()[n as int].len() == 0,
            i <= n,
            emitted@.len() == i,
            forall|k: int| 0 <= k < i ==> emitted@[k]@ == lossy_decode(reads@[k]@),
            buffer.history() == old(buffer).history() + emitted@.map_values(|c: String| c@),
            buffer.transcript() == old(buffer).transcript() + spec_concat(
                emitted@.map_values(|c: String| c@),
            ),
        ensures
            buffer.wf(),
            emitted@.len() == n,
            forall|k: int| 0 <= k < n ==> emitted@[k]@ == lossy_decode(reads@[k]@),
            buffer.history() == old(buffer).history() + emitted@.map_values(|c: String| c@),
            buffer.transcript() == old(buffer).transcript() + spec_concat(
                emitted@.map_values(|c: String| c@),
            ),
        decreases n - i,
    {
        if i >= reads.len() {
            break;
        }
        let step = relay_read(buffer, reads[i].as_slice());
        proof {
            assert(reads.deep_view()[i as int] =~= reads@[i as int]@);
        }
        match step {
            RelayStep::EndOfStream => {
                proof {
                    assert(reads.deep_view()[i as int].len() == 0);
                    assert(i == n);
                }
                break;
            },
            RelayStep::Chunk(c) => {
                let ghost prev = emitted@;
                let ghost chunk = c@;
                emitted.push(c);
                i = i + 1;
                proof {
                    let f = |s: String| s@;
                    assert(emitted@.map_values(f) =~= prev.map_values(f).push(chunk));
                    assert(buffer.history() =~= old(buffer).history() + emitted@.map_values(f));
                    assert(emitted@.map_values(f).drop_last() =~= prev.map_values(f));
                    assert(spec_concat(emitted@.map_values(f)) == spec_concat(prev.map_values(f))
                        + chunk);
                }
            },
        }
    }
    emitted
}

} // verus!
