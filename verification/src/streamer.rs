//! Streaming the answers of a statement to a writer.
//!
//! The engine hands the answers over in chunks of bytes; the writer takes
//! what it can of each, and what it leaves (the part of an answer line that
//! is not complete yet) is kept and written in front of the next chunk.

use vstd::prelude::*;

use crate::error::Error;
use crate::parameters::{FactDomain, Parameters, fact_domain_text};
use crate::prefix::Prefix;
use crate::statement::Statement;
use crate::text::string_of_str;

verus! {

/// What a run of writes leaves, starting with the bytes `pending` kept
/// from before: the bytes the writer took, in order, and the bytes kept
/// for the next write. The writer takes the first `lens[i]` bytes of what
/// it is handed at the `i`-th write.
pub open spec fn stream_run(pending: Seq<u8>, chunks: Seq<Seq<u8>>, lens: Seq<nat>) -> (
    Seq<u8>,
    Seq<u8>,
)
    decreases chunks.len(),
{
    if chunks.len() == 0 || lens.len() == 0 {
        (Seq::empty(), pending)
    } else {
        let data = pending + chunks[0];
        let (taken, kept) = stream_run(data.skip(lens[0] as int), chunks.skip(1), lens.skip(1));
        (data.take(lens[0] as int) + taken, kept)
    }
}

/// All the bytes of a sequence of chunks, in order.
pub open spec fn flatten_bytes(chunks: Seq<Seq<u8>>) -> Seq<u8>
    decreases chunks.len(),
{
    if chunks.len() == 0 {
        Seq::empty()
    } else {
        chunks[0] + flatten_bytes(chunks.skip(1))
    }
}

/// Streaming loses and repeats no byte: after any run of writes in which
/// the writer takes no more than it is handed, the bytes it took followed
/// by the bytes kept are the bytes kept before followed by all the chunks.
pub proof fn law_stream_keeps_every_byte(pending: Seq<u8>, chunks: Seq<Seq<u8>>, lens: Seq<nat>)
    requires
        chunks.len() == lens.len(),
        lens_fit(pending, chunks, lens),
    ensures
        stream_run(pending, chunks, lens).0 + stream_run(pending, chunks, lens).1 == pending
            + flatten_bytes(chunks),
    decreases chunks.len(),
{
    if chunks.len() > 0 {
        let data = pending + chunks[0];
        let rest = data.skip(lens[0] as int);
        lemma_lens_fit_unfold(pending, chunks, lens);
        law_stream_keeps_every_byte(rest, chunks.skip(1), lens.skip(1));
        let (taken, kept) = stream_run(rest, chunks.skip(1), lens.skip(1));
        let head = data.take(lens[0] as int);
        let tail = flatten_bytes(chunks.skip(1));
        assert(taken + kept == rest + tail);
        assert(head + rest =~= data);
        assert(head + taken + kept =~= head + (taken + kept));
        assert(head + (rest + tail) =~= (head + rest) + tail);
        assert(head + taken + kept =~= data + tail);
        assert(pending + flatten_bytes(chunks) =~= data + flatten_bytes(chunks.skip(1)));
    } else {
        assert(pending + flatten_bytes(chunks) =~= pending);
    }
}

/// Whether at each write the writer takes no more than it is handed.
pub open spec fn lens_fit(pending: Seq<u8>, chunks: Seq<Seq<u8>>, lens: Seq<nat>) -> bool
    decreases chunks.len(),
{
    if chunks.len() == 0 || lens.len() == 0 {
        true
    } else {
        let data = pending + chunks[0];
        lens[0] <= data.len() && lens_fit(data.skip(lens[0] as int), chunks.skip(1), lens.skip(1))
    }
}

proof fn lemma_lens_fit_unfold(pending: Seq<u8>, chunks: Seq<Seq<u8>>, lens: Seq<nat>)
    requires
        chunks.len() > 0,
        lens.len() > 0,
        lens_fit(pending, chunks, lens),
    ensures
        lens[0] <= (pending + chunks[0]).len(),
        lens_fit((pending + chunks[0]).skip(lens[0] as int), chunks.skip(1), lens.skip(1)),
{
}

/// The state of streaming the answers of a statement: the statement, the
/// name of the answer format, the base IRI, and the bytes of the last chunk
/// that the writer has not taken yet.
#[derive(Debug)]
pub struct Streamer {
    pub statement: Statement,
    pub mime_type: String,
    pub base_iri: Prefix,
    pub remaining_buffer: Option<Vec<u8>>,
}

impl Streamer {
    /// The bytes kept for the next write.
    pub open spec fn pending(&self) -> Seq<u8> {
        match self.remaining_buffer {
            Some(b) => b@,
            None => Seq::empty(),
        }
    }

    /// Streaming the answers of `statement` in the format `mime_type` with
    /// the base IRI `base_iri`, with nothing kept yet.
    pub fn run(statement: &Statement, mime_type: &str, base_iri: Prefix) -> (r: Streamer)
        ensures
            r.statement == *statement,
            r.mime_type@ == mime_type@,
            r.base_iri == base_iri,
            r.pending() == Seq::<u8>::empty(),
    {
        Streamer {
            statement: statement.clone(),
            mime_type: string_of_str(mime_type),
            base_iri,
            remaining_buffer: None,
        }
    }

    /// The parameters the statement is evaluated with: every fact, asserted
    /// or inferred.
    pub fn evaluation_parameters() -> (r: Result<Parameters, Error>)
        ensures
            r matches Ok(p) && p@ == Map::<Seq<char>, Seq<char>>::empty().insert(
                "fact-domain"@,
                fact_domain_text(FactDomain::ALL),
            ),
    {
        Parameters::empty()?.fact_domain(FactDomain::ALL)
    }

    /// The bytes to hand to the writer when the engine delivers `data`: the
    /// bytes kept from before, then `data`.
    pub fn pending_write(&self, data: &[u8]) -> (r: Vec<u8>)
        ensures
            r@ == self.pending() + data@,
    {
        let mut out: Vec<u8> = Vec::new();
        match &self.remaining_buffer {
            Some(b) => {
                let mut i: usize = 0;
                while i < b.len()
                    invariant
                        i <= b@.len(),
                        out@ == b@.subrange(0, i as int),
                    decreases b@.len() - i,
                {
                    out.push(b[i]);
                    i = i + 1;
                    assert(out@ =~= b@.subrange(0, i as int));
                }
                assert(b@.subrange(0, b@.len() as int) =~= b@);
            },
            None => {},
        }
        let ghost head = out@;
        let mut j: usize = 0;
        while j < data.len()
            invariant
                j <= data@.len(),
                out@ == head + data@.subrange(0, j as int),
            decreases data@.len() - j,
        {
            out.push(data[j]);
            j = j + 1;
            assert(out@ =~= head + data@.subrange(0, j as int));
        }
        assert(data@.subrange(0, data@.len() as int) =~= data@);
        out
    }

    /// Takes note that the writer took the first `len` bytes of `data`: the
    /// rest, if any, is kept for the next write.
    pub fn after_write(&mut self, data: Vec<u8>, len: usize)
        requires
            len <= data@.len(),
        ensures
            final(self).pending() == data@.skip(len as int),
            final(self).statement == old(self).statement,
            final(self).mime_type == old(self).mime_type,
            final(self).base_iri == old(self).base_iri,
    {
        if len < data.len() {
            let mut rest: Vec<u8> = Vec::new();
            let mut i = len;
            while i < data.len()
                invariant
                    len <= i <= data@.len(),
                    rest@ == data@.subrange(len as int, i as int),
                decreases data@.len() - i,
            {
                rest.push(data[i]);
                i = i + 1;
                assert(rest@ =~= data@.subrange(len as int, i as int));
            }
            assert(rest@ =~= data@.skip(len as int));
            self.remaining_buffer = Some(rest);
        } else {
            self.remaining_buffer = None;
            assert(data@.skip(len as int) =~= Seq::<u8>::empty());
        }
    }
}

} // verus!
