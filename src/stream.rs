//! Decoding a whole stream: what repeated steps produce from one buffer, what
//! they produce when the bytes arrive in chunks, and the laws that relate them.
use vstd::prelude::*;

use crate::decoder::{spec_tag_header, step, stream_id_is_zero, CodecStatus, Step};
use crate::error::FlvError;
use crate::tag::{BodyModel, FieldModel};

verus! {

/// What decoding produced: the records in order, the status reached, the
/// bytes still pending, and the error that stopped it, if one did.
pub struct Outcome {
    pub fields: Seq<FieldModel>,
    pub status: CodecStatus,
    pub rest: Seq<u8>,
    pub error: Option<FlvError>,
}

/// Decoding `s` from status `st` until more bytes are needed or an error comes.
pub open spec fn run(st: CodecStatus, s: Seq<u8>) -> Outcome
    decreases s.len(),
{
    match step(st, s) {
        Step::Emit(f, n, next) => if 0 < n <= s.len() {
            let o = run(next, s.skip(n));
            Outcome { fields: seq![f] + o.fields, ..o }
        } else {
            Outcome { fields: seq![], status: st, rest: s, error: None }
        },
        Step::NeedMore => Outcome { fields: seq![], status: st, rest: s, error: None },
        Step::Fail(e) => Outcome { fields: seq![], status: st, rest: s, error: Some(e) },
    }
}

/// Appending each chunk in turn to the pending bytes and decoding all that
/// can be decoded after each; an error ends it.
pub open spec fn feed(st: CodecStatus, pending: Seq<u8>, chunks: Seq<Seq<u8>>) -> Outcome
    decreases chunks.len(),
{
    if chunks.len() == 0 {
        Outcome { fields: seq![], status: st, rest: pending, error: None }
    } else {
        let o = run(st, pending + chunks[0]);
        if o.error is Some {
            o
        } else {
            let o2 = feed(o.status, o.rest, chunks.drop_first());
            Outcome { fields: o.fields + o2.fields, ..o2 }
        }
    }
}

/// The number of bytes that a step in status `st` needs before it can decide
/// anything about `s`.
pub open spec fn bytes_needed(st: CodecStatus, s: Seq<u8>) -> int {
    match st {
        CodecStatus::PreTagSize => 4,
        CodecStatus::Tag => if s.len() < 11 || !stream_id_is_zero(s) {
            11
        } else {
            11 + spec_tag_header(s).data_size
        },
    }
}

/// The other status.
pub open spec fn flip(st: CodecStatus) -> CodecStatus {
    match st {
        CodecStatus::PreTagSize => CodecStatus::Tag,
        CodecStatus::Tag => CodecStatus::PreTagSize,
    }
}

/// `f` is the kind of record that status `st` expects.
pub open spec fn expected(f: FieldModel, st: CodecStatus) -> bool {
    match st {
        CodecStatus::PreTagSize => f is PreTagSize,
        CodecStatus::Tag => f is Tag,
    }
}

/// The records alternate in kind, the first being the one `st` expects.
pub open spec fn alternates_from(fields: Seq<FieldModel>, st: CodecStatus) -> bool
    decreases fields.len(),
{
    fields.len() == 0 || (expected(fields[0], st) && alternates_from(fields.drop_first(), flip(st)))
}

/// The number of body bytes that a tag body stands for.
pub open spec fn body_len(b: BodyModel) -> int {
    match b {
        BodyModel::Audio(_, payload) => payload.len() + 1int,
        BodyModel::Video(_, payload) => payload.len() + 1int,
        BodyModel::Script(payload) => payload.len() as int,
        BodyModel::Reserved(payload) => payload.len() as int,
    }
}

/// A step waits for more bytes exactly when fewer are pending than it needs;
/// a step that emits takes at least one byte and no more than are pending.
pub proof fn lemma_short_buffer(st: CodecStatus, s: Seq<u8>)
    ensures
        (step(st, s) is NeedMore) <==> s.len() < bytes_needed(st, s),
        step(st, s) matches Step::Emit(_, n, _) ==> 0 < n <= s.len(),
{
}

/// A tag header whose stream id is not zero is refused, whatever its other
/// bytes and whatever follows it.
pub proof fn lemma_nonzero_stream_id(s: Seq<u8>)
    requires
        s.len() >= 11,
        !stream_id_is_zero(s),
    ensures
        step(CodecStatus::Tag, s) == Step::Fail(FlvError::InvalidTagHeader),
{
}

/// An emitted tag takes its header and exactly the body length that the
/// header declares, and its body stands for exactly that many bytes.
pub proof fn lemma_tag_takes_declared_size(st: CodecStatus, s: Seq<u8>)
    requires
        step(st, s) matches Step::Emit(FieldModel::Tag(_, _), _, _),
    ensures
        step(st, s) matches Step::Emit(FieldModel::Tag(h, b), n, _) && n == 11 + h.data_size
            && body_len(b) == h.data_size,
{
}

/// Once a step has decided something, more bytes behind the buffer do not
/// change what it decided.
pub proof fn lemma_step_extend(st: CodecStatus, b: Seq<u8>, c: Seq<u8>)
    requires
        !(step(st, b) is NeedMore),
    ensures
        step(st, b + c) == step(st, b),
{
    let s = b + c;
    assert(forall|i: int| 0 <= i < b.len() ==> s[i] == b[i]);
    if st == CodecStatus::Tag {
        let h = spec_tag_header(b);
        if stream_id_is_zero(b) {
            assert(spec_tag_header(s) == h);
            let end = 11 + h.data_size;
            assert(s.subrange(11, end) =~= b.subrange(11, end));
        }
    }
}

/// Decoding `b + c` is decoding `b`, then decoding what `b` left over
/// followed by `c`; an error in `b` stays the first error.
pub proof fn lemma_run_extend(st: CodecStatus, b: Seq<u8>, c: Seq<u8>)
    ensures
        run(st, b).error is None ==> run(st, b + c) == (Outcome {
            fields: run(st, b).fields + run(run(st, b).status, run(st, b).rest + c).fields,
            ..run(run(st, b).status, run(st, b).rest + c)
        }),
        run(st, b).error is Some ==> run(st, b + c).fields == run(st, b).fields && run(
            st,
            b + c,
        ).error == run(st, b).error,
    decreases b.len(),
{
    let o = run(st, b);
    match step(st, b) {
        Step::NeedMore => {
            assert(o.fields + run(st, b + c).fields =~= run(st, b + c).fields);
        },
        Step::Fail(e) => {
            lemma_step_extend(st, b, c);
        },
        Step::Emit(f, n, next) => {
            lemma_short_buffer(st, b);
            lemma_step_extend(st, b, c);
            assert((b + c).skip(n) =~= b.skip(n) + c);
            lemma_run_extend(next, b.skip(n), c);
            let o1 = run(next, b.skip(n));
            if o1.error is None {
                let o2 = run(o1.status, o1.rest + c);
                assert(seq![f] + (o1.fields + o2.fields) =~= (seq![f] + o1.fields) + o2.fields);
            }
        },
    }
}

/// Decoding stops only where more bytes are needed, or on an error.
pub proof fn lemma_run_stops_needing(st: CodecStatus, s: Seq<u8>)
    ensures
        run(st, s).error is None ==> step(run(st, s).status, run(st, s).rest) is NeedMore,
    decreases s.len(),
{
    if let Step::Emit(_, n, next) = step(st, s) {
        lemma_short_buffer(st, s);
        lemma_run_stops_needing(next, s.skip(n));
    }
}

/// Feeding chunks to a decoder that waits for more bytes gives what decoding
/// them all at once gives.
pub proof fn lemma_feed_is_run(st: CodecStatus, pending: Seq<u8>, chunks: Seq<Seq<u8>>)
    requires
        step(st, pending) is NeedMore,
    ensures
        feed(st, pending, chunks).fields == run(st, pending + chunks.flatten()).fields,
        feed(st, pending, chunks).error == run(st, pending + chunks.flatten()).error,
        feed(st, pending, chunks).error is None ==> feed(st, pending, chunks).status == run(
            st,
            pending + chunks.flatten(),
        ).status && feed(st, pending, chunks).rest == run(st, pending + chunks.flatten()).rest,
    decreases chunks.len(),
{
    if chunks.len() == 0 {
        assert(pending + chunks.flatten() =~= pending);
    } else {
        let b = pending + chunks[0];
        let c = chunks.drop_first().flatten();
        assert(pending + chunks.flatten() =~= b + c);
        lemma_run_extend(st, b, c);
        let o = run(st, b);
        if o.error is None {
            lemma_run_stops_needing(st, b);
            lemma_feed_is_run(o.status, o.rest, chunks.drop_first());
        }
    }
}

/// However a stream is split into chunks, a fresh decoder fed the chunks one
/// by one emits the same records, and stops on the same error, as one fed the
/// whole stream in a single chunk.
pub proof fn lemma_chunking_invariant(chunks: Seq<Seq<u8>>)
    ensures
        feed(CodecStatus::PreTagSize, seq![], chunks).fields == feed(
            CodecStatus::PreTagSize,
            seq![],
            seq![chunks.flatten()],
        ).fields,
        feed(CodecStatus::PreTagSize, seq![], chunks).error == feed(
            CodecStatus::PreTagSize,
            seq![],
            seq![chunks.flatten()],
        ).error,
{
    let whole = seq![chunks.flatten()];
    lemma_feed_is_run(CodecStatus::PreTagSize, seq![], chunks);
    lemma_feed_is_run(CodecStatus::PreTagSize, seq![], whole);
    whole.lemma_flatten_one_element();
}

/// The records decoded from any bytes alternate between previous-tag-size
/// fields and tags, starting with the kind that the status expects; from a
/// fresh decoder, with a previous-tag-size field.
pub proof fn lemma_records_alternate(st: CodecStatus, s: Seq<u8>)
    ensures
        alternates_from(run(st, s).fields, st),
    decreases s.len(),
{
    if let Step::Emit(f, n, next) = step(st, s) {
        lemma_short_buffer(st, s);
        lemma_records_alternate(next, s.skip(n));
        let rest = run(next, s.skip(n)).fields;
        assert((seq![f] + rest).drop_first() =~= rest);
    }
}

} // verus!
