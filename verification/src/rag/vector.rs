use vstd::prelude::*;
use vstd::utf8::*;
use vstd::string::*;

verus! {

/// The text that `String::from_utf8_lossy` makes of `bytes`.
pub uninterp spec fn lossy_utf8(bytes: Seq<u8>) -> Seq<char>;

/// Calls `String::from_utf8_lossy` and takes the result as an owned `String`.
/// Trusted: the result is `lossy_utf8` of the bytes, and, as the documentation
/// of `from_utf8_lossy` says, valid UTF-8 is decoded unchanged and an invalid
/// sequence becomes U+FFFD: a lone byte of `0x80` or above is one such
/// sequence.
#[verifier::external_body]
fn utf8_lossy(bytes: &[u8]) -> (s: String)
    ensures
        s@ == lossy_utf8(bytes@),
        valid_utf8(bytes@) ==> s@ == decode_utf8(bytes@),
        bytes@.len() == 1 && bytes@[0] >= 0x80 ==> s@ == seq!['\u{FFFD}'],
{
    String::from_utf8_lossy(bytes).into_owned()
}

/// The end of the chunk that starts at `start`: `chunk_size` bytes further,
/// or the end of the text.
pub open spec fn chunk_end(len: nat, chunk_size: nat, start: int) -> int {
    if start + chunk_size < len {
        start + chunk_size
    } else {
        len as int
    }
}

/// The byte ranges `(start, end)` of the chunks, from the chunk that starts at
/// `start` on: each chunk ends `chunk_size` bytes after its start or at the
/// end of the text, and the next one starts `overlap` bytes before that end.
pub open spec fn chunk_bounds(len: nat, chunk_size: nat, overlap: nat, start: int) -> Seq<(int, int)>
    decreases len - start,
{
    if start >= len {
        seq![]
    } else {
        let end = chunk_end(len, chunk_size, start);
        if end == len || end - overlap <= start {
            seq![(start, end)]
        } else {
            seq![(start, end)] + chunk_bounds(len, chunk_size, overlap, end - overlap)
        }
    }
}

/// The chunking terminates: every chunk but the last is followed by one that
/// starts after it.
pub open spec fn chunking_terminates(len: nat, chunk_size: nat, overlap: nat) -> bool {
    len <= chunk_size || overlap < chunk_size
}

/// The shape of the chunking that starts at `start`: the first chunk starts
/// there, the last one ends at the end of the text, no chunk is empty or
/// leaves the text, every chunk but the last is `chunk_size` bytes long and is
/// followed by one that starts `overlap` bytes before its end, and the last
/// one is at most `chunk_size` bytes long.
pub proof fn lemma_chunk_bounds_shape(len: nat, chunk_size: nat, overlap: nat, start: int)
    requires
        0 <= start < len,
        chunking_terminates(len, chunk_size, overlap),
    ensures
        ({
            let b = chunk_bounds(len, chunk_size, overlap, start);
            &&& b.len() >= 1
            &&& b[0].0 == start
            &&& b[b.len() - 1].1 == len
            &&& b[b.len() - 1].1 - b[b.len() - 1].0 <= chunk_size
            &&& forall|i: int| 0 <= i < b.len() ==> start <= #[trigger] b[i].0 < b[i].1 <= len
            &&& forall|i: int| 0 < i < b.len() ==> #[trigger] b[i].1 - b[i].0 > overlap
            &&& forall|i: int|
                0 <= i < b.len() - 1 ==> {
                    &&& #[trigger] b[i].1 - b[i].0 == chunk_size
                    &&& b[i + 1].0 == b[i].1 - overlap
                }
        }),
    decreases len - start,
{
    let b = chunk_bounds(len, chunk_size, overlap, start);
    let end = chunk_end(len, chunk_size, start);
    if end == len || end - overlap <= start {
        assert(b == seq![(start, end)]);
    } else {
        let next = end - overlap;
        lemma_chunk_bounds_shape(len, chunk_size, overlap, next);
        let r = chunk_bounds(len, chunk_size, overlap, next);
        assert(b == seq![(start, end)] + r);
        assert forall|i: int| 0 <= i < b.len() implies start <= #[trigger] b[i].0 < b[i].1 <= len by {
            if i > 0 {
                assert(b[i] == r[i - 1]);
            }
        }
        assert forall|i: int| 0 <= i < b.len() - 1 implies {
            &&& #[trigger] b[i].1 - b[i].0 == chunk_size
            &&& b[i + 1].0 == b[i].1 - overlap
        } by {
            assert(b[i + 1] == r[i]);
            if i > 0 {
                assert(b[i] == r[i - 1]);
            }
        }
        assert forall|i: int| 0 < i < b.len() implies #[trigger] b[i].1 - b[i].0 > overlap by {
            assert(b[i] == r[i - 1]);
        }
        assert(b[b.len() - 1] == r[r.len() - 1]);
    }
}

proof fn lemma_chunk_start(len: nat, chunk_size: nat, overlap: nat, k: int)
    requires
        0 < len,
        chunking_terminates(len, chunk_size, overlap),
        0 <= k < chunk_bounds(len, chunk_size, overlap, 0).len(),
    ensures
        chunk_bounds(len, chunk_size, overlap, 0)[k].0 == k * (chunk_size - overlap),
    decreases k,
{
    let b = chunk_bounds(len, chunk_size, overlap, 0);
    lemma_chunk_bounds_shape(len, chunk_size, overlap, 0);
    if k > 0 {
        lemma_chunk_start(len, chunk_size, overlap, k - 1);
        let step: int = chunk_size - overlap;
        assert(b[(k - 1) + 1].0 == b[k - 1].1 - overlap);
        assert(b[k - 1].1 - b[k - 1].0 == chunk_size);
        assert((k - 1) * step + step == k * step) by (nonlinear_arith);
    } else {
        assert(0 * (chunk_size - overlap) == 0) by (nonlinear_arith);
    }
}

/// Chunk `i` of a non-empty text starts `i * (chunk_size - overlap)` bytes
/// into it and ends `chunk_size` bytes later or at the end of the text.
pub proof fn lemma_chunk_bounds_closed_form(len: nat, chunk_size: nat, overlap: nat)
    requires
        0 < len,
        chunking_terminates(len, chunk_size, overlap),
    ensures
        forall|i: int|
            0 <= i < chunk_bounds(len, chunk_size, overlap, 0).len() ==> #[trigger] chunk_bounds(
                len,
                chunk_size,
                overlap,
                0,
            )[i] == (i * (chunk_size - overlap), chunk_end(len, chunk_size, i * (chunk_size - overlap))),
{
    let b = chunk_bounds(len, chunk_size, overlap, 0);
    lemma_chunk_bounds_shape(len, chunk_size, overlap, 0);
    assert forall|i: int| 0 <= i < b.len() implies #[trigger] b[i] == (
        i * (chunk_size - overlap),
        chunk_end(len, chunk_size, i * (chunk_size - overlap)),
    ) by {
        lemma_chunk_start(len, chunk_size, overlap, i);
    }
}

/// An empty text has no chunks.
pub proof fn lemma_chunk_bounds_empty(chunk_size: nat, overlap: nat)
    ensures
        chunk_bounds(0, chunk_size, overlap, 0).len() == 0,
{
}

/// What the chunks `bounds` of `bytes` spell out when the first chunk is taken
/// whole and every later one without its first `overlap` items.
pub open spec fn glued_chunks<A>(bytes: Seq<A>, bounds: Seq<(int, int)>, overlap: nat) -> Seq<A>
    decreases bounds.len(),
{
    if bounds.len() == 0 {
        seq![]
    } else if bounds.len() == 1 {
        bytes.subrange(bounds[0].0, bounds[0].1)
    } else {
        let last = bounds[bounds.len() - 1];
        glued_chunks(bytes, bounds.drop_last(), overlap) + bytes.subrange(last.0 + overlap, last.1)
    }
}

proof fn lemma_glued_prefix<A>(bytes: Seq<A>, b: Seq<(int, int)>, overlap: nat, k: int)
    requires
        1 <= k <= b.len(),
        b[0].0 == 0,
        forall|i: int| 0 <= i < b.len() ==> 0 <= #[trigger] b[i].0 <= b[i].1 <= bytes.len(),
        forall|i: int| 0 <= i < b.len() - 1 ==> #[trigger] b[i + 1].0 == b[i].1 - overlap,
        forall|i: int| 0 < i < b.len() ==> #[trigger] b[i].1 - b[i].0 > overlap,
    ensures
        glued_chunks(bytes, b.take(k), overlap) == bytes.subrange(0, b[k - 1].1),
    decreases k,
{
    if k > 1 {
        lemma_glued_prefix(bytes, b, overlap, k - 1);
        let pre = b.take(k);
        assert(pre.drop_last() =~= b.take(k - 1));
        assert(pre[pre.len() - 1] == b[k - 1]);
        assert(b[(k - 2) + 1].0 == b[k - 2].1 - overlap);
        assert(b[k - 1].1 - b[k - 1].0 > overlap);
        assert(bytes.subrange(0, b[k - 2].1) + bytes.subrange(b[k - 2].1, b[k - 1].1)
            =~= bytes.subrange(0, b[k - 1].1));
    } else {
        assert(b.take(1) =~= seq![b[0]]);
    }
}

/// Dropping the overlap from every chunk after the first and joining them
/// gives back the whole sequence (the bytes of the text, or its characters).
pub proof fn lemma_chunks_reassemble<A>(bytes: Seq<A>, chunk_size: nat, overlap: nat)
    requires
        chunking_terminates(bytes.len(), chunk_size, overlap),
    ensures
        glued_chunks(bytes, chunk_bounds(bytes.len(), chunk_size, overlap, 0), overlap) == bytes,
{
    let len = bytes.len();
    let b = chunk_bounds(len, chunk_size, overlap, 0);
    if len == 0 {
        assert(bytes =~= seq![]);
    } else {
        lemma_chunk_bounds_shape(len, chunk_size, overlap, 0);
        assert forall|i: int| 0 <= i < b.len() - 1 implies #[trigger] b[i + 1].0 == b[i].1 - overlap by {
            assert(b[i].1 - b[i].0 == chunk_size);
        }
        lemma_glued_prefix(bytes, b, overlap, b.len() as int);
        assert(b.take(b.len() as int) =~= b);
        assert(bytes.subrange(0, len as int) =~= bytes);
    }
}

/// In an ASCII text every byte range is valid UTF-8 and decodes to the
/// characters at the same positions.
pub proof fn lemma_ascii_range_decodes(chars: Seq<char>, i: int, j: int)
    requires
        is_ascii_chars(chars),
        0 <= i <= j <= chars.len(),
    ensures
        encode_utf8(chars).len() == chars.len(),
        valid_utf8(encode_utf8(chars).subrange(i, j)),
        decode_utf8(encode_utf8(chars).subrange(i, j)) == chars.subrange(i, j),
{
    let sub = chars.subrange(i, j);
    assert(is_ascii_chars(sub));
    is_ascii_chars_encode_utf8(chars);
    is_ascii_chars_encode_utf8(sub);
    assert(encode_utf8(chars).subrange(i, j) =~= encode_utf8(sub));
    encode_utf8_valid_utf8(sub);
    encode_utf8_decode_utf8(sub);
}

/// The chunks of an ASCII text, with the overlap dropped from every chunk
/// after the first, join back into the text, counted in characters.
pub proof fn lemma_ascii_chunks_reassemble(text: &str, chunk_size: nat, overlap: nat)
    requires
        is_ascii_chars(text@),
        chunking_terminates(text.spec_bytes().len(), chunk_size, overlap),
    ensures
        text.spec_bytes().len() == text@.len(),
        glued_chunks(text@, chunk_bounds(text.spec_bytes().len(), chunk_size, overlap, 0), overlap) == text@,
{
    is_ascii_chars_encode_utf8(text@);
    lemma_chunks_reassemble(text@, chunk_size, overlap);
}

/// Splits the bytes of `text` into chunks of `chunk_size` bytes, where each
/// chunk after the first starts `overlap` bytes before the end of the previous
/// one; the last chunk ends at the end of the text and may be shorter. Each
/// chunk is decoded with `String::from_utf8_lossy`.
pub fn fixed_length_chunking(text: &str, chunk_size: usize, overlap: usize) -> (chunks: Vec<String>)
    requires
        chunking_terminates(text.spec_bytes().len(), chunk_size as nat, overlap as nat),
    ensures
        ({
            let bytes = text.spec_bytes();
            let bounds = chunk_bounds(bytes.len(), chunk_size as nat, overlap as nat, 0);
            &&& chunks@.len() == bounds.len()
            &&& forall|i: int|
                0 <= i < bounds.len() ==> #[trigger] chunks@[i]@ == lossy_utf8(
                    bytes.subrange(bounds[i].0, bounds[i].1),
                )
            &&& forall|i: int|
                0 <= i < bounds.len() && valid_utf8(bytes.subrange(bounds[i].0, bounds[i].1))
                    ==> #[trigger] chunks@[i]@ == decode_utf8(bytes.subrange(bounds[i].0, bounds[i].1))
            &&& forall|i: int|
                0 <= i < bounds.len() && bounds[i].1 == bounds[i].0 + 1 && bytes[bounds[i].0] >= 0x80
                    ==> #[trigger] chunks@[i]@ == seq!['\u{FFFD}']
            &&& is_ascii_chars(text@) ==> forall|i: int|
                0 <= i < bounds.len() ==> #[trigger] chunks@[i]@ == text@.subrange(bounds[i].0, bounds[i].1)
            &&& 0 < bytes.len() <= chunk_size ==> chunks@.len() == 1 && chunks@[0]@ == text@
        }),
{
    let bytes = text.as_bytes();
    let len = bytes.len();
    let ghost full = chunk_bounds(len as nat, chunk_size as nat, overlap as nat, 0);
    let ghost mut done: Seq<(int, int)> = seq![];
    let mut chunks: Vec<String> = Vec::new();
    let mut start: usize = 0;

    assert(full == done + chunk_bounds(len as nat, chunk_size as nat, overlap as nat, 0));

    while start < len
        invariant_except_break
            start <= len,
            full == done + chunk_bounds(len as nat, chunk_size as nat, overlap as nat, start as int),
        invariant
            len == bytes@.len(),
            bytes@ == text.spec_bytes(),
            full == chunk_bounds(len as nat, chunk_size as nat, overlap as nat, 0),
            chunking_terminates(len as nat, chunk_size as nat, overlap as nat),
            chunks@.len() == done.len(),
            forall|i: int|
                0 <= i < done.len() ==> #[trigger] chunks@[i]@ == lossy_utf8(
                    bytes@.subrange(done[i].0, done[i].1),
                ),
            forall|i: int|
                0 <= i < done.len() && valid_utf8(bytes@.subrange(done[i].0, done[i].1))
                    ==> #[trigger] chunks@[i]@ == decode_utf8(bytes@.subrange(done[i].0, done[i].1)),
            forall|i: int|
                0 <= i < done.len() && done[i].1 == done[i].0 + 1 && bytes@[done[i].0] >= 0x80
                    ==> #[trigger] chunks@[i]@ == seq!['\u{FFFD}'],
        ensures
            full == done,
        decreases len - start,
    {
        let end: usize = if chunk_size >= len - start {
            len
        } else {
            start + chunk_size
        };
        assert(end as int == chunk_end(len as nat, chunk_size as nat, start as int));
        let chunk = utf8_lossy(&bytes[start..end]);
        chunks.push(chunk);
        let ghost rest = chunk_bounds(len as nat, chunk_size as nat, overlap as nat, start as int);
        proof {
            done = done.push((start as int, end as int));
        }
        if end == len {
            assert(rest == seq![(start as int, end as int)]);
            assert(full == done);
            break;
        }
        assert(end - overlap > start);
        let next: usize = end - overlap;
        assert(rest == seq![(start as int, end as int)] + chunk_bounds(
            len as nat,
            chunk_size as nat,
            overlap as nat,
            next as int,
        ));
        assert(full == done + chunk_bounds(len as nat, chunk_size as nat, overlap as nat, next as int));
        start = next;
    }
    proof {
        if is_ascii_chars(text@) && len > 0 {
            is_ascii_chars_encode_utf8(text@);
            lemma_chunk_bounds_shape(len as nat, chunk_size as nat, overlap as nat, 0);
            assert forall|i: int| 0 <= i < full.len() implies #[trigger] chunks@[i]@ == text@.subrange(
                full[i].0,
                full[i].1,
            ) by {
                lemma_ascii_range_decodes(text@, full[i].0, full[i].1);
            }
        }
        if 0 < len <= chunk_size {
            assert(full == seq![(0int, len as int)]);
            assert(bytes@.subrange(0, len as int) =~= encode_utf8(text@));
            encode_utf8_valid_utf8(text@);
            encode_utf8_decode_utf8(text@);
        }
    }
    chunks
}

} // verus!
