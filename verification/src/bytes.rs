//! Byte image of the uniform buffer: every 32-bit word serialized as four
//! little-endian bytes, with the inverse reading and its round-trip proof.

use vstd::prelude::*;

use crate::layout::decode_scene;
use crate::layout::encode_scene;
use crate::layout::lemma_scene_round_trip;
use crate::layout::lemma_scene_words_len;
use crate::layout::scene_of_words;
use crate::layout::scene_words;
use crate::scene::SceneDescriptor;

verus! {

/// The four little-endian bytes of one word.
pub open spec fn word_bytes(w: u32) -> Seq<u8> {
    seq![
        (w & 0xFF) as u8,
        ((w >> 8) & 0xFF) as u8,
        ((w >> 16) & 0xFF) as u8,
        ((w >> 24) & 0xFF) as u8,
    ]
}

/// The word four little-endian bytes describe.
pub open spec fn word_of_bytes(b0: u8, b1: u8, b2: u8, b3: u8) -> u32 {
    (b0 as u32) | ((b1 as u32) << 8) | ((b2 as u32) << 16) | ((b3 as u32) << 24)
}

/// Splitting a word into bytes and reassembling them is the identity.
pub proof fn lemma_word_bytes_inverse(w: u32)
    ensures
        word_of_bytes(word_bytes(w)[0], word_bytes(w)[1], word_bytes(w)[2], word_bytes(w)[3])
            == w,
{
    assert(word_bytes(w)[0] == (w & 0xFF) as u8);
    assert(word_bytes(w)[1] == ((w >> 8) & 0xFF) as u8);
    assert(word_bytes(w)[2] == ((w >> 16) & 0xFF) as u8);
    assert(word_bytes(w)[3] == ((w >> 24) & 0xFF) as u8);
    assert(((w & 0xFF) as u8 as u32) | ((((w >> 8) & 0xFF) as u8 as u32) << 8) | ((((w >> 16)
        & 0xFF) as u8 as u32) << 16) | ((((w >> 24) & 0xFF) as u8 as u32) << 24) == w)
        by (bit_vector);
}

/// The little-endian byte image of a word sequence.
pub open spec fn bytes_of_words(ws: Seq<u32>) -> Seq<u8>
    decreases ws.len(),
{
    if ws.len() == 0 {
        Seq::empty()
    } else {
        word_bytes(ws[0]) + bytes_of_words(ws.subrange(1, ws.len() as int))
    }
}

/// Four bytes per word.
pub proof fn lemma_bytes_of_words_len(ws: Seq<u32>)
    ensures
        bytes_of_words(ws).len() == 4 * ws.len(),
    decreases ws.len(),
{
    if ws.len() > 0 {
        lemma_bytes_of_words_len(ws.subrange(1, ws.len() as int));
    }
}

/// The word sequence a byte image describes, reading four bytes per word.
pub open spec fn words_of_bytes(bs: Seq<u8>) -> Seq<u32>
    recommends
        bs.len() % 4 == 0,
    decreases bs.len(),
{
    if bs.len() < 4 {
        Seq::empty()
    } else {
        seq![word_of_bytes(bs[0], bs[1], bs[2], bs[3])] + words_of_bytes(
            bs.subrange(4, bs.len() as int),
        )
    }
}

/// Serializing words to bytes and reading them back is the identity.
pub proof fn lemma_words_bytes_inverse(ws: Seq<u32>)
    ensures
        words_of_bytes(bytes_of_words(ws)) == ws,
    decreases ws.len(),
{
    if ws.len() == 0 {
        assert(words_of_bytes(bytes_of_words(ws)) =~= ws);
    } else {
        let tail = ws.subrange(1, ws.len() as int);
        let bs = bytes_of_words(ws);
        lemma_bytes_of_words_len(tail);
        assert(bs.subrange(4, bs.len() as int) =~= bytes_of_words(tail));
        assert(bs[0] == word_bytes(ws[0])[0]);
        assert(bs[1] == word_bytes(ws[0])[1]);
        assert(bs[2] == word_bytes(ws[0])[2]);
        assert(bs[3] == word_bytes(ws[0])[3]);
        lemma_word_bytes_inverse(ws[0]);
        lemma_words_bytes_inverse(tail);
        assert(words_of_bytes(bs) =~= ws);
    }
}

/// Serializes a word buffer into its little-endian byte image.
pub fn words_to_bytes(ws: &Vec<u32>) -> (out: Vec<u8>)
    ensures
        out@ == bytes_of_words(ws@),
{
    let n = ws.len();
    let mut out: Vec<u8> = Vec::new();
    let mut i: usize = 0;
    proof {
        assert(ws@.subrange(0, n as int) =~= ws@);
        assert(bytes_of_words(ws@) =~= Seq::<u8>::empty() + bytes_of_words(ws@));
    }
    while i < n
        invariant
            i <= n,
            n == ws@.len(),
            bytes_of_words(ws@) == out@ + bytes_of_words(ws@.subrange(i as int, n as int)),
        decreases n - i,
    {
        let w = ws[i];
        proof {
            assert((w & 0xFF) < 256 && ((w >> 8) & 0xFF) < 256 && ((w >> 16) & 0xFF) < 256 && ((w
                >> 24) & 0xFF) < 256) by (bit_vector);
            let rest = ws@.subrange(i as int, n as int);
            assert(rest[0] == w);
            assert(rest.subrange(1, rest.len() as int) =~= ws@.subrange(i + 1, n as int));
            assert(bytes_of_words(ws@) =~= (out@ + word_bytes(w)) + bytes_of_words(
                ws@.subrange(i + 1, n as int),
            ));
        }
        out.push((w & 0xFF) as u8);
        out.push(((w >> 8) & 0xFF) as u8);
        out.push(((w >> 16) & 0xFF) as u8);
        out.push(((w >> 24) & 0xFF) as u8);
        i = i + 1;
    }
    proof {
        assert(ws@.subrange(n as int, n as int) =~= Seq::<u32>::empty());
        assert(out@ =~= bytes_of_words(ws@));
    }
    out
}

/// Reads a byte image back into words; `None` when the length is not a
/// multiple of four, so no byte is silently dropped.
pub fn bytes_to_words(bs: &Vec<u8>) -> (r: Option<Vec<u32>>)
    ensures
        bs@.len() % 4 == 0 ==> (r matches Some(ws) && ws@ == words_of_bytes(bs@)),
        bs@.len() % 4 != 0 ==> r is None,
{
    let n = bs.len();
    if n % 4 != 0 {
        return None;
    }
    let mut out: Vec<u32> = Vec::new();
    let mut i: usize = 0;
    proof {
        assert(bs@.subrange(0, n as int) =~= bs@);
        assert(words_of_bytes(bs@) =~= Seq::<u32>::empty() + words_of_bytes(bs@));
    }
    while i < n
        invariant
            i <= n,
            i % 4 == 0,
            n % 4 == 0,
            n == bs@.len(),
            words_of_bytes(bs@) == out@ + words_of_bytes(bs@.subrange(i as int, n as int)),
        decreases n - i,
    {
        assert(i + 4 <= n);
        let w = word_of_four(bs[i], bs[i + 1], bs[i + 2], bs[i + 3]);
        proof {
            let rest = bs@.subrange(i as int, n as int);
            assert(rest[0] == bs@[i as int]);
            assert(rest[1] == bs@[i + 1]);
            assert(rest[2] == bs@[i + 2]);
            assert(rest[3] == bs@[i + 3]);
            assert(rest.subrange(4, rest.len() as int) =~= bs@.subrange(i + 4, n as int));
            assert(words_of_bytes(bs@) =~= (out@ + seq![w]) + words_of_bytes(
                bs@.subrange(i + 4, n as int),
            ));
        }
        out.push(w);
        i = i + 4;
    }
    proof {
        assert(bs@.subrange(i as int, n as int).len() < 4);
        assert(out@ =~= words_of_bytes(bs@));
    }
    Some(out)
}

/// Assembles one word from its four little-endian bytes.
fn word_of_four(b0: u8, b1: u8, b2: u8, b3: u8) -> (w: u32)
    ensures
        w == word_of_bytes(b0, b1, b2, b3),
{
    (b0 as u32) | ((b1 as u32) << 8) | ((b2 as u32) << 16) | ((b3 as u32) << 24)
}

/// The byte image of a scene's uniform buffer.
pub open spec fn scene_bytes(s: SceneDescriptor) -> Seq<u8> {
    bytes_of_words(scene_words(s))
}

/// The scene a byte image describes.
pub open spec fn scene_of_bytes(bs: Seq<u8>) -> Option<SceneDescriptor> {
    if bs.len() % 4 == 0 {
        scene_of_words(words_of_bytes(bs))
    } else {
        None
    }
}

/// Encodes a scene into the byte image of its uniform buffer.
pub fn encode_scene_bytes(s: &SceneDescriptor) -> (out: Vec<u8>)
    ensures
        out@ == scene_bytes(*s),
{
    let ws = encode_scene(s);
    words_to_bytes(&ws)
}

/// Reads a scene back out of a byte image; `None` when the bytes cannot
/// describe one.
pub fn decode_scene_bytes(bs: &Vec<u8>) -> (r: Option<SceneDescriptor>)
    ensures
        r == scene_of_bytes(bs@),
{
    match bytes_to_words(bs) {
        Some(ws) => decode_scene(&ws),
        None => None,
    }
}

/// Round trip of the whole scene through the defined byte layout: reading
/// the serialized bytes back reproduces every field bit-for-bit.
pub proof fn lemma_scene_bytes_round_trip(s: SceneDescriptor)
    ensures
        scene_of_bytes(scene_bytes(s)) == Some(s),
{
    lemma_scene_words_len(s);
    lemma_bytes_of_words_len(scene_words(s));
    lemma_words_bytes_inverse(scene_words(s));
    lemma_scene_round_trip(s);
}

} // verus!
