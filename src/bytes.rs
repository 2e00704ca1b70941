//! Big-endian packing of `u32` words into bytes and back.
use vstd::prelude::*;

verus! {

/// The four big-endian bytes of `v`.
pub open spec fn be_bytes_of(v: u32) -> Seq<u8> {
    seq![
        (v / 0x100_0000) as u8,
        ((v / 0x1_0000) % 0x100) as u8,
        ((v / 0x100) % 0x100) as u8,
        (v % 0x100) as u8,
    ]
}

/// The word whose big-endian bytes are `b[0..4]`.
pub open spec fn be_word_of(b: Seq<u8>) -> u32
    recommends
        b.len() >= 4,
{
    (b[0] as int * 0x100_0000 + b[1] as int * 0x1_0000 + b[2] as int * 0x100 + b[3] as int) as u32
}

/// The big-endian bytes of every word of `words`, in order.
pub open spec fn words_to_bytes(words: Seq<u32>) -> Seq<u8>
    decreases words.len(),
{
    if words.len() == 0 {
        Seq::empty()
    } else {
        words_to_bytes(words.drop_last()) + be_bytes_of(words.last())
    }
}

/// The words read from the whole four-byte groups of `b`; a trailing group of
/// fewer than four bytes is not read.
pub open spec fn bytes_to_words(b: Seq<u8>) -> Seq<u32> {
    Seq::new(b.len() / 4, |i: int| be_word_of(b.subrange(4 * i, 4 * i + 4)))
}

pub proof fn lemma_words_to_bytes_len(words: Seq<u32>)
    ensures
        words_to_bytes(words).len() == 4 * words.len(),
    decreases words.len(),
{
    if words.len() > 0 {
        lemma_words_to_bytes_len(words.drop_last());
    }
}

/// Byte `4 * i + k` of the packing is byte `k` of word `i`.
pub proof fn lemma_words_to_bytes_index(words: Seq<u32>, i: int, k: int)
    requires
        0 <= i < words.len(),
        0 <= k < 4,
    ensures
        words_to_bytes(words).len() == 4 * words.len(),
        words_to_bytes(words)[4 * i + k] == be_bytes_of(words[i])[k],
    decreases words.len(),
{
    lemma_words_to_bytes_len(words);
    lemma_words_to_bytes_len(words.drop_last());
    if i < words.len() - 1 {
        lemma_words_to_bytes_index(words.drop_last(), i, k);
    }
}

proof fn lemma_word_round_trip(v: u32)
    ensures
        be_word_of(be_bytes_of(v)) == v,
{
    let b = be_bytes_of(v);
    assert(b[0] as int == v as int / 0x100_0000);
    assert(b[1] as int == (v as int / 0x1_0000) % 0x100);
    assert(b[2] as int == (v as int / 0x100) % 0x100);
    assert(b[3] as int == v as int % 0x100);
    assert(v as int == (v as int / 0x100_0000) * 0x100_0000 + ((v as int / 0x1_0000) % 0x100)
        * 0x1_0000 + ((v as int / 0x100) % 0x100) * 0x100 + v as int % 0x100) by (nonlinear_arith)
        requires
            0 <= v as int <= 0xffff_ffff,
    ;
}

/// Reading back the packing of `words` gives `words`, with no bytes left over.
pub proof fn lemma_bytes_round_trip(words: Seq<u32>)
    ensures
        bytes_to_words(words_to_bytes(words)) == words,
        words_to_bytes(words).len() % 4 == 0,
{
    let b = words_to_bytes(words);
    lemma_words_to_bytes_len(words);
    assert forall|i: int| 0 <= i < words.len() implies #[trigger] bytes_to_words(b)[i]
        == words[i] by {
        assert forall|k: int| 0 <= k < 4 implies b.subrange(4 * i, 4 * i + 4)[k] == be_bytes_of(
            words[i],
        )[k] by {
            lemma_words_to_bytes_index(words, i, k);
        }
        assert(b.subrange(4 * i, 4 * i + 4) =~= be_bytes_of(words[i]));
        lemma_word_round_trip(words[i]);
    }
    assert(bytes_to_words(b) =~= words);
}

/// Packs each word of `input` as four big-endian bytes.
pub fn to_bytes(input: &[u32]) -> (bytes: Vec<u8>)
    requires
        input@.len() * 4 <= usize::MAX,
    ensures
        bytes@ == words_to_bytes(input@),
{
    let mut bytes: Vec<u8> = Vec::with_capacity(4 * input.len());
    let mut i: usize = 0;
    while i < input.len()
        invariant
            0 <= i <= input@.len(),
            bytes@ == words_to_bytes(input@.subrange(0, i as int)),
        decreases input@.len() - i,
    {
        let value: u32 = input[i];
        bytes.push((value / 0x100_0000) as u8);
        bytes.push(((value / 0x1_0000) % 0x100) as u8);
        bytes.push(((value / 0x100) % 0x100) as u8);
        bytes.push((value % 0x100) as u8);
        proof {
            let next = input@.subrange(0, i as int + 1);
            assert(next.drop_last() =~= input@.subrange(0, i as int));
            assert(bytes@ =~= words_to_bytes(next));
        }
        i = i + 1;
    }
    assert(input@.subrange(0, input@.len() as int) =~= input@);
    bytes
}

/// Reads big-endian words from the front of `*input` until fewer than four
/// bytes remain, and leaves `*input` at those remaining bytes.
pub fn from_bytes(input: &mut &[u8]) -> (output: Vec<u32>)
    ensures
        output@ == bytes_to_words(old(input)@),
        final(input)@ == old(input)@.subrange(4 * output@.len() as int, old(input)@.len() as int),
        final(input)@.len() < 4,
{
    let ghost start = input@;
    let mut len: usize = input.len();
    let mut output: Vec<u32> = Vec::new();
    while len >= 4
        invariant
            len == input@.len(),
            4 * output@.len() + len == start.len(),
            input@ == start.subrange(4 * output@.len() as int, start.len() as int),
            forall|j: int|
                0 <= j < output@.len() ==> #[trigger] output@[j] == be_word_of(
                    start.subrange(4 * j, 4 * j + 4),
                ),
        decreases len,
    {
        let (int_bytes, rest) = input.split_at(4);
        *input = rest;
        let word: u32 = int_bytes[0] as u32 * 0x100_0000 + int_bytes[1] as u32 * 0x1_0000
            + int_bytes[2] as u32 * 0x100 + int_bytes[3] as u32;
        proof {
            let n = output@.len() as int;
            assert(int_bytes@ =~= start.subrange(4 * n, 4 * n + 4));
            assert(input@ =~= start.subrange(4 * n + 4, start.len() as int));
        }
        output.push(word);
        len = len - 4;
    }
    assert(output@ =~= bytes_to_words(start));
    output
}

} // verus!
