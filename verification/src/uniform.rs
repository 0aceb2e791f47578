//! The byte layout of a settings block as the shaders read it.
//!
//! Fields lie in declaration order. A scalar takes one 32-bit word, a
//! vector of `n` components `n` words. A scalar starts on any word, a
//! two-component vector on an 8-byte boundary, a three- or four-component
//! vector on a 16-byte boundary. The gaps are zero, and the block ends on a
//! multiple of its strictest alignment. Words are stored little-endian.

use vstd::prelude::*;

verus! {

/// One field of a settings block, with the words that it holds.
#[derive(Clone, Copy, Debug, PartialEq, Eq, Structural)]
pub enum Field {
    Scalar(u32),
    Vec2(u32, u32),
    Vec3(u32, u32, u32),
    Vec4(u32, u32, u32, u32),
}

impl Field {
    /// The words of the field, in component order.
    pub open spec fn words(self) -> Seq<u32> {
        match self {
            Field::Scalar(x) => seq![x],
            Field::Vec2(x, y) => seq![x, y],
            Field::Vec3(x, y, z) => seq![x, y, z],
            Field::Vec4(x, y, z, w) => seq![x, y, z, w],
        }
    }

    /// The number of words that the field holds.
    pub open spec fn size(self) -> nat {
        match self {
            Field::Scalar(_) => 1,
            Field::Vec2(_, _) => 2,
            Field::Vec3(_, _, _) => 3,
            Field::Vec4(_, _, _, _) => 4,
        }
    }

    /// The alignment of the field, in words.
    pub open spec fn align(self) -> nat {
        match self {
            Field::Scalar(_) => 1,
            Field::Vec2(_, _) => 2,
            Field::Vec3(_, _, _) => 4,
            Field::Vec4(_, _, _, _) => 4,
        }
    }

    /// The alignment of the field, in words.
    pub fn alignment(&self) -> (align: usize)
        ensures
            align == self.align(),
    {
        match self {
            Field::Scalar(_) => 1,
            Field::Vec2(_, _) => 2,
            Field::Vec3(_, _, _) => 4,
            Field::Vec4(_, _, _, _) => 4,
        }
    }
}

/// The least multiple of `align` that is not below `offset`.
pub open spec fn round_up(offset: nat, align: nat) -> nat
    recommends
        align > 0,
{
    if offset % align == 0 {
        offset
    } else {
        (offset + align - offset % align) as nat
    }
}

/// The word just past field `n - 1`: where the first `n` fields end.
pub open spec fn end_offset(fields: Seq<Field>, n: int) -> nat
    decreases n,
{
    if n <= 0 {
        0
    } else {
        round_up(end_offset(fields, n - 1), fields[n - 1].align()) + fields[n - 1].size()
    }
}

/// The word at which field `i` starts.
pub open spec fn field_offset(fields: Seq<Field>, i: int) -> nat {
    round_up(end_offset(fields, i), fields[i].align())
}

/// The strictest alignment among the first `n` fields, in words.
pub open spec fn block_align(fields: Seq<Field>, n: int) -> nat
    decreases n,
{
    if n <= 0 {
        1
    } else if fields[n - 1].align() > block_align(fields, n - 1) {
        fields[n - 1].align()
    } else {
        block_align(fields, n - 1)
    }
}

/// The size of the whole block, in words.
pub open spec fn block_size(fields: Seq<Field>) -> nat {
    round_up(end_offset(fields, fields.len() as int), block_align(fields, fields.len() as int))
}

/// `count` zero words.
pub open spec fn zeros(count: nat) -> Seq<u32> {
    Seq::new(count, |i: int| 0u32)
}

/// `words`, extended by zeros to the next multiple of `align`.
pub open spec fn padded(words: Seq<u32>, align: nat) -> Seq<u32> {
    words + zeros((round_up(words.len(), align) - words.len()) as nat)
}

/// The words of the first `n` fields, each at its offset.
pub open spec fn packed_prefix(fields: Seq<Field>, n: int) -> Seq<u32>
    decreases n,
{
    if n <= 0 {
        seq![]
    } else {
        padded(packed_prefix(fields, n - 1), fields[n - 1].align()) + fields[n - 1].words()
    }
}

/// The words of the whole block.
pub open spec fn packed_words(fields: Seq<Field>) -> Seq<u32> {
    padded(packed_prefix(fields, fields.len() as int), block_align(fields, fields.len() as int))
}

/// The four bytes of a word, least significant first.
pub open spec fn le_bytes(word: u32) -> Seq<u8> {
    seq![
        (word % 256) as u8,
        (word / 256 % 256) as u8,
        (word / 65536 % 256) as u8,
        (word / 16777216) as u8,
    ]
}

/// The bytes of a sequence of words, each word little-endian.
pub open spec fn words_to_bytes(words: Seq<u32>) -> Seq<u8> {
    Seq::new(4 * words.len(), |i: int| le_bytes(words[i / 4])[i % 4])
}

/// The bytes of the whole block.
pub open spec fn packed_bytes(fields: Seq<Field>) -> Seq<u8> {
    words_to_bytes(packed_words(fields))
}

/// Rounding up to an alignment of one, two or four words gives a multiple
/// of the alignment, less than one alignment above the offset, and no
/// multiple of the alignment lies between the two.
pub proof fn lemma_round_up(offset: nat, align: nat, other: nat)
    requires
        align == 1 || align == 2 || align == 4,
    ensures
        round_up(offset, align) % align == 0,
        offset <= round_up(offset, align) < offset + align,
        other >= offset && other % align == 0 ==> other >= round_up(offset, align),
{
    if align == 1 {
        assert(round_up(offset, 1) == offset);
    } else if align == 2 {
        assert(round_up(offset, 2) % 2 == 0);
    } else {
        assert(round_up(offset, 4) % 4 == 0);
    }
}

/// The first `n` fields take at most eight words each, and the words
/// written for them are as many as `end_offset` says.
pub proof fn lemma_prefix_len(fields: Seq<Field>, n: int)
    requires
        0 <= n <= fields.len(),
    ensures
        packed_prefix(fields, n).len() == end_offset(fields, n),
        end_offset(fields, n) <= 8 * n,
        1 <= block_align(fields, n) <= 4,
        block_align(fields, n) == 1 || block_align(fields, n) == 2 || block_align(fields, n) == 4,
    decreases n,
{
    if n > 0 {
        lemma_prefix_len(fields, n - 1);
        let before = packed_prefix(fields, n - 1);
        let align = fields[n - 1].align();
        lemma_round_up(before.len(), align, 0);
    }
}

/// The words of the first `m` fields stay where they are when more fields
/// follow.
pub proof fn lemma_prefix_extends(fields: Seq<Field>, m: int, n: int, w: int)
    requires
        0 <= m <= n <= fields.len(),
        0 <= w < packed_prefix(fields, m).len(),
    ensures
        w < packed_prefix(fields, n).len(),
        packed_prefix(fields, n)[w] == packed_prefix(fields, m)[w],
    decreases n - m,
{
    if m < n {
        lemma_prefix_extends(fields, m, n - 1, w);
    }
}

/// Every field lies at its offset: component `c` of field `i` is the word
/// `field_offset(fields, i) + c` of the block.
pub proof fn lemma_field_at_offset(fields: Seq<Field>, i: int, c: int)
    requires
        0 <= i < fields.len(),
        0 <= c < fields[i].size(),
    ensures
        fields[i].words().len() == fields[i].size(),
        field_offset(fields, i) + c < packed_words(fields).len(),
        packed_words(fields)[field_offset(fields, i) + c] == fields[i].words()[c],
        field_offset(fields, i) % fields[i].align() == 0,
        field_offset(fields, i) + fields[i].size() == end_offset(fields, i + 1),
{
    lemma_prefix_len(fields, i);
    lemma_round_up(end_offset(fields, i), fields[i].align(), 0);
    let w = field_offset(fields, i) + c;
    let upto = packed_prefix(fields, i + 1);
    assert(padded(packed_prefix(fields, i), fields[i].align()).len() == field_offset(fields, i));
    assert(upto[w] == fields[i].words()[c]);
    lemma_prefix_extends(fields, i + 1, fields.len() as int, w);
}

/// The gap before a field holds zeros.
pub proof fn lemma_gap_is_zero(fields: Seq<Field>, i: int, w: int)
    requires
        0 <= i < fields.len(),
        end_offset(fields, i) <= w < field_offset(fields, i),
    ensures
        w < packed_words(fields).len(),
        packed_words(fields)[w] == 0,
{
    lemma_prefix_len(fields, i);
    lemma_round_up(end_offset(fields, i), fields[i].align(), 0);
    let upto = packed_prefix(fields, i + 1);
    assert(padded(packed_prefix(fields, i), fields[i].align()).len() == field_offset(fields, i));
    assert(upto[w] == 0);
    lemma_prefix_extends(fields, i + 1, fields.len() as int, w);
}

/// The block is as long as `block_size` says, a multiple of its strictest
/// alignment, and holds zeros past its last field.
pub proof fn lemma_block_size(fields: Seq<Field>, w: int)
    ensures
        packed_words(fields).len() == block_size(fields),
        packed_bytes(fields).len() == 4 * block_size(fields),
        block_size(fields) % block_align(fields, fields.len() as int) == 0,
        end_offset(fields, fields.len() as int) <= w < block_size(fields) ==> packed_words(
            fields,
        )[w] == 0,
{
    lemma_prefix_len(fields, fields.len() as int);
    lemma_round_up(
        end_offset(fields, fields.len() as int),
        block_align(fields, fields.len() as int),
        0,
    );
}

/// The bytes of a word are its base-256 digits, least significant first.
pub proof fn lemma_le_bytes_value(word: u32)
    ensures
        le_bytes(word).len() == 4,
        word == le_bytes(word)[0] + 256 * le_bytes(word)[1] + 65536 * le_bytes(word)[2] + 16777216
            * le_bytes(word)[3],
{
}

/// Every field lies at its byte offset: byte `b` of component `c` of field
/// `i` is byte `4 * (field_offset(fields, i) + c) + b` of the block.
pub proof fn lemma_field_bytes(fields: Seq<Field>, i: int, c: int, b: int)
    requires
        0 <= i < fields.len(),
        0 <= c < fields[i].size(),
        0 <= b < 4,
    ensures
        4 * (field_offset(fields, i) + c) + b < packed_bytes(fields).len(),
        packed_bytes(fields)[4 * (field_offset(fields, i) + c) + b] == le_bytes(
            fields[i].words()[c],
        )[b],
{
    lemma_field_at_offset(fields, i, c);
}

/// Appends zeros to `words` until its length is a multiple of `align`.
fn pad(words: &mut Vec<u32>, align: usize)
    requires
        align == 1 || align == 2 || align == 4,
        old(words).len() + 4 <= usize::MAX,
    ensures
        final(words)@ == padded(old(words)@, align as nat),
{
    let ghost start = words@;
    let ghost target = round_up(start.len(), align as nat);
    proof {
        lemma_round_up(start.len(), align as nat, 0);
    }
    while words.len() % align != 0
        invariant
            align == 1 || align == 2 || align == 4,
            start.len() <= words.len() <= target,
            target < start.len() + align,
            target % (align as nat) == 0,
            start.len() + 4 <= usize::MAX,
            words@ == start + zeros((words.len() - start.len()) as nat),
        decreases target - words.len(),
    {
        words.push(0);
        assert(words@ =~= start + zeros((words.len() - start.len()) as nat));
    }
    assert(words.len() == target) by {
        if words.len() < target {
            assert(words.len() as nat % (align as nat) == 0);
            assert(target % (align as nat) == 0);
            assert(target - words.len() < align);
        }
    }
    assert(start + zeros(0) =~= start);
}

/// Lays the fields out as words.
pub fn pack_words(fields: &Vec<Field>) -> (words: Vec<u32>)
    requires
        8 * fields.len() + 8 <= usize::MAX,
    ensures
        words@ == packed_words(fields@),
{
    let mut words: Vec<u32> = Vec::new();
    let mut strictest: usize = 1;
    let mut i: usize = 0;
    while i < fields.len()
        invariant
            0 <= i <= fields.len(),
            8 * fields.len() + 8 <= usize::MAX,
            words@ == packed_prefix(fields@, i as int),
            strictest == block_align(fields@, i as int),
        decreases fields.len() - i,
    {
        proof {
            lemma_prefix_len(fields@, i as int);
        }
        let field = fields[i];
        let align = field.alignment();
        pad(&mut words, align);
        match field {
            Field::Scalar(x) => {
                words.push(x);
            },
            Field::Vec2(x, y) => {
                words.push(x);
                words.push(y);
            },
            Field::Vec3(x, y, z) => {
                words.push(x);
                words.push(y);
                words.push(z);
            },
            Field::Vec4(x, y, z, w) => {
                words.push(x);
                words.push(y);
                words.push(z);
                words.push(w);
            },
        }
        if align > strictest {
            strictest = align;
        }
        i = i + 1;
        assert(words@ =~= packed_prefix(fields@, i as int));
    }
    proof {
        lemma_prefix_len(fields@, fields.len() as int);
    }
    pad(&mut words, strictest);
    words
}

/// Stores the words as bytes, each word little-endian.
pub fn store_words(words: &Vec<u32>) -> (bytes: Vec<u8>)
    requires
        4 * words.len() <= usize::MAX,
    ensures
        bytes@ == words_to_bytes(words@),
{
    let mut bytes: Vec<u8> = Vec::new();
    let mut i: usize = 0;
    while i < words.len()
        invariant
            0 <= i <= words.len(),
            4 * words.len() <= usize::MAX,
            bytes@ == words_to_bytes(words@.take(i as int)),
        decreases words.len() - i,
    {
        let word = words[i];
        bytes.push((word % 256) as u8);
        bytes.push((word / 256 % 256) as u8);
        bytes.push((word / 65536 % 256) as u8);
        bytes.push((word / 16777216) as u8);
        i = i + 1;
        assert(bytes@ =~= words_to_bytes(words@.take(i as int)));
    }
    assert(words@.take(words.len() as int) =~= words@);
    bytes
}

/// Lays the fields out as the bytes of a settings block.
pub fn pack(fields: &Vec<Field>) -> (bytes: Vec<u8>)
    requires
        32 * fields.len() + 32 <= usize::MAX,
    ensures
        bytes@ == packed_bytes(fields@),
{
    let words = pack_words(fields);
    proof {
        lemma_prefix_len(fields@, fields.len() as int);
    }
    store_words(&words)
}

} // verus!
