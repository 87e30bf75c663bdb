use vstd::prelude::*;

verus! {

/// The word with the `width` lowest bits set.
pub open spec fn low_mask(width: u32) -> u32 {
    ((1u64 << width) - 1) as u32
}

/// The `width`-bit field of `word` that starts at bit `offset`.
pub open spec fn field(word: u32, offset: u32, width: u32) -> u32 {
    (word >> offset) & low_mask(width)
}

/// What a read-modify-write stores: `word` with the bits of `clear` cleared
/// and then the bits of `set` set.
pub open spec fn modified(word: u32, clear: u32, set: u32) -> u32 {
    (word & !clear) | set
}

/// Clearing a field and then or-ing a value into it leaves exactly that value
/// in the field.
pub proof fn lemma_field_replaced(word: u32, offset: u32, width: u32, value: u32)
    by (bit_vector)
    requires
        1 <= width <= 32,
        offset <= 32 - width,
        value <= low_mask(width),
    ensures
        field(
            modified(modified(word, low_mask(width) << offset, 0), 0, value << offset),
            offset,
            width,
        ) == value,
{
}

/// Or-ing a value into a field leaves the bitwise or of the old field and the
/// value there.
pub proof fn lemma_field_merged(word: u32, offset: u32, width: u32, value: u32)
    by (bit_vector)
    requires
        1 <= width <= 32,
        offset <= 32 - width,
        value <= low_mask(width),
    ensures
        field(modified(word, 0, value << offset), offset, width) == field(word, offset, width)
            | value,
{
}

/// Or-ing a value into one field changes no field that lies wholly beside it.
pub proof fn lemma_merge_keeps_others(
    word: u32,
    offset: u32,
    width: u32,
    value: u32,
    other_offset: u32,
    other_width: u32,
)
    by (bit_vector)
    requires
        1 <= width <= 32,
        offset <= 32 - width,
        1 <= other_width <= 32,
        other_offset <= 32 - other_width,
        other_offset + other_width <= offset || offset + width <= other_offset,
        value <= low_mask(width),
    ensures
        field(modified(word, 0, value << offset), other_offset, other_width) == field(
            word,
            other_offset,
            other_width,
        ),
{
}

/// Clearing one field and then or-ing a value into it changes no field that
/// lies wholly beside it.
pub proof fn lemma_replace_keeps_others(
    word: u32,
    offset: u32,
    width: u32,
    value: u32,
    other_offset: u32,
    other_width: u32,
)
    by (bit_vector)
    requires
        1 <= width <= 32,
        offset <= 32 - width,
        1 <= other_width <= 32,
        other_offset <= 32 - other_width,
        other_offset + other_width <= offset || offset + width <= other_offset,
        value <= low_mask(width),
    ensures
        field(
            modified(modified(word, low_mask(width) << offset, 0), 0, value << offset),
            other_offset,
            other_width,
        ) == field(word, other_offset, other_width),
{
}

/// One read-modify-write that clears a field and sets a value in it leaves
/// exactly that value in the field and every bit outside the field as it was.
pub proof fn lemma_field_written(word: u32, offset: u32, width: u32, value: u32)
    by (bit_vector)
    requires
        1 <= width <= 32,
        offset <= 32 - width,
        value <= low_mask(width),
    ensures
        field(modified(word, low_mask(width) << offset, value << offset), offset, width) == value,
        modified(word, low_mask(width) << offset, value << offset) & !(low_mask(width) << offset)
            == word & !(low_mask(width) << offset),
{
}

/// A one-bit field or-ed with a one-bit value is set exactly if either is.
pub proof fn lemma_bit_merged(word: u32, offset: u32, value: u32)
    by (bit_vector)
    requires
        offset <= 31,
        value <= 1,
    ensures
        field(word, offset, 1) <= 1,
        field(word, offset, 1) | value == if field(word, offset, 1) == 1 || value == 1 {
            1u32
        } else {
            0u32
        },
{
}

/// The masks of the field widths that the drivers use.
pub proof fn lemma_low_masks()
    by (bit_vector)
    ensures
        low_mask(1) == 1,
        low_mask(2) == 3,
        low_mask(3) == 7,
        low_mask(4) == 15,
        low_mask(8) == 0xFF,
        low_mask(10) == 0x3FF,
{
}

/// A read-modify-write done twice stores what it stored the first time.
pub proof fn lemma_modified_idempotent(word: u32, clear: u32, set: u32)
    by (bit_vector)
    ensures
        modified(modified(word, clear, set), clear, set) == modified(word, clear, set),
{
}

/// Setting bits that are set already changes nothing, and after setting them
/// they are set.
pub proof fn lemma_set_bits(word: u32, bits: u32)
    by (bit_vector)
    ensures
        modified(word, 0, bits) & bits == bits,
        modified(word, 0, bits) & !bits == word & !bits,
        word & bits == bits ==> modified(word, 0, bits) == word,
{
}

} // verus!
