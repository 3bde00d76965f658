use vstd::prelude::*;
use vstd::arithmetic::power::pow;

verus! {

/// The `k`-th byte of `num`, counting from the least significant one.
pub open spec fn byte_of(num: u32, k: nat) -> u8 {
    ((num as int / pow(256, k)) % 256) as u8
}

/// Extracts byte number `byte_number` (0 is the least significant) of `num`.
pub fn get_byte(num: u32, byte_number: u8) -> (byte: u8)
    requires
        byte_number < 4,
    ensures
        byte == byte_of(num, byte_number as nat),
{
    let shift: u8 = 8 * byte_number;
    let mask: u32 = 0xffu32 << shift;
    let byte = ((num & mask) >> shift) as u8;
    proof {
        reveal_with_fuel(pow, 5);
        if byte_number == 0 {
            assert(((num & (0xffu32 << 0u8)) >> 0u8) as u8 == (num % 0x100) as u8) by (bit_vector);
        } else if byte_number == 1 {
            assert(((num & (0xffu32 << 8u8)) >> 8u8) as u8 == ((num / 0x100) % 0x100) as u8)
                by (bit_vector);
        } else if byte_number == 2 {
            assert(((num & (0xffu32 << 16u8)) >> 16u8) as u8 == ((num / 0x10000) % 0x100) as u8)
                by (bit_vector);
        } else {
            assert(((num & (0xffu32 << 24u8)) >> 24u8) as u8 == ((num / 0x1000000) % 0x100) as u8)
                by (bit_vector);
        }
    }
    byte
}

/// The membership handle generated for the member with index `id`: the four
/// bytes of `id`, least significant first.
pub open spec fn member_handle(id: u32) -> Seq<u8> {
    Seq::new(4, |k: int| byte_of(id, k as nat))
}

/// Reads a four-byte handle back as the little-endian number it spells.
pub open spec fn handle_number(handle: Seq<u8>) -> int {
    handle[0] + 0x100 * handle[1] + 0x10000 * handle[2] + 0x1000000 * handle[3]
}

/// Generates the membership handle for the member with index `id`.
pub fn handle_from_id(id: u32) -> (handle: Vec<u8>)
    ensures
        handle@ == member_handle(id),
{
    let mut handle: Vec<u8> = Vec::new();
    for i in 0..4u8
        invariant
            handle@.len() == i,
            forall|j: int| 0 <= j < i ==> handle@[j] == byte_of(id, j as nat),
    {
        handle.push(get_byte(id, i));
    }
    assert(handle@ =~= member_handle(id));
    handle
}

/// A handle is never empty: it always holds four bytes.
pub proof fn lemma_member_handle_len(id: u32)
    ensures
        member_handle(id).len() == 4,
{
}

/// A handle spells, in little-endian order, the index it was made from.
pub proof fn lemma_member_handle_decodes(id: u32)
    ensures
        handle_number(member_handle(id)) == id,
{
    let h = member_handle(id);
    reveal_with_fuel(pow, 5);
    assert(h[0] == (id % 0x100) as u8);
    assert(h[1] == ((id / 0x100) % 0x100) as u8);
    assert(h[2] == ((id / 0x10000) % 0x100) as u8);
    assert(h[3] == ((id / 0x1000000) % 0x100) as u8);
    assert(id == ((id % 0x100) as u8) + 0x100 * (((id / 0x100) % 0x100) as u8) + 0x10000 * ((
    (id / 0x10000) % 0x100) as u8) + 0x1000000 * (((id / 0x1000000) % 0x100) as u8))
        by (bit_vector);
}

/// Distinct member indices get distinct handles.
pub proof fn lemma_member_handle_injective(a: u32, b: u32)
    ensures
        a != b ==> member_handle(a) != member_handle(b),
{
    lemma_member_handle_decodes(a);
    lemma_member_handle_decodes(b);
}

/// Member indices below this one are left to the accounts that create, fund and
/// judge bounties; work entrants are numbered from here on.
pub const WORK_ENTRANT_INDEX_BASE: u32 = 1000;

/// The member index under which the work entrant number `index` is registered.
pub fn work_entrant_member_index(index: u32) -> (member_index: u32)
    requires
        index + WORK_ENTRANT_INDEX_BASE <= u32::MAX,
    ensures
        member_index == WORK_ENTRANT_INDEX_BASE + index,
{
    WORK_ENTRANT_INDEX_BASE + index
}

/// Work entrants get pairwise distinct handles, and none of them collides with
/// the handle of a member registered under an index below the entrant base.
pub proof fn lemma_work_entrant_handles_distinct(i: u32, j: u32, member: u32)
    requires
        i + WORK_ENTRANT_INDEX_BASE <= u32::MAX,
        j + WORK_ENTRANT_INDEX_BASE <= u32::MAX,
        member < WORK_ENTRANT_INDEX_BASE,
    ensures
        i != j ==> member_handle((WORK_ENTRANT_INDEX_BASE + i) as u32) != member_handle(
            (WORK_ENTRANT_INDEX_BASE + j) as u32,
        ),
        member_handle((WORK_ENTRANT_INDEX_BASE + i) as u32) != member_handle(member),
{
    lemma_member_handle_injective((WORK_ENTRANT_INDEX_BASE + i) as u32, (WORK_ENTRANT_INDEX_BASE + j) as u32);
    lemma_member_handle_injective((WORK_ENTRANT_INDEX_BASE + i) as u32, member);
}

} // verus!
