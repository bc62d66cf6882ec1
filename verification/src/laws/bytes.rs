//! Byte strings and lists of calls.

use crate::bytes::{
    append, clipped, copied, le16_bytes, le_bytes, le_value, same_bytes, u16_from_le,
};
use crate::central::pack;
use crate::emit::{call_when, calls, no_calls, only_when, Emit};
use crate::laws::server::{fitting, told};
use vstd::prelude::*;

verus! {

/// The byte number `i` of a number, counted from the least significant one.
pub open spec fn byte_of(v: int, i: nat) -> int
    decreases i,
{
    if i == 0 {
        v % 256
    } else {
        byte_of(v / 256, (i - 1) as nat)
    }
}

/// Bytes write a number least significant byte first.
pub proof fn law_bytes_write_their_number(v: int, n: nat, b: Seq<u8>, i: nat)
    ensures
        le_bytes(v, n).len() == n,
        i < n ==> le_bytes(v, n)[i as int] == byte_of(v, i),
        i < b.len() ==> byte_of(le_value(b), i) == b[i as int],
        b.len() == 0 ==> le_value(b) == 0,
        le_value(b) >= 0,
    decreases n + b.len(),
{
    if n > 0 {
        law_bytes_write_their_number(v / 256, (n - 1) as nat, seq![], (i - 1) as nat);
        lemma_byte_range(v);
    }
    if b.len() > 0 {
        law_bytes_write_their_number(0, 0, b.drop_first(), (i - 1) as nat);
        assert(le_value(b) % 256 == b[0]);
        assert(le_value(b) / 256 == le_value(b.drop_first()));
    }
}

proof fn lemma_byte_range(v: int)
    ensures
        0 <= v % 256 < 256,
{
}

/// Two bytes write a 16-bit number, low byte first, and read back as it.
pub proof fn law_short_numbers(x: u16, b: [u8; 2], low: u8, high: u8, r: u16)
    requires
        call_ensures(le16_bytes, (x,), b),
        call_ensures(u16_from_le, (low, high), r),
    ensures
        b@.len() == 2,
        b@[0] + 256 * b@[1] == x,
        r == low + 256 * high,
        b@[0] == low && b@[1] == high ==> r == x,
{
}

/// A 32-bit word holds one number in its upper and one in its lower half.
pub proof fn law_packed_numbers(high: u16, low: u16, r: u32)
    requires
        call_ensures(pack, (high, low), r),
    ensures
        r == low + 0x1_0000 * high,
{
}

/// Appending keeps what there is and adds the rest in order.
pub proof fn law_appending(dst: &mut Vec<u8>, src: &[u8])
    requires
        call_ensures(append, (dst, src), ()),
    ensures
        final(dst)@.len() == old(dst)@.len() + src@.len(),
        forall|i: int| 0 <= i < old(dst)@.len() ==> final(dst)@[i] == old(dst)@[i],
        forall|i: int|
            0 <= i < src@.len() ==> final(dst)@[old(dst)@.len() + i] == #[trigger] src@[i],
{
}

/// A clipped copy is the longest start that there is room for; a copy has every
/// byte; byte strings are the same where they agree at every place.
pub proof fn law_copies(
    data: &[u8],
    other: &[u8],
    n: usize,
    clip: Vec<u8>,
    copy: Vec<u8>,
    same: bool,
)
    requires
        call_ensures(clipped, (data, n), clip),
        call_ensures(copied, (data,), copy),
        call_ensures(same_bytes, (data, other), same),
    ensures
        clip@ == fitting(data@, n),
        clip@.len() <= n,
        copy@ == data@,
        same <==> data@.len() == other@.len() && forall|i: int|
            0 <= i < data@.len() ==> data@[i] == other@[i],
{
    if data@.len() == other@.len() && (forall|i: int|
        0 <= i < data@.len() ==> data@[i] == other@[i]) {
        assert(data@ =~= other@);
    }
}

/// A call is made where its callback is installed, after the calls before it.
pub proof fn law_call_is_made(
    list: &mut Vec<Emit<Vec<u8>>>,
    installed: bool,
    e: Emit<Vec<u8>>,
    only: Vec<Emit<Vec<u8>>>,
    none: Vec<Emit<Vec<u8>>>,
)
    requires
        call_ensures(call_when, (list, installed, e), ()),
        call_ensures(only_when, (installed, e), only),
        call_ensures(no_calls, (), none),
    ensures
        calls(final(list)@) == calls(old(list)@) + told(installed, e@),
        calls(only@) == told(installed, e@),
        calls(none@).len() == 0,
{
}

} // verus!
