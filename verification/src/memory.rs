//! Copying blocks of bytes into memory and into the register file.

use vstd::prelude::*;

verus! {

/// `memory` with `bytes` laid over it from index `at` on.
pub open spec fn overlay(memory: Seq<u8>, at: int, bytes: Seq<u8>) -> Seq<u8> {
    Seq::new(
        memory.len(),
        |a: int|
            if at <= a < at + bytes.len() {
                bytes[a - at]
            } else {
                memory[a]
            },
    )
}

/// Copies `bytes` into `memory` from index `at` on.
pub fn write_block<const N: usize>(memory: &mut [u8; N], at: usize, bytes: &[u8])
    requires
        at + bytes@.len() <= N,
    ensures
        final(memory)@ == overlay(old(memory)@, at as int, bytes@),
{
    let n: usize = bytes.len();
    let mut i: usize = 0;
    while i < n
        invariant
            i <= n,
            n == bytes@.len(),
            at + n <= N,
            forall|a: int|
                0 <= a < N ==> #[trigger] memory@[a] == if at <= a < at + i {
                    bytes@[a - at]
                } else {
                    old(memory)@[a]
                },
        decreases n - i,
    {
        memory[at + i] = bytes[i];
        i += 1;
    }
    assert(memory@ =~= overlay(old(memory)@, at as int, bytes@));
}

} // verus!
