use vstd::prelude::*;

use crate::error::DispatchError;

verus! {

/// 256 to the power `n`; the number of values a big-endian byte string of
/// length `n` can take.
pub open spec fn pow256(n: nat) -> nat
    decreases n,
{
    if n == 0 {
        1
    } else {
        256 * pow256((n - 1) as nat)
    }
}

/// The unsigned value of a byte string read big-endian.
pub open spec fn be_value(bytes: Seq<u8>) -> nat
    decreases bytes.len(),
{
    if bytes.len() == 0 {
        0
    } else {
        be_value(bytes.drop_last()) * 256 + bytes.last() as nat
    }
}

pub proof fn lemma_be_value_bound(bytes: Seq<u8>)
    ensures
        be_value(bytes) < pow256(bytes.len()),
    decreases bytes.len(),
{
    if bytes.len() > 0 {
        lemma_be_value_bound(bytes.drop_last());
        assert(pow256(bytes.len()) == 256 * pow256((bytes.len() - 1) as nat));
    }
}

pub proof fn lemma_pow256_le(a: nat, b: nat)
    requires
        a <= b,
    ensures
        pow256(a) <= pow256(b),
    decreases b,
{
    if a < b {
        lemma_pow256_le(a, (b - 1) as nat);
        assert(pow256(b) == 256 * pow256((b - 1) as nat));
    }
}

/// The bytes that carry the amount: everything after the selector byte,
/// capped at eight bytes.
pub open spec fn amount_bytes(data: Seq<u8>) -> Seq<u8>
    recommends
        data.len() >= 1,
{
    if data.len() > 9 {
        data.subrange(1, 9)
    } else {
        data.subrange(1, data.len() as int)
    }
}

/// The operation's amount: up to eight bytes after the selector, read
/// big-endian; a shorter payload stands for the same value zero-extended
/// on the high side.
pub open spec fn spec_amount(data: Seq<u8>) -> u64
    recommends
        data.len() >= 1,
{
    be_value(amount_bytes(data)) as u64
}

pub proof fn lemma_amount_fits(data: Seq<u8>)
    requires
        data.len() >= 1,
    ensures
        be_value(amount_bytes(data)) < 0x1_0000_0000_0000_0000,
        spec_amount(data) == be_value(amount_bytes(data)),
{
    let ab = amount_bytes(data);
    lemma_be_value_bound(ab);
    lemma_pow256_le(ab.len(), 8);
    reveal_with_fuel(pow256, 9);
}

/// Decodes the amount argument from the instruction buffer.
pub fn decode_amount(data: &Vec<u8>) -> (amount: u64)
    requires
        data@.len() >= 1,
    ensures
        amount == spec_amount(data@),
{
    let n = data.len();
    let end: usize = if n > 9 { 9 } else { n };
    let mut acc: u64 = 0;
    let mut i: usize = 1;
    while i < end
        invariant
            1 <= i <= end,
            end as int == (if data@.len() > 9 { 9int } else { data@.len() as int }),
            data@.len() >= 1,
            acc == be_value(data@.subrange(1, i as int)),
            acc < pow256((i - 1) as nat),
        decreases end - i,
    {
        proof {
            lemma_pow256_le((i - 1) as nat, 7);
            reveal_with_fuel(pow256, 9);
            assert(data@.subrange(1, i + 1).drop_last() =~= data@.subrange(1, i as int));
            assert(data@.subrange(1, i + 1).last() == data@[i as int]);
            assert(pow256(i as nat) == 256 * pow256((i - 1) as nat));
        }
        acc = acc * 256 + (data[i] as u64);
        i = i + 1;
    }
    proof {
        assert(data@.subrange(1, end as int) =~= amount_bytes(data@));
        lemma_amount_fits(data@);
    }
    acc
}

/// The operation a buffer selects, decoded once at the boundary: byte 0 is
/// the selector, and for `MintTo` and `Transfer` the following bytes carry
/// the amount.
#[derive(Clone, Copy, Debug, PartialEq, Eq, Structural)]
pub enum Operation {
    InitializeMint,
    InitializeAccount,
    MintTo { amount: u64 },
    Transfer { amount: u64 },
    Unknown { selector: u8 },
}

/// What `decode_operation` returns: an empty buffer is refused outright,
/// and an unrecognized selector is kept as `Unknown` for the dispatcher
/// to refuse.
pub open spec fn spec_operation(data: Seq<u8>) -> Result<Operation, DispatchError> {
    if data.len() == 0 {
        Err(DispatchError::InvalidInstructionData)
    } else if data[0] == 0 {
        Ok(Operation::InitializeMint)
    } else if data[0] == 1 {
        Ok(Operation::InitializeAccount)
    } else if data[0] == 2 {
        Ok(Operation::MintTo { amount: spec_amount(data) })
    } else if data[0] == 3 {
        Ok(Operation::Transfer { amount: spec_amount(data) })
    } else {
        Ok(Operation::Unknown { selector: data[0] })
    }
}

/// Decodes the selector byte and the operation-specific arguments.
pub fn decode_operation(data: &Vec<u8>) -> (op: Result<Operation, DispatchError>)
    ensures
        op == spec_operation(data@),
{
    if data.len() == 0 {
        return Err(DispatchError::InvalidInstructionData);
    }
    let selector = data[0];
    if selector == 0 {
        Ok(Operation::InitializeMint)
    } else if selector == 1 {
        Ok(Operation::InitializeAccount)
    } else if selector == 2 {
        Ok(Operation::MintTo { amount: decode_amount(data) })
    } else if selector == 3 {
        Ok(Operation::Transfer { amount: decode_amount(data) })
    } else {
        Ok(Operation::Unknown { selector })
    }
}

pub proof fn lemma_be_value_all_zero(zeros: Seq<u8>)
    requires
        forall|i: int| 0 <= i < zeros.len() ==> zeros[i] == 0,
    ensures
        be_value(zeros) == 0,
    decreases zeros.len(),
{
    if zeros.len() > 0 {
        lemma_be_value_all_zero(zeros.drop_last());
    }
}

/// Zero bytes on the high-order side never change the value a byte string
/// stands for.
pub proof fn lemma_be_value_zero_extend(zeros: Seq<u8>, bytes: Seq<u8>)
    requires
        forall|i: int| 0 <= i < zeros.len() ==> zeros[i] == 0,
    ensures
        be_value(zeros + bytes) == be_value(bytes),
    decreases bytes.len(),
{
    if bytes.len() == 0 {
        assert(zeros + bytes =~= zeros);
        lemma_be_value_all_zero(zeros);
    } else {
        lemma_be_value_zero_extend(zeros, bytes.drop_last());
        assert((zeros + bytes).drop_last() =~= zeros + bytes.drop_last());
        assert((zeros + bytes).last() == bytes.last());
    }
}

/// Left-zero-extension law for the amount field: a payload shorter than
/// eight bytes decodes to the same amount as the payload padded with zero
/// bytes on its high-order side.
pub proof fn lemma_amount_zero_extension(selector: u8, zeros: Seq<u8>, payload: Seq<u8>)
    requires
        forall|i: int| 0 <= i < zeros.len() ==> zeros[i] == 0,
        zeros.len() + payload.len() <= 8,
    ensures
        spec_amount(seq![selector] + zeros + payload) == spec_amount(seq![selector] + payload),
{
    let padded = seq![selector] + zeros + payload;
    let short = seq![selector] + payload;
    assert(amount_bytes(padded) =~= zeros + payload);
    assert(amount_bytes(short) =~= payload);
    lemma_be_value_zero_extend(zeros, payload);
}

} // verus!
