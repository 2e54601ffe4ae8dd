//! The leading byte of an instruction selects its handler.
use vstd::prelude::*;
use crate::error::AmmError;

verus! {

/// The four instructions of the pool.
#[derive(Debug, Clone, Copy, PartialEq, Eq, Structural)]
pub enum InstructionKind {
    Initialize,
    Deposit,
    Withdraw,
    Swap,
}

/// The instruction that the leading byte `b` selects, if any.
pub open spec fn instruction_kind_spec(b: u8) -> Option<InstructionKind> {
    if b == 0 {
        Some(InstructionKind::Initialize)
    } else if b == 1 {
        Some(InstructionKind::Deposit)
    } else if b == 2 {
        Some(InstructionKind::Withdraw)
    } else if b == 3 {
        Some(InstructionKind::Swap)
    } else {
        None
    }
}

/// Splits an instruction into the handler it selects and its payload; an
/// empty instruction or an unknown leading byte is refused.
pub fn split_instruction(data: &[u8]) -> (r: Result<(InstructionKind, &[u8]), AmmError>)
    ensures
        data@.len() == 0 ==> r is Err && r->Err_0 == AmmError::InvalidInstructionData,
        data@.len() > 0 && instruction_kind_spec(data@[0]) is None ==> r is Err && r->Err_0
            == AmmError::InvalidInstructionData,
        data@.len() > 0 && instruction_kind_spec(data@[0]) is Some ==> r is Ok && Some(r->Ok_0.0)
            == instruction_kind_spec(data@[0]) && r->Ok_0.1@ == data@.subrange(1, data@.len() as int),
{
    let len = data.len();
    if len == 0 {
        return Err(AmmError::InvalidInstructionData);
    }
    let kind = match data[0] {
        0 => InstructionKind::Initialize,
        1 => InstructionKind::Deposit,
        2 => InstructionKind::Withdraw,
        3 => InstructionKind::Swap,
        _ => {
            return Err(AmmError::InvalidInstructionData);
        },
    };
    Ok((kind, vstd::slice::slice_subrange(data, 1, len)))
}

} // verus!
