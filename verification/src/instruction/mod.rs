use crate::error::ProgramError;
use vstd::bytes::{
    lemma_auto_spec_u64_to_from_le_bytes, spec_u64_from_le_bytes, spec_u64_to_le_bytes,
    u64_from_le_bytes, u64_to_le_bytes,
};
use vstd::prelude::*;
use vstd::slice::slice_subrange;

pub mod accounts;

verus! {

/// The operations of the pool, with their operands.
///
/// On the wire an instruction is one byte for the operation, in the order
/// of the variants from 0, and then its operand: a fee as eight bytes in
/// little-endian, a flag as one byte 0 or 1.
#[derive(Clone, Copy, Debug, PartialEq, Eq, Structural)]
pub enum AppInstruction {
    /// Creates the pool of an authority for a collection.
    Create { fee_amount: u64 },
    /// Opens the pool for swaps, or closes it for them.
    SetActive { active: bool },
    /// Sets the fee of a swap.
    SetFee { fee_amount: u64 },
    /// Exchanges an asset of the payer for one that the pool holds.
    Swap,
    /// Gives an asset into the pool's custody.
    Deposit,
    /// Takes an asset out of the pool's custody.
    Withdraw,
    /// Closes an empty pool.
    Close,
}

impl AppInstruction {
    /// The bytes that the instruction is sent as.
    pub open spec fn spec_serialize(self) -> Seq<u8> {
        match self {
            AppInstruction::Create { fee_amount } => seq![0u8] + spec_u64_to_le_bytes(fee_amount),
            AppInstruction::SetActive { active } => seq![1u8, if active { 1u8 } else { 0u8 }],
            AppInstruction::SetFee { fee_amount } => seq![2u8] + spec_u64_to_le_bytes(fee_amount),
            AppInstruction::Swap => seq![3u8],
            AppInstruction::Deposit => seq![4u8],
            AppInstruction::Withdraw => seq![5u8],
            AppInstruction::Close => seq![6u8],
        }
    }

    /// The instruction that `data` are, where they are one: the byte of an
    /// operation, its operand, and nothing after it.
    pub open spec fn spec_try_from_slice(data: Seq<u8>) -> Option<AppInstruction> {
        if data.len() == 9 && data[0] == 0 {
            Some(AppInstruction::Create { fee_amount: spec_u64_from_le_bytes(data.subrange(1, 9)) })
        } else if data.len() == 2 && data[0] == 1 && data[1] <= 1 {
            Some(AppInstruction::SetActive { active: data[1] == 1 })
        } else if data.len() == 9 && data[0] == 2 {
            Some(AppInstruction::SetFee { fee_amount: spec_u64_from_le_bytes(data.subrange(1, 9)) })
        } else if data.len() == 1 && data[0] == 3 {
            Some(AppInstruction::Swap)
        } else if data.len() == 1 && data[0] == 4 {
            Some(AppInstruction::Deposit)
        } else if data.len() == 1 && data[0] == 5 {
            Some(AppInstruction::Withdraw)
        } else if data.len() == 1 && data[0] == 6 {
            Some(AppInstruction::Close)
        } else {
            None
        }
    }

    /// Reads the instruction that `data` are.
    ///
    /// Fails with `BorshIoError` where they are none: no known operation, an
    /// operand cut short, a flag that is neither 0 nor 1, or bytes left over.
    pub fn try_from_slice(data: &[u8]) -> (r: Result<AppInstruction, ProgramError>)
        ensures
            match r {
                Ok(instruction) => AppInstruction::spec_try_from_slice(data@) == Some(instruction),
                Err(e) => e == ProgramError::BorshIoError && AppInstruction::spec_try_from_slice(
                    data@,
                ) is None,
            },
    {
        let n = data.len();
        if n == 0 {
            return Err(ProgramError::BorshIoError);
        }
        let tag = data[0];
        if tag == 0 || tag == 2 {
            if n != 9 {
                return Err(ProgramError::BorshIoError);
            }
            let fee_amount = u64_from_le_bytes(slice_subrange(data, 1, 9));
            if tag == 0 {
                Ok(AppInstruction::Create { fee_amount })
            } else {
                Ok(AppInstruction::SetFee { fee_amount })
            }
        } else if tag == 1 {
            if n != 2 || data[1] > 1 {
                return Err(ProgramError::BorshIoError);
            }
            Ok(AppInstruction::SetActive { active: data[1] == 1 })
        } else if n != 1 {
            Err(ProgramError::BorshIoError)
        } else if tag == 3 {
            Ok(AppInstruction::Swap)
        } else if tag == 4 {
            Ok(AppInstruction::Deposit)
        } else if tag == 5 {
            Ok(AppInstruction::Withdraw)
        } else if tag == 6 {
            Ok(AppInstruction::Close)
        } else {
            Err(ProgramError::BorshIoError)
        }
    }

    /// Writes the instruction as it is sent.
    pub fn try_to_vec(&self) -> (bytes: Vec<u8>)
        ensures
            bytes@ == self.spec_serialize(),
    {
        let mut bytes: Vec<u8> = Vec::new();
        match self {
            AppInstruction::Create { fee_amount } => {
                bytes.push(0);
                let fee = u64_to_le_bytes(*fee_amount);
                bytes.extend_from_slice(fee.as_slice());
            },
            AppInstruction::SetActive { active } => {
                bytes.push(1);
                bytes.push(if *active { 1 } else { 0 });
            },
            AppInstruction::SetFee { fee_amount } => {
                bytes.push(2);
                let fee = u64_to_le_bytes(*fee_amount);
                bytes.extend_from_slice(fee.as_slice());
            },
            AppInstruction::Swap => bytes.push(3),
            AppInstruction::Deposit => bytes.push(4),
            AppInstruction::Withdraw => bytes.push(5),
            AppInstruction::Close => bytes.push(6),
        }
        assert(bytes@ =~= self.spec_serialize());
        bytes
    }
}

/// An instruction is read back from the bytes it is sent as, and bytes that
/// are an instruction are what that instruction is sent as.
pub proof fn lemma_instruction_round_trip(instruction: AppInstruction, data: Seq<u8>)
    ensures
        AppInstruction::spec_try_from_slice(instruction.spec_serialize()) == Some(instruction),
        AppInstruction::spec_try_from_slice(data) matches Some(i) ==> i.spec_serialize() == data,
{
    lemma_auto_spec_u64_to_from_le_bytes();
    match instruction {
        AppInstruction::Create { fee_amount } => {
            let bytes = instruction.spec_serialize();
            assert(bytes.subrange(1, 9) =~= spec_u64_to_le_bytes(fee_amount));
        },
        AppInstruction::SetFee { fee_amount } => {
            let bytes = instruction.spec_serialize();
            assert(bytes.subrange(1, 9) =~= spec_u64_to_le_bytes(fee_amount));
        },
        _ => {},
    }
    if let Some(i) = AppInstruction::spec_try_from_slice(data) {
        if data.len() == 9 {
            assert(spec_u64_to_le_bytes(spec_u64_from_le_bytes(data.subrange(1, 9)))
                == data.subrange(1, 9));
        }
        assert(i.spec_serialize() =~= data);
    }
}

} // verus!
