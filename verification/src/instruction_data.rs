use vstd::prelude::*;

use vstd::bytes::{
    lemma_auto_spec_u64_to_from_le_bytes, spec_u64_from_le_bytes, spec_u64_to_le_bytes,
    u64_from_le_bytes, u64_to_le_bytes,
};

use crate::bytes::{copy_range, extend_bytes, read_array_20, read_array_32, read_array_64};

verus! {

/// The first byte of the data of the instruction that creates a vault.
pub const INITIALIZE_VAULT_DISCRIMINATOR: u8 = 0;

/// The first byte of the data of the instruction that pays out of a vault.
pub const TRANSFER_FUNDS_DISCRIMINATOR: u8 = 1;

/// An instruction of the program with its arguments.
#[derive(Debug, Clone, Copy, PartialEq, Eq)]
pub enum ProgramInstruction {
    InitializeVault { eth_address: [u8; 20] },
    TransferFunds { amount: u64, recovery_id: u8, hash: [u8; 32], signature: [u8; 64] },
}

/// The instruction data of an instruction: its discriminator, then its
/// arguments in order, integers little-endian.
pub open spec fn instruction_data_spec(ix: ProgramInstruction) -> Seq<u8> {
    match ix {
        ProgramInstruction::InitializeVault { eth_address } => seq![0u8] + eth_address@,
        ProgramInstruction::TransferFunds { amount, recovery_id, hash, signature } => seq![1u8]
            + spec_u64_to_le_bytes(amount) + seq![recovery_id] + hash@ + signature@,
    }
}

/// Whether `data` holds an instruction: it starts with a known discriminator
/// and is long enough for that instruction's arguments.
pub open spec fn holds_instruction(data: Seq<u8>) -> bool {
    ||| (data.len() >= 21 && data[0] == 0u8)
    ||| (data.len() >= 106 && data[0] == 1u8)
}

/// Whether `ix` is the instruction that `data` starts with; bytes after the
/// arguments are not read.
pub open spec fn instruction_read_from(ix: ProgramInstruction, data: Seq<u8>) -> bool {
    match ix {
        ProgramInstruction::InitializeVault { eth_address } => {
            &&& data.len() >= 21
            &&& data[0] == 0u8
            &&& eth_address@ == data.subrange(1, 21)
        },
        ProgramInstruction::TransferFunds { amount, recovery_id, hash, signature } => {
            &&& data.len() >= 106
            &&& data[0] == 1u8
            &&& amount == spec_u64_from_le_bytes(data.subrange(1, 9))
            &&& recovery_id == data[9]
            &&& hash@ == data.subrange(10, 42)
            &&& signature@ == data.subrange(42, 106)
        },
    }
}

impl ProgramInstruction {
    /// Reads an instruction from instruction data; `None` where the data is
    /// empty, starts with an unknown discriminator, or is too short for the
    /// arguments.
    pub fn decode(data: &[u8]) -> (res: Option<ProgramInstruction>)
        ensures
            res is Some <==> holds_instruction(data@),
            res matches Some(ix) ==> instruction_read_from(ix, data@),
            res is Some <==> ((data@.len() >= 21 && data@[0] == 0u8) || (data@.len() >= 106
                && data@[0] == 1u8)),
            match res {
                Some(ProgramInstruction::InitializeVault { eth_address }) => data@[0] == 0u8
                    && eth_address@ == data@.subrange(1, 21),
                Some(ProgramInstruction::TransferFunds { amount, recovery_id, hash, signature }) => {
                    &&& data@[0] == 1u8
                    &&& amount == spec_u64_from_le_bytes(data@.subrange(1, 9))
                    &&& recovery_id == data@[9]
                    &&& hash@ == data@.subrange(10, 42)
                    &&& signature@ == data@.subrange(42, 106)
                },
                None => true,
            },
    {
        if data.len() == 0 {
            return None;
        }
        if data[0] == INITIALIZE_VAULT_DISCRIMINATOR {
            if data.len() < 21 {
                return None;
            }
            let eth_address = read_array_20(data, 1);
            Some(ProgramInstruction::InitializeVault { eth_address })
        } else if data[0] == TRANSFER_FUNDS_DISCRIMINATOR {
            if data.len() < 106 {
                return None;
            }
            let amount_bytes = copy_range(data, 1, 8);
            let amount: u64 = u64_from_le_bytes(amount_bytes.as_slice());
            let hash = read_array_32(data, 10);
            let signature = read_array_64(data, 42);
            Some(ProgramInstruction::TransferFunds { amount, recovery_id: data[9], hash, signature })
        } else {
            None
        }
    }

    /// The instruction data that carries this instruction.
    pub fn encode(&self) -> (res: Vec<u8>)
        ensures
            res@ == instruction_data_spec(*self),
            match *self {
                ProgramInstruction::InitializeVault { eth_address } => {
                    &&& res@.len() == 21
                    &&& res@[0] == 0u8
                    &&& res@.subrange(1, 21) == eth_address@
                },
                ProgramInstruction::TransferFunds { amount, recovery_id, hash, signature } => {
                    &&& res@.len() == 106
                    &&& res@[0] == 1u8
                    &&& res@.subrange(1, 9) == spec_u64_to_le_bytes(amount)
                    &&& res@[9] == recovery_id
                    &&& res@.subrange(10, 42) == hash@
                    &&& res@.subrange(42, 106) == signature@
                },
            },
    {
        let mut out: Vec<u8> = Vec::new();
        match self {
            ProgramInstruction::InitializeVault { eth_address } => {
                out.push(INITIALIZE_VAULT_DISCRIMINATOR);
                extend_bytes(&mut out, eth_address.as_slice());
            },
            ProgramInstruction::TransferFunds { amount, recovery_id, hash, signature } => {
                out.push(TRANSFER_FUNDS_DISCRIMINATOR);
                let amount_bytes = u64_to_le_bytes(*amount);
                extend_bytes(&mut out, amount_bytes.as_slice());
                out.push(*recovery_id);
                extend_bytes(&mut out, hash.as_slice());
                extend_bytes(&mut out, signature.as_slice());
            },
        }
        assert(out@ =~= instruction_data_spec(*self));
        proof {
            lemma_instruction_data_layout(*self);
        }
        out
    }
}

/// Reading the data of an instruction gives that instruction back.
pub proof fn lemma_instruction_data_roundtrip(ix: ProgramInstruction)
    ensures
        holds_instruction(instruction_data_spec(ix)),
        instruction_read_from(ix, instruction_data_spec(ix)),
{
    lemma_auto_spec_u64_to_from_le_bytes();
    let d = instruction_data_spec(ix);
    match ix {
        ProgramInstruction::InitializeVault { eth_address } => {
            assert(d.subrange(1, 21) =~= eth_address@);
        },
        ProgramInstruction::TransferFunds { amount, recovery_id, hash, signature } => {
            let le = spec_u64_to_le_bytes(amount);
            assert(d.subrange(1, 9) =~= le);
            assert(d.subrange(10, 42) =~= hash@);
            assert(d.subrange(42, 106) =~= signature@);
        },
    }
}

/// Instruction data determines the instruction it holds, and that
/// instruction's data is the start of it.
pub proof fn lemma_instruction_data_determines(a: ProgramInstruction, b: ProgramInstruction, data: Seq<u8>)
    requires
        instruction_read_from(a, data),
        instruction_read_from(b, data),
    ensures
        a == b,
        instruction_data_spec(a) == data.subrange(0, instruction_data_spec(a).len() as int),
{
    lemma_auto_spec_u64_to_from_le_bytes();
    match a {
        ProgramInstruction::InitializeVault { eth_address } => {
            match b {
                ProgramInstruction::InitializeVault { eth_address: e2 } => {
                    assert(eth_address =~= e2);
                },
                _ => {},
            }
            assert(instruction_data_spec(a) =~= data.subrange(0, 21));
        },
        ProgramInstruction::TransferFunds { amount, recovery_id, hash, signature } => {
            match b {
                ProgramInstruction::TransferFunds { amount: a2, recovery_id: r2, hash: h2, signature: s2 } => {
                    assert(hash =~= h2);
                    assert(signature =~= s2);
                },
                _ => {},
            }
            let le = data.subrange(1, 9);
            assert(spec_u64_to_le_bytes(spec_u64_from_le_bytes(le)) == le);
            assert(instruction_data_spec(a) =~= data.subrange(0, 106));
        },
    }
}

/// The data of an instruction puts each argument at its offset, unchanged: an
/// Ethereum address at bytes 1 to 20; an amount's little-endian bytes at 1 to
/// 8, the recovery id at 9, the hash at 10 to 41 and the signature at 42 to
/// 105.
pub proof fn lemma_instruction_data_layout(ix: ProgramInstruction)
    ensures
        match ix {
            ProgramInstruction::InitializeVault { eth_address } => {
                &&& instruction_data_spec(ix).len() == 21
                &&& instruction_data_spec(ix)[0] == 0u8
                &&& instruction_data_spec(ix).subrange(1, 21) == eth_address@
            },
            ProgramInstruction::TransferFunds { amount, recovery_id, hash, signature } => {
                &&& instruction_data_spec(ix).len() == 106
                &&& instruction_data_spec(ix)[0] == 1u8
                &&& instruction_data_spec(ix).subrange(1, 9) == spec_u64_to_le_bytes(amount)
                &&& instruction_data_spec(ix)[9] == recovery_id
                &&& instruction_data_spec(ix).subrange(10, 42) == hash@
                &&& instruction_data_spec(ix).subrange(42, 106) == signature@
            },
        },
{
    lemma_auto_spec_u64_to_from_le_bytes();
    let d = instruction_data_spec(ix);
    match ix {
        ProgramInstruction::InitializeVault { eth_address } => {
            assert(d.subrange(1, 21) =~= eth_address@);
        },
        ProgramInstruction::TransferFunds { amount, recovery_id, hash, signature } => {
            assert(d.subrange(1, 9) =~= spec_u64_to_le_bytes(amount));
            assert(d.subrange(10, 42) =~= hash@);
            assert(d.subrange(42, 106) =~= signature@);
        },
    }
}

/// An instruction read from data takes each argument from its offset,
/// unchanged: the recovery id is byte 9 itself, the amount the little-endian
/// value of bytes 1 to 8.
pub proof fn lemma_instruction_fields_from_offsets(ix: ProgramInstruction, data: Seq<u8>)
    requires
        instruction_read_from(ix, data),
    ensures
        match ix {
            ProgramInstruction::InitializeVault { eth_address } => data.len() >= 21 && data[0]
                == 0u8 && eth_address@ == data.subrange(1, 21),
            ProgramInstruction::TransferFunds { amount, recovery_id, hash, signature } => {
                &&& data.len() >= 106
                &&& data[0] == 1u8
                &&& amount == spec_u64_from_le_bytes(data.subrange(1, 9))
                &&& recovery_id == data[9]
                &&& hash@ == data.subrange(10, 42)
                &&& signature@ == data.subrange(42, 106)
            },
        },
{
}

/// Only data that starts with a known discriminator and is long enough holds
/// an instruction.
pub proof fn lemma_holds_instruction_exactly(data: Seq<u8>)
    ensures
        holds_instruction(data) <==> ((data.len() >= 21 && data[0] == 0u8) || (data.len() >= 106
            && data[0] == 1u8)),
{
}

} // verus!
