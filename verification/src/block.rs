//! The block sizes that a rotator can work in.

use vstd::prelude::*;

use crate::error::ConfigFault;
use crate::error::RotatorError;

verus! {

/// The size of the network part of the addresses, in bits.
#[allow(non_camel_case_types)]
#[derive(Debug, Clone, Copy, PartialEq, Eq, Structural)]
pub enum IpBlock {
    CIDR32,
    CIDR48,
    CIDR64,
}

impl IpBlock {
    /// The number of bits of the network part.
    pub open spec fn spec_bits(self) -> u8 {
        match self {
            IpBlock::CIDR32 => 32,
            IpBlock::CIDR48 => 48,
            IpBlock::CIDR64 => 64,
        }
    }

    /// The number of random groups that follow the prefix of an address.
    pub open spec fn spec_groups(self) -> nat {
        match self {
            IpBlock::CIDR32 => 6,
            IpBlock::CIDR48 => 5,
            IpBlock::CIDR64 => 4,
        }
    }

    /// The digits of `spec_bits`, as they stand behind the slash of an address.
    pub open spec fn suffix_text(self) -> Seq<char> {
        match self {
            IpBlock::CIDR32 => seq!['3', '2'],
            IpBlock::CIDR48 => seq!['4', '8'],
            IpBlock::CIDR64 => seq!['6', '4'],
        }
    }

    /// The block size that a number stands for, if it stands for one.
    pub open spec fn spec_from_bits(bits: u8) -> Option<IpBlock> {
        if bits == 32 {
            Some(IpBlock::CIDR32)
        } else if bits == 48 {
            Some(IpBlock::CIDR48)
        } else if bits == 64 {
            Some(IpBlock::CIDR64)
        } else {
            None
        }
    }

    /// The number of bits of the network part.
    pub fn bits(self) -> (bits: u8)
        ensures
            bits == self.spec_bits(),
    {
        match self {
            IpBlock::CIDR32 => 32,
            IpBlock::CIDR48 => 48,
            IpBlock::CIDR64 => 64,
        }
    }

    /// The number of random groups that follow the prefix of an address.
    pub fn groups(self) -> (groups: usize)
        ensures
            groups == self.spec_groups(),
    {
        match self {
            IpBlock::CIDR32 => 6,
            IpBlock::CIDR48 => 5,
            IpBlock::CIDR64 => 4,
        }
    }

    /// Reads a block size from the number of bits of the network part.
    /// Any number but 32, 48 and 64 is refused as an invalid configuration.
    pub fn from_bits(bits: u8) -> (block: Result<IpBlock, RotatorError>)
        ensures
            match block {
                Ok(b) => Self::spec_from_bits(bits) == Some(b),
                Err(e) => Self::spec_from_bits(bits) is None
                    && e == RotatorError::InvalidConfig(ConfigFault::Block(bits)),
            },
    {
        if bits == 32 {
            Ok(IpBlock::CIDR32)
        } else if bits == 48 {
            Ok(IpBlock::CIDR48)
        } else if bits == 64 {
            Ok(IpBlock::CIDR64)
        } else {
            Err(RotatorError::InvalidConfig(ConfigFault::Block(bits)))
        }
    }

    /// The text that stands behind the slash of an address of this block.
    pub fn suffix(self) -> (suffix: &'static str)
        ensures
            suffix@ == self.suffix_text(),
    {
        match self {
            IpBlock::CIDR32 => {
                proof {
                    reveal_strlit("32");
                }
                "32"
            },
            IpBlock::CIDR48 => {
                proof {
                    reveal_strlit("48");
                }
                "48"
            },
            IpBlock::CIDR64 => {
                proof {
                    reveal_strlit("64");
                }
                "64"
            },
        }
    }
}

/// A block size and its groups of sixteen bits fill the 128 bits of an address.
pub proof fn lemma_block_fills_address(block: IpBlock)
    ensures
        block.spec_bits() + 16 * block.spec_groups() == 128,
        IpBlock::spec_from_bits(block.spec_bits()) == Some(block),
{
}

} // verus!
