//! Small types that packets carry as integers.

use vstd::prelude::*;

verus! {

/// Update types an admin can register a frequency for.
#[derive(Debug, Clone, Copy, PartialEq, Eq, Structural)]
pub enum AdminUpdateType {
    /// Updates about the date of the game.
    Date,
    /// Updates about the information of clients.
    ClientInfo,
    /// Updates about the generic information of companies.
    CompanyInfo,
    /// Updates about the economy of companies.
    CompanyEconomy,
    /// Updates about the statistics of companies.
    CompanyStats,
    /// The admin would like to have chat messages.
    Chat,
    /// The admin would like to have console messages.
    Console,
    /// The admin would like a list of all DoCommand names.
    CmdNames,
    /// The admin would like to have DoCommand information.
    CmdLogging,
    /// The admin would like to have gamescript messages.
    Gamescript,
}

/// The largest code of an [`AdminUpdateType`].
pub const MAX_UPDATE_TYPE: u16 = 9;

impl AdminUpdateType {
    /// The number that stands for the update type on the wire.
    pub open spec fn code(&self) -> u16 {
        match self {
            AdminUpdateType::Date => 0,
            AdminUpdateType::ClientInfo => 1,
            AdminUpdateType::CompanyInfo => 2,
            AdminUpdateType::CompanyEconomy => 3,
            AdminUpdateType::CompanyStats => 4,
            AdminUpdateType::Chat => 5,
            AdminUpdateType::Console => 6,
            AdminUpdateType::CmdNames => 7,
            AdminUpdateType::CmdLogging => 8,
            AdminUpdateType::Gamescript => 9,
        }
    }

    /// The number that stands for the update type on the wire.
    pub fn to_u16(&self) -> (r: u16)
        ensures
            r == self.code(),
            r <= MAX_UPDATE_TYPE,
    {
        match self {
            AdminUpdateType::Date => 0,
            AdminUpdateType::ClientInfo => 1,
            AdminUpdateType::CompanyInfo => 2,
            AdminUpdateType::CompanyEconomy => 3,
            AdminUpdateType::CompanyStats => 4,
            AdminUpdateType::Chat => 5,
            AdminUpdateType::Console => 6,
            AdminUpdateType::CmdNames => 7,
            AdminUpdateType::CmdLogging => 8,
            AdminUpdateType::Gamescript => 9,
        }
    }

    /// The update type that `code` stands for, if any.
    pub fn from_u16(code: u16) -> (r: Option<AdminUpdateType>)
        ensures
            r is Some <==> code <= MAX_UPDATE_TYPE,
            r matches Some(t) ==> t.code() == code,
    {
        match code {
            0 => Some(AdminUpdateType::Date),
            1 => Some(AdminUpdateType::ClientInfo),
            2 => Some(AdminUpdateType::CompanyInfo),
            3 => Some(AdminUpdateType::CompanyEconomy),
            4 => Some(AdminUpdateType::CompanyStats),
            5 => Some(AdminUpdateType::Chat),
            6 => Some(AdminUpdateType::Console),
            7 => Some(AdminUpdateType::CmdNames),
            8 => Some(AdminUpdateType::CmdLogging),
            9 => Some(AdminUpdateType::Gamescript),
            _ => None,
        }
    }
}

/// A set of update frequencies, as bit flags.
#[derive(Debug, Clone, Copy, PartialEq, Eq, Structural)]
pub struct UpdateFrequencies {
    bits: u16,
}

/// Updates on request.
pub const POLL: u16 = 0x01;
/// Daily updates.
pub const DAILY: u16 = 0x02;
/// Weekly updates.
pub const WEEKLY: u16 = 0x04;
/// Monthly updates.
pub const MONTHLY: u16 = 0x08;
/// Quarterly updates.
pub const QUARTERLY: u16 = 0x10;
/// Annual updates.
pub const ANNUALLY: u16 = 0x20;
/// Updates whenever something changes.
pub const AUTOMATIC: u16 = 0x40;
/// All the flags together.
pub const ALL_FREQUENCIES: u16 = 0x7F;

impl UpdateFrequencies {
    /// The flags, as bits.
    pub closed spec fn spec_bits(&self) -> u16 {
        self.bits
    }

    /// Every bit set stands for a known flag.
    #[verifier::type_invariant]
    spec fn wf(&self) -> bool {
        self.bits <= ALL_FREQUENCIES
    }

    /// The flags, as bits.
    pub fn bits(&self) -> (r: u16)
        ensures
            r == self.spec_bits(),
            r <= ALL_FREQUENCIES,
    {
        proof {
            use_type_invariant(self);
        }
        self.bits
    }

    /// The set of flags that `bits` stands for, if every bit set in it is a
    /// known flag.
    pub fn from_bits(bits: u16) -> (r: Option<UpdateFrequencies>)
        ensures
            r is Some <==> bits & !ALL_FREQUENCIES == 0,
            r matches Some(f) ==> f.spec_bits() == bits,
    {
        assert(bits & !ALL_FREQUENCIES == 0 <==> bits <= ALL_FREQUENCIES) by (bit_vector);
        if bits & !ALL_FREQUENCIES == 0 {
            Some(UpdateFrequencies { bits })
        } else {
            None
        }
    }

    /// Whether every flag of `flags` is set.
    pub fn contains(&self, flags: u16) -> (r: bool)
        ensures
            r == (self.spec_bits() & flags == flags),
    {
        self.bits & flags == flags
    }
}

} // verus!
