//! The records that the operations store or describe: the settings of an
//! authority, kept by this program, and the creators of an asset, kept by
//! the metadata registry.

use crate::encoding::{read_pubkey, read_u64, write_pubkey, write_u64};
use crate::pubkey::Pubkey;
use vstd::bytes::{
    lemma_auto_spec_u64_to_from_le_bytes, spec_u64_from_le_bytes, spec_u64_to_le_bytes,
};
use vstd::prelude::*;

verus! {

/// Largest share, in percent, that the primary wallet can hold.
pub const MAX_PERCENTAGE: u8 = 100;

/// Number of bytes of a stored settings record.
pub const SETTINGS_LEN: usize = 73;

/// The settings record of one authority: who shares the revenue of its
/// assets, in what proportion, and the lowest price it accepts.
#[derive(Clone, Copy, Debug, PartialEq, Eq)]
pub struct NounsSettings {
    pub authority: Pubkey,
    pub secondary_creator: Pubkey,
    pub primary_wallet_percentage: u8,
    pub minimum_price: u64,
}

/// The settings record under the name that the operations use for it.
pub type MeepSettings = NounsSettings;

/// A settings record, as contracts speak of it.
pub ghost struct SettingsView {
    pub authority: Seq<u8>,
    pub secondary_creator: Seq<u8>,
    pub primary_wallet_percentage: u8,
    pub minimum_price: u64,
}

impl View for NounsSettings {
    type V = SettingsView;

    open spec fn view(&self) -> SettingsView {
        SettingsView {
            authority: self.authority@,
            secondary_creator: self.secondary_creator@,
            primary_wallet_percentage: self.primary_wallet_percentage,
            minimum_price: self.minimum_price,
        }
    }
}

impl SettingsView {
    /// What holds of every settings record: its two parties differ, and the
    /// share of the first is a percentage.
    pub open spec fn wf(self) -> bool {
        &&& self.authority.len() == 32
        &&& self.secondary_creator.len() == 32
        &&& self.authority != self.secondary_creator
        &&& self.primary_wallet_percentage <= MAX_PERCENTAGE
    }

    /// The stored form of the record.
    pub open spec fn spec_bytes(self) -> Seq<u8> {
        self.authority + self.secondary_creator + seq![self.primary_wallet_percentage]
            + spec_u64_to_le_bytes(self.minimum_price)
    }

    /// The record that `data` stores, if it stores one.
    pub open spec fn spec_from_bytes(data: Seq<u8>) -> Option<SettingsView> {
        let record = SettingsView {
            authority: data.subrange(0, 32),
            secondary_creator: data.subrange(32, 64),
            primary_wallet_percentage: data[64],
            minimum_price: spec_u64_from_le_bytes(data.subrange(65, 73)),
        };
        if data.len() == SETTINGS_LEN && record.wf() {
            Some(record)
        } else {
            None
        }
    }

    /// Reading back what was stored gives the record that was stored.
    pub proof fn lemma_from_bytes_of_bytes(self)
        requires
            self.wf(),
        ensures
            self.spec_bytes().len() == SETTINGS_LEN,
            Self::spec_from_bytes(self.spec_bytes()) == Some(self),
    {
        lemma_auto_spec_u64_to_from_le_bytes();
        let data = self.spec_bytes();
        assert(data.subrange(0, 32) =~= self.authority);
        assert(data.subrange(32, 64) =~= self.secondary_creator);
        assert(data.subrange(65, 73) =~= spec_u64_to_le_bytes(self.minimum_price));
    }

    /// Two records with the same stored form are the same record.
    pub proof fn lemma_bytes_injective(self, other: SettingsView)
        requires
            self.wf(),
            other.wf(),
            self.spec_bytes() == other.spec_bytes(),
        ensures
            self == other,
    {
        self.lemma_from_bytes_of_bytes();
        other.lemma_from_bytes_of_bytes();
    }

    /// Bytes that store a record are the stored form of that record, and of
    /// no other.
    pub proof fn lemma_bytes_of_from_bytes(data: Seq<u8>)
        requires
            Self::spec_from_bytes(data) is Some,
        ensures
            Self::spec_from_bytes(data).unwrap().wf(),
            Self::spec_from_bytes(data).unwrap().spec_bytes() == data,
    {
        lemma_auto_spec_u64_to_from_le_bytes();
        let record = Self::spec_from_bytes(data).unwrap();
        assert(record.spec_bytes() =~= data);
    }
}

impl NounsSettings {
    /// Whether this value may be stored as a settings record.
    pub fn is_valid(&self) -> (valid: bool)
        ensures
            valid == self@.wf(),
    {
        self.authority != self.secondary_creator && self.primary_wallet_percentage
            <= MAX_PERCENTAGE
    }

    /// The stored form of the record.
    pub fn try_to_vec(&self) -> (data: Vec<u8>)
        ensures
            data@ == self@.spec_bytes(),
            data@.len() == SETTINGS_LEN,
    {
        let mut data: Vec<u8> = Vec::with_capacity(SETTINGS_LEN);
        write_pubkey(&mut data, &self.authority);
        write_pubkey(&mut data, &self.secondary_creator);
        data.push(self.primary_wallet_percentage);
        write_u64(&mut data, self.minimum_price);
        proof {
            lemma_auto_spec_u64_to_from_le_bytes();
            assert(data@ =~= self@.spec_bytes());
        }
        data
    }

    /// The record that `data` stores. There is none where `data` has another
    /// length than a record, or spells a value that no record may hold.
    pub fn try_from_slice(data: &[u8]) -> (record: Option<NounsSettings>)
        ensures
            match record {
                Some(r) => SettingsView::spec_from_bytes(data@) == Some(r@),
                None => SettingsView::spec_from_bytes(data@) is None,
            },
    {
        if data.len() != SETTINGS_LEN {
            return None;
        }
        let authority = read_pubkey(data, 0).unwrap();
        let secondary_creator = read_pubkey(data, 32).unwrap();
        let primary_wallet_percentage = data[64];
        let minimum_price = read_u64(data, 65).unwrap();
        let record = NounsSettings {
            authority,
            secondary_creator,
            primary_wallet_percentage,
            minimum_price,
        };
        if record.is_valid() {
            Some(record)
        } else {
            None
        }
    }
}

/// One entry of the creator list of a metadata record.
#[derive(Clone, Copy, Debug, PartialEq, Eq)]
pub struct Creator {
    pub address: Pubkey,
    pub verified: bool,
    /// In percent.
    pub share: u8,
}

impl View for Creator {
    type V = (Seq<u8>, bool, u8);

    open spec fn view(&self) -> (Seq<u8>, bool, u8) {
        (self.address@, self.verified, self.share)
    }
}

/// The views of a creator list, in order.
pub open spec fn creators_view(creators: Seq<Creator>) -> Seq<(Seq<u8>, bool, u8)> {
    creators.map_values(|c: Creator| c@)
}

} // verus!
