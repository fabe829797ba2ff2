//! Why a backup was made.
use vstd::prelude::*;
use crate::text::str_eq;

verus! {

/// The purpose of a backup.
#[derive(Clone, Copy, Debug, PartialEq, Eq, Structural)]
pub enum Purpose {
    /// For immediate transfer from one device to another.
    DeviceTransfer,
    /// For remote storage, to be restored later.
    RemoteBackup,
}

impl Purpose {
    /// The purpose that a number tags.
    pub open spec fn spec_from_tag(tag: u8) -> Option<Purpose> {
        if tag == 0 {
            Some(Purpose::DeviceTransfer)
        } else if tag == 1 {
            Some(Purpose::RemoteBackup)
        } else {
            None
        }
    }

    /// The number that tags a purpose.
    pub open spec fn spec_tag(self) -> u8 {
        match self {
            Purpose::DeviceTransfer => 0,
            Purpose::RemoteBackup => 1,
        }
    }

    /// The purpose that a number tags, if it tags one.
    pub fn from_tag(tag: u8) -> (r: Option<Purpose>)
        ensures
            r == Self::spec_from_tag(tag),
    {
        if tag == 0 {
            Some(Purpose::DeviceTransfer)
        } else if tag == 1 {
            Some(Purpose::RemoteBackup)
        } else {
            None
        }
    }

    /// The number that tags this purpose.
    pub fn tag(self) -> (r: u8)
        ensures
            r == self.spec_tag(),
    {
        match self {
            Purpose::DeviceTransfer => 0,
            Purpose::RemoteBackup => 1,
        }
    }

    /// The purpose that a name spells, under any of its accepted spellings.
    pub open spec fn spec_parse(name: Seq<char>) -> Option<Purpose> {
        if name == "device_transfer"@ || name == "device-transfer"@ || name == "transfer"@ {
            Some(Purpose::DeviceTransfer)
        } else if name == "remote_backup"@ || name == "remote-backup"@ || name == "backup"@ {
            Some(Purpose::RemoteBackup)
        } else {
            None
        }
    }

    /// The one name under which a purpose is written out.
    pub open spec fn spec_name(self) -> Seq<char> {
        match self {
            Purpose::DeviceTransfer => "device_transfer"@,
            Purpose::RemoteBackup => "remote_backup"@,
        }
    }

    /// Reads a purpose from its name. The spellings are matched exactly, with
    /// regard to case.
    pub fn parse(name: &str) -> (r: Option<Purpose>)
        ensures
            r == Self::spec_parse(name@),
    {
        if str_eq(name, "device_transfer") || str_eq(name, "device-transfer") || str_eq(
            name,
            "transfer",
        ) {
            Some(Purpose::DeviceTransfer)
        } else if str_eq(name, "remote_backup") || str_eq(name, "remote-backup") || str_eq(
            name,
            "backup",
        ) {
            Some(Purpose::RemoteBackup)
        } else {
            None
        }
    }

    /// The name under which this purpose is written out.
    pub fn as_str(self) -> (r: &'static str)
        ensures
            r@ == self.spec_name(),
    {
        match self {
            Purpose::DeviceTransfer => "device_transfer",
            Purpose::RemoteBackup => "remote_backup",
        }
    }

    /// A name written out reads back as the purpose it was written for.
    pub proof fn lemma_name_round_trip(self)
        ensures
            Self::spec_parse(self.spec_name()) == Some(self),
    {
        reveal_strlit("device_transfer");
        reveal_strlit("device-transfer");
        reveal_strlit("transfer");
        reveal_strlit("remote_backup");
        assert("remote_backup"@.len() == 13);
        assert("device_transfer"@.len() == 15);
        assert("transfer"@.len() == 8);
    }

    /// A tag read back gives the purpose it was made from.
    pub proof fn lemma_tag_round_trip(self)
        ensures
            Self::spec_from_tag(self.spec_tag()) == Some(self),
    {
    }
}

} // verus!
