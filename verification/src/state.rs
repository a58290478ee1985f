//! Hub configuration and the delegation lifecycle status.
//!
//! The configuration is a single record passed and returned by value:
//! the host persists it, this crate only computes its next state.  The
//! lifecycle status is a proper tagged variant inside the hub; its text
//! form exists only at the collaborator boundary, through [`DisplayType::label`]
//! and [`DisplayType::from_label`], and unrecognized label text decodes to
//! `Unknown` rather than failing, to tolerate forward and backward
//! metadata compatibility.

use vstd::prelude::*;

use crate::codec::str_eq;

verus! {

/// The lifecycle status of one delegation record.
#[derive(Clone, Copy, Debug, PartialEq, Eq)]
pub enum DisplayType {
    Unknown,
    Unbonded,
    Unbonding,
    Delegated,
    Redelegating,
}

impl DisplayType {
    /// The canonical display label of a status.
    pub open spec fn spec_label(self) -> Seq<char> {
        match self {
            DisplayType::Unknown => "Unknown"@,
            DisplayType::Unbonded => "Unbonded"@,
            DisplayType::Unbonding => "Unbonding"@,
            DisplayType::Delegated => "Delegated"@,
            DisplayType::Redelegating => "Redelegating"@,
        }
    }

    /// The status a display label denotes, `Unknown` for any
    /// unrecognized text.
    pub open spec fn spec_from_label(s: Seq<char>) -> DisplayType {
        if s == "Delegated"@ {
            DisplayType::Delegated
        } else if s == "Unbonding"@ {
            DisplayType::Unbonding
        } else if s == "Redelegating"@ {
            DisplayType::Redelegating
        } else if s == "Unbonded"@ {
            DisplayType::Unbonded
        } else {
            DisplayType::Unknown
        }
    }

    /// Writes the status as its canonical display label.
    pub fn label(&self) -> (r: String)
        ensures
            r@ == self.spec_label(),
    {
        match self {
            DisplayType::Unknown => String::from_str("Unknown"),
            DisplayType::Unbonded => String::from_str("Unbonded"),
            DisplayType::Unbonding => String::from_str("Unbonding"),
            DisplayType::Delegated => String::from_str("Delegated"),
            DisplayType::Redelegating => String::from_str("Redelegating"),
        }
    }

    /// Reads a display label leniently: unrecognized text becomes
    /// `Unknown`.
    pub fn from_label(s: &str) -> (r: DisplayType)
        ensures
            r == DisplayType::spec_from_label(s@),
    {
        if str_eq(s, "Delegated") {
            DisplayType::Delegated
        } else if str_eq(s, "Unbonding") {
            DisplayType::Unbonding
        } else if str_eq(s, "Redelegating") {
            DisplayType::Redelegating
        } else if str_eq(s, "Unbonded") {
            DisplayType::Unbonded
        } else {
            DisplayType::Unknown
        }
    }

    /// Reads a display label strictly: text that is no status label is
    /// rejected.
    pub fn from_str(s: &str) -> (r: Result<DisplayType, ()>)
        ensures
            match r {
                Ok(t) => s@ == t.spec_label(),
                Err(_) => forall|t: DisplayType| s@ != t.spec_label(),
            },
    {
        if str_eq(s, "Delegated") {
            Ok(DisplayType::Delegated)
        } else if str_eq(s, "Unbonding") {
            Ok(DisplayType::Unbonding)
        } else if str_eq(s, "Redelegating") {
            Ok(DisplayType::Redelegating)
        } else if str_eq(s, "Unbonded") {
            Ok(DisplayType::Unbonded)
        } else if str_eq(s, "Unknown") {
            Ok(DisplayType::Unknown)
        } else {
            assert(forall|t: DisplayType| s@ != t.spec_label()) by {
                assert(DisplayType::Unknown.spec_label() == "Unknown"@);
                assert(DisplayType::Unbonded.spec_label() == "Unbonded"@);
                assert(DisplayType::Unbonding.spec_label() == "Unbonding"@);
                assert(DisplayType::Delegated.spec_label() == "Delegated"@);
                assert(DisplayType::Redelegating.spec_label() == "Redelegating"@);
            }
            Err(())
        }
    }
}

/// The canonical display label of any status decodes back to that
/// status, so the text form at the collaborator boundary loses nothing.
pub proof fn lemma_label_round_trip(t: DisplayType)
    ensures
        DisplayType::spec_from_label(t.spec_label()) == t,
{
    reveal_strlit("Unknown");
    reveal_strlit("Unbonded");
    reveal_strlit("Unbonding");
    reveal_strlit("Delegated");
    reveal_strlit("Redelegating");
    assert("Unknown"@.len() == 7);
    assert("Unbonded"@.len() == 8);
    assert("Unbonding"@.len() == 9);
    assert("Delegated"@.len() == 9);
    assert("Redelegating"@.len() == 12);
    assert("Unbonding"@ != "Delegated"@) by {
        assert("Unbonding"@[0] == 'U');
        assert("Delegated"@[0] == 'D');
    }
}

/// Mathematical mirror of [`Cfg`].
#[verifier::ext_equal]
pub struct SpecCfg {
    pub minted_nfts: int,
    pub unbonding_seconds: int,
    pub nft_contract_addr: Option<Seq<char>>,
}

/// The hub's one persisted record.
///
/// `nft_contract_addr` is unset until the collection contract's
/// instantiation is acknowledged, and `minted_nfts` moves only when a
/// mint is acknowledged.
#[derive(Clone, Debug, PartialEq, Eq)]
pub struct Cfg {
    pub minted_nfts: u64,
    pub unbonding_seconds: u64,
    pub nft_contract_addr: Option<String>,
}

impl View for Cfg {
    type V = SpecCfg;

    open spec fn view(&self) -> SpecCfg {
        SpecCfg {
            minted_nfts: self.minted_nfts as int,
            unbonding_seconds: self.unbonding_seconds as int,
            nft_contract_addr: match self.nft_contract_addr {
                Option::Some(a) => Option::Some(a@),
                Option::None => Option::None,
            },
        }
    }
}

impl Cfg {
    /// A fresh configuration: nothing minted yet and no collection
    /// contract provisioned.
    pub fn new(unbonding_seconds: u64) -> (r: Cfg)
        ensures
            r@ == (SpecCfg {
                minted_nfts: 0,
                unbonding_seconds: unbonding_seconds as int,
                nft_contract_addr: Option::None,
            }),
    {
        Cfg { minted_nfts: 0, unbonding_seconds, nft_contract_addr: Option::None }
    }
}

} // verus!
