//! What a relay tells about itself.
use vstd::prelude::*;

verus! {

/// Relay information document
#[derive(Debug)]
pub struct RelayInformationDocument {
    /// Name
    pub name: Option<String>,
    /// Description
    pub description: Option<String>,
    /// Owner public key
    pub pubkey: Option<String>,
    /// Owner contact
    pub contact: Option<String>,
    /// Supported NIPs
    pub supported_nips: Option<Vec<u16>>,
    /// Software
    pub software: Option<String>,
    /// Software version
    pub version: Option<String>,
}

/// What a [`RelayInformationDocument`] says.
pub struct RelayInformation {
    pub name: Option<Seq<char>>,
    pub description: Option<Seq<char>>,
    pub pubkey: Option<Seq<char>>,
    pub contact: Option<Seq<char>>,
    pub supported_nips: Option<Seq<u16>>,
    pub software: Option<Seq<char>>,
    pub version: Option<Seq<char>>,
}

/// The text of an entry that may be missing.
pub open spec fn entry_text(entry: Option<String>) -> Option<Seq<char>> {
    match entry {
        Some(text) => Some(text@),
        None => None,
    }
}

/// The numbers of an entry that may be missing.
pub open spec fn entry_numbers(entry: Option<Vec<u16>>) -> Option<Seq<u16>> {
    match entry {
        Some(numbers) => Some(numbers@),
        None => None,
    }
}

impl View for RelayInformationDocument {
    type V = RelayInformation;

    open spec fn view(&self) -> RelayInformation {
        RelayInformation {
            name: entry_text(self.name),
            description: entry_text(self.description),
            pubkey: entry_text(self.pubkey),
            contact: entry_text(self.contact),
            supported_nips: entry_numbers(self.supported_nips),
            software: entry_text(self.software),
            version: entry_text(self.version),
        }
    }
}

impl RelayInformation {
    /// Nothing is known.
    pub open spec fn empty() -> RelayInformation {
        RelayInformation {
            name: None,
            description: None,
            pubkey: None,
            contact: None,
            supported_nips: None,
            software: None,
            version: None,
        }
    }
}

impl RelayInformationDocument {
    /// Create new empty document
    pub fn new() -> (document: RelayInformationDocument)
        ensures
            document@ == RelayInformation::empty(),
    {
        RelayInformationDocument {
            name: None,
            description: None,
            pubkey: None,
            contact: None,
            supported_nips: None,
            software: None,
            version: None,
        }
    }
}

/// A copy of an entry of numbers.
fn copy_numbers(entry: &Option<Vec<u16>>) -> (copy: Option<Vec<u16>>)
    ensures
        entry_numbers(copy) == entry_numbers(*entry),
{
    match entry {
        Some(numbers) => {
            let copied = numbers.clone();
            assert(copied@ =~= numbers@);
            Some(copied)
        },
        None => None,
    }
}

impl Clone for RelayInformationDocument {
    fn clone(&self) -> (copy: RelayInformationDocument)
        ensures
            copy@ == self@,
    {
        RelayInformationDocument {
            name: self.name.clone(),
            description: self.description.clone(),
            pubkey: self.pubkey.clone(),
            contact: self.contact.clone(),
            supported_nips: copy_numbers(&self.supported_nips),
            software: self.software.clone(),
            version: self.version.clone(),
        }
    }
}

} // verus!
