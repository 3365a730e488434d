mod media_size;
mod printer_state;

pub use media_size::MediaSize;
pub use printer_state::{PrinterState, state_of_cups_value, lemma_state_cups_value_round_trip};

use vstd::prelude::*;
use vstd::string::{StringExecFns, StringSliceAdditionalSpecFns};
use crate::option_map::OptionMap;
use crate::error::Error;
use crate::constants::DEST_FLAGS_REMOVED;
use crate::text::{split_commas_trimmed, split_on, trim, str_eq};

verus! {

/// The value that `m` gives `key`, if any.
pub open spec fn value_of(m: Map<Seq<char>, Seq<char>>, key: Seq<char>) -> Option<Seq<char>> {
    if m.contains_key(key) {
        Some(m[key])
    } else {
        None
    }
}

/// The text of an optional string.
pub open spec fn opt_text(o: Option<&String>) -> Option<Seq<char>> {
    match o {
        Some(s) => Some(s@),
        None => None,
    }
}

/// Represents a printer or class of printers available for printing
#[derive(Debug, Clone)]
pub struct Destination {
    /// Name of the destination
    pub name: String,
    /// Instance name or None for the default instance
    pub instance: Option<String>,
    /// True if this is the default destination
    pub is_default: bool,
    /// Options and attributes for this destination
    pub options: OptionMap,
}

impl Destination {
    /// The name, followed by `/` and the instance when there is one.
    pub open spec fn spec_full_name(&self) -> Seq<char> {
        match self.instance {
            Some(inst) => self.name@ + "/"@ + inst@,
            None => self.name@,
        }
    }

    /// Get the state of this destination
    pub fn state(&self) -> (r: PrinterState)
        ensures
            r == match value_of(self.options@, "printer-state"@) {
                Some(v) => state_of_cups_value(v),
                None => PrinterState::Unknown,
            },
    {
        match self.options.get("printer-state") {
            Some(state) => PrinterState::from_cups_state(state.as_str()),
            None => PrinterState::Unknown,
        }
    }

    /// Get the reasons for the current state
    pub fn state_reasons(&self) -> (r: Vec<String>)
        ensures
            match value_of(self.options@, "printer-state-reasons"@) {
                Some(v) => r@.len() == split_on(v, ',').len() && forall|j: int|
                    0 <= j < r@.len() ==> #[trigger] r@[j]@ == trim(split_on(v, ',')[j]),
                None => r@.len() == 0,
            },
    {
        match self.options.get("printer-state-reasons") {
            Some(reasons) => split_commas_trimmed(reasons.as_str()),
            None => Vec::new(),
        }
    }

    /// Get a human-readable description of this destination
    pub fn info(&self) -> (r: Option<&String>)
        ensures
            opt_text(r) == value_of(self.options@, "printer-info"@),
    {
        self.options.get("printer-info")
    }

    /// Get the location of this destination
    pub fn location(&self) -> (r: Option<&String>)
        ensures
            opt_text(r) == value_of(self.options@, "printer-location"@),
    {
        self.options.get("printer-location")
    }

    /// Get the make and model of this destination
    pub fn make_and_model(&self) -> (r: Option<&String>)
        ensures
            opt_text(r) == value_of(self.options@, "printer-make-and-model"@),
    {
        self.options.get("printer-make-and-model")
    }

    /// Check if the destination is accepting jobs
    pub fn is_accepting_jobs(&self) -> (r: bool)
        ensures
            r == (value_of(self.options@, "printer-is-accepting-jobs"@) == Some("true"@)),
    {
        match self.options.get("printer-is-accepting-jobs") {
            Some(value) => str_eq(value.as_str(), "true"),
            None => false,
        }
    }

    /// Get the URI associated with this destination
    pub fn uri(&self) -> (r: Option<&String>)
        ensures
            opt_text(r) == value_of(self.options@, "printer-uri-supported"@),
    {
        self.options.get("printer-uri-supported")
    }

    /// Get the device URI for this destination
    pub fn device_uri(&self) -> (r: Option<&String>)
        ensures
            opt_text(r) == value_of(self.options@, "device-uri"@),
    {
        self.options.get("device-uri")
    }

    /// Get the full name of this destination (including instance if any)
    pub fn full_name(&self) -> (r: String)
        ensures
            r@ == self.spec_full_name(),
    {
        match &self.instance {
            Some(inst) => {
                let mut s = self.name.clone();
                s.append("/");
                s.append(inst.as_str());
                s
            },
            None => self.name.clone(),
        }
    }

    /// Get an option value by name
    pub fn get_option(&self, name: &str) -> (r: Option<&String>)
        ensures
            opt_text(r) == value_of(self.options@, name@),
    {
        self.options.get(name)
    }

    /// Check if an option is present
    pub fn has_option(&self, name: &str) -> (r: bool)
        ensures
            r == self.options@.contains_key(name@),
    {
        self.options.contains_key(name)
    }

    /// Get all options
    pub fn get_options(&self) -> (r: &OptionMap)
        ensures
            r@ == self.options@,
    {
        &self.options
    }
}

/// The default destination among those CUPS listed, given for each listed
/// entry whether CUPS marks it as default and what reading it gave. The
/// first entry marked as default decides: its destination, or the error
/// that reading it met. When no entry is marked, the error names the
/// default printer as not found.
pub fn pick_default(entries: Vec<(bool, Result<Destination, Error>)>) -> (r: Result<Destination, Error>)
    ensures
        (exists|i: int| 0 <= i < entries@.len() && (#[trigger] entries@[i]).0) ==> exists|i: int|
            #![trigger entries@[i]]
            0 <= i < entries@.len() && entries@[i].0 && r == entries@[i].1 && forall|k: int|
                0 <= k < i ==> !(#[trigger] entries@[k]).0,
        (forall|i: int| 0 <= i < entries@.len() ==> !(#[trigger] entries@[i]).0) ==> (r matches Err(
            Error::DestinationNotFound(name),
        ) && name@ == "Default printer"@),
{
    let mut list = entries;
    let ghost original = list@;
    let mut i: usize = 0;
    while i < list.len()
        invariant
            list@ == original,
            original == entries@,
            i <= list@.len(),
            forall|k: int| 0 <= k < i ==> !(#[trigger] list@[k]).0,
        decreases list@.len() - i,
    {
        if list[i].0 {
            let entry = list.remove(i);
            assert(original[i as int] == entry);
            return entry.1;
        }
        i = i + 1;
    }
    Err(Error::DestinationNotFound(String::from_str("Default printer")))
}

/// One step of listing the destinations that an enumeration reports: keeps
/// `dest` unless the flags say it was removed, and asks for more.
pub fn keep_enumerated(flags: u32, dest: Destination, found: &mut Vec<Destination>) -> (r: bool)
    ensures
        r,
        final(found)@ == if flags & DEST_FLAGS_REMOVED == 0 {
            old(found)@.push(dest)
        } else {
            old(found)@
        },
{
    if flags & DEST_FLAGS_REMOVED == 0 {
        found.push(dest);
    }
    true
}

/// The bytes of the fixed 128-byte media-name field that CUPS reads: the
/// name's first bytes, at most 127, then zeros.
pub fn media_name_field(name: &str) -> (r: Vec<u8>)
    ensures
        r@.len() == 128,
        forall|i: int| 0 <= i < 128 ==> #[trigger] r@[i] == if i < name.spec_bytes().len() && i < 127 {
            name.spec_bytes()[i]
        } else {
            0u8
        },
{
    let bytes = name.as_bytes();
    let max_len: usize = if bytes.len() < 127 {
        bytes.len()
    } else {
        127
    };
    let mut field: Vec<u8> = Vec::new();
    let mut i: usize = 0;
    while i < 128
        invariant
            bytes@ == name.spec_bytes(),
            max_len == if bytes@.len() < 127 { bytes@.len() } else { 127 },
            i <= 128,
            field@.len() == i,
            forall|k: int| 0 <= k < i ==> #[trigger] field@[k] == if k < name.spec_bytes().len() && k < 127 {
                name.spec_bytes()[k]
            } else {
                0u8
            },
        decreases 128 - i,
    {
        if i < max_len {
            field.push(bytes[i]);
        } else {
            field.push(0u8);
        }
        i = i + 1;
    }
    field
}

} // verus!
