//! Telling a freshly loaded library from the bundle that is in force.

use vstd::prelude::*;

verus! {

/// Name of the symbol under which a reloadable library exports the entry of
/// the plugin it wraps.
pub const WRAPPED_ENTRY_SYMBOL_NAME: &'static str = "__clack_hotreload_wrapped_entry";

/// What came of opening a library and looking up the wrapped entry in it.
#[derive(Clone, Copy, Debug, PartialEq, Eq, Structural)]
pub enum SymbolLookup {
    /// The library could not be opened.
    LibraryUnavailable,
    /// The library has no such symbol.
    SymbolMissing,
    /// The address of the entry that the symbol names.
    Entry(usize),
}

/// Why a reload attempt failed.
#[derive(Clone, Copy, Debug, PartialEq, Eq, Structural)]
pub enum ReloadError {
    /// The file could not be copied to a private place.
    CopyFailed,
    /// The copy could not be opened as a library.
    LibraryUnavailable,
    /// The library does not export a wrapped entry.
    SymbolMissing,
    /// The entry could not be loaded as a plugin bundle.
    BundleRejected,
}

/// What a looked-up entry means for the bundle in force.
#[derive(Clone, Copy, Debug, PartialEq, Eq, Structural)]
pub enum EntryVerdict {
    /// The library maps the very entry that is in force: nothing to load.
    Same,
    /// The library holds another entry: load it.
    Different,
    /// The library is of no use.
    Failed(ReloadError),
}

/// The verdict on a lookup, for a bundle whose entry lies at `initial_entry`.
pub open spec fn entry_verdict(initial_entry: usize, lookup: SymbolLookup) -> EntryVerdict {
    match lookup {
        SymbolLookup::LibraryUnavailable => EntryVerdict::Failed(ReloadError::LibraryUnavailable),
        SymbolLookup::SymbolMissing => EntryVerdict::Failed(ReloadError::SymbolMissing),
        SymbolLookup::Entry(address) => if address == initial_entry {
            EntryVerdict::Same
        } else {
            EntryVerdict::Different
        },
    }
}

/// Decides whether the library that was looked up holds a bundle other than
/// the one in force, whose entry lies at `initial_entry`.
pub fn load_if_different_bundle(initial_entry: usize, lookup: SymbolLookup) -> (verdict:
    EntryVerdict)
    ensures
        verdict == entry_verdict(initial_entry, lookup),
{
    match lookup {
        SymbolLookup::LibraryUnavailable => EntryVerdict::Failed(ReloadError::LibraryUnavailable),
        SymbolLookup::SymbolMissing => EntryVerdict::Failed(ReloadError::SymbolMissing),
        SymbolLookup::Entry(address) => if address == initial_entry {
            EntryVerdict::Same
        } else {
            EntryVerdict::Different
        },
    }
}

} // verus!
