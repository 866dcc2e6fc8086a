//! What the files hold: the catalog file as it was found, and the stanzas
//! that are appended to the log.

use vstd::prelude::*;
use crate::catalog::{consolidate, stanzas_view, Catalog};
use crate::failure::Failure;
use crate::material::{Material, MaterialView};

verus! {

/// The catalog file as it was found on disk.
#[derive(Debug)]
pub enum CatalogFile {
    /// There is no such file.
    Absent,
    /// The file is there but cannot be understood.
    Malformed,
    /// The file's stanzas, in file order.
    Stanzas(Vec<(String, Material)>),
}

/// The catalog that a file stands for: none is an empty catalog, a
/// malformed one is a failure, and stanzas are consolidated.
pub open spec fn loaded(file: CatalogFile) -> Result<Map<Seq<char>, MaterialView>, Failure> {
    match file {
        CatalogFile::Absent => Ok(Map::empty()),
        CatalogFile::Malformed => Err(Failure::StorageUnavailable),
        CatalogFile::Stanzas(stanzas) => Ok(consolidate(stanzas_view(stanzas@))),
    }
}

/// Mathematical model of a loaded catalog.
pub open spec fn load_view(outcome: Result<Catalog, Failure>) -> Result<
    Map<Seq<char>, MaterialView>,
    Failure,
> {
    match outcome {
        Ok(catalog) => Ok(catalog@),
        Err(failure) => Err(failure),
    }
}

/// Loads the catalog from what was found on disk. A missing file is an
/// empty catalog, never an error.
pub fn load_catalog(file: &CatalogFile) -> (outcome: Result<Catalog, Failure>)
    ensures
        load_view(outcome) == loaded(*file),
{
    match file {
        CatalogFile::Absent => Ok(Catalog::new()),
        CatalogFile::Malformed => Err(Failure::StorageUnavailable),
        CatalogFile::Stanzas(stanzas) => Ok(Catalog::from_stanzas(stanzas)),
    }
}

/// A serialized record framed for appending: a blank line before it and
/// one after it, so that stanzas never run into one another.
pub open spec fn framed(body: Seq<char>) -> Seq<char> {
    seq!['\n'] + body + seq!['\n', '\n']
}

/// Frames a serialized record as a stanza to append to a file.
pub fn frame_stanza(body: &str) -> (stanza: String)
    ensures
        stanza@ == framed(body@),
{
    proof {
        reveal_strlit("\n");
        reveal_strlit("\n\n");
    }
    let mut stanza = "\n".to_owned();
    stanza.append(body);
    stanza.append("\n\n");
    assert(stanza@ =~= framed(body@));
    stanza
}

} // verus!
