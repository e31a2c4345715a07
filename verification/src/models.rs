//! Which files of a model directory to load.
//!
//! The directory is read elsewhere. Here its listing is searched for the acoustic
//! model and for the external scorer, by file extension.

use vstd::prelude::*;

verus! {

/// The file name of the acoustic model where the directory offers none.
pub const DEFAULT_GRAPH_NAME: &'static str = "output_graph.pb";

/// What a file of the model directory is for.
#[derive(Clone, Copy, Debug, PartialEq, Eq, Structural)]
pub enum ModelRole {
    /// The acoustic model: extension `pb` or `pbmm`.
    Graph,
    /// The external scorer: extension `scorer`.
    Scorer,
}

/// One entry of the directory listing.
#[derive(Debug)]
pub struct Candidate {
    /// Whether the entry is a regular file.
    pub is_file: bool,
    /// The part of the file name after its last dot, if it has one.
    pub extension: Option<String>,
}

/// The entries chosen from a listing, by their positions in it.
#[derive(Clone, Copy, Debug, PartialEq, Eq, Structural)]
pub struct Selection {
    /// The acoustic model; `None` where the default name is to be used.
    pub graph: Option<usize>,
    /// The external scorer, if the directory holds one.
    pub scorer: Option<usize>,
}

/// The role that goes with a file extension.
pub open spec fn role_of(extension: Seq<char>) -> Option<ModelRole> {
    if extension == "pb"@ || extension == "pbmm"@ {
        Some(ModelRole::Graph)
    } else if extension == "scorer"@ {
        Some(ModelRole::Scorer)
    } else {
        None
    }
}

/// The role of an entry: that of its extension, if it is a regular file.
pub open spec fn role_of_entry(entry: Candidate) -> Option<ModelRole> {
    match entry.extension {
        Some(extension) if entry.is_file => role_of(extension@),
        _ => None,
    }
}

/// `found` is the position of the last entry with `role`, or `None` where no
/// entry has it.
pub open spec fn is_last_with_role(
    entries: Seq<Candidate>,
    role: ModelRole,
    found: Option<usize>,
) -> bool {
    match found {
        Some(at) => {
            &&& at < entries.len()
            &&& role_of_entry(entries[at as int]) == Some(role)
            &&& forall|j: int|
                at < j < entries.len() ==> role_of_entry(#[trigger] entries[j]) != Some(role)
        },
        None => forall|j: int|
            0 <= j < entries.len() ==> role_of_entry(#[trigger] entries[j]) != Some(role),
    }
}

/// Whether `extension` reads `name`.
fn reads(extension: &String, name: &str) -> (b: bool)
    ensures
        b == (extension@ == name@),
{
    *extension == name.to_owned()
}

/// The role that goes with a file extension. The comparison is case-sensitive.
pub fn role_of_extension(extension: &String) -> (role: Option<ModelRole>)
    ensures
        role == role_of(extension@),
{
    if reads(extension, "pb") || reads(extension, "pbmm") {
        Some(ModelRole::Graph)
    } else if reads(extension, "scorer") {
        Some(ModelRole::Scorer)
    } else {
        None
    }
}

/// The role of a directory entry.
pub fn role_of_candidate(entry: &Candidate) -> (role: Option<ModelRole>)
    ensures
        role == role_of_entry(*entry),
{
    if !entry.is_file {
        return None;
    }
    match &entry.extension {
        Some(extension) => role_of_extension(extension),
        None => None,
    }
}

/// Chooses the acoustic model and the scorer from a directory listing. Where
/// several entries have the same role, the last one is taken.
pub fn select_models(entries: &Vec<Candidate>) -> (chosen: Selection)
    ensures
        is_last_with_role(entries@, ModelRole::Graph, chosen.graph),
        is_last_with_role(entries@, ModelRole::Scorer, chosen.scorer),
{
    let mut chosen = Selection { graph: None, scorer: None };
    let mut i: usize = 0;
    while i < entries.len()
        invariant
            i <= entries.len(),
            is_last_with_role(entries@.take(i as int), ModelRole::Graph, chosen.graph),
            is_last_with_role(entries@.take(i as int), ModelRole::Scorer, chosen.scorer),
        decreases entries.len() - i,
    {
        let role = role_of_candidate(&entries[i]);
        let ghost seen = entries@.take(i as int);
        let ghost next = entries@.take(i + 1);
        proof {
            assert(next[i as int] == entries@[i as int]);
            assert forall|j: int| 0 <= j < i implies #[trigger] next[j] == seen[j] by {}
        }
        match role {
            Some(ModelRole::Graph) => {
                chosen.graph = Some(i);
            },
            Some(ModelRole::Scorer) => {
                chosen.scorer = Some(i);
            },
            None => {},
        }
        i += 1;
    }
    assert(entries@.take(entries.len() as int) =~= entries@);
    chosen
}

} // verus!
