//! Errors reported while loading faction definitions, and the choice of a
//! faction's unit for a role.

use vstd::prelude::*;

verus! {

/// Errors that can occur during faction loading.
#[derive(Debug, Clone)]
pub enum FactionLoadError {
    /// Failed to read file (path, reason).
    IoError(String, String),
    /// Failed to parse RON (path, reason).
    ParseError(String, String),
    /// Directory not found.
    DirectoryNotFound(String),
}

/// Human-readable text of a loading error.
pub open spec fn load_error_text(e: FactionLoadError) -> Seq<char> {
    match e {
        FactionLoadError::IoError(path, msg) => "IO error reading '"@ + path@ + "': "@ + msg@,
        FactionLoadError::ParseError(path, msg) => "Parse error in '"@ + path@ + "': "@ + msg@,
        FactionLoadError::DirectoryNotFound(path) => "Directory not found: "@ + path@,
    }
}

fn quoted_detail(lead: &str, path: &String, msg: &String) -> (s: String)
    ensures
        s@ == lead@ + path@ + "': "@ + msg@,
{
    let mut s = lead.to_string();
    s.append(path.as_str());
    s.append("': ");
    s.append(msg.as_str());
    s
}

impl FactionLoadError {
    /// Human-readable description of the error.
    pub fn message(&self) -> (s: String)
        ensures
            s@ == load_error_text(*self),
    {
        match self {
            FactionLoadError::IoError(path, msg) => quoted_detail("IO error reading '", path, msg),
            FactionLoadError::ParseError(path, msg) => quoted_detail("Parse error in '", path, msg),
            FactionLoadError::DirectoryNotFound(path) => {
                let mut s = "Directory not found: ".to_string();
                s.append(path.as_str());
                s
            },
        }
    }
}

/// Unit `i` is the one picked for a role among units with the given tiers,
/// `tagged` marking those that carry the role's tag: a tagged unit of the
/// lowest tier among the tagged ones, the first such in order.
pub open spec fn picked_for_role(tiers: Seq<u8>, tagged: Seq<bool>, i: int) -> bool {
    &&& 0 <= i < tiers.len()
    &&& tagged[i]
    &&& forall|j: int| 0 <= j < tiers.len() && #[trigger] tagged[j] ==> tiers[i] <= tiers[j]
    &&& forall|j: int| 0 <= j < i && #[trigger] tagged[j] ==> tiers[i] < tiers[j]
}

/// Picks a faction's unit for a role: of the units tagged with it, the
/// first one of the lowest tier; none when no unit carries the tag.
pub fn unit_for_role(tiers: &Vec<u8>, tagged: &Vec<bool>) -> (r: Option<usize>)
    requires
        tiers.len() == tagged.len(),
    ensures
        r is None <==> forall|j: int| 0 <= j < tagged.len() ==> !#[trigger] tagged@[j],
        r matches Some(i) ==> picked_for_role(tiers@, tagged@, i as int),
{
    let mut best: Option<usize> = None;
    let mut k: usize = 0;
    while k < tiers.len()
        invariant
            k <= tiers.len(),
            tiers.len() == tagged.len(),
            best is None <==> forall|j: int| 0 <= j < k ==> !#[trigger] tagged@[j],
            best matches Some(i) ==> {
                &&& i < k
                &&& tagged@[i as int]
                &&& forall|j: int| 0 <= j < k && #[trigger] tagged@[j] ==> tiers@[i as int] <= tiers@[j]
                &&& forall|j: int| 0 <= j < i && #[trigger] tagged@[j] ==> tiers@[i as int] < tiers@[j]
            },
        decreases tiers.len() - k,
    {
        if tagged[k] {
            match best {
                None => {
                    best = Some(k);
                },
                Some(i) => {
                    if tiers[k] < tiers[i] {
                        best = Some(k);
                    }
                },
            }
        }
        k = k + 1;
    }
    best
}

} // verus!
