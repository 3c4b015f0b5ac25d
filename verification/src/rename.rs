//! The rename pipeline: per-file decisions and the batch plan.
//!
//! A file qualifies when its extension equals the configured suffix exactly
//! and its name contains the configured pattern as a literal substring. The
//! new name replaces every occurrence of the pattern. Only the base name
//! changes; committing the rename inside the parent directory is the
//! shell's part.

use vstd::prelude::*;
use crate::names::{
    contains_pat, contains_str, extension_of, replace_all, replace_str, spec_extension, str_eq,
};

verus! {

/// The configuration of one rename batch: the extension that qualifies a
/// file, the literal pattern to find, and its replacement.
#[derive(Debug, Clone)]
pub struct FileRenamer {
    pub file_type: String,
    pub current: String,
    pub new: String,
}

/// What happens to one scanned file: skipped for its extension, skipped
/// because the pattern is absent, or renamed to the computed name.
#[derive(Debug, Clone, PartialEq, Eq)]
pub enum RenameDecision {
    SkipExtension,
    SkipNoMatch,
    Rename(String),
}

impl FileRenamer {
    /// The decision `d` is the one this configuration prescribes for a file
    /// named `name`.
    pub open spec fn decision_for(self, name: Seq<char>, d: RenameDecision) -> bool {
        if spec_extension(name) != Some(self.file_type@) {
            d == RenameDecision::SkipExtension
        } else if !contains_pat(name, self.current@) {
            d == RenameDecision::SkipNoMatch
        } else {
            match d {
                RenameDecision::Rename(n) => n@ == replace_all(name, self.current@, self.new@),
                _ => false,
            }
        }
    }

    /// Decide what to do with one file. Extension mismatch and pattern
    /// absence are skips, not errors; a qualifying name is renamed with
    /// every occurrence of the pattern replaced.
    pub fn rename_single_file(&self, file_name: &str) -> (d: RenameDecision)
        ensures
            self.decision_for(file_name@, d),
    {
        let ext = extension_of(file_name);
        let ext_matches = match &ext {
            Some(e) => str_eq(e.as_str(), self.file_type.as_str()),
            None => false,
        };
        if !ext_matches {
            return RenameDecision::SkipExtension;
        }
        if !contains_str(file_name, self.current.as_str()) {
            return RenameDecision::SkipNoMatch;
        }
        RenameDecision::Rename(
            replace_str(file_name, self.current.as_str(), self.new.as_str()),
        )
    }

    /// Decide every file of a directory listing, in order. The listing holds
    /// the names of the directory's files; the decision at each index is the
    /// one `rename_single_file` makes for the name at that index.
    pub fn rename_files_in_directory(&self, names: &Vec<String>) -> (ds: Vec<RenameDecision>)
        ensures
            ds@.len() == names@.len(),
            forall|i: int|
                0 <= i < names@.len() ==> self.decision_for(names@[i]@, #[trigger] ds@[i]),
    {
        let mut ds: Vec<RenameDecision> = Vec::new();
        let mut i: usize = 0;
        while i < names.len()
            invariant
                i <= names@.len(),
                ds@.len() == i,
                forall|k: int| 0 <= k < i ==> self.decision_for(names@[k]@, #[trigger] ds@[k]),
            decreases names@.len() - i,
        {
            let d = self.rename_single_file(names[i].as_str());
            ds.push(d);
            i = i + 1;
        }
        ds
    }
}

/// The listing as it stands after the plan is carried out: a renamed file
/// bears its new name, every other file keeps its own.
pub fn apply_rename_plan(names: &Vec<String>, ds: &Vec<RenameDecision>) -> (out: Vec<String>)
    requires
        ds@.len() == names@.len(),
    ensures
        out@.len() == names@.len(),
        forall|i: int|
            0 <= i < names@.len() ==> #[trigger] out@[i]@ == (match ds@[i] {
                RenameDecision::Rename(n) => n@,
                _ => names@[i]@,
            }),
{
    let mut out: Vec<String> = Vec::new();
    let mut i: usize = 0;
    while i < names.len()
        invariant
            ds@.len() == names@.len(),
            i <= names@.len(),
            out@.len() == i,
            forall|k: int|
                0 <= k < i ==> #[trigger] out@[k]@ == (match ds@[k] {
                    RenameDecision::Rename(n) => n@,
                    _ => names@[k]@,
                }),
        decreases names@.len() - i,
    {
        match &ds[i] {
            RenameDecision::Rename(n) => out.push(n.clone()),
            _ => out.push(names[i].clone()),
        }
        i = i + 1;
    }
    out
}

/// The outcome of a decided batch: a file whose extension matches and whose
/// name contains the pattern ends up under the name with every occurrence
/// replaced, and every other file keeps its original name.
pub proof fn lemma_batch_rename_outcome(
    r: FileRenamer,
    names: Seq<String>,
    ds: Seq<RenameDecision>,
    out: Seq<String>,
)
    requires
        ds.len() == names.len(),
        out.len() == names.len(),
        forall|i: int| 0 <= i < names.len() ==> r.decision_for(names[i]@, #[trigger] ds[i]),
        forall|i: int|
            0 <= i < names.len() ==> #[trigger] out[i]@ == (match ds[i] {
                RenameDecision::Rename(n) => n@,
                _ => names[i]@,
            }),
    ensures
        forall|i: int|
            0 <= i < names.len() && spec_extension(#[trigger] names[i]@) == Some(r.file_type@)
                && contains_pat(names[i]@, r.current@) ==> out[i]@ == replace_all(
                names[i]@,
                r.current@,
                r.new@,
            ),
        forall|i: int|
            0 <= i < names.len() && !(spec_extension(#[trigger] names[i]@) == Some(r.file_type@)
                && contains_pat(names[i]@, r.current@)) ==> out[i]@ == names[i]@,
{
}

/// A skipped file keeps its name even if the replacement were computed: a
/// name without the pattern is left unchanged by replacement.
pub proof fn lemma_no_match_no_change(name: Seq<char>, pat: Seq<char>, rep: Seq<char>)
    requires
        !contains_pat(name, pat),
    ensures
        replace_all(name, pat, rep) == name,
{
    crate::names::lemma_replace_absent(name, pat, rep);
}

} // verus!
