//! Choosing which directory entries a listing reports.
use vstd::prelude::*;

verus! {

/// One entry of a directory: its name where that is valid Unicode, and
/// whether it is a directory.
pub struct DirEntryInfo {
    pub name: Option<String>,
    pub is_dir: bool,
}

pub open spec fn entries_view(e: Seq<DirEntryInfo>) -> Seq<(Option<Seq<char>>, bool)> {
    e.map_values(
        |x: DirEntryInfo|
            (
                match x.name {
                    Some(n) => Some(n@),
                    None => None,
                },
                x.is_dir,
            ),
    )
}

/// The names that a listing reports, in directory order: every entry with a
/// valid name, or only directories where `folders_only` holds.
pub open spec fn listed_names(entries: Seq<(Option<Seq<char>>, bool)>, folders_only: bool) -> Seq<
    Seq<char>,
>
    decreases entries.len(),
{
    if entries.len() == 0 {
        Seq::empty()
    } else {
        let rest = listed_names(entries.drop_last(), folders_only);
        let (name, is_dir) = entries.last();
        match name {
            Some(n) => if folders_only && !is_dir {
                rest
            } else {
                rest.push(n)
            },
            None => rest,
        }
    }
}

/// The names to report for a directory's entries. `folder` asks for
/// directories only; absent, it means all entries.
pub fn select_entries(entries: &Vec<DirEntryInfo>, folder: Option<bool>) -> (r: Vec<String>)
    ensures
        r@.map_values(|s: String| s@) == listed_names(
            entries_view(entries@),
            folder == Some(true),
        ),
{
    let folders_only = match folder {
        Some(f) => f,
        None => false,
    };
    let mut out: Vec<String> = Vec::new();
    let mut i: usize = 0;
    while i < entries.len()
        invariant
            i <= entries@.len(),
            folders_only == (folder == Some(true)),
            out@.map_values(|s: String| s@) == listed_names(
                entries_view(entries@.take(i as int)),
                folders_only,
            ),
        decreases entries@.len() - i,
    {
        let ghost before = out@;
        assert(entries_view(entries@.take(i + 1)).drop_last() =~= entries_view(
            entries@.take(i as int),
        ));
        let entry = &entries[i];
        match &entry.name {
            Some(n) => {
                if !folders_only || entry.is_dir {
                    out.push(String::from_str(n.as_str()));
                    assert(out@.map_values(|s: String| s@) =~= before.map_values(|s: String| s@).push(
                        n@,
                    ));
                }
            },
            None => {},
        }
        i = i + 1;
    }
    assert(entries@.take(entries@.len() as int) =~= entries@);
    out
}

} // verus!
