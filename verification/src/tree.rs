use vstd::prelude::*;

use crate::gh::{GhResponseEntry, GhResponseEntryKind};
use crate::text::spec_ends_with;

verus! {

/// Whether one entry qualifies as a schema candidate: it names a file, and
/// its path ends with the literal suffix `schema.json`. Directory-kind
/// entries never qualify, whatever their name.
pub open spec fn spec_is_candidate(e: GhResponseEntry) -> bool {
    e.kind is Blob && spec_ends_with(e.path@, "schema.json"@)
}

/// The schema candidates of a tree listing: the paths of the qualifying
/// entries, in the order the source returned them.
pub open spec fn spec_schema_paths(entries: Seq<GhResponseEntry>) -> Seq<Seq<char>>
    decreases entries.len(),
{
    if entries.len() == 0 {
        Seq::<Seq<char>>::empty()
    } else {
        let rest = spec_schema_paths(entries.drop_last());
        let e = entries.last();
        if spec_is_candidate(e) {
            rest.push(e.path@)
        } else {
            rest
        }
    }
}

/// The candidate list is exactly the qualifying entries of the listing,
/// filtered in place and reduced to their paths: no other entry reaches
/// it, every qualifying entry does, and the source order is kept.
pub proof fn lemma_schema_paths_are_filtered_paths(entries: Seq<GhResponseEntry>)
    ensures
        spec_schema_paths(entries) == entries.filter(
            |e: GhResponseEntry| spec_is_candidate(e),
        ).map_values(|e: GhResponseEntry| e.path@),
    decreases entries.len(),
{
    reveal(Seq::filter);
    if entries.len() == 0 {
        assert(entries.filter(|e: GhResponseEntry| spec_is_candidate(e)).map_values(
            |e: GhResponseEntry| e.path@,
        ) =~= Seq::<Seq<char>>::empty());
    } else {
        let rest = entries.drop_last();
        let e = entries.last();
        lemma_schema_paths_are_filtered_paths(rest);
        let filtered = rest.filter(|e: GhResponseEntry| spec_is_candidate(e));
        if spec_is_candidate(e) {
            assert(filtered.push(e).map_values(|e: GhResponseEntry| e.path@) =~= filtered.map_values(
                |e: GhResponseEntry| e.path@,
            ).push(e.path@));
        }
    }
}

/// A source of repository trees: it reports the files a repository holds
/// and can name the schema candidates among them.
pub trait Tree {
    /// The tree entries this source reported, in the order it returned
    /// them.
    spec fn tree_entries(&self) -> Seq<GhResponseEntry>;

    /// Exactly the File-kind entries whose path ends with `schema.json`,
    /// in source order. The order must stay stable so that an interactive
    /// selection can map an index back to a path unambiguously.
    fn find_schemas(&self) -> (r: Vec<String>)
        ensures
            r.deep_view() == spec_schema_paths(self.tree_entries()),
    ;
}

} // verus!
