use vstd::prelude::*;
use vstd::string::StringExecFns;

verus! {

/// The on-disk location of one cached schema:
/// `<home>/.schemastore/<owner>/<repo>/<name>`. The name is the basename of
/// the selected path, so two directories of one repository that hold files
/// of the same basename collide; the design accepts this, last write wins.
pub open spec fn spec_schema_file_path(
    home: Seq<char>,
    owner: Seq<char>,
    repo: Seq<char>,
    name: Seq<char>,
) -> Seq<char> {
    home + "/.schemastore/"@ + owner + "/"@ + repo + "/"@ + name
}

/// The observable state of the store, as a map from file path to file
/// content, after one save: the schema's content sits at its derived path,
/// truncating whatever was there, and no other file changes.
pub open spec fn spec_store_after(
    fs: Map<Seq<char>, Seq<char>>,
    home: Seq<char>,
    owner: Seq<char>,
    repo: Seq<char>,
    name: Seq<char>,
    content: Seq<char>,
) -> Map<Seq<char>, Seq<char>> {
    fs.insert(spec_schema_file_path(home, owner, repo, name), content)
}

/// Saving twice with identical arguments leaves the store in the same
/// observable state as saving once, and that state holds the given content
/// at the derived path.
pub proof fn lemma_save_schema_idempotent(
    fs: Map<Seq<char>, Seq<char>>,
    home: Seq<char>,
    owner: Seq<char>,
    repo: Seq<char>,
    name: Seq<char>,
    content: Seq<char>,
)
    ensures
        spec_store_after(spec_store_after(fs, home, owner, repo, name, content),
            home, owner, repo, name, content,
        ) =~= spec_store_after(fs, home, owner, repo, name, content),
        spec_store_after(fs, home, owner, repo, name, content)[spec_schema_file_path(
            home, owner, repo, name,
        )] == content,
{
}

/// The local schema store: one file per pulled schema, under a fixed
/// per-user directory keyed by owner and repository.
pub struct Store {}

impl Store {
    /// The path a save writes to, derived from the user's home directory,
    /// the repository owner and name, and the schema's file name.
    pub fn schema_file_path(
        home: &str,
        repo_owner: &str,
        repo_name: &str,
        schema_name: &str,
    ) -> (r: String)
        ensures
            r@ == spec_schema_file_path(home@, repo_owner@, repo_name@, schema_name@),
    {
        String::from_str(home)
            .concat("/.schemastore/")
            .concat(repo_owner)
            .concat("/")
            .concat(repo_name)
            .concat("/")
            .concat(schema_name)
    }
}

} // verus!
