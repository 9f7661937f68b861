use vstd::prelude::*;
use vstd::string::StringExecFns;

use crate::codec::{base64_decode, spec_content_text, string_from_utf8};
use crate::error::PullError;
use crate::text::{str_ends_with, strip_newlines};
use crate::tree::{spec_schema_paths, Tree};

verus! {

/// A handle on the remote API, holding the bearer token that every request
/// carries.
pub struct Gh {
    api_token: String,
}

/// The kind of a tree entry as the remote reports it: `Blob` for a file,
/// `Tree` for a directory.
#[derive(Clone, Copy, Debug, PartialEq, Eq, Structural)]
pub enum GhResponseEntryKind {
    Blob,
    Tree,
}

/// One entry of a repository tree listing: a slash-separated,
/// repo-root-relative path together with the kind of object it names.
#[derive(Clone, Debug)]
pub struct GhResponseEntry {
    pub path: String,
    pub kind: GhResponseEntryKind,
}

/// One tree entry as the remote's JSON carries it, before its kind tag has
/// been checked against the expected shape.
#[derive(Clone, Debug)]
pub struct RawTreeEntry {
    pub path: String,
    pub kind: String,
}

/// A repository reference whose tree listing has been fetched: it can name
/// schema candidates and decode fetched file content.
#[derive(Debug)]
pub struct GhRepo {
    owner: String,
    name: String,
    token: String,
    entries: Vec<GhResponseEntry>,
}

/// The entry kind a tag string denotes: `blob` is a file, `tree` a
/// directory; any other tag is outside the expected response shape.
pub open spec fn spec_kind_of_tag(tag: Seq<char>) -> Option<GhResponseEntryKind> {
    if tag == "blob"@ {
        Some(GhResponseEntryKind::Blob)
    } else if tag == "tree"@ {
        Some(GhResponseEntryKind::Tree)
    } else {
        None
    }
}

/// The checked entries mirror the raw listing: same length, same paths in
/// the same order, and each kind read off the entry's tag.
pub open spec fn spec_entries_converted(
    entries: Seq<GhResponseEntry>,
    raw: Seq<RawTreeEntry>,
) -> bool {
    &&& entries.len() == raw.len()
    &&& forall|j: int|
        0 <= j < raw.len() ==> {
            &&& #[trigger] entries[j].path@ == raw[j].path@
            &&& spec_kind_of_tag(raw[j].kind@) == Some(entries[j].kind)
        }
}

/// The URL of the recursive tree listing for one repository reference.
pub open spec fn spec_tree_url(owner: Seq<char>, name: Seq<char>, sha: Seq<char>) -> Seq<char> {
    "https://api.github.com/repos/"@ + owner + "/"@ + name + "/git/trees/"@ + sha
        + "?recursive=1"@
}

/// The URL of the single-file content endpoint for one path of the
/// repository.
pub open spec fn spec_content_url(owner: Seq<char>, name: Seq<char>, path: Seq<char>) -> Seq<char> {
    "https://api.github.com/repos/"@ + owner + "/"@ + name + "/contents/"@ + path
}

/// The three request headers every call to the remote carries: the media
/// type, the bearer authorization built from `token`, and the API version.
pub open spec fn spec_request_headers(token: Seq<char>) -> Seq<(Seq<char>, Seq<char>)> {
    seq![
        ("Accept"@, "application/vnd.github+json"@),
        ("Authorization"@, "Bearer "@ + token),
        ("X-GitHub-Api-Version"@, "2022-11-28"@),
    ]
}

/// Header pairs for one authenticated request.
fn headers_for_token(token: &str) -> (r: Vec<(String, String)>)
    ensures
        r.deep_view() == spec_request_headers(token@),
{
    let mut r: Vec<(String, String)> = Vec::new();
    r.push((String::from_str("Accept"), String::from_str("application/vnd.github+json")));
    r.push((String::from_str("Authorization"), String::from_str("Bearer ").concat(token)));
    r.push((String::from_str("X-GitHub-Api-Version"), String::from_str("2022-11-28")));
    proof {
        assert(r.deep_view() =~= spec_request_headers(token@));
    }
    r
}

impl Gh {
    /// The bearer token this handle attaches to every request.
    pub closed spec fn token_view(&self) -> Seq<char> {
        self.api_token@
    }

    /// A handle that authenticates with the given bearer token.
    pub fn new(api_token: String) -> (r: Gh)
        ensures
            r.token_view() == api_token@,
    {
        Gh { api_token }
    }

    /// Builds the handle from a credential read out-of-band; a missing
    /// token is a startup configuration error, not a runtime one.
    pub fn from_token(api_token: Option<String>) -> (r: Result<Gh, PullError>)
        ensures
            match api_token {
                Some(t) => r matches Ok(g) && g.token_view() == t@,
                None => r matches Err(PullError::Config(_)),
            },
    {
        match api_token {
            Some(t) => Ok(Gh::new(t)),
            None => Err(
                PullError::Config(String::from_str("no API token was supplied in the environment")),
            ),
        }
    }

    /// The URL of the recursive tree listing for one repository reference.
    pub fn tree_url(owner: &str, name: &str, sha: &str) -> (r: String)
        ensures
            r@ == spec_tree_url(owner@, name@, sha@),
    {
        String::from_str("https://api.github.com/repos/")
            .concat(owner)
            .concat("/")
            .concat(name)
            .concat("/git/trees/")
            .concat(sha)
            .concat("?recursive=1")
    }

    /// The headers a tree-listing request must carry.
    pub fn request_headers(&self) -> (r: Vec<(String, String)>)
        ensures
            r.deep_view() == spec_request_headers(self.token_view()),
    {
        headers_for_token(self.api_token.as_str())
    }

    /// Assembles a fetched tree listing into a repository handle, checking
    /// that every entry carries one of the two expected kind tags; an
    /// unknown tag means the response body is not of the expected shape.
    pub fn into_repo(self, owner: &str, name: &str, raw: Vec<RawTreeEntry>) -> (r: Result<
        GhRepo,
        PullError,
    >)
        ensures
            match r {
                Ok(repo) => {
                    &&& repo.owner_view() == owner@
                    &&& repo.name_view() == name@
                    &&& repo.token_view() == self.token_view()
                    &&& spec_entries_converted(repo.entries_view(), raw@)
                },
                Err(e) => {
                    &&& e matches PullError::Decode(_)
                    &&& exists|i: int|
                        0 <= i < raw@.len() && spec_kind_of_tag(#[trigger] raw@[i].kind@) is None
                },
            },
    {
        let blob = String::from_str("blob");
        let tree = String::from_str("tree");
        let mut entries: Vec<GhResponseEntry> = Vec::new();
        let n = raw.len();
        let mut i: usize = 0;
        while i < n
            invariant
                n == raw@.len(),
                i <= n,
                blob@ == "blob"@,
                tree@ == "tree"@,
                spec_entries_converted(entries@, raw@.take(i as int)),
            decreases n - i,
        {
            let e = &raw[i];
            let is_blob = e.kind == blob;
            let is_tree = e.kind == tree;
            if !is_blob && !is_tree {
                proof {
                    assert(spec_kind_of_tag(raw@[i as int].kind@) is None);
                }
                return Err(
                    PullError::Decode(
                        String::from_str("tree listing held an entry of an unexpected type"),
                    ),
                );
            }
            let kind = if is_blob {
                GhResponseEntryKind::Blob
            } else {
                GhResponseEntryKind::Tree
            };
            let ghost pre = entries@;
            entries.push(GhResponseEntry { path: e.path.clone(), kind });
            proof {
                let taken = raw@.take(i + 1);
                assert(entries@[i as int] == (GhResponseEntry { path: e.path, kind }));
                assert(spec_kind_of_tag(raw@[i as int].kind@) == Some(kind));
                assert forall|j: int|
                    0 <= j < taken.len() implies {
                        &&& #[trigger] entries@[j].path@ == taken[j].path@
                        &&& spec_kind_of_tag(taken[j].kind@) == Some(entries@[j].kind)
                    } by {
                    assert(taken[j] == raw@[j]);
                    if j < i {
                        assert(raw@.take(i as int)[j] == raw@[j]);
                        assert(pre[j].path@ == raw@.take(i as int)[j].path@);
                        assert(spec_kind_of_tag(raw@.take(i as int)[j].kind@) == Some(pre[j].kind));
                        assert(entries@[j] == pre[j]);
                    }
                }
                assert(spec_entries_converted(entries@, taken));
            }
            i = i + 1;
        }
        proof {
            assert(raw@.take(n as int) =~= raw@);
        }
        Ok(GhRepo { owner: owner.to_owned(), name: name.to_owned(), token: self.api_token, entries })
    }
}

impl GhRepo {
    /// The owner the repository was fetched for.
    pub closed spec fn owner_view(&self) -> Seq<char> {
        self.owner@
    }

    /// The repository name it was fetched for.
    pub closed spec fn name_view(&self) -> Seq<char> {
        self.name@
    }

    /// The bearer token its content requests carry.
    pub closed spec fn token_view(&self) -> Seq<char> {
        self.token@
    }

    /// The tree entries of the fetched listing, in source order.
    pub closed spec fn entries_view(&self) -> Seq<GhResponseEntry> {
        self.entries@
    }

    /// The URL of the content endpoint for one path of this repository.
    pub fn content_url(&self, path: &str) -> (r: String)
        ensures
            r@ == spec_content_url(self.owner_view(), self.name_view(), path@),
    {
        String::from_str("https://api.github.com/repos/")
            .concat(self.owner.as_str())
            .concat("/")
            .concat(self.name.as_str())
            .concat("/contents/")
            .concat(path)
    }

    /// The headers a content request for this repository must carry.
    pub fn request_headers(&self) -> (r: Vec<(String, String)>)
        ensures
            r.deep_view() == spec_request_headers(self.token_view()),
    {
        headers_for_token(self.token.as_str())
    }

    /// The decoded text of one fetched content payload. The remote must
    /// declare base64 encoding: any other tag fails without any attempt at
    /// decoding. Line breaks wrapped into the payload are dropped before
    /// decoding, and the decoded bytes must be valid UTF-8 text.
    pub fn decode_content(&self, content: &str, encoding: &String) -> (r: Result<
        String,
        PullError,
    >)
        ensures
            encoding@ != "base64"@ ==> (r matches Err(PullError::UnsupportedEncoding(m))
                && m@ == "Unexpected encoding: "@ + encoding@),
            encoding@ == "base64"@ ==> match spec_content_text(content@) {
                Some(t) => r matches Ok(s) && s@ == t,
                None => r matches Err(PullError::Decode(_)),
            },
    {
        let expected = String::from_str("base64");
        if !(*encoding == expected) {
            return Err(
                PullError::UnsupportedEncoding(
                    String::from_str("Unexpected encoding: ").concat(encoding.as_str()),
                ),
            );
        }
        let cleaned = strip_newlines(content);
        let bytes = match base64_decode(cleaned.as_str()) {
            Ok(v) => v,
            Err(_) => {
                return Err(
                    PullError::Decode(String::from_str("schema content is not valid base64")),
                );
            },
        };
        match string_from_utf8(bytes) {
            Ok(s) => Ok(s),
            Err(_) => Err(
                PullError::Decode(String::from_str("decoded schema bytes are not valid UTF-8 text")),
            ),
        }
    }
}

impl Tree for GhRepo {
    open spec fn tree_entries(&self) -> Seq<GhResponseEntry> {
        self.entries_view()
    }

    fn find_schemas(&self) -> (r: Vec<String>) {
        let mut r: Vec<String> = Vec::new();
        let n = self.entries.len();
        let mut i: usize = 0;
        while i < n
            invariant
                n == self.entries@.len(),
                i <= n,
                r.deep_view() == spec_schema_paths(self.entries@.take(i as int)),
            decreases n - i,
        {
            proof {
                assert(self.entries@.take(i + 1).drop_last() =~= self.entries@.take(i as int));
            }
            let e = &self.entries[i];
            let matched = match e.kind {
                GhResponseEntryKind::Blob => str_ends_with(e.path.as_str(), "schema.json"),
                GhResponseEntryKind::Tree => false,
            };
            if matched {
                let ghost pre = r.deep_view();
                r.push(e.path.clone());
                proof {
                    assert(r.deep_view() =~= pre.push(e.path@));
                }
            }
            i = i + 1;
        }
        proof {
            assert(self.entries@.take(n as int) =~= self.entries@);
        }
        r
    }
}

/// The outcome of the tree-listing response: only a 200 status carries a
/// usable body; any other status aborts the run, keeping the response body
/// verbatim so the user can diagnose a bad token or an unknown repository
/// or reference.
pub fn tree_status_check(status: u16, body: &String) -> (r: Result<(), PullError>)
    ensures
        status == 200 ==> r is Ok,
        status != 200 ==> (r matches Err(PullError::Api(m))
            && m@ == "Failed to fetch repo tree: "@ + body@),
{
    if status == 200 {
        Ok(())
    } else {
        Err(PullError::Api(String::from_str("Failed to fetch repo tree: ").concat(body.as_str())))
    }
}

/// The outcome of the single-file content response, as
/// [`tree_status_check`] but for the content endpoint.
pub fn content_status_check(status: u16, body: &String) -> (r: Result<(), PullError>)
    ensures
        status == 200 ==> r is Ok,
        status != 200 ==> (r matches Err(PullError::Api(m))
            && m@ == "Failed to fetch schema file: "@ + body@),
{
    if status == 200 {
        Ok(())
    } else {
        Err(PullError::Api(String::from_str("Failed to fetch schema file: ").concat(body.as_str())))
    }
}

} // verus!
