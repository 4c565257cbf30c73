use vstd::prelude::*;
use vstd::slice::slice_to_vec;
use vstd::string::StrSliceExecFns;
use crate::table::{assoc, find_entry, table_view};

verus! {

/// Number of leading path separators of `p`.
pub open spec fn leading_slashes(p: Seq<char>) -> int
    decreases p.len(),
{
    if p.len() > 0 && p[0] == '/' {
        1 + leading_slashes(p.drop_first())
    } else {
        0
    }
}

/// `p` with every leading path separator stripped.
pub open spec fn normalize(p: Seq<char>) -> Seq<char> {
    p.subrange(leading_slashes(p), p.len() as int)
}

/// When exactly the first `i` characters of `p` are separators, `i` is the
/// number of leading separators.
proof fn lemma_leading_slashes_is(p: Seq<char>, i: int)
    requires
        0 <= i <= p.len(),
        forall|j: int| 0 <= j < i ==> p[j] == '/',
        i == p.len() || p[i] != '/',
    ensures
        leading_slashes(p) == i,
    decreases i,
{
    if i == 0 {
    } else {
        assert(p[0] == '/');
        assert(forall|j: int| 0 <= j < i - 1 ==> p.drop_first()[j] == p[j + 1]);
        lemma_leading_slashes_is(p.drop_first(), i - 1);
    }
}

/// Strip every leading path separator, as asset lookup does before
/// consulting the backing store.
pub fn strip_leading_slashes(p: &str) -> (r: String)
    ensures
        r@ == normalize(p@),
{
    let n = p.unicode_len();
    let mut i: usize = 0;
    loop
        invariant
            0 <= i <= n,
            n == p@.len(),
            forall|j: int| 0 <= j < i ==> p@[j] == '/',
        ensures
            0 <= i <= n,
            forall|j: int| 0 <= j < i ==> p@[j] == '/',
            i == n || p@[i as int] != '/',
        decreases n - i,
    {
        if i >= n {
            break ;
        }
        if p.get_char(i) != '/' {
            break ;
        }
        i += 1;
    }
    proof {
        lemma_leading_slashes_is(p@, i as int);
    }
    let suf = p.substring_char(i, n);
    suf.to_owned()
}

/// A parent-directory segment ends at position `i + 2` of `p`: two dots
/// bounded by separators or the path's ends.
pub open spec fn dotdot_at(p: Seq<char>, i: int) -> bool {
    &&& 0 <= i
    &&& i + 2 <= p.len()
    &&& p[i] == '.'
    &&& p[i + 1] == '.'
    &&& (i == 0 || p[i - 1] == '/')
    &&& (i + 2 == p.len() || p[i + 2] == '/')
}

/// Whether `p` holds a parent-directory segment anywhere. Such a path could
/// escape the asset root and is rejected.
pub open spec fn has_dotdot(p: Seq<char>) -> bool {
    exists|i: int| dotdot_at(p, i)
}

/// Decide whether `p` holds a parent-directory segment.
pub fn contains_dotdot(p: &str) -> (r: bool)
    ensures
        r == has_dotdot(p@),
{
    let n = p.unicode_len();
    if n < 2 {
        proof {
            assert(forall|i: int| !dotdot_at(p@, i));
        }
        return false;
    }
    let mut i: usize = 0;
    while i <= n - 2
        invariant
            0 <= i <= n,
            n == p@.len(),
            n >= 2,
            forall|k: int| 0 <= k < i ==> !dotdot_at(p@, k),
        decreases n - i,
    {
        let c0 = p.get_char(i);
        let c1 = p.get_char(i + 1);
        let sep_before = i == 0 || p.get_char(i - 1) == '/';
        let sep_after = i + 2 == n || p.get_char(i + 2) == '/';
        if c0 == '.' && c1 == '.' && sep_before && sep_after {
            proof {
                assert(dotdot_at(p@, i as int));
            }
            return true;
        }
        i += 1;
    }
    proof {
        assert forall|k: int| !dotdot_at(p@, k) by {
            if 0 <= k < i {
            } else if k >= i {
                assert(k + 2 > n);
            }
        }
    }
    false
}

/// What mime_guess infers for a path: a content type determined by the
/// path's characters (in fact, its extension) alone.
pub uninterp spec fn mime_of(path: Seq<char>) -> Seq<char>;

/// Relies on mime_guess::from_path and MimeGuess::first_or_octet_stream:
/// the content type inferred from the path's extension through the crate's
/// static extension table, application/octet-stream when the extension is
/// unknown. The result depends on the path alone.
#[verifier::external_body]
fn guess_mime(path: &str) -> (r: String)
    ensures
        r@ == mime_of(path@),
{
    mime_guess::from_path(path).first_or_octet_stream().to_string()
}

/// What asset resolution yields: the stored bytes with a content type, or
/// nothing.
pub enum Resolution {
    Found { body: Vec<u8>, content_type: String },
    NotFound,
}

/// The outcome of resolving `p` against a backing store holding `entries`:
/// strip leading separators, refuse parent-directory segments, then look the
/// path up; a hit carries the stored bytes and the inferred content type.
pub open spec fn resolution_of(entries: Seq<(Seq<char>, Seq<u8>)>, p: Seq<char>) -> Option<
    (Seq<u8>, Seq<char>),
> {
    let n = normalize(p);
    if has_dotdot(n) {
        None
    } else {
        match assoc(entries, n) {
            Some(b) => Some((b, mime_of(n))),
            None => None,
        }
    }
}

/// The embedded asset strategy's backing store: a read-only path-to-bytes
/// table fixed before the server accepts traffic.
pub struct AssetStore {
    entries: Vec<(String, Vec<u8>)>,
}

impl View for AssetStore {
    type V = Seq<(Seq<char>, Seq<u8>)>;

    closed spec fn view(&self) -> Seq<(Seq<char>, Seq<u8>)> {
        table_view(self.entries@)
    }
}

impl AssetStore {
    /// Build the store from its entries; the first entry for a path wins.
    pub fn from_entries(entries: Vec<(String, Vec<u8>)>) -> (r: AssetStore)
        ensures
            r@ == table_view(entries@),
    {
        AssetStore { entries }
    }

    /// The stored bytes for an already-normalized path.
    pub fn get(&self, path: &str) -> (r: Option<Vec<u8>>)
        ensures
            match r {
                Some(b) => assoc(self@, path@) == Some(b@),
                None => assoc(self@, path@) is None,
            },
    {
        match find_entry(&self.entries, path) {
            Some(i) => Some(slice_to_vec(self.entries[i].1.as_slice())),
            None => None,
        }
    }

    /// Resolve a relative asset path: return the stored bytes and the
    /// content type inferred from the path, or nothing when the path is
    /// absent or holds a parent-directory segment.
    pub fn resolve(&self, path: &str) -> (r: Resolution)
        ensures
            match r {
                Resolution::Found { body, content_type } => resolution_of(self@, path@)
                    == Some((body@, content_type@)),
                Resolution::NotFound => resolution_of(self@, path@) is None,
            },
    {
        let norm = strip_leading_slashes(path);
        if contains_dotdot(norm.as_str()) {
            return Resolution::NotFound;
        }
        match self.get(norm.as_str()) {
            Some(body) => Resolution::Found { content_type: guess_mime(norm.as_str()), body },
            None => Resolution::NotFound,
        }
    }
}

/// The single relative path the filesystem strategy may read for `p`: the
/// normalized path, confined to the asset root by refusing parent-directory
/// segments.
pub open spec fn fs_read_plan(p: Seq<char>) -> Option<Seq<char>> {
    let n = normalize(p);
    if has_dotdot(n) {
        None
    } else {
        Some(n)
    }
}

/// Plan the storage read of the filesystem strategy: the normalized path to
/// read below the asset root, or nothing when the path must be refused.
pub fn plan_fs_read(path: &str) -> (r: Option<String>)
    ensures
        match r {
            Some(n) => fs_read_plan(path@) == Some(n@),
            None => fs_read_plan(path@) is None,
        },
{
    let norm = strip_leading_slashes(path);
    if contains_dotdot(norm.as_str()) {
        None
    } else {
        Some(norm)
    }
}

/// The bytes a storage read handed back, if it succeeded.
pub open spec fn read_view(read: Option<Vec<u8>>) -> Option<Seq<u8>> {
    match read {
        Some(b) => Some(b@),
        None => None,
    }
}

/// The outcome of the filesystem strategy once the storage read of the
/// planned path `n` came back: a failed or missing read is not found, a
/// successful one carries the bytes read and the inferred content type.
pub open spec fn fs_resolution_of(n: Seq<char>, read: Option<Seq<u8>>) -> Option<
    (Seq<u8>, Seq<char>),
> {
    match read {
        Some(b) => Some((b, mime_of(n))),
        None => None,
    }
}

/// Finish the filesystem strategy: `norm` is the planned path and `read`
/// what the storage read of it yielded.
pub fn resolve_fs(norm: &str, read: Option<Vec<u8>>) -> (r: Resolution)
    ensures
        match r {
            Resolution::Found { body, content_type } => fs_resolution_of(norm@, read_view(read))
                == Some((body@, content_type@)),
            Resolution::NotFound => fs_resolution_of(norm@, read_view(read)) is None,
        },
{
    match read {
        Some(body) => Resolution::Found { content_type: guess_mime(norm), body },
        None => Resolution::NotFound,
    }
}

/// Resolution is exact: a path whose normal form the backing store holds
/// resolves to precisely the stored bytes under the content type inferred
/// from it, and a path the store misses resolves to nothing.
pub proof fn lemma_resolution_exact(entries: Seq<(Seq<char>, Seq<u8>)>, p: Seq<char>)
    requires
        !has_dotdot(normalize(p)),
    ensures
        assoc(entries, normalize(p)) matches Some(b) ==> resolution_of(entries, p) == Some(
            (b, mime_of(normalize(p))),
        ),
        assoc(entries, normalize(p)) is None ==> resolution_of(entries, p) is None,
{
}

/// The two asset strategies resolve alike: when the storage read of the
/// planned path returns exactly what a store's table holds for it, the
/// filesystem outcome equals the embedded outcome, bytes and content type
/// both.
pub proof fn lemma_strategies_agree(
    entries: Seq<(Seq<char>, Seq<u8>)>,
    p: Seq<char>,
    read: Option<Seq<u8>>,
)
    requires
        fs_read_plan(p) is Some,
        read == assoc(entries, normalize(p)),
    ensures
        fs_resolution_of(normalize(p), read) == resolution_of(entries, p),
{
}

} // verus!
