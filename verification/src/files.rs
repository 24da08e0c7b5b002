//! Auxiliary files: identifiers, the cache, and the resolver that maps an
//! identifier to bytes below one root.
//!
//! The resolver never touches the disk itself. It decides whether an
//! identifier may be served, whether its bytes are already held, and which
//! path is to be read; the caller reads, and the resolver takes what came
//! back. What is held is never replaced or dropped.

use vstd::prelude::*;
use vstd::string::*;
use vstd::utf8::{decode_utf8, encode_utf8, encode_utf8_decode_utf8, valid_utf8};

use crate::bytes::{copy_bytes, seen};
use crate::paths::{
    all_names, below, contained_in, lemma_below_injective, normal_form, PathModel, VirtualPath,
};
use crate::text::{optional_text, shown};

verus! {

/// Why a file was not served.
#[derive(Clone, Copy, Debug, PartialEq, Eq, Structural)]
pub enum FileResolutionError {
    /// There is no such file below the root, or the identifier names a place
    /// outside it or in a package.
    NotFound,
    /// The file is there and could not be read.
    NotReadable,
    /// The file was asked for as text and is not valid UTF-8.
    InvalidEncoding,
}

/// Why a read gave no bytes.
#[derive(Clone, Copy, Debug, PartialEq, Eq, Structural)]
pub enum ReadFailure {
    /// Nothing is at the path.
    Missing,
    /// Something is at the path and cannot be read.
    Unreadable,
}

/// What a file identifier stands for: the package it belongs to, if any, and
/// its path in normal form.
pub ghost struct FileKey {
    pub package: Option<Seq<char>>,
    pub path: PathModel,
}

/// What the resolver holds: its root, and the bytes of every file read so
/// far.
pub ghost struct ResolverModel {
    pub root: Seq<char>,
    pub cache: Map<FileKey, Seq<u8>>,
}

/// What the resolver decides before anything is read.
pub ghost enum Planned {
    /// The identifier is not served.
    Fail(FileResolutionError),
    /// The bytes are held already.
    Cached(Seq<u8>),
    /// The file at this path is to be read.
    Read(Seq<char>),
}

/// Whether the resolver serves `key` at all: it belongs to no package and
/// its path does not leave the root.
pub open spec fn servable(key: FileKey) -> bool {
    key.package is None && key.path.ascents == 0
}

/// What the resolver decides for `key`, by what it holds.
pub open spec fn planned(resolver: ResolverModel, key: FileKey) -> Planned {
    if !servable(key) {
        Planned::Fail(FileResolutionError::NotFound)
    } else if resolver.cache.contains_key(key) {
        Planned::Cached(resolver.cache[key])
    } else {
        Planned::Read(below(resolver.root, key.path.names))
    }
}

/// What the resolver holds and answers once a read for `key` has come back
/// with `outcome`. Bytes that are held win over bytes that come in.
pub open spec fn completion(
    resolver: ResolverModel,
    key: FileKey,
    outcome: Result<Seq<u8>, ReadFailure>,
) -> (ResolverModel, Result<Seq<u8>, FileResolutionError>) {
    if !servable(key) {
        (resolver, Err(FileResolutionError::NotFound))
    } else if resolver.cache.contains_key(key) {
        (resolver, Ok(resolver.cache[key]))
    } else {
        match outcome {
            Ok(bytes) => (
                ResolverModel { root: resolver.root, cache: resolver.cache.insert(key, bytes) },
                Ok(bytes),
            ),
            Err(ReadFailure::Missing) => (resolver, Err(FileResolutionError::NotFound)),
            Err(ReadFailure::Unreadable) => (resolver, Err(FileResolutionError::NotReadable)),
        }
    }
}

/// What bytes are as text: the characters that they encode in UTF-8, or
/// `InvalidEncoding` where they encode none.
pub open spec fn decoded(bytes: Seq<u8>) -> Result<Seq<char>, FileResolutionError> {
    if valid_utf8(bytes) {
        Ok(decode_utf8(bytes))
    } else {
        Err(FileResolutionError::InvalidEncoding)
    }
}

/// Whether `after` and `answer` are what a resolution of `key` may leave
/// and give, from `before` and with `read` to do the reading.
///
/// Where the plan is to read, `read` was called once, with the planned path,
/// which lies within the root, and state and answer are the completion of
/// what it returned. In every other case the answer is the plan's, and
/// nothing changes.
pub open spec fn resolution<F: FnOnce(String) -> Result<Vec<u8>, ReadFailure>>(
    before: ResolverModel,
    key: FileKey,
    read: F,
    after: ResolverModel,
    answer: Result<Seq<u8>, FileResolutionError>,
) -> bool {
    match planned(before, key) {
        Planned::Fail(error) => after == before && answer == Err::<Seq<u8>, FileResolutionError>(
            error,
        ),
        Planned::Cached(bytes) => after == before && answer == Ok::<Seq<u8>, FileResolutionError>(
            bytes,
        ),
        Planned::Read(at) => exists|path: String, outcome: Result<Vec<u8>, ReadFailure>|
            {
                &&& path@ == at
                &&& contained_in(before.root, at)
                &&& #[trigger] call_ensures(read, (path,), outcome)
                &&& (after, answer) == completion(before, key, seen(outcome))
            },
    }
}

/// Whether `read` may be called for whatever a resolution of `key` from
/// `before` has to read: a path that is planned and lies within the root.
pub open spec fn may_read<F: FnOnce(String) -> Result<Vec<u8>, ReadFailure>>(
    before: ResolverModel,
    key: FileKey,
    read: F,
) -> bool {
    forall|path: String|
        planned(before, key) == Planned::Read(path@) && contained_in(before.root, path@)
            ==> #[trigger] call_requires(read, (path,))
}

/// Whether `after` and `answer` are what a resolution of `key` as text may
/// leave and give: those of some resolution, its bytes decoded. Bytes that
/// are not valid UTF-8 give `InvalidEncoding` and stay held.
pub open spec fn text_resolution<F: FnOnce(String) -> Result<Vec<u8>, ReadFailure>>(
    before: ResolverModel,
    key: FileKey,
    read: F,
    after: ResolverModel,
    answer: Result<Seq<char>, FileResolutionError>,
) -> bool {
    exists|found: Result<Seq<u8>, FileResolutionError>|
        {
            &&& #[trigger] resolution(before, key, read, after, found)
            &&& answer == match found {
                Ok(bytes) => decoded(bytes),
                Err(error) => Err::<Seq<char>, FileResolutionError>(error),
            }
        }
}

/// An identifier that leaves the root is never read and never served: the
/// plan fails with `NotFound`, and so does the completion, whatever a read
/// would have returned and whatever is held. The same holds of an identifier
/// in a package.
pub proof fn lemma_outside_root_not_found(
    resolver: ResolverModel,
    key: FileKey,
    outcome: Result<Seq<u8>, ReadFailure>,
)
    requires
        key.path.ascents > 0 || key.package is Some,
    ensures
        planned(resolver, key) == Planned::Fail(FileResolutionError::NotFound),
        completion(resolver, key, outcome) == (
            resolver,
            Err::<Seq<u8>, FileResolutionError>(FileResolutionError::NotFound),
        ),
{
}

/// Every path that the resolver asks to have read lies within the root: it
/// is the root followed by names, with no climb among them.
pub proof fn lemma_reads_stay_within_root(resolver: ResolverModel, key: FileKey)
    requires
        all_names(key.path.names),
        planned(resolver, key) is Read,
    ensures
        contained_in(resolver.root, planned(resolver, key)->Read_0),
{
    assert(planned(resolver, key)->Read_0 == below(resolver.root, key.path.names));
}

/// After one successful resolution of `key`, the next one is answered from
/// the cache with the same bytes: nothing is planned to be read, and
/// whatever a read would return changes neither the answer nor what is held.
pub proof fn lemma_resolved_stays_cached(
    resolver: ResolverModel,
    key: FileKey,
    first: Result<Seq<u8>, ReadFailure>,
    second: Result<Seq<u8>, ReadFailure>,
)
    requires
        completion(resolver, key, first).1 is Ok,
    ensures
        ({
            let (after, answer) = completion(resolver, key, first);
            &&& planned(after, key) == Planned::Cached(answer->Ok_0)
            &&& completion(after, key, second) == (after, answer)
        }),
{
}

/// The cache only grows: what was held before a completion is held after it,
/// unchanged, and the root stays.
pub proof fn lemma_cache_only_grows(
    resolver: ResolverModel,
    key: FileKey,
    outcome: Result<Seq<u8>, ReadFailure>,
)
    ensures
        completion(resolver, key, outcome).0.root == resolver.root,
        resolver.cache.submap_of(completion(resolver, key, outcome).0.cache),
{
}

/// Resolving one identifier leaves the answer for every other one as it was.
pub proof fn lemma_other_keys_untouched(
    resolver: ResolverModel,
    key: FileKey,
    outcome: Result<Seq<u8>, ReadFailure>,
    other: FileKey,
)
    requires
        other != key,
    ensures
        planned(completion(resolver, key, outcome).0, other) == planned(resolver, other),
{
}

/// No two identifiers are read from the same path: where the plans for two
/// identifiers are reads of one path, the identifiers are one.
pub proof fn lemma_no_two_files_alias(resolver: ResolverModel, one: FileKey, other: FileKey)
    requires
        all_names(one.path.names),
        all_names(other.path.names),
        planned(resolver, one) is Read,
        planned(resolver, other) is Read,
        planned(resolver, one)->Read_0 == planned(resolver, other)->Read_0,
    ensures
        one == other,
{
    lemma_below_injective(resolver.root, one.path.names, other.path.names);
}

/// The identifier of an auxiliary file: an optional package and a path in
/// normal form.
#[derive(Debug)]
pub struct VirtualFileId {
    package: Option<String>,
    path: VirtualPath,
}

impl View for VirtualFileId {
    type V = FileKey;

    closed spec fn view(&self) -> FileKey {
        FileKey { package: optional_text(self.package), path: self.path@ }
    }
}

impl VirtualFileId {
    /// Makes the identifier of the file at `path`, in `package` if one is
    /// given. The path is brought into normal form, so that two spellings of
    /// one place give one identifier.
    pub fn new(package: Option<String>, path: &str) -> (id: VirtualFileId)
        ensures
            id@ == (FileKey { package: optional_text(package), path: normal_form(path@) }),
            all_names(id@.path.names),
    {
        VirtualFileId { package, path: VirtualPath::new(path) }
    }

    /// The package the file belongs to, if any.
    pub fn package(&self) -> (package: &Option<String>)
        ensures
            optional_text(*package) == self@.package,
    {
        &self.package
    }

    /// The path of the file.
    pub fn path(&self) -> (path: &VirtualPath)
        ensures
            path@ == self@.path,
    {
        &self.path
    }

    /// Tests whether two identifiers name the same file.
    pub fn same_as(&self, other: &VirtualFileId) -> (same: bool)
        ensures
            same == (self@ == other@),
    {
        let same_package = match (&self.package, &other.package) {
            (Some(mine), Some(theirs)) => *mine == *theirs,
            (None, None) => true,
            _ => false,
        };
        same_package && self.path.same_as(&other.path)
    }

    /// A copy of the identifier.
    pub fn duplicate(&self) -> (copy: VirtualFileId)
        ensures
            copy@ == self@,
    {
        let package = match &self.package {
            Some(name) => Some(name.clone()),
            None => None,
        };
        VirtualFileId { package, path: self.path.duplicate() }
    }

    /// Tests whether the resolver serves this identifier at all.
    pub fn is_servable(&self) -> (yes: bool)
        ensures
            yes == servable(self@),
    {
        self.package.is_none() && self.path.ascents() == 0
    }
}

/// One file that was read: its identifier and its bytes.
#[derive(Debug)]
pub struct FileCacheEntry {
    id: VirtualFileId,
    bytes: Vec<u8>,
}

/// What a run of entries holds: for each identifier the bytes of the first
/// entry that has it.
pub open spec fn held(entries: Seq<(FileKey, Seq<u8>)>) -> Map<FileKey, Seq<u8>>
    decreases entries.len(),
{
    if entries.len() == 0 {
        Map::empty()
    } else {
        let before = held(entries.drop_last());
        if before.contains_key(entries.last().0) {
            before
        } else {
            before.insert(entries.last().0, entries.last().1)
        }
    }
}

/// An identifier that no entry has is not held.
proof fn lemma_absent(entries: Seq<(FileKey, Seq<u8>)>, key: FileKey)
    requires
        forall|i: int| 0 <= i < entries.len() ==> (#[trigger] entries[i]).0 != key,
    ensures
        !held(entries).contains_key(key),
    decreases entries.len(),
{
    if entries.len() > 0 {
        let before = entries.drop_last();
        assert forall|i: int| 0 <= i < before.len() implies (#[trigger] before[i]).0 != key by {
            assert(before[i] == entries[i]);
        }
        lemma_absent(before, key);
        assert(entries.last() == entries[entries.len() - 1]);
    }
}

/// The first entry that has an identifier gives its bytes.
proof fn lemma_first_wins(entries: Seq<(FileKey, Seq<u8>)>, at: int)
    requires
        0 <= at < entries.len(),
        forall|i: int| 0 <= i < at ==> (#[trigger] entries[i]).0 != entries[at].0,
    ensures
        held(entries).contains_key(entries[at].0),
        held(entries)[entries[at].0] == entries[at].1,
    decreases entries.len(),
{
    let before = entries.drop_last();
    if at == entries.len() - 1 {
        assert forall|i: int| 0 <= i < before.len() implies (#[trigger] before[i]).0
            != entries[at].0 by {
            assert(before[i] == entries[i]);
        }
        lemma_absent(before, entries[at].0);
    } else {
        assert(before[at] == entries[at]);
        assert forall|i: int| 0 <= i < at implies (#[trigger] before[i]).0 != before[at].0 by {
            assert(before[i] == entries[i]);
        }
        lemma_first_wins(before, at);
    }
}

/// The files read so far: a map from identifiers to bytes, to which entries
/// are added and in which none is changed or removed.
///
/// The entries are kept in the order in which they came and searched in that
/// order. A hash map would have the identifier, a structure of strings, as its
/// key, and of such a map nothing could be proved; what this one holds is
/// proved to be the map that its view names.
#[derive(Debug)]
pub struct FileCache {
    entries: Vec<FileCacheEntry>,
}

impl View for FileCache {
    type V = Map<FileKey, Seq<u8>>;

    closed spec fn view(&self) -> Map<FileKey, Seq<u8>> {
        held(self.pairs())
    }
}

impl FileCache {
    closed spec fn pairs(&self) -> Seq<(FileKey, Seq<u8>)> {
        self.entries@.map_values(|entry: FileCacheEntry| (entry.id@, entry.bytes@))
    }

    /// A cache that holds nothing.
    pub fn new() -> (cache: FileCache)
        ensures
            cache@ == Map::<FileKey, Seq<u8>>::empty(),
    {
        let cache = FileCache { entries: Vec::new() };
        assert(cache.pairs() =~= Seq::empty());
        cache
    }

    /// The bytes held for `id`, if any.
    pub fn get(&self, id: &VirtualFileId) -> (found: Option<&Vec<u8>>)
        ensures
            found is Some <==> self@.contains_key(id@),
            found matches Some(bytes) ==> bytes@ == self@[id@],
    {
        let mut i: usize = 0;
        while i < self.entries.len()
            invariant
                i <= self.entries.len(),
                forall|k: int| 0 <= k < i ==> (#[trigger] self.pairs()[k]).0 != id@,
            decreases self.entries.len() - i,
        {
            if self.entries[i].id.same_as(id) {
                proof {
                    assert(self.pairs()[i as int].0 == id@);
                    lemma_first_wins(self.pairs(), i as int);
                }
                return Some(&self.entries[i].bytes);
            }
            assert(self.pairs()[i as int].0 != id@);
            i = i + 1;
        }
        proof {
            lemma_absent(self.pairs(), id@);
        }
        None
    }

    /// Holds `bytes` for `id` unless bytes are held for it already: the
    /// first to come stay.
    pub fn remember(&mut self, id: VirtualFileId, bytes: Vec<u8>)
        ensures
            final(self)@ == if old(self)@.contains_key(id@) {
                old(self)@
            } else {
                old(self)@.insert(id@, bytes@)
            },
    {
        let ghost before = self.pairs();
        self.entries.push(FileCacheEntry { id, bytes });
        proof {
            assert(self.pairs().drop_last() =~= before);
            assert(self.pairs().last() == (id@, bytes@));
        }
    }
}

/// What the resolver decides before anything is read.
#[derive(Debug)]
pub enum Plan {
    /// The identifier is not served.
    Fail(FileResolutionError),
    /// The bytes are held already.
    Cached(Vec<u8>),
    /// The file at this path is to be read, and its outcome handed to
    /// `FileResolver::complete`.
    Read(String),
}

impl View for Plan {
    type V = Planned;

    open spec fn view(&self) -> Planned {
        match self {
            Plan::Fail(error) => Planned::Fail(*error),
            Plan::Cached(bytes) => Planned::Cached(bytes@),
            Plan::Read(path) => Planned::Read(path@),
        }
    }
}

/// Maps file identifiers to bytes below one root, and keeps what was read.
#[derive(Debug)]
pub struct FileResolver {
    root: String,
    cache: FileCache,
}

impl View for FileResolver {
    type V = ResolverModel;

    closed spec fn view(&self) -> ResolverModel {
        ResolverModel { root: self.root@, cache: self.cache@ }
    }
}

impl FileResolver {
    /// A resolver for the files below `root`, with nothing read yet.
    pub fn new(root: String) -> (resolver: FileResolver)
        ensures
            resolver@ == (ResolverModel { root: root@, cache: Map::empty() }),
    {
        FileResolver { root, cache: FileCache::new() }
    }

    /// The root below which files are served.
    pub fn root(&self) -> (root: &String)
        ensures
            root@ == self@.root,
    {
        &self.root
    }

    /// Decides what is to be done for `id`: nothing, because it is not
    /// served; nothing, because its bytes are held; or a read.
    pub fn plan(&self, id: &VirtualFileId) -> (plan: Plan)
        ensures
            plan@ == planned(self@, id@),
            plan@ matches Planned::Read(path) ==> contained_in(self@.root, path),
    {
        if !id.is_servable() {
            return Plan::Fail(FileResolutionError::NotFound);
        }
        match self.cache.get(id) {
            Some(bytes) => Plan::Cached(copy_bytes(bytes)),
            None => match id.path().under(self.root.as_str()) {
                Some(place) => Plan::Read(place),
                None => Plan::Fail(FileResolutionError::NotFound),
            },
        }
    }

    /// Takes what a read for `id` came back with, and answers.
    ///
    /// Bytes that are held for `id` are the answer, whatever came back: of
    /// two reads of one file the first wins. Otherwise bytes that came back
    /// are held from now on and are the answer, and a failed read fails the
    /// resolution and leaves the resolver as it was.
    pub fn complete(&mut self, id: VirtualFileId, outcome: Result<Vec<u8>, ReadFailure>) -> (answer:
        Result<Vec<u8>, FileResolutionError>)
        ensures
            (final(self)@, seen(answer)) == completion(old(self)@, id@, seen(outcome)),
    {
        if !id.is_servable() {
            return Err(FileResolutionError::NotFound);
        }
        match self.cache.get(&id) {
            Some(bytes) => {
                return Ok(copy_bytes(bytes));
            },
            None => {},
        }
        match outcome {
            Ok(bytes) => {
                let answer = copy_bytes(&bytes);
                self.cache.remember(id, bytes);
                Ok(answer)
            },
            Err(ReadFailure::Missing) => Err(FileResolutionError::NotFound),
            Err(ReadFailure::Unreadable) => Err(FileResolutionError::NotReadable),
        }
    }

    /// The bytes of the file that `id` names.
    ///
    /// `read` is called at most once, and only where `planned` says `Read`:
    /// with the path to read, which lies within the root, for an identifier
    /// that is served and whose bytes are not held. The answer and the new
    /// state are then the `completion` of what it returned. In every other
    /// case the answer is the plan's, and nothing changes.
    pub fn resolve<F>(&mut self, id: VirtualFileId, read: F) -> (answer: Result<
        Vec<u8>,
        FileResolutionError,
    >) where F: FnOnce(String) -> Result<Vec<u8>, ReadFailure>
        requires
            may_read(old(self)@, id@, read),
        ensures
            resolution(old(self)@, id@, read, final(self)@, seen(answer)),
    {
        match self.plan(&id) {
            Plan::Fail(error) => Err(error),
            Plan::Cached(bytes) => Ok(bytes),
            Plan::Read(path) => {
                let ghost asked = path;
                let outcome = read(path);
                let ghost came = outcome;
                let answer = self.complete(id, outcome);
                assert(asked@ == planned(old(self)@, id@)->Read_0 && contained_in(
                    old(self)@.root,
                    asked@,
                ) && call_ensures(read, (asked,), came) && (self@, seen(answer)) == completion(
                    old(self)@,
                    id@,
                    seen(came),
                ));
                answer
            },
        }
    }

    /// The text of the file that `id` names: what `resolve` gives, decoded.
    /// Bytes that are not valid UTF-8 fail with `InvalidEncoding`; they stay
    /// held, and `resolve` goes on to serve them.
    pub fn resolve_text<F>(&mut self, id: VirtualFileId, read: F) -> (answer: Result<
        String,
        FileResolutionError,
    >) where F: FnOnce(String) -> Result<Vec<u8>, ReadFailure>
        requires
            may_read(old(self)@, id@, read),
        ensures
            text_resolution(old(self)@, id@, read, final(self)@, shown(answer)),
    {
        let found = self.resolve(id, read);
        let answer = match &found {
            Ok(bytes) => text_of(bytes),
            Err(error) => Err(*error),
        };
        assert(resolution(old(self)@, id@, read, self@, seen(found)));
        answer
    }
}

/// Decodes bytes as text, or fails with `InvalidEncoding`.
pub fn text_of(bytes: &Vec<u8>) -> (text: Result<String, FileResolutionError>)
    ensures
        shown(text) == decoded(bytes@),
{
    match from_utf8(bytes) {
        Some(text) => {
            proof {
                encode_utf8_decode_utf8(text@);
            }
            Ok(text)
        },
        None => Err(FileResolutionError::InvalidEncoding),
    }
}

/// Decodes bytes through `std::str::from_utf8`. The contract says what that
/// function documents: it succeeds exactly on valid UTF-8, and the string it
/// gives is the one that these bytes encode.
#[verifier::external_body]
fn from_utf8(bytes: &Vec<u8>) -> (text: Option<String>)
    ensures
        text is Some <==> valid_utf8(bytes@),
        text matches Some(decoded) ==> encode_utf8(decoded@) == bytes@,
{
    std::str::from_utf8(bytes).ok().map(|text| text.to_string())
}

} // verus!
