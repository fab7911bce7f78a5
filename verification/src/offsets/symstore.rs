//! Fetching program databases from a symbol server, with a cache on disk.

use crate::error::{Error, ErrorKind};
use crate::kernel::Win32Guid;
use crate::text::{parse_u64, parsed_u64};
use vstd::prelude::*;
use vstd::string::StringExecFns;

verus! {

/// What looking into the cache gave.
#[derive(Debug)]
pub enum CacheRead {
    /// The cache holds the file with these bytes.
    Hit(Vec<u8>),
    /// The cache does not hold the file.
    Miss,
    /// The cache holds the file, but it cannot be opened or read.
    Failed,
}

/// An answer of the symbol server.
#[derive(Debug)]
pub struct Download {
    /// The value of the `Content-Length` header, where the answer has one.
    pub content_length: Option<String>,
    /// The body of the answer, `None` where reading it failed.
    pub body: Option<Vec<u8>>,
}

/// The file system and the network as a symbol store needs them. Nothing is
/// assumed of what an implementation returns.
pub trait SymbolBackend {
    /// Reads the cached file at `location`, a path given by its components.
    fn cache_read(&mut self, location: &Vec<String>) -> CacheRead;

    /// Creates the directories above `location` where they are missing and
    /// writes `data` to the file. Returns whether all of that succeeded.
    fn cache_write(&mut self, location: &Vec<String>, data: &Vec<u8>) -> bool;

    /// Requests `url`. `None` stands for a failed request or an answer with an error status.
    fn get(&mut self, url: &str) -> Option<Download>;
}

/// Calls `dirs::cache_dir`: the directory that the user's platform keeps
/// caches in, as text; what is not Unicode in its name is shown by the
/// replacement character. Nothing is claimed of it: it depends on the
/// platform and on the environment.
#[verifier::external_body]
fn user_cache_dir() -> (r: Option<String>) {
    match dirs::cache_dir() {
        Some(path) => Some(path.to_string_lossy().into_owned()),
        None => None,
    }
}

/// The texts of a list of strings.
pub open spec fn texts(v: Seq<String>) -> Seq<Seq<char>> {
    Seq::new(v.len(), |i: int| v[i]@)
}

/// The address of the symbol server that is asked by default.
pub open spec fn default_base_url() -> Seq<char> {
    "https://msdl.microsoft.com/download/symbols"@
}

/// The name of the directory that the default cache lives in, below the user's cache directory.
pub open spec fn default_cache_name() -> Seq<char> {
    "memflow"@
}

/// A symbol server and the place where its files are cached.
#[derive(Debug)]
pub struct SymbolStore {
    base_url: String,
    cache_path: Option<Vec<String>>,
}

/// The cache that a store uses by default: the directory `memflow` below the
/// user's cache directory; none where the user has no cache directory.
pub open spec fn default_cache(user_dir: Option<String>) -> Option<Seq<Seq<char>>> {
    match user_dir {
        Some(dir) => Some(seq![dir@, default_cache_name()]),
        None => None,
    }
}

impl Clone for SymbolStore {
    fn clone(&self) -> (r: SymbolStore)
        ensures
            r.url() == self.url(),
            r.cache() == self.cache(),
    {
        let cache_path = match &self.cache_path {
            Some(path) => {
                let copy = path.clone();
                assert(texts(copy@) =~= texts(path@)) by {
                    assert(copy@ =~= path@);
                }
                Some(copy)
            },
            None => None,
        };
        SymbolStore { base_url: self.base_url.clone(), cache_path }
    }
}

/// Whether `store` is what a store is by default: it asks the default
/// server and caches below the user's cache directory, where there is one.
pub open spec fn is_default_store(store: SymbolStore) -> bool {
    exists|user_dir: Option<String>|
        store.url() == default_base_url() && store.cache() == #[trigger] default_cache(user_dir)
}

impl Default for SymbolStore {
    fn default() -> (r: SymbolStore)
        ensures
            is_default_store(r),
            r.url() == default_base_url(),
            r.cache() matches Some(path) ==> path.len() == 2 && path[1] == default_cache_name(),
    {
        let user_dir = user_cache_dir();
        let store = SymbolStore::with_user_cache_dir(user_dir);
        assert(store.cache() == default_cache(user_dir));
        store
    }
}

/// The address at which the server keeps the database `guid`.
pub open spec fn primary_url(base_url: Seq<char>, file_name: Seq<char>, guid: Seq<char>) -> Seq<
    char,
> {
    base_url + "/"@ + file_name + "/"@ + guid + "/"@ + file_name
}

/// The address of the pointer file that a server may keep in place of the database `guid`.
pub open spec fn pointer_url(base_url: Seq<char>, file_name: Seq<char>, guid: Seq<char>) -> Seq<
    char,
> {
    base_url + "/"@ + file_name + "/"@ + guid + "/"@ + "file.ptr"@
}

/// The bytes that an answer delivers. The answer has to state its length,
/// and the body has to have exactly that length.
pub open spec fn download_bytes(download: Option<Download>) -> Option<Seq<u8>> {
    match download {
        Some(Download { content_length: Some(length), body: Some(body) }) => {
            if parsed_u64(length@, 10) == Some(body@.len() as u64) && body@.len() <= u64::MAX {
                Some(body@)
            } else {
                None
            }
        },
        _ => None,
    }
}

/// Accepts an answer of the server that is complete.
pub fn check_download(download: Option<Download>) -> (r: Result<Vec<u8>, Error>)
    ensures
        match r {
            Ok(bytes) => download_bytes(download) == Some(bytes@),
            Err(e) => e.kind == ErrorKind::Http && download_bytes(download) is None,
        },
{
    match download {
        Some(Download { content_length: Some(length), body: Some(body) }) => {
            let actual: usize = body.len();
            match parse_u64(length.as_str(), 10) {
                Some(expected) => {
                    if expected == actual as u64 {
                        Ok(body)
                    } else {
                        Err(Error::new(ErrorKind::Http, "the download is incomplete"))
                    }
                },
                None => Err(Error::new(ErrorKind::Http, "the download has no valid length")),
            }
        },
        Some(Download { content_length: None, .. }) => Err(
            Error::new(ErrorKind::Http, "the download does not state its length"),
        ),
        Some(Download { body: None, .. }) => Err(
            Error::new(ErrorKind::Http, "unable to read from http request"),
        ),
        None => Err(Error::new(ErrorKind::Http, "unable to download pdb")),
    }
}

/// What looking into the cache means for a load: the cached bytes, nothing
/// where the file is not cached, or a failure of the cache.
pub open spec fn cache_outcome(read: CacheRead) -> Result<Option<Seq<u8>>, ErrorKind> {
    match read {
        CacheRead::Hit(bytes) => Ok(Some(bytes@)),
        CacheRead::Miss => Ok(None),
        CacheRead::Failed => Err(ErrorKind::Io),
    }
}

/// Decides how a load goes on after the cache was looked into.
pub fn check_cache_read(read: CacheRead) -> (r: Result<Option<Vec<u8>>, Error>)
    ensures
        match r {
            Ok(Some(bytes)) => cache_outcome(read) == Ok::<_, ErrorKind>(Some(bytes@)),
            Ok(None) => cache_outcome(read) == Ok::<Option<Seq<u8>>, ErrorKind>(None),
            Err(e) => cache_outcome(read) == Err::<Option<Seq<u8>>, _>(e.kind),
        },
{
    match read {
        CacheRead::Hit(bytes) => Ok(Some(bytes)),
        CacheRead::Miss => Ok(None),
        CacheRead::Failed => Err(Error::new(ErrorKind::Io, "unable to read pdb from local cache")),
    }
}

/// Hands a downloaded file on where it was put into the cache; a file that
/// could not be cached is a failure of the cache.
pub fn check_cache_write(bytes: Vec<u8>, written: bool) -> (r: Result<Vec<u8>, Error>)
    ensures
        match r {
            Ok(out) => written && out == bytes,
            Err(e) => !written && e.kind == ErrorKind::Io,
        },
{
    if written {
        Ok(bytes)
    } else {
        Err(Error::new(ErrorKind::Io, "unable to write pdb to local cache"))
    }
}

impl SymbolStore {
    /// The address of the server.
    pub closed spec fn url(&self) -> Seq<char> {
        self.base_url@
    }

    /// The components of the path of the cache directory, `None` where nothing is cached.
    pub closed spec fn cache(&self) -> Option<Seq<Seq<char>>> {
        match self.cache_path {
            Some(path) => Some(texts(path@)),
            None => None,
        }
    }

    /// A store that asks the default server and caches in the user's cache directory.
    pub fn new() -> (r: SymbolStore)
        ensures
            is_default_store(r),
            r.url() == default_base_url(),
            r.cache() matches Some(path) ==> path.len() == 2 && path[1] == default_cache_name(),
    {
        SymbolStore::default()
    }

    /// The store that is used by default on a platform whose cache
    /// directory for the user is `user_dir`: it asks the default server and
    /// caches in the directory `memflow` below `user_dir`. Without such a
    /// directory nothing is cached.
    pub fn with_user_cache_dir(user_dir: Option<String>) -> (r: SymbolStore)
        ensures
            r.url() == default_base_url(),
            r.cache() == default_cache(user_dir),
    {
        let cache_path = match user_dir {
            Some(dir) => {
                let mut path: Vec<String> = Vec::new();
                path.push(dir);
                path.push(String::from_str("memflow"));
                assert(texts(path@) =~= seq![dir@, default_cache_name()]);
                Some(path)
            },
            None => None,
        };
        SymbolStore {
            base_url: String::from_str("https://msdl.microsoft.com/download/symbols"),
            cache_path,
        }
    }

    /// The same store with another server.
    pub fn base_url(self, base_url: &str) -> (r: SymbolStore)
        ensures
            r.url() == base_url@,
            r.cache() == self.cache(),
    {
        let mut store = self;
        store.base_url = String::from_str(base_url);
        store
    }

    /// The same store without a cache.
    pub fn no_cache(self) -> (r: SymbolStore)
        ensures
            r.url() == self.url(),
            r.cache() is None,
    {
        let mut store = self;
        store.cache_path = None;
        store
    }

    /// The same store with its cache in the directory `cache_path`.
    pub fn cache_path(self, cache_path: &str) -> (r: SymbolStore)
        ensures
            r.url() == self.url(),
            r.cache() == Some(seq![cache_path@]),
    {
        let mut store = self;
        let mut path: Vec<String> = Vec::new();
        path.push(String::from_str(cache_path));
        assert(texts(path@) =~= seq![cache_path@]);
        store.cache_path = Some(path);
        store
    }

    /// The path of the cached copy of the database `guid`: the cache
    /// directory, then the file name, then the identifier.
    pub fn cache_location(&self, guid: &Win32Guid) -> (r: Option<Vec<String>>)
        ensures
            match r {
                Some(location) => self.cache() matches Some(path) && texts(location@) == path
                    + seq![guid.file_name@, guid.guid@],
                None => self.cache() is None,
            },
    {
        match &self.cache_path {
            Some(path) => {
                let mut location: Vec<String> = path.clone();
                assert(texts(location@) =~= texts(path@)) by {
                    assert(location@ =~= path@);
                }
                location.push(guid.file_name.clone());
                location.push(guid.guid.clone());
                assert(texts(location@) =~= texts(path@) + seq![guid.file_name@, guid.guid@]);
                Some(location)
            },
            None => None,
        }
    }

    /// The address at which the server keeps the database `guid`.
    pub fn file_url(&self, guid: &Win32Guid) -> (r: String)
        ensures
            r@ == primary_url(self.url(), guid.file_name@, guid.guid@),
    {
        let mut url = self.base_url.clone();
        url.append("/");
        url.append(guid.file_name.as_str());
        url.append("/");
        url.append(guid.guid.as_str());
        url.append("/");
        url.append(guid.file_name.as_str());
        url
    }

    /// The address of the pointer file for the database `guid`.
    pub fn pointer_file_url(&self, guid: &Win32Guid) -> (r: String)
        ensures
            r@ == pointer_url(self.url(), guid.file_name@, guid.guid@),
    {
        let mut url = self.base_url.clone();
        url.append("/");
        url.append(guid.file_name.as_str());
        url.append("/");
        url.append(guid.guid.as_str());
        url.append("/");
        url.append("file.ptr");
        url
    }

    /// The state in which a load of the database `guid` begins: it knows
    /// where the file is cached and the two addresses at which the server
    /// may keep it.
    pub fn begin_load(&self, guid: &Win32Guid) -> (r: LoadState)
        ensures
            r matches LoadState::Start { location, file, pointer } && {
                &&& match location {
                    Some(l) => self.cache() matches Some(path) && texts(l@) == path + seq![
                        guid.file_name@,
                        guid.guid@,
                    ],
                    None => self.cache() is None,
                }
                &&& file@ == primary_url(self.url(), guid.file_name@, guid.guid@)
                &&& pointer@ == pointer_url(self.url(), guid.file_name@, guid.guid@)
            },
    {
        LoadState::Start {
            location: self.cache_location(guid),
            file: self.file_url(guid),
            pointer: self.pointer_file_url(guid),
        }
    }

    /// Returns the database `guid`: from the cache where it is there, else
    /// from the server, after which it is put into the cache. Without a
    /// cache every call asks the server. What is asked of `backend`, and
    /// what is made of its answers, is decided by [`load_step`] alone.
    pub fn load<B: SymbolBackend>(&self, backend: &mut B, guid: &Win32Guid) -> (r: Result<
        Vec<u8>,
        Error,
    >)
        ensures
            r matches Err(e) ==> e.kind == ErrorKind::Http || (e.kind == ErrorKind::Io
                && self.cache() is Some),
    {
        let mut state = self.begin_load(guid);
        let mut event = LoadEvent::Begin;
        loop
            invariant
                awaits(state, event),
                self.cache() is None ==> !caches(state),
            decreases rank(state),
        {
            let (next, action) = load_step(state, event);
            match action {
                LoadAction::Finish(r) => {
                    return r;
                },
                LoadAction::ReadCache { location } => {
                    event = LoadEvent::CacheRead(backend.cache_read(&location));
                },
                LoadAction::Get { url } => {
                    event = LoadEvent::Answer(backend.get(url.as_str()));
                },
                LoadAction::WriteCache { location, bytes } => {
                    event = LoadEvent::Written(backend.cache_write(&location, &bytes));
                },
            }
            state = next;
        }
    }
}

/// Where a load stands.
#[derive(Debug)]
pub enum LoadState {
    /// Nothing was asked yet.
    Start {
        /// Where the file is cached; `None` without a cache.
        location: Option<Vec<String>>,
        /// The address of the file.
        file: String,
        /// The address of the pointer file.
        pointer: String,
    },
    /// The cache was asked for the file at `at`.
    ReadingCache { at: Vec<String>, file: String, pointer: String },
    /// The server was asked for the file.
    RequestingFile { location: Option<Vec<String>>, pointer: String },
    /// The server was asked for the pointer file.
    RequestingPointer { location: Option<Vec<String>> },
    /// The cache was asked to keep the downloaded bytes.
    WritingCache { bytes: Vec<u8> },
    /// The load is over.
    Done,
}

/// What happened since the last step of a load.
#[derive(Debug)]
pub enum LoadEvent {
    /// Nothing yet: the load begins.
    Begin,
    /// The cache answered.
    CacheRead(CacheRead),
    /// The server answered, or the request failed.
    Answer(Option<Download>),
    /// The cache kept the file, or it did not.
    Written(bool),
}

/// What a load asks for next.
#[derive(Debug)]
pub enum LoadAction {
    /// Read the cached file at `location`.
    ReadCache { location: Vec<String> },
    /// Request `url`.
    Get { url: String },
    /// Write `bytes` to the cached file at `location`.
    WriteCache { location: Vec<String>, bytes: Vec<u8> },
    /// Nothing more: the load ends with this result.
    Finish(Result<Vec<u8>, Error>),
}

/// Whether `a` and `b` name the same place.
pub open spec fn same_location(a: Option<Vec<String>>, b: Option<Vec<String>>) -> bool {
    match (a, b) {
        (Some(x), Some(y)) => texts(x@) == texts(y@),
        (None, None) => true,
        _ => false,
    }
}

/// Whether the load ends here with `outcome`.
pub open spec fn finishes(
    next: LoadState,
    action: LoadAction,
    outcome: Result<Seq<u8>, ErrorKind>,
) -> bool {
    &&& next is Done
    &&& action matches LoadAction::Finish(r)
    &&& match outcome {
        Ok(bytes) => r matches Ok(out) && out@ == bytes,
        Err(kind) => r matches Err(e) && e.kind == kind,
    }
}

/// Whether the load goes on by requesting `url`, with `pointer` still to be
/// tried where there is one.
pub open spec fn requests(
    next: LoadState,
    action: LoadAction,
    location: Option<Vec<String>>,
    url: Seq<char>,
    pointer: Option<Seq<char>>,
) -> bool {
    &&& action matches LoadAction::Get { url: asked }
    &&& asked@ == url
    &&& match pointer {
        Some(p) => next matches LoadState::RequestingFile { location: l, pointer: kept }
            && same_location(l, location) && kept@ == p,
        None => next matches LoadState::RequestingPointer { location: l } && same_location(
            l,
            location,
        ),
    }
}

/// What follows a complete download of `bytes`: with a cache the bytes are
/// written to it, without one they are the result.
pub open spec fn after_download(
    next: LoadState,
    action: LoadAction,
    location: Option<Vec<String>>,
    bytes: Seq<u8>,
) -> bool {
    match location {
        Some(l) => {
            &&& next matches LoadState::WritingCache { bytes: kept }
            &&& kept@ == bytes
            &&& action matches LoadAction::WriteCache { location: to, bytes: written }
            &&& texts(to@) == texts(l@)
            &&& written@ == bytes
        },
        None => finishes(next, action, Ok(bytes)),
    }
}

/// The protocol of a load, step by step.
///
/// - At the beginning the cache is read, where there is one; without a cache
///   the file is requested.
/// - A cached file is the result and nothing else is asked; a cache that
///   fails ends the load with [`ErrorKind::Io`]; where the file is not
///   cached it is requested.
/// - A complete answer to the request for the file is the download. Any
///   other answer is followed by one request for the pointer file, and any
///   other answer to that ends the load with [`ErrorKind::Http`] and nothing
///   is written.
/// - A download is written to the cache, where there is one, and is the
///   result once it is written; a failed write ends the load with
///   [`ErrorKind::Io`]. Without a cache the download is the result at once.
/// - An event that the state does not wait for ends the load with
///   [`ErrorKind::Configuration`].
pub open spec fn load_protocol(
    state: LoadState,
    event: LoadEvent,
    next: LoadState,
    action: LoadAction,
) -> bool {
    match (state, event) {
        (LoadState::Start { location: Some(l), file, pointer }, LoadEvent::Begin) => {
            &&& next matches LoadState::ReadingCache { at: l2, file: f2, pointer: p2 }
            &&& texts(l2@) == texts(l@)
            &&& f2@ == file@
            &&& p2@ == pointer@
            &&& action matches LoadAction::ReadCache { location: l3 }
            &&& texts(l3@) == texts(l@)
        },
        (LoadState::Start { location: None, file, pointer }, LoadEvent::Begin) => requests(
            next,
            action,
            None,
            file@,
            Some(pointer@),
        ),
        (LoadState::ReadingCache { at, file, pointer }, LoadEvent::CacheRead(read)) => {
            match cache_outcome(read) {
                Ok(Some(bytes)) => finishes(next, action, Ok(bytes)),
                Ok(None) => requests(next, action, Some(at), file@, Some(pointer@)),
                Err(kind) => finishes(next, action, Err(kind)),
            }
        },
        (LoadState::RequestingFile { location, pointer }, LoadEvent::Answer(answer)) => {
            match download_bytes(answer) {
                Some(bytes) => after_download(next, action, location, bytes),
                None => requests(next, action, location, pointer@, None),
            }
        },
        (LoadState::RequestingPointer { location }, LoadEvent::Answer(answer)) => {
            match download_bytes(answer) {
                Some(bytes) => after_download(next, action, location, bytes),
                None => finishes(next, action, Err(ErrorKind::Http)),
            }
        },
        (LoadState::WritingCache { bytes }, LoadEvent::Written(written)) => finishes(
            next,
            action,
            if written {
                Ok(bytes@)
            } else {
                Err(ErrorKind::Io)
            },
        ),
        _ => finishes(next, action, Err(ErrorKind::Configuration)),
    }
}

/// How many steps a load in `state` can still take.
pub open spec fn rank(state: LoadState) -> nat {
    match state {
        LoadState::Start { .. } => 5,
        LoadState::ReadingCache { .. } => 4,
        LoadState::RequestingFile { .. } => 3,
        LoadState::RequestingPointer { .. } => 2,
        LoadState::WritingCache { .. } => 1,
        LoadState::Done => 0,
    }
}

/// Whether `event` is the one that `state` waits for.
pub open spec fn awaits(state: LoadState, event: LoadEvent) -> bool {
    match (state, event) {
        (LoadState::Start { .. }, LoadEvent::Begin) => true,
        (LoadState::ReadingCache { .. }, LoadEvent::CacheRead(_)) => true,
        (LoadState::RequestingFile { .. }, LoadEvent::Answer(_)) => true,
        (LoadState::RequestingPointer { .. }, LoadEvent::Answer(_)) => true,
        (LoadState::WritingCache { .. }, LoadEvent::Written(_)) => true,
        _ => false,
    }
}

/// Whether a load in `state` uses a cache.
pub open spec fn caches(state: LoadState) -> bool {
    match state {
        LoadState::Start { location, .. } => location is Some,
        LoadState::ReadingCache { .. } => true,
        LoadState::RequestingFile { location, .. } => location is Some,
        LoadState::RequestingPointer { location } => location is Some,
        LoadState::WritingCache { .. } => true,
        LoadState::Done => false,
    }
}

/// Whether `action` asks for what `next` waits for.
pub open spec fn asks_for(next: LoadState, action: LoadAction) -> bool {
    match action {
        LoadAction::ReadCache { .. } => next is ReadingCache,
        LoadAction::Get { .. } => next is RequestingFile || next is RequestingPointer,
        LoadAction::WriteCache { .. } => next is WritingCache,
        LoadAction::Finish(_) => next is Done,
    }
}

fn request(location: Option<Vec<String>>, url: String, pointer: Option<String>) -> (r: (
    LoadState,
    LoadAction,
))
    ensures
        requests(
            r.0,
            r.1,
            location,
            url@,
            match pointer {
                Some(p) => Some(p@),
                None => None,
            },
        ),
{
    match pointer {
        Some(pointer) => (LoadState::RequestingFile { location, pointer }, LoadAction::Get { url }),
        None => (LoadState::RequestingPointer { location }, LoadAction::Get { url }),
    }
}

fn downloaded(location: Option<Vec<String>>, bytes: Vec<u8>) -> (r: (LoadState, LoadAction))
    ensures
        after_download(r.0, r.1, location, bytes@),
{
    match location {
        Some(to) => {
            let kept = bytes.clone();
            assert(kept@ =~= bytes@);
            (LoadState::WritingCache { bytes: kept }, LoadAction::WriteCache { location: to, bytes })
        },
        None => (LoadState::Done, LoadAction::Finish(Ok(bytes))),
    }
}

/// Makes one step of a load: from where the load stands and what happened
/// to where it stands then and what it asks for next.
pub fn load_step(state: LoadState, event: LoadEvent) -> (r: (LoadState, LoadAction))
    ensures
        load_protocol(state, event, r.0, r.1),
        asks_for(r.0, r.1),
        !(r.1 is Finish) ==> rank(r.0) < rank(state) && awaits(state, event),
        !caches(state) ==> !caches(r.0),
        awaits(state, event) ==> (r.1 matches LoadAction::Finish(Err(e)) ==> e.kind
            == ErrorKind::Http || (e.kind == ErrorKind::Io && caches(state))),
{
    match (state, event) {
        (LoadState::Start { location: Some(at), file, pointer }, LoadEvent::Begin) => {
            let to = at.clone();
            assert(texts(to@) =~= texts(at@)) by {
                assert(to@ =~= at@);
            }
            (LoadState::ReadingCache { at, file, pointer }, LoadAction::ReadCache { location: to })
        },
        (LoadState::Start { location: None, file, pointer }, LoadEvent::Begin) => request(
            None,
            file,
            Some(pointer),
        ),
        (LoadState::ReadingCache { at, file, pointer }, LoadEvent::CacheRead(read)) => {
            match check_cache_read(read) {
                Ok(Some(bytes)) => (LoadState::Done, LoadAction::Finish(Ok(bytes))),
                Ok(None) => request(Some(at), file, Some(pointer)),
                Err(e) => (LoadState::Done, LoadAction::Finish(Err(e))),
            }
        },
        (LoadState::RequestingFile { location, pointer }, LoadEvent::Answer(answer)) => {
            match check_download(answer) {
                Ok(bytes) => downloaded(location, bytes),
                Err(_) => request(location, pointer, None),
            }
        },
        (LoadState::RequestingPointer { location }, LoadEvent::Answer(answer)) => {
            match check_download(answer) {
                Ok(bytes) => downloaded(location, bytes),
                Err(e) => (LoadState::Done, LoadAction::Finish(Err(e))),
            }
        },
        (LoadState::WritingCache { bytes }, LoadEvent::Written(written)) => (
            LoadState::Done,
            LoadAction::Finish(check_cache_write(bytes, written)),
        ),
        _ => (
            LoadState::Done,
            LoadAction::Finish(
                Err(Error::new(ErrorKind::Configuration, "the load did not wait for this")),
            ),
        ),
    }
}

} // verus!
