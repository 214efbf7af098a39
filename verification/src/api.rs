//! Dispatching remote operations against a session handle.
//!
//! A dispatch resolves the handle, attaches the caller identity and the
//! time limit of the request, and hands the caller a call to run. What
//! comes back is settled against the time limit and shaped for the caller:
//! a directory listing keeps its readable entries beside the failures of
//! the unreadable ones.

use crate::failure::Failure;
use crate::opts::DEFAULT_TIMEOUT_MS;
use crate::registry::Registry;
use crate::session::{resolved, Session};
use vstd::prelude::*;

verus! {

/// A remote operation with its parameters.
#[derive(Clone, Debug, PartialEq, Eq)]
pub enum Operation {
    /// Append bytes to a file.
    AppendFile { path: String, data: Vec<u8> },
    /// Append text to a file.
    AppendFileText { path: String, data: String },
    /// Copy a file or directory.
    Copy { src: String, dst: String },
    /// Create a directory, with its missing parents where `all` is set.
    CreateDir { path: String, all: bool },
    /// Ask whether a path exists.
    Exists { path: String },
    /// Fetch the metadata of a path.
    Metadata { path: String, canonicalize: bool, resolve_file_type: bool },
    /// List a directory down to `depth` levels.
    ReadDir { path: String, depth: usize, absolute: bool, canonicalize: bool, include_root: bool },
    /// Read a file as bytes.
    ReadFile { path: String },
    /// Read a file as text.
    ReadFileText { path: String },
    /// Remove a file or directory.
    Remove { path: String, force: bool },
    /// Rename a file or directory.
    Rename { src: String, dst: String },
    /// Spawn a process.
    Spawn { cmd: String, args: Vec<String> },
    /// Spawn a language-server process.
    SpawnLsp { cmd: String, args: Vec<String> },
    /// Replace the content of a file with bytes.
    WriteFile { path: String, data: Vec<u8> },
    /// Replace the content of a file with text.
    WriteFileText { path: String, data: String },
}

/// One requested operation and the time it may take, in milliseconds.
#[derive(Clone, Debug, PartialEq, Eq)]
pub struct Request {
    pub operation: Operation,
    pub timeout: u64,
}

impl Request {
    /// A request for `operation` that may take `timeout` milliseconds, or
    /// the default limit where none is named.
    pub fn new(operation: Operation, timeout: Option<u64>) -> (request: Request)
        ensures
            request.operation == operation,
            request.timeout == match timeout {
                Some(millis) => millis,
                None => DEFAULT_TIMEOUT_MS,
            },
    {
        match timeout {
            Some(millis) => Request { operation, timeout: millis },
            None => Request { operation, timeout: DEFAULT_TIMEOUT_MS },
        }
    }
}

/// A call that is ready to run: the live session to run it on, the caller
/// identity to tag it with, the operation, and its time limit.
pub struct Call<'a, S> {
    pub channel: &'a S,
    pub tenant: &'a str,
    pub operation: Operation,
    pub timeout: u64,
}

/// Whether `name` holds no ASCII capital letter.
pub open spec fn is_ascii_lowercased(name: Seq<char>) -> bool {
    forall|i: int| 0 <= i < name.len() ==> !(0x41 <= #[trigger] name[i] as u32 <= 0x5a)
}

/// Calls `whoami::hostname`, which asks the operating system for the name
/// of this machine and normalizes it to lower case: whatever the system
/// answered, and where it gave no answer too, the last thing done to the
/// name is `make_ascii_lowercase`. So no ASCII capital letter is left in
/// it; nothing else is claimed of the name.
#[verifier::external_body]
#[allow(deprecated)]
fn host_name() -> (name: String)
    ensures
        is_ascii_lowercased(name@),
{
    whoami::hostname()
}

/// Resolves session handles into calls, tagging each with one caller
/// identity.
pub struct Dispatcher {
    tenant: String,
}

impl View for Dispatcher {
    type V = Seq<char>;

    /// The caller identity.
    closed spec fn view(&self) -> Seq<char> {
        self.tenant@
    }
}

impl Dispatcher {
    /// A dispatcher that tags its calls with the name of this machine, in
    /// lower case.
    pub fn new() -> (dispatcher: Dispatcher)
        ensures
            is_ascii_lowercased(dispatcher@),
    {
        Dispatcher { tenant: host_name() }
    }

    /// A dispatcher that tags its calls with `tenant`.
    pub fn with_tenant(tenant: String) -> (dispatcher: Dispatcher)
        ensures
            dispatcher@ == tenant@,
    {
        Dispatcher { tenant }
    }

    /// The caller identity.
    pub fn tenant(&self) -> (tenant: &str)
        ensures
            tenant@ == self@,
    {
        self.tenant.as_str()
    }

    /// Resolves `session` among `sessions` and prepares `request` as a
    /// call on it. A handle that was never registered, or has been removed,
    /// gives `NotConnected`.
    pub fn dispatch<'a, S>(
        &'a self,
        sessions: &'a Registry<S>,
        session: Session,
        request: Request,
    ) -> (prepared: Result<Call<'a, S>, Failure>)
        ensures
            match prepared {
                Ok(call) => {
                    &&& resolved(sessions@, session@) == Ok::<S, Failure>(*call.channel)
                    &&& call.tenant@ == self@
                    &&& call.operation == request.operation
                    &&& call.timeout == request.timeout
                },
                Err(e) => resolved(sessions@, session@) == Err::<S, Failure>(e),
            },
    {
        match session.channel(sessions) {
            Ok(channel) => Ok(
                Call {
                    channel,
                    tenant: self.tenant.as_str(),
                    operation: request.operation,
                    timeout: request.timeout,
                },
            ),
            Err(e) => Err(e),
        }
    }
}

/// What kind of entry a path names.
#[derive(Clone, Copy, Debug, PartialEq, Eq, Structural)]
pub enum FileType {
    Dir,
    File,
    Symlink,
}

/// One entry of a directory listing.
#[derive(Clone, Debug, PartialEq, Eq)]
pub struct DirEntry {
    /// The path of the entry.
    pub path: String,
    /// What the path names.
    pub file_type: FileType,
    /// How far below the listed directory the entry lies; its direct
    /// children are at depth zero.
    pub depth: usize,
}

/// A directory listing: the entries that could be read, in order, and a
/// description of each failure met on the way, in order.
#[derive(Clone, Debug, PartialEq, Eq)]
pub struct Listing {
    pub entries: Vec<DirEntry>,
    pub errors: Vec<String>,
}

/// The successes among `results`, in order.
pub open spec fn successes<T, E>(results: Seq<Result<T, E>>) -> Seq<T>
    decreases results.len(),
{
    if results.len() == 0 {
        Seq::empty()
    } else {
        let before = successes(results.drop_last());
        match results.last() {
            Ok(value) => before.push(value),
            Err(_) => before,
        }
    }
}

/// The failures among `results`, in order.
pub open spec fn failures<T, E>(results: Seq<Result<T, E>>) -> Seq<E>
    decreases results.len(),
{
    if results.len() == 0 {
        Seq::empty()
    } else {
        let before = failures(results.drop_last());
        match results.last() {
            Ok(_) => before,
            Err(failure) => before.push(failure),
        }
    }
}

/// Every result is either a success or a failure: the two counts add up.
pub proof fn lemma_split_counts<T, E>(results: Seq<Result<T, E>>)
    ensures
        successes(results).len() + failures(results).len() == results.len(),
    decreases results.len(),
{
    if results.len() > 0 {
        lemma_split_counts(results.drop_last());
    }
}

/// Taking one result out lowers the count of its kind by one and leaves
/// the other count alone.
proof fn lemma_remove_counts<T, E>(results: Seq<Result<T, E>>, i: int)
    requires
        0 <= i < results.len(),
    ensures
        successes(results).len() == successes(results.remove(i)).len() + if results[i] is Ok {
            1int
        } else {
            0int
        },
    decreases results.len(),
{
    let last = results.len() - 1;
    if i == last {
        assert(results.remove(i) == results.drop_last());
    } else {
        let shorter = results.remove(i);
        assert(shorter.drop_last() == results.drop_last().remove(i));
        assert(shorter.last() == results.last());
        lemma_remove_counts(results.drop_last(), i);
    }
}

/// The counts do not depend on the order in which the entries were met:
/// two sequences of results that hold the same results, each as often in
/// one as in the other, have as many successes and as many failures.
pub proof fn lemma_counts_ignore_order<T, E>(a: Seq<Result<T, E>>, b: Seq<Result<T, E>>)
    requires
        a.to_multiset() == b.to_multiset(),
    ensures
        successes(a).len() == successes(b).len(),
        failures(a).len() == failures(b).len(),
    decreases a.len(),
{
    a.to_multiset_ensures();
    b.to_multiset_ensures();
    lemma_split_counts(a);
    lemma_split_counts(b);
    if a.len() > 0 {
        let x = a.last();
        assert(a.contains(x));
        assert(a.to_multiset().count(x) > 0);
        assert(b.to_multiset().count(x) > 0);
        assert(b.contains(x));
        let i = choose|i: int| 0 <= i < b.len() && b[i] == x;
        assert(a.drop_last() == a.remove(a.len() - 1));
        lemma_remove_counts(b, i);
        lemma_counts_ignore_order(a.drop_last(), b.remove(i));
    }
}

impl Listing {
    /// Builds a listing from the outcome of reading each entry. No failure
    /// hides an entry that was read, and none is dropped: the listing
    /// holds every readable entry and one description for every entry
    /// that could not be read, each in the order they were met.
    pub fn collect(results: Vec<Result<DirEntry, String>>) -> (listing: Listing)
        ensures
            listing.entries@ == successes(results@),
            listing.errors@ == failures(results@),
            listing.entries@.len() + listing.errors@.len() == results@.len(),
    {
        let ghost all = results@;
        let mut entries: Vec<DirEntry> = Vec::new();
        let mut errors: Vec<String> = Vec::new();
        for result in it: results
            invariant
                it.seq() == all,
                entries@ == successes(all.take(it.index())),
                errors@ == failures(all.take(it.index())),
        {
            proof {
                let i = it.index();
                assert(all.take(i + 1).drop_last() == all.take(i));
                assert(all.take(i + 1).last() == all[i]);
            }
            match result {
                Ok(entry) => entries.push(entry),
                Err(failure) => errors.push(failure),
            }
        }
        proof {
            assert(all.take(all.len() as int) == all);
            lemma_split_counts(all);
        }
        Listing { entries, errors }
    }
}

} // verus!
