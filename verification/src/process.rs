//! Process handles and the streams behind them.

use crate::failure::{Failure, Stream};
use crate::ids::IdAllocator;
use crate::registry::{inserted, key_of, Registry};
use vstd::prelude::*;

verus! {

/// A registered remote process: the live process and its three streams,
/// each of which may already be closed.
#[derive(Debug, PartialEq, Eq)]
pub struct ProcessEntry<P, I, O, E> {
    /// The live process, which takes kill and abort requests.
    pub process: P,
    /// Standard input, while open.
    pub stdin: Option<I>,
    /// Standard output, while open.
    pub stdout: Option<O>,
    /// Standard error, while open.
    pub stderr: Option<E>,
}

/// The failure of an access to `stream` of the process `id` among
/// `processes`, if it fails: the handle is gone, or the stream is closed.
pub open spec fn stream_failure<P, I, O, E>(
    processes: Map<usize, ProcessEntry<P, I, O, E>>,
    id: usize,
    stream: Stream,
) -> Option<Failure> {
    if !processes.contains_key(id) {
        Some(Failure::NotFound { id })
    } else if match stream {
        Stream::Stdin => processes[id].stdin is None,
        Stream::Stdout => processes[id].stdout is None,
        Stream::Stderr => processes[id].stderr is None,
    } {
        Some(Failure::BrokenPipe(stream))
    } else {
        None
    }
}

/// An access that was refused: `failure` is the reason, and nothing
/// changed.
pub open spec fn refused<P, I, O, E>(
    before: Map<usize, ProcessEntry<P, I, O, E>>,
    id: usize,
    stream: Stream,
    failure: Failure,
    after: Map<usize, ProcessEntry<P, I, O, E>>,
) -> bool {
    stream_failure(before, id, stream) == Some(failure) && after =~= before
}

/// Standard input of `id` was lent out as `lent` and came back as
/// `returned`; nothing else changed.
pub open spec fn stdin_lent<P, I, O, E>(
    before: Map<usize, ProcessEntry<P, I, O, E>>,
    id: usize,
    lent: I,
    returned: I,
    after: Map<usize, ProcessEntry<P, I, O, E>>,
) -> bool {
    &&& stream_failure(before, id, Stream::Stdin) is None
    &&& before[id].stdin == Some(lent)
    &&& after =~= before.insert(id, ProcessEntry { stdin: Some(returned), ..before[id] })
}

/// Standard output of `id` was lent out as `lent` and came back as
/// `returned`; nothing else changed.
pub open spec fn stdout_lent<P, I, O, E>(
    before: Map<usize, ProcessEntry<P, I, O, E>>,
    id: usize,
    lent: O,
    returned: O,
    after: Map<usize, ProcessEntry<P, I, O, E>>,
) -> bool {
    &&& stream_failure(before, id, Stream::Stdout) is None
    &&& before[id].stdout == Some(lent)
    &&& after =~= before.insert(id, ProcessEntry { stdout: Some(returned), ..before[id] })
}

/// Standard error of `id` was lent out as `lent` and came back as
/// `returned`; nothing else changed.
pub open spec fn stderr_lent<P, I, O, E>(
    before: Map<usize, ProcessEntry<P, I, O, E>>,
    id: usize,
    lent: E,
    returned: E,
    after: Map<usize, ProcessEntry<P, I, O, E>>,
) -> bool {
    &&& stream_failure(before, id, Stream::Stderr) is None
    &&& before[id].stderr == Some(lent)
    &&& after =~= before.insert(id, ProcessEntry { stderr: Some(returned), ..before[id] })
}

/// The live process of `id` was lent out as `lent` and came back as
/// `returned`; its streams and every other entry stayed as they were.
pub open spec fn process_lent<P, I, O, E>(
    before: Map<usize, ProcessEntry<P, I, O, E>>,
    id: usize,
    lent: P,
    returned: P,
    after: Map<usize, ProcessEntry<P, I, O, E>>,
) -> bool {
    &&& before.contains_key(id)
    &&& before[id].process == lent
    &&& after =~= before.insert(id, ProcessEntry { process: returned, ..before[id] })
}

/// The standard input of the process `id`, for writing.
pub fn stdin_of<P, I, O, E>(processes: &mut Registry<ProcessEntry<P, I, O, E>>, id: usize) -> (found:
    Result<&mut I, Failure>)
    ensures
        match found {
            Ok(stdin) => stdin_lent(old(processes)@, id, *stdin, *final(stdin), final(processes)@),
            Err(e) => refused(old(processes)@, id, Stream::Stdin, e, final(processes)@),
        },
{
    match processes.lookup_for_write(id) {
        Ok(entry) => match &mut entry.stdin {
            Some(stdin) => Ok(stdin),
            None => Err(Failure::BrokenPipe(Stream::Stdin)),
        },
        Err(e) => Err(e),
    }
}

/// The standard output of the process `id`, for reading.
pub fn stdout_of<P, I, O, E>(processes: &mut Registry<ProcessEntry<P, I, O, E>>, id: usize) -> (found:
    Result<&mut O, Failure>)
    ensures
        match found {
            Ok(stdout) => stdout_lent(
                old(processes)@,
                id,
                *stdout,
                *final(stdout),
                final(processes)@,
            ),
            Err(e) => refused(old(processes)@, id, Stream::Stdout, e, final(processes)@),
        },
{
    match processes.lookup_for_write(id) {
        Ok(entry) => match &mut entry.stdout {
            Some(stdout) => Ok(stdout),
            None => Err(Failure::BrokenPipe(Stream::Stdout)),
        },
        Err(e) => Err(e),
    }
}

/// The standard error of the process `id`, for reading.
pub fn stderr_of<P, I, O, E>(processes: &mut Registry<ProcessEntry<P, I, O, E>>, id: usize) -> (found:
    Result<&mut E, Failure>)
    ensures
        match found {
            Ok(stderr) => stderr_lent(
                old(processes)@,
                id,
                *stderr,
                *final(stderr),
                final(processes)@,
            ),
            Err(e) => refused(old(processes)@, id, Stream::Stderr, e, final(processes)@),
        },
{
    match processes.lookup_for_write(id) {
        Ok(entry) => match &mut entry.stderr {
            Some(stderr) => Ok(stderr),
            None => Err(Failure::BrokenPipe(Stream::Stderr)),
        },
        Err(e) => Err(e),
    }
}

/// The live process `id`, to send a kill request through. The process
/// stays registered.
pub fn process_of<P, I, O, E>(processes: &mut Registry<ProcessEntry<P, I, O, E>>, id: usize) -> (found:
    Result<&mut P, Failure>)
    ensures
        match found {
            Ok(process) => process_lent(
                old(processes)@,
                id,
                *process,
                *final(process),
                final(processes)@,
            ),
            Err(e) => {
                &&& !old(processes)@.contains_key(id)
                &&& e == Failure::NotFound { id }
                &&& final(processes)@ == old(processes)@
            },
        },
{
    match processes.lookup_for_write(id) {
        Ok(entry) => Ok(&mut entry.process),
        Err(e) => Err(e),
    }
}

/// Names a remote process by its handle. The process is active for as long as the
/// handle is registered.
#[derive(Copy, Clone, Debug, PartialEq, Eq)]
pub struct RemoteProcess {
    id: usize,
}

impl View for RemoteProcess {
    type V = usize;

    /// The handle.
    closed spec fn view(&self) -> usize {
        self.id
    }
}

impl RemoteProcess {
    /// A reference to the process registered under `id`.
    pub fn new(id: usize) -> (handle: RemoteProcess)
        ensures
            handle@ == id,
    {
        RemoteProcess { id }
    }

    /// The handle.
    pub fn id(&self) -> (id: usize)
        ensures
            id == self@,
    {
        self.id
    }

    /// Registers a freshly spawned process among the processes and names it by
    /// a handle that was not registered before. Where the generator cannot
    /// be seeded nothing is registered.
    pub fn from_distant<P, I, O, E>(
        processes: &mut Registry<ProcessEntry<P, I, O, E>>,
        ids: &mut IdAllocator,
        spawned: ProcessEntry<P, I, O, E>,
    ) -> (registered: Result<RemoteProcess, Failure>)
        ensures
            inserted(
                old(processes)@,
                old(ids)@,
                spawned,
                final(processes)@,
                final(ids)@,
                key_of(registered),
            ),
            registered matches Ok(handle) ==> {
                &&& !old(processes)@.contains_key(handle@)
                &&& final(processes)@ == old(processes)@.insert(handle@, spawned)
            },
            registered is Err ==> final(processes)@ == old(processes)@,
            old(ids)@ is Some ==> registered is Ok,
    {
        match processes.insert(ids, spawned) {
            Ok(id) => Ok(RemoteProcess { id }),
            Err(e) => Err(e),
        }
    }

    /// Whether the process is still registered.
    pub fn is_active<P, I, O, E>(&self, processes: &Registry<ProcessEntry<P, I, O, E>>) -> (active:
        bool)
        ensures
            active == processes@.contains_key(self@),
    {
        processes.contains(self.id)
    }

    /// The standard input of the process, to write to. A process that is
    /// gone gives `NotFound`, a closed stream `BrokenPipe`.
    pub fn write_stdin<'a, P, I, O, E>(
        &self,
        processes: &'a mut Registry<ProcessEntry<P, I, O, E>>,
    ) -> (found: Result<&'a mut I, Failure>)
        ensures
            match found {
                Ok(stdin) => stdin_lent(
                    old(processes)@,
                    self@,
                    *stdin,
                    *final(stdin),
                    final(processes)@,
                ),
                Err(e) => refused(old(processes)@, self@, Stream::Stdin, e, final(processes)@),
            },
    {
        stdin_of(processes, self.id)
    }

    /// The standard output of the process, to read from. A process that is
    /// gone gives `NotFound`, a closed stream `BrokenPipe`.
    pub fn read_stdout<'a, P, I, O, E>(
        &self,
        processes: &'a mut Registry<ProcessEntry<P, I, O, E>>,
    ) -> (found: Result<&'a mut O, Failure>)
        ensures
            match found {
                Ok(stdout) => stdout_lent(
                    old(processes)@,
                    self@,
                    *stdout,
                    *final(stdout),
                    final(processes)@,
                ),
                Err(e) => refused(old(processes)@, self@, Stream::Stdout, e, final(processes)@),
            },
    {
        stdout_of(processes, self.id)
    }

    /// The standard error of the process, to read from. A process that is
    /// gone gives `NotFound`, a closed stream `BrokenPipe`.
    pub fn read_stderr<'a, P, I, O, E>(
        &self,
        processes: &'a mut Registry<ProcessEntry<P, I, O, E>>,
    ) -> (found: Result<&'a mut E, Failure>)
        ensures
            match found {
                Ok(stderr) => stderr_lent(
                    old(processes)@,
                    self@,
                    *stderr,
                    *final(stderr),
                    final(processes)@,
                ),
                Err(e) => refused(old(processes)@, self@, Stream::Stderr, e, final(processes)@),
            },
    {
        stderr_of(processes, self.id)
    }

    /// The live process, to send a kill request through. The process stays
    /// registered until it is aborted.
    pub fn kill<'a, P, I, O, E>(
        &self,
        processes: &'a mut Registry<ProcessEntry<P, I, O, E>>,
    ) -> (found: Result<&'a mut P, Failure>)
        ensures
            match found {
                Ok(process) => process_lent(
                    old(processes)@,
                    self@,
                    *process,
                    *final(process),
                    final(processes)@,
                ),
                Err(e) => {
                    &&& !old(processes)@.contains_key(self@)
                    &&& e == Failure::NotFound { id: self@ }
                    &&& final(processes)@ == old(processes)@
                },
            },
    {
        process_of(processes, self.id)
    }

    /// Takes the process out of the registry and hands it back, so that
    /// the caller can shut its tasks down. The handle is inactive from then
    /// on.
    pub fn abort<P, I, O, E>(&self, processes: &mut Registry<ProcessEntry<P, I, O, E>>) -> (removed:
        Result<ProcessEntry<P, I, O, E>, Failure>)
        ensures
            old(processes)@.contains_key(self@) ==> removed == Ok::<
                ProcessEntry<P, I, O, E>,
                Failure,
            >(old(processes)@[self@]),
            !old(processes)@.contains_key(self@) ==> removed == Err::<
                ProcessEntry<P, I, O, E>,
                Failure,
            >(Failure::NotFound { id: self@ }),
            final(processes)@ == old(processes)@.remove(self@),
    {
        processes.remove(self.id)
    }
}

/// Names a remote language-server process by its handle. The process is active for as long as the
/// handle is registered.
#[derive(Copy, Clone, Debug, PartialEq, Eq)]
pub struct RemoteLspProcess {
    id: usize,
}

impl View for RemoteLspProcess {
    type V = usize;

    /// The handle.
    closed spec fn view(&self) -> usize {
        self.id
    }
}

impl RemoteLspProcess {
    /// A reference to the process registered under `id`.
    pub fn new(id: usize) -> (handle: RemoteLspProcess)
        ensures
            handle@ == id,
    {
        RemoteLspProcess { id }
    }

    /// The handle.
    pub fn id(&self) -> (id: usize)
        ensures
            id == self@,
    {
        self.id
    }

    /// Registers a freshly spawned process among the language-server processes and names it by
    /// a handle that was not registered before. Where the generator cannot
    /// be seeded nothing is registered.
    pub fn from_distant<P, I, O, E>(
        processes: &mut Registry<ProcessEntry<P, I, O, E>>,
        ids: &mut IdAllocator,
        spawned: ProcessEntry<P, I, O, E>,
    ) -> (registered: Result<RemoteLspProcess, Failure>)
        ensures
            inserted(
                old(processes)@,
                old(ids)@,
                spawned,
                final(processes)@,
                final(ids)@,
                key_of(registered),
            ),
            registered matches Ok(handle) ==> {
                &&& !old(processes)@.contains_key(handle@)
                &&& final(processes)@ == old(processes)@.insert(handle@, spawned)
            },
            registered is Err ==> final(processes)@ == old(processes)@,
            old(ids)@ is Some ==> registered is Ok,
    {
        match processes.insert(ids, spawned) {
            Ok(id) => Ok(RemoteLspProcess { id }),
            Err(e) => Err(e),
        }
    }

    /// Whether the process is still registered.
    pub fn is_active<P, I, O, E>(&self, processes: &Registry<ProcessEntry<P, I, O, E>>) -> (active:
        bool)
        ensures
            active == processes@.contains_key(self@),
    {
        processes.contains(self.id)
    }

    /// The standard input of the process, to write to. A process that is
    /// gone gives `NotFound`, a closed stream `BrokenPipe`.
    pub fn write_stdin<'a, P, I, O, E>(
        &self,
        processes: &'a mut Registry<ProcessEntry<P, I, O, E>>,
    ) -> (found: Result<&'a mut I, Failure>)
        ensures
            match found {
                Ok(stdin) => stdin_lent(
                    old(processes)@,
                    self@,
                    *stdin,
                    *final(stdin),
                    final(processes)@,
                ),
                Err(e) => refused(old(processes)@, self@, Stream::Stdin, e, final(processes)@),
            },
    {
        stdin_of(processes, self.id)
    }

    /// The standard output of the process, to read from. A process that is
    /// gone gives `NotFound`, a closed stream `BrokenPipe`.
    pub fn read_stdout<'a, P, I, O, E>(
        &self,
        processes: &'a mut Registry<ProcessEntry<P, I, O, E>>,
    ) -> (found: Result<&'a mut O, Failure>)
        ensures
            match found {
                Ok(stdout) => stdout_lent(
                    old(processes)@,
                    self@,
                    *stdout,
                    *final(stdout),
                    final(processes)@,
                ),
                Err(e) => refused(old(processes)@, self@, Stream::Stdout, e, final(processes)@),
            },
    {
        stdout_of(processes, self.id)
    }

    /// The standard error of the process, to read from. A process that is
    /// gone gives `NotFound`, a closed stream `BrokenPipe`.
    pub fn read_stderr<'a, P, I, O, E>(
        &self,
        processes: &'a mut Registry<ProcessEntry<P, I, O, E>>,
    ) -> (found: Result<&'a mut E, Failure>)
        ensures
            match found {
                Ok(stderr) => stderr_lent(
                    old(processes)@,
                    self@,
                    *stderr,
                    *final(stderr),
                    final(processes)@,
                ),
                Err(e) => refused(old(processes)@, self@, Stream::Stderr, e, final(processes)@),
            },
    {
        stderr_of(processes, self.id)
    }

    /// The live process, to send a kill request through. The process stays
    /// registered until it is aborted.
    pub fn kill<'a, P, I, O, E>(
        &self,
        processes: &'a mut Registry<ProcessEntry<P, I, O, E>>,
    ) -> (found: Result<&'a mut P, Failure>)
        ensures
            match found {
                Ok(process) => process_lent(
                    old(processes)@,
                    self@,
                    *process,
                    *final(process),
                    final(processes)@,
                ),
                Err(e) => {
                    &&& !old(processes)@.contains_key(self@)
                    &&& e == Failure::NotFound { id: self@ }
                    &&& final(processes)@ == old(processes)@
                },
            },
    {
        process_of(processes, self.id)
    }

    /// Takes the process out of the registry and hands it back, so that
    /// the caller can shut its tasks down. The handle is inactive from then
    /// on.
    pub fn abort<P, I, O, E>(&self, processes: &mut Registry<ProcessEntry<P, I, O, E>>) -> (removed:
        Result<ProcessEntry<P, I, O, E>, Failure>)
        ensures
            old(processes)@.contains_key(self@) ==> removed == Ok::<
                ProcessEntry<P, I, O, E>,
                Failure,
            >(old(processes)@[self@]),
            !old(processes)@.contains_key(self@) ==> removed == Err::<
                ProcessEntry<P, I, O, E>,
                Failure,
            >(Failure::NotFound { id: self@ }),
            final(processes)@ == old(processes)@.remove(self@),
    {
        processes.remove(self.id)
    }
}

} // verus!
