//! Messages exchanged between a client and the timer daemon.

use vstd::prelude::*;
use vstd::string::{StrSliceExecFns, StringExecFns};

verus! {

/// Largest request or response frame, in bytes, that either side reads.
pub const FRAME_CAPACITY: usize = 1024;

/// Phase the timer is in. `Idle` is both the initial state and the rest state
/// after a run completes.
#[derive(Clone, Copy, Debug, PartialEq, Eq, Structural)]
pub enum PomoMode {
    Focus,
    Break,
    Idle,
}

/// A request sent by a client. One request travels per connection.
#[derive(Clone, Copy, Debug, PartialEq, Eq, Structural)]
pub enum DaemonCommand {
    /// Begin a run of `cycles` focus phases of `focus_len` minutes each,
    /// separated by breaks of `break_len` minutes.
    Start { task_id: u32, focus_len: u64, break_len: u64, cycles: u32 },
    Status,
    Stop,
    Pause,
    Resume,
    /// Liveness check; touches no timer state.
    Ping,
    /// Ask the daemon to confirm and then terminate.
    Kill,
}

/// The daemon's answer to one request.
#[derive(Clone, Debug, PartialEq, Eq)]
pub enum DaemonResponse {
    /// The request was carried out; the text says what was done.
    Okay(String),
    /// The request was refused; the text says why.
    Error(String),
    Status { remaining_secs: u64, is_running: bool, mode: PomoMode, cycles_left: u32, task_id: Option<u32> },
    Pong,
}

/// Mathematical content of a [`DaemonResponse`]: texts as character
/// sequences, counters as naturals.
pub enum ResponseView {
    Okay(Seq<char>),
    Error(Seq<char>),
    Status { remaining_secs: nat, is_running: bool, mode: PomoMode, cycles_left: nat, task_id: Option<u32> },
    Pong,
}

impl View for DaemonResponse {
    type V = ResponseView;

    open spec fn view(&self) -> ResponseView {
        match *self {
            DaemonResponse::Okay(message) => ResponseView::Okay(message@),
            DaemonResponse::Error(message) => ResponseView::Error(message@),
            DaemonResponse::Status { remaining_secs, is_running, mode, cycles_left, task_id } => ResponseView::Status {
                remaining_secs: remaining_secs as nat,
                is_running,
                mode,
                cycles_left: cycles_left as nat,
                task_id,
            },
            DaemonResponse::Pong => ResponseView::Pong,
        }
    }
}


/// Family of local channel the platform offers.
#[derive(Clone, Copy, Debug, PartialEq, Eq, Structural)]
pub enum ChannelKind {
    /// Named pipes in a namespace of their own; nothing is left on disk.
    NamespacedPipe,
    /// Sockets that live in the file system as a file.
    FilesystemSocket,
}

/// The fixed identifier of the daemon's named pipe.
pub open spec fn pipe_name() -> Seq<char> {
    "\\\\.\\pipe\\taiga-daemon"@
}

/// The fixed file name of the daemon's socket.
pub open spec fn socket_file_name() -> Seq<char> {
    "taiga.sock"@
}

/// The path of the entry `name` in the directory `dir`: the two joined by one
/// `/`, which is left out where `dir` is empty or already ends in one.
pub open spec fn join_path(dir: Seq<char>, name: Seq<char>) -> Seq<char> {
    if dir.len() == 0 || dir.last() == '/' {
        dir + name
    } else {
        dir + seq!['/'] + name
    }
}

/// The directory that holds the socket: the runtime directory where the
/// platform has one, the cache directory otherwise.
pub open spec fn socket_dir(runtime_dir: Option<Seq<char>>, cache_dir: Seq<char>) -> Seq<char> {
    match runtime_dir {
        Some(dir) => dir,
        None => cache_dir,
    }
}

/// The channel address for the given platform family and user directories.
pub open spec fn socket_address(kind: ChannelKind, runtime_dir: Option<Seq<char>>, cache_dir: Seq<char>) -> Seq<
    char,
> {
    match kind {
        ChannelKind::NamespacedPipe => pipe_name(),
        ChannelKind::FilesystemSocket => join_path(socket_dir(runtime_dir, cache_dir), socket_file_name()),
    }
}

/// Joins a directory and an entry name into one path.
pub fn join(dir: &str, name: &str) -> (path: String)
    ensures
        path@ == join_path(dir@, name@),
{
    let len = dir.unicode_len();
    let mut path = String::from_str(dir);
    if len > 0 && dir.get_char(len - 1) != '/' {
        proof {
            reveal_strlit("/");
        }
        path.append("/");
        assert("/"@ =~= seq!['/']);
    }
    path.append(name);
    path
}

/// The address on which client and daemon meet. It depends on nothing but
/// the arguments, so both sides compute the same one.
pub fn socket_path_in(kind: ChannelKind, runtime_dir: Option<&str>, cache_dir: &str) -> (path: String)
    ensures
        path@ == socket_address(
            kind,
            match runtime_dir {
                Some(dir) => Some(dir@),
                None => None,
            },
            cache_dir@,
        ),
{
    match kind {
        ChannelKind::NamespacedPipe => String::from_str("\\\\.\\pipe\\taiga-daemon"),
        ChannelKind::FilesystemSocket => {
            let dir = match runtime_dir {
                Some(dir) => dir,
                None => cache_dir,
            };
            join(dir, "taiga.sock")
        },
    }
}

impl ChannelKind {
    /// Whether a daemon that starts has to remove what an earlier one left
    /// behind: only a socket file can be left, and only one that exists is
    /// removed.
    pub fn must_remove_stale(&self, artifact_exists: bool) -> (remove: bool)
        ensures
            remove == (*self == ChannelKind::FilesystemSocket && artifact_exists),
    {
        match self {
            ChannelKind::NamespacedPipe => false,
            ChannelKind::FilesystemSocket => artifact_exists,
        }
    }
}

/// `directories::BaseDirs`, the user's directories as the `directories`
/// crate found them; carried through, never looked into.
#[verifier::external_type_specification]
#[verifier::external_body]
pub struct ExBaseDirs(directories::BaseDirs);

/// Calls `directories::BaseDirs::new`, which reads the user's directories
/// from the environment and the system. Nothing is claimed of the result: it
/// is `None` where no home directory can be found.
#[verifier::external_body]
fn base_dirs() -> (dirs: Option<directories::BaseDirs>) {
    directories::BaseDirs::new()
}

/// Calls `directories::BaseDirs::runtime_dir` and hands the path out as
/// text. Nothing is claimed of the result.
#[verifier::external_body]
fn runtime_dir_of(dirs: &directories::BaseDirs) -> (dir: Option<String>) {
    dirs.runtime_dir().map(|p| p.to_string_lossy().into_owned())
}

/// Calls `directories::BaseDirs::cache_dir` and hands the path out as text.
/// Nothing is claimed of the result.
#[verifier::external_body]
fn cache_dir_of(dirs: &directories::BaseDirs) -> (dir: String) {
    dirs.cache_dir().to_string_lossy().into_owned()
}

/// The address on which client and daemon meet on this machine, or `None`
/// where the user has no home directory to derive one from. On a
/// named-pipe platform it is the fixed pipe identifier; otherwise it is the
/// socket file in one of the user's directories.
pub fn get_socket_path(kind: ChannelKind) -> (path: Option<String>)
    ensures
        kind == ChannelKind::NamespacedPipe ==> path is Some && path->0@ == pipe_name(),
        kind == ChannelKind::FilesystemSocket && path is Some ==> exists|dir: Seq<char>|
            path->0@ == join_path(dir, socket_file_name()),
{
    match kind {
        ChannelKind::NamespacedPipe => Some(socket_path_in(kind, None, "")),
        ChannelKind::FilesystemSocket => match base_dirs() {
            Some(dirs) => {
                let runtime = runtime_dir_of(&dirs);
                let cache = cache_dir_of(&dirs);
                let path = match &runtime {
                    Some(dir) => socket_path_in(kind, Some(dir.as_str()), cache.as_str()),
                    None => socket_path_in(kind, None, cache.as_str()),
                };
                assert(path@ == join_path(
                    socket_dir(
                        match runtime {
                            Some(dir) => Some(dir@),
                            None => None,
                        },
                        cache@,
                    ),
                    socket_file_name(),
                ));
                Some(path)
            },
            None => None,
        },
    }
}

} // verus!
