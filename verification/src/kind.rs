//! A handle to one child process and its three standard streams.
use crate::outside::{arc_clone, guard, guards};
use std::sync::Arc;
use tokio::process::{Child, ChildStderr, ChildStdin, ChildStdout};
use tokio::sync::Mutex;
use vstd::prelude::*;

verus! {

/// A child process as it comes from being started, with the pipes taken out of
/// it. A stream that was not redirected to a pipe is `None`.
#[derive(Debug)]
pub struct Spawned {
    pub inner: Child,
    pub stdin: Option<ChildStdin>,
    pub stdout: Option<ChildStdout>,
    pub stderr: Option<ChildStderr>,
}

impl Spawned {
    /// All three streams are pipes.
    pub open spec fn piped(&self) -> bool {
        self.stdin is Some && self.stdout is Some && self.stderr is Some
    }

    /// Whether all three streams are pipes.
    pub fn is_piped(&self) -> (piped: bool)
        ensures
            piped == self.piped(),
    {
        self.stdin.is_some() && self.stdout.is_some() && self.stderr.is_some()
    }
}

/// Refers to a child process and its three pipes. Clones refer to the same
/// child and the same pipes; the pipes are closed when the last clone is dropped
/// and no lock on them is left.
#[derive(Debug)]
pub struct Kind {
    inner: KindInner,
}

#[derive(Debug)]
struct KindInner {
    inner: Arc<Mutex<Child>>,
    stdin: Arc<Mutex<ChildStdin>>,
    stdout: Arc<Mutex<ChildStdout>>,
    stderr: Arc<Mutex<ChildStderr>>,
}

impl Clone for KindInner {
    fn clone(&self) -> (other: Self)
        ensures
            other == *self,
    {
        KindInner {
            inner: arc_clone(&self.inner),
            stdin: arc_clone(&self.stdin),
            stdout: arc_clone(&self.stdout),
            stderr: arc_clone(&self.stderr),
        }
    }
}

impl Clone for Kind {
    fn clone(&self) -> (other: Self)
        ensures
            other == *self,
    {
        Kind { inner: self.inner.clone() }
    }
}

impl Kind {
    /// The mutex around the process.
    pub closed spec fn child_mutex(&self) -> Mutex<Child> {
        *self.inner.inner
    }

    /// The mutex around the child's standard input.
    pub closed spec fn stdin_mutex(&self) -> Mutex<ChildStdin> {
        *self.inner.stdin
    }

    /// The mutex around the child's standard output.
    pub closed spec fn stdout_mutex(&self) -> Mutex<ChildStdout> {
        *self.inner.stdout
    }

    /// The mutex around the child's standard error.
    pub closed spec fn stderr_mutex(&self) -> Mutex<ChildStderr> {
        *self.inner.stderr
    }

    /// This kind refers to the process and the pipes of `spawned`, each behind a
    /// mutex of its own.
    pub open spec fn made_of(&self, spawned: Spawned) -> bool {
        &&& guards(self.child_mutex(), spawned.inner)
        &&& spawned.stdin matches Some(stdin) && guards(self.stdin_mutex(), stdin)
        &&& spawned.stdout matches Some(stdout) && guards(self.stdout_mutex(), stdout)
        &&& spawned.stderr matches Some(stderr) && guards(self.stderr_mutex(), stderr)
    }

    /// A kind for a process that was started with its three streams piped. An
    /// error from starting it is passed on.
    pub fn new<E>(spawned: Result<Spawned, E>) -> (kind: Result<Kind, E>)
        requires
            spawned matches Ok(spawned) ==> spawned.piped(),
        ensures
            match spawned {
                Ok(spawned) => kind matches Ok(kind) && kind.made_of(spawned),
                Err(err) => kind == Err::<Kind, E>(err),
            },
    {
        match spawned {
            Ok(spawned) => {
                let stdin = spawned.stdin.unwrap();
                let stdout = spawned.stdout.unwrap();
                let stderr = spawned.stderr.unwrap();
                Ok(
                    Kind {
                        inner: KindInner {
                            inner: Arc::new(guard(spawned.inner)),
                            stdin: Arc::new(guard(stdin)),
                            stdout: Arc::new(guard(stdout)),
                            stderr: Arc::new(guard(stderr)),
                        },
                    },
                )
            },
            Err(err) => Err(err),
        }
    }

    /// The process, to be locked before use.
    pub fn child(&self) -> (child: Arc<Mutex<Child>>)
        ensures
            *child == self.child_mutex(),
    {
        arc_clone(&self.inner.inner)
    }

    /// The child's standard input, to be locked before use.
    pub fn stdin(&self) -> (stdin: Arc<Mutex<ChildStdin>>)
        ensures
            *stdin == self.stdin_mutex(),
    {
        arc_clone(&self.inner.stdin)
    }

    /// The child's standard output, to be locked before use.
    pub fn stdout(&self) -> (stdout: Arc<Mutex<ChildStdout>>)
        ensures
            *stdout == self.stdout_mutex(),
    {
        arc_clone(&self.inner.stdout)
    }

    /// The child's standard error, to be locked before use.
    pub fn stderr(&self) -> (stderr: Arc<Mutex<ChildStderr>>)
        ensures
            *stderr == self.stderr_mutex(),
    {
        arc_clone(&self.inner.stderr)
    }
}

/// A kind is its process and its three pipes and nothing besides.
pub proof fn law_kind_is_its_mutexes(a: Kind, b: Kind)
    requires
        a.child_mutex() == b.child_mutex(),
        a.stdin_mutex() == b.stdin_mutex(),
        a.stdout_mutex() == b.stdout_mutex(),
        a.stderr_mutex() == b.stderr_mutex(),
    ensures
        a == b,
{
}

} // verus!
