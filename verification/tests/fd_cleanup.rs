use kindergarten::{Kindergarten, Spawned, Ticket};
use nix::{
    errno::Errno,
    fcntl::{fcntl, FcntlArg, OFlag},
};
use std::{
    io,
    sync::{Arc, LazyLock, Mutex},
    time::Duration,
};
use tokio::{
    process::{Child, ChildStderr, ChildStdin, ChildStdout, Command},
    runtime::{Builder, Runtime},
    task::JoinSet,
    time::sleep,
};

static TEST_LOCK: LazyLock<Mutex<()>> = LazyLock::new(|| Mutex::new(()));

const ASSERT_TIMEOUT: Duration = Duration::from_secs(5);
const ASSERT_POLL_INTERVAL: Duration = Duration::from_millis(20);

fn runtime() -> Runtime {
    Builder::new_multi_thread().worker_threads(4).enable_all().build().unwrap()
}

fn quick_exit_command() -> Command {
    let mut cmd = Command::new("sh");
    cmd.arg("-c").arg("exit 0");
    cmd
}

fn delayed_exit_command() -> Command {
    let mut cmd = Command::new("sh");
    cmd.arg("-c").arg("sleep 0.05");
    cmd
}

fn long_lived_command() -> Command {
    let mut cmd = Command::new("sh");
    cmd.arg("-c").arg("sleep 30");
    cmd
}

/// A garden that tasks share, and the far ends of the pipes of every child that
/// was ever in it.
struct Shared {
    garden: Mutex<Kindergarten>,
    watches: Mutex<Vec<Box<dyn Fn() -> bool + Send>>>,
}

impl Shared {
    fn new() -> Self {
        Shared { garden: Mutex::new(Kindergarten::default()), watches: Mutex::new(Vec::new()) }
    }

    /// Starts a process with its three streams piped.
    fn start(&self, mut cmd: Command) -> io::Result<Spawned> {
        let (stdin_read, stdin_write) = nix::unistd::pipe2(OFlag::O_CLOEXEC)?;
        let (stdout_read, stdout_write) = nix::unistd::pipe2(OFlag::O_CLOEXEC)?;
        let (stderr_read, stderr_write) = nix::unistd::pipe2(OFlag::O_CLOEXEC)?;
        let far_stdin = stdin_read.try_clone()?;
        let far_stdout = stdout_write.try_clone()?;
        let far_stderr = stderr_write.try_clone()?;
        let inner: Child = cmd.stdin(stdin_read).stdout(stdout_write).stderr(stderr_write).spawn()?;
        drop(cmd);
        let mut watches = self.watches.lock().unwrap();
        fcntl(&far_stdin, FcntlArg::F_SETFL(OFlag::O_NONBLOCK))?;
        watches.push(Box::new(move || {
            nix::unistd::read(&far_stdin, &mut [0u8]) == Err(Errno::EAGAIN)
        }));
        for far in [far_stdout, far_stderr] {
            fcntl(&far, FcntlArg::F_SETFL(OFlag::O_NONBLOCK))?;
            watches.push(Box::new(move || {
                nix::unistd::write(&far, b".") != Err(Errno::EPIPE)
            }));
        }
        Ok(Spawned {
            inner,
            stdin: Some(ChildStdin::from_std(stdin_write.into())?),
            stdout: Some(ChildStdout::from_std(stdout_read.into())?),
            stderr: Some(ChildStderr::from_std(stderr_read.into())?),
        })
    }

    /// How many of the pipes are open at the garden's end.
    fn open_pipes(&self) -> usize {
        self.watches.lock().unwrap().iter().filter(|is_open| is_open()).count()
    }

    async fn assert_pipes_eventually(&self, expected: usize, context: &str) {
        let mut waited = Duration::ZERO;
        while self.open_pipes() != expected {
            assert!(
                waited < ASSERT_TIMEOUT,
                "pipe count mismatch during {context}: expected={expected}, current={}",
                self.open_pipes()
            );
            sleep(ASSERT_POLL_INTERVAL).await;
            waited += ASSERT_POLL_INTERVAL;
        }
    }

    fn spawn(&self, cmd: Command) -> io::Result<Ticket> {
        let spawned = self.start(cmd);
        assert!(spawned.as_ref().map_or(true, |spawned| spawned.is_piped()));
        self.garden.lock().unwrap().spawn(spawned)
    }

    /// Waits for a child; the reply is its exit code.
    async fn wait(&self, t: Ticket) -> Option<io::Result<Option<i32>>> {
        let waiting = self.garden.lock().unwrap().wait(t)?;
        let status = waiting.kind.child().lock_owned().await.wait().await;
        let status = status.map(|status| status.code());
        Some(waiting.exited(&mut self.garden.lock().unwrap(), status))
    }

    async fn kill(&self, t: Ticket) -> Option<io::Result<Option<i32>>> {
        let request = self.garden.lock().unwrap().kill(t)?;
        let mut child = request.kind.child().lock_owned().await;
        let waiting = match request.started(child.start_kill()) {
            Ok(waiting) => waiting,
            Err(err) => return Some(Err(err)),
        };
        let status = child.wait().await.map(|status| status.code());
        drop(child);
        Some(waiting.exited(&mut self.garden.lock().unwrap(), status))
    }

    async fn has_terminated(&self, t: Ticket) -> Option<bool> {
        let check = self.garden.lock().unwrap().has_terminated(t)?;
        let polled = check.kind.child().lock_owned().await.try_wait();
        let polled = polled.map(|status| {
            status.map(|status| kindergarten::ExitStatus { code: status.code() })
        });
        Some(check.polled(&mut self.garden.lock().unwrap(), polled))
    }

    fn get(&self, t: Ticket) -> Option<kindergarten::Kind> {
        self.garden.lock().unwrap().get(t)
    }
}

fn spawn_many(garden: &Shared, count: usize, command: fn() -> Command) -> io::Result<Vec<Ticket>> {
    let mut tickets = Vec::with_capacity(count);
    for _ in 0..count {
        tickets.push(garden.spawn(command())?);
    }
    Ok(tickets)
}

#[test]
fn exact_pipe_accounting_for_live_children_and_kill_cleanup() {
    let _guard = TEST_LOCK.lock().expect("test lock poisoned");
    runtime().block_on(async {
        let garden = Arc::new(Shared::new());
        let baseline = garden.open_pipes();
        let child_count = 24usize;
        let tickets = spawn_many(&garden, child_count, long_lived_command).unwrap();

        garden
            .assert_pipes_eventually(baseline + (child_count * 3), "steady-state live children")
            .await;

        let mut kill_set = JoinSet::new();
        for ticket in tickets {
            let garden = Arc::clone(&garden);
            kill_set.spawn(async move {
                let status = garden.kill(ticket).await.expect("child should exist")?;
                assert!(
                    garden.get(ticket).is_none(),
                    "child was not removed from the garden after kill"
                );
                Ok::<_, io::Error>(status)
            });
        }

        while let Some(result) = kill_set.join_next().await {
            result.expect("kill task panicked").unwrap();
        }

        garden.assert_pipes_eventually(baseline, "post-kill cleanup").await;
    });
}

#[test]
fn concurrent_mixed_completion_paths_never_leave_residual_pipes() {
    let _guard = TEST_LOCK.lock().expect("test lock poisoned");
    runtime().block_on(async {
        let garden = Arc::new(Shared::new());
        let baseline = garden.open_pipes();
        let rounds = 8usize;
        let tasks_per_round = 18usize;

        for round in 0..rounds {
            let mut set = JoinSet::new();

            for task_index in 0..tasks_per_round {
                let garden = Arc::clone(&garden);
                set.spawn(async move {
                    match task_index % 3 {
                        0 => {
                            let ticket = garden.spawn(delayed_exit_command())?;
                            let leaked_clone = garden.get(ticket).expect("child should exist");
                            let status = garden.wait(ticket).await.expect("child should exist")?;
                            assert!(status == Some(0), "waited child exited unsuccessfully");
                            drop(leaked_clone);
                            assert!(
                                garden.get(ticket).is_none(),
                                "child should be removed after wait"
                            );
                        }
                        1 => {
                            let ticket = garden.spawn(delayed_exit_command())?;
                            let leaked_clone = garden.get(ticket).expect("child should exist");
                            loop {
                                if garden.has_terminated(ticket).await == Some(true) {
                                    break;
                                }
                                sleep(Duration::from_millis(5)).await;
                            }
                            drop(leaked_clone);
                            assert!(
                                garden.get(ticket).is_none(),
                                "child should be removed after termination polling"
                            );
                        }
                        _ => {
                            let ticket = garden.spawn(long_lived_command())?;
                            let leaked_clone = garden.get(ticket).expect("child should exist");
                            sleep(Duration::from_millis(10)).await;
                            let _status = garden.kill(ticket).await.expect("child should exist")?;
                            drop(leaked_clone);
                            assert!(
                                garden.get(ticket).is_none(),
                                "child should be removed after kill"
                            );
                        }
                    }

                    Ok::<_, io::Error>(())
                });
            }

            while let Some(result) = set.join_next().await {
                result.expect("stress task panicked").unwrap();
            }

            garden.assert_pipes_eventually(baseline, &format!("round {round} cleanup")).await;
        }
    });
}

#[test]
fn rapid_spawn_wait_cycles_return_to_exact_baseline_every_time() {
    let _guard = TEST_LOCK.lock().expect("test lock poisoned");
    runtime().block_on(async {
        let garden = Shared::new();
        let baseline = garden.open_pipes();

        for iteration in 0..128usize {
            let ticket = garden.spawn(quick_exit_command()).unwrap();
            let status = garden.wait(ticket).await.expect("child should exist").unwrap();
            assert!(status == Some(0), "child exited unsuccessfully at iteration {iteration}");
            assert!(garden.get(ticket).is_none(), "child was not removed after wait");
            garden
                .assert_pipes_eventually(baseline, &format!("rapid iteration {iteration}"))
                .await;
        }
    });
}
