use kindergarten::{
    ChildAccess, ChildProcess, ExitStatus, Kind, Kindergarten, Pid, Signal, Spawned, Ticket,
};
use nix::fcntl::OFlag;
use std::cell::Cell;
use std::io;
use std::sync::atomic::{AtomicUsize, Ordering};
use std::sync::{Arc, Mutex};
use tokio::io::{AsyncReadExt, AsyncWriteExt};
use tokio::process::{ChildStderr, ChildStdin, ChildStdout, Command};
use tokio::runtime::{Builder, Runtime};
use tokio::task::JoinSet;

fn runtime() -> Runtime {
    Builder::new_multi_thread().worker_threads(2).enable_all().build().unwrap()
}

/// Starts a shell script with its three streams piped.
fn start(script: &str) -> io::Result<Spawned> {
    let (stdin_read, stdin_write) = nix::unistd::pipe2(OFlag::O_CLOEXEC)?;
    let (stdout_read, stdout_write) = nix::unistd::pipe2(OFlag::O_CLOEXEC)?;
    let (stderr_read, stderr_write) = nix::unistd::pipe2(OFlag::O_CLOEXEC)?;
    let mut cmd = Command::new("sh");
    cmd.arg("-c").arg(script).kill_on_drop(true);
    let inner = cmd.stdin(stdin_read).stdout(stdout_write).stderr(stderr_write).spawn()?;
    Ok(Spawned {
        inner,
        stdin: Some(ChildStdin::from_std(stdin_write.into())?),
        stdout: Some(ChildStdout::from_std(stdout_read.into())?),
        stderr: Some(ChildStderr::from_std(stderr_read.into())?),
    })
}

fn same(a: &Kind, b: &Kind) -> bool {
    Arc::ptr_eq(&a.child(), &b.child())
        && Arc::ptr_eq(&a.stdin(), &b.stdin())
        && Arc::ptr_eq(&a.stdout(), &b.stdout())
        && Arc::ptr_eq(&a.stderr(), &b.stderr())
}

fn exited(code: i32) -> Result<Option<ExitStatus>, &'static str> {
    Ok(Some(ExitStatus { code: Some(code) }))
}

#[test]
fn ticket_is_its_number() {
    let number = 0xa1a2a3a4b1b2c1c2d1d2d3d4d5d6d7d8u128;
    assert_eq!(Ticket::from_u128(number).as_u128(), number);
    assert_eq!(Ticket::from_u128(number), Ticket::from_u128(number));
    assert_ne!(Ticket::from_u128(number), Ticket::from_u128(number + 1));
}

#[test]
fn tickets_compare_as_uuids_do() {
    let numbers = [0u128, 1, 256, 1 << 64, u128::MAX];
    for a in numbers {
        for b in numbers {
            assert_eq!(
                Ticket::from_u128(a).cmp(&Ticket::from_u128(b)),
                uuid::Uuid::from_u128(a).cmp(&uuid::Uuid::from_u128(b))
            );
        }
    }
}

#[test]
fn spawn_gives_random_uuids() {
    let rt = runtime();
    let _enter = rt.enter();
    let mut garden = Kindergarten::default();
    let a = garden.spawn(start("exit 0")).unwrap();
    let b = garden.spawn(start("exit 0")).unwrap();
    for ticket in [a, b] {
        let id = uuid::Uuid::from_u128(ticket.as_u128());
        assert_eq!(id.get_version(), Some(uuid::Version::Random));
        assert_eq!(id.get_variant(), uuid::Variant::RFC4122);
    }
    assert_ne!(a, b);
    assert!(!same(&garden.get(a).unwrap(), &garden.get(b).unwrap()));
}

#[test]
fn spawn_passes_errors_on() {
    let mut garden = Kindergarten::default();
    let err = garden.spawn(Err::<Spawned, &str>("no such program")).unwrap_err();
    assert_eq!(err, "no such program");
    let err = Kind::new(Err::<Spawned, &str>("no such program")).unwrap_err();
    assert_eq!(err, "no such program");
}

#[test]
fn spawn_under_a_used_ticket_replaces_the_child() {
    let rt = runtime();
    let _enter = rt.enter();
    let mut garden = Kindergarten::default();
    let t = Ticket::from_u128(7);
    assert_eq!(garden.spawn_under(t, start("exit 0")).unwrap(), t);
    let first = garden.get(t).unwrap();
    assert_eq!(garden.spawn_under(t, Err("refused")), Err("refused"));
    assert!(same(&first, &garden.get(t).unwrap()));
    assert_eq!(garden.spawn_under(t, start("exit 0")).unwrap(), t);
    assert!(!same(&first, &garden.get(t).unwrap()));
}

#[test]
fn spawned_without_pipes_is_not_piped() {
    let rt = runtime();
    let _enter = rt.enter();
    let mut spawned = start("exit 0").unwrap();
    assert!(spawned.is_piped());
    let stdin = spawned.stdin.take();
    assert!(!spawned.is_piped());
    spawned.stdin = stdin;
    let stdout = spawned.stdout.take();
    assert!(!spawned.is_piped());
    spawned.stdout = stdout;
    spawned.stderr = None;
    assert!(!spawned.is_piped());
}

#[test]
fn get_finds_what_spawn_put() {
    let rt = runtime();
    let _enter = rt.enter();
    let mut garden = Kindergarten::default();
    let t = garden.spawn(start("exit 0")).unwrap();
    let first = garden.get(t).unwrap();
    let second = garden.get(t).unwrap();
    assert!(same(&first, &second));
    assert!(same(&first, &first.clone()));
    assert!(garden.get(Ticket::from_u128(t.as_u128() ^ 1)).is_none());
}

#[test]
fn remove_returns_the_child_once() {
    let rt = runtime();
    let _enter = rt.enter();
    let mut garden = Kindergarten::default();
    let t = garden.spawn(start("exit 0")).unwrap();
    let other = garden.spawn(start("exit 0")).unwrap();
    let found = garden.get(t).unwrap();
    let removed = garden.remove(t).unwrap();
    assert!(same(&found, &removed));
    assert!(garden.get(t).is_none());
    assert!(garden.remove(t).is_none());
    assert!(garden.get(other).is_some());
}

#[test]
fn get_or_insert_with_starts_a_child_once() {
    let rt = runtime();
    let _enter = rt.enter();
    let mut garden = Kindergarten::default();
    let t = Ticket::from_u128(7);
    let starts = Cell::new(0);
    let f = || {
        starts.set(starts.get() + 1);
        start("sleep 1")
    };
    let first = garden.get_or_insert_with(t, f).unwrap();
    assert_eq!(starts.get(), 1);
    assert!(same(&first, &garden.get(t).unwrap()));
    let second = garden.get_or_insert_with(t, f).unwrap();
    assert_eq!(starts.get(), 1);
    assert!(same(&first, &second));
    let third =
        garden.get_or_insert_with(t, || Err::<Spawned, &str>("not called")).unwrap();
    assert!(same(&first, &third));
    garden.remove(t);
    let fourth = garden.get_or_insert_with(t, f).unwrap();
    assert_eq!(starts.get(), 2);
    assert!(!same(&first, &fourth));
}

#[test]
fn callers_at_once_share_one_child() {
    let rt = runtime();
    rt.block_on(async {
        let garden = Arc::new(Mutex::new(Kindergarten::default()));
        let starts = Arc::new(AtomicUsize::new(0));
        let t = Ticket::from_u128(7);
        let mut callers = JoinSet::new();
        for _ in 0..8 {
            let garden = Arc::clone(&garden);
            let starts = Arc::clone(&starts);
            callers.spawn(async move {
                let started = garden.lock().unwrap().get_or_insert_with(t, move || {
                    starts.fetch_add(1, Ordering::SeqCst);
                    start("sleep 1")
                });
                started.unwrap()
            });
        }
        let mut kinds = Vec::new();
        while let Some(kind) = callers.join_next().await {
            kinds.push(kind.unwrap());
        }
        assert_eq!(starts.load(Ordering::SeqCst), 1);
        assert_eq!(kinds.len(), 8);
        let found = garden.lock().unwrap().get(t).unwrap();
        assert!(kinds.iter().all(|kind| same(kind, &found)));
    });
}

#[test]
fn failed_start_leaves_the_ticket_free() {
    let rt = runtime();
    let _enter = rt.enter();
    let mut garden = Kindergarten::default();
    let t = Ticket::from_u128(7);
    assert!(garden.get_or_insert_with(t, || Err::<Spawned, &str>("refused")).is_err());
    let kind = garden.get_or_insert_with(t, || start("exit 0")).unwrap();
    assert!(same(&kind, &garden.get(t).unwrap()));
}

#[test]
fn get_or_insert_with_passes_errors_on() {
    let mut garden = Kindergarten::default();
    let t = Ticket::from_u128(7);
    let err = garden.get_or_insert_with(t, || Err::<Spawned, &str>("refused")).unwrap_err();
    assert_eq!(err, "refused");
    assert!(garden.get(t).is_none());
}

#[test]
fn streams_lead_to_the_child() {
    let rt = runtime();
    rt.block_on(async {
        let mut garden = Kindergarten::default();
        let t = garden.spawn(start("cat; echo oops >&2")).unwrap();
        let kind = garden.get(t).unwrap();
        let stdin = garden.stdin(t).unwrap();
        let stdout = garden.stdout(t).unwrap();
        let stderr = garden.stderr(t).unwrap();
        assert!(Arc::ptr_eq(&stdin, &kind.stdin()));
        assert!(Arc::ptr_eq(&stdout, &kind.stdout()));
        assert!(Arc::ptr_eq(&stderr, &kind.stderr()));

        stdin.clone().lock_owned().await.write_all(b"hello\n").await.unwrap();
        let mut line = [0u8; 6];
        stdout.clone().lock_owned().await.read_exact(&mut line).await.unwrap();
        assert_eq!(&line, b"hello\n");

        // The child sees the end of its input once nothing refers to the pipe.
        let _child = kind.child();
        drop((kind, stdin));
        drop(garden.remove(t));
        let mut rest = String::new();
        stderr.lock_owned().await.read_to_string(&mut rest).await.unwrap();
        assert_eq!(rest, "oops\n");
    });
}

#[test]
fn unknown_tickets_lead_nowhere() {
    let mut garden = Kindergarten::default();
    let t = Ticket::from_u128(1);
    assert!(garden.get(t).is_none());
    assert!(garden.remove(t).is_none());
    assert!(garden.stdin(t).is_none());
    assert!(garden.stdout(t).is_none());
    assert!(garden.stderr(t).is_none());
    assert!(garden.has_terminated(t).is_none());
    assert!(garden.success(t).is_none());
    assert!(garden.pid(t).is_none());
    assert!(garden.terminate(t).is_none());
    assert!(garden.send_signal(t, Signal { number: 2 }).is_none());
    assert!(garden.kill(t).is_none());
    assert!(garden.wait(t).is_none());
}

#[test]
fn has_terminated_lets_only_ended_children_go() {
    let rt = runtime();
    let _enter = rt.enter();
    let mut garden = Kindergarten::default();
    let t = garden.spawn(start("exit 0")).unwrap();
    let check = garden.has_terminated(t).unwrap();
    assert!(same(&check.kind, &garden.get(t).unwrap()));
    assert!(!check.polled(&mut garden, Ok::<_, &str>(None)));
    assert!(garden.get(t).is_some());
    let check = garden.has_terminated(t).unwrap();
    assert!(!check.polled(&mut garden, Err("no such process")));
    assert!(garden.get(t).is_some());
    let check = garden.has_terminated(t).unwrap();
    assert!(check.polled(&mut garden, exited(3)));
    assert!(garden.get(t).is_none());
}

#[test]
fn success_lets_every_polled_child_go() {
    let rt = runtime();
    let _enter = rt.enter();
    let mut garden = Kindergarten::default();
    for (polled, reply) in [
        (exited(0), true),
        (exited(1), false),
        (Ok(Some(ExitStatus { code: None })), false),
        (Ok(None), false),
    ] {
        let t = garden.spawn(start("exit 0")).unwrap();
        let check = garden.success(t).unwrap();
        assert!(same(&check.kind, &garden.get(t).unwrap()));
        assert_eq!(check.polled(&mut garden, polled), Ok(reply));
        assert!(garden.get(t).is_none());
    }
    let t = garden.spawn(start("exit 0")).unwrap();
    let check = garden.success(t).unwrap();
    assert_eq!(check.polled(&mut garden, Err("no such process")), Err("no such process"));
    assert!(garden.get(t).is_some());
}

#[test]
fn exit_status_success_is_code_zero() {
    assert!(ExitStatus { code: Some(0) }.success());
    assert!(!ExitStatus { code: Some(1) }.success());
    assert!(!ExitStatus { code: Some(-1) }.success());
    assert!(!ExitStatus { code: None }.success());
}

#[test]
fn pids_are_in_range() {
    assert_eq!(Pid::from_id(None), None);
    assert_eq!(Pid::from_id(Some(4321)), Some(Pid { raw: 4321 }));
    assert_eq!(Pid::from_id(Some(2147483647)), Some(Pid { raw: 2147483647 }));
    assert_eq!(Pid::from_id(Some(2147483648)), None);
    assert_eq!(Pid::from_id(Some(u32::MAX)), None);
}

#[test]
fn pid_is_the_number_of_the_child() {
    let rt = runtime();
    rt.block_on(async {
        let mut garden = Kindergarten::default();
        let t = garden.spawn(start("sleep 1")).unwrap();
        let query = garden.pid(t).unwrap();
        let id = query.kind.child().lock_owned().await.id();
        assert!(id.is_some());
        let pid = query.identified(id).unwrap();
        assert_eq!(pid.raw, id.unwrap() as i32);
    });
}

#[test]
fn children_have_identifiers_until_they_are_reaped() {
    let rt = runtime();
    rt.block_on(async {
        let mut garden = Kindergarten::default();
        let polled = garden.spawn(start("exit 0")).unwrap();
        let judged = garden.spawn(start("exit 0")).unwrap();
        let waited = garden.spawn(start("exit 0")).unwrap();
        let killed = garden.spawn(start("exec sleep 10")).unwrap();
        for t in [polled, judged, waited, killed] {
            let query = garden.pid(t).unwrap();
            let id = query.kind.child().lock_owned().await.id();
            assert!(query.identified(id).is_some());
        }

        loop {
            let check = garden.has_terminated(polled).unwrap();
            let status = check.kind.child().lock_owned().await.try_wait();
            let status = status.map(|s| s.map(|s| ExitStatus { code: s.code() }));
            if check.polled(&mut garden, status) {
                break;
            }
            let query = garden.pid(polled).unwrap();
            let id = query.kind.child().lock_owned().await.id();
            assert!(query.identified(id).is_some());
            tokio::time::sleep(std::time::Duration::from_millis(5)).await;
        }
        assert!(garden.pid(polled).is_none());

        let check = garden.success(judged).unwrap();
        let status = check.kind.child().lock_owned().await.wait().await;
        let status = status.map(|s| Some(ExitStatus { code: s.code() }));
        assert!(check.polled(&mut garden, status).unwrap());
        assert!(garden.pid(judged).is_none());

        let waiting = garden.wait(waited).unwrap();
        let status = waiting.kind.child().lock_owned().await.wait().await;
        assert!(waiting.exited(&mut garden, status).unwrap().success());
        assert!(garden.pid(waited).is_none());

        let request = garden.kill(killed).unwrap();
        let mut child = request.kind.child().lock_owned().await;
        let waiting = request.started(child.start_kill()).unwrap();
        let status = child.wait().await;
        assert!(child.id().is_none());
        drop(child);
        assert!(!waiting.exited(&mut garden, status).unwrap().success());
        assert!(garden.pid(killed).is_none());
    });
}

#[test]
fn terminate_sends_sigterm_and_waits() {
    let rt = runtime();
    rt.block_on(async {
        let mut garden = Kindergarten::default();
        let t = garden.spawn(start("exec sleep 10")).unwrap();
        let request = garden.terminate(t).unwrap();
        let id = request.query.kind.child().lock_owned().await.id();
        let ready = request.identified(id).unwrap();
        assert_eq!(ready.ticket, t);
        assert_eq!(ready.signal.number, nix::sys::signal::Signal::SIGTERM as i32);
        assert_eq!(ready.pid, Pid { raw: id.unwrap() as i32 });
        let sent = nix::sys::signal::kill(
            nix::unistd::Pid::from_raw(ready.pid.raw),
            nix::sys::signal::Signal::SIGTERM,
        );
        let waiting = ready.sent(&garden, sent).unwrap().unwrap();
        let status = waiting.kind.child().lock_owned().await.wait().await;
        let status = waiting.exited(&mut garden, status).unwrap();
        assert_eq!(status.code(), None);
        assert!(garden.get(t).is_none());
    });
}

#[test]
fn send_signal_stops_where_it_cannot_go_on() {
    let rt = runtime();
    let _enter = rt.enter();
    let mut garden = Kindergarten::default();
    let t = garden.spawn(start("sleep 1")).unwrap();
    let signal = Signal { number: 2 };

    // The child has been reaped, or its number is no process identifier.
    assert!(garden.send_signal(t, signal).unwrap().identified(None).is_none());
    assert!(garden.send_signal(t, signal).unwrap().identified(Some(u32::MAX)).is_none());
    assert!(garden.get(t).is_some());

    // The signal could not be sent.
    let ready = garden.send_signal(t, signal).unwrap().identified(Some(5)).unwrap();
    assert_eq!(ready.signal, signal);
    match ready.sent(&garden, Err("not permitted")) {
        Some(Err(err)) => assert_eq!(err, "not permitted"),
        _ => panic!("the error is passed on"),
    }
    assert!(garden.get(t).is_some());

    // The signal was sent, but the child has left in the meantime.
    let ready = garden.send_signal(t, signal).unwrap().identified(Some(5)).unwrap();
    garden.remove(t);
    assert!(ready.sent(&garden, Ok::<(), &str>(())).is_none());
}

#[test]
fn kill_that_cannot_start_keeps_the_child() {
    let rt = runtime();
    let _enter = rt.enter();
    let mut garden = Kindergarten::default();
    let t = garden.spawn(start("exit 0")).unwrap();
    let request = garden.kill(t).unwrap();
    assert!(same(&request.kind, &garden.get(t).unwrap()));
    match request.started(Err("not permitted")) {
        Err(err) => assert_eq!(err, "not permitted"),
        Ok(_) => panic!("the error is passed on"),
    }
    assert!(garden.get(t).is_some());

    let waiting = garden.kill(t).unwrap().started(Ok::<(), &str>(())).unwrap();
    assert_eq!(waiting.ticket, t);
    assert!(same(&waiting.kind, &garden.get(t).unwrap()));
    assert_eq!(waiting.exited(&mut garden, Ok::<i32, &str>(9)), Ok(9));
    assert!(garden.get(t).is_none());
}

#[test]
fn wait_that_fails_lets_the_child_go() {
    let rt = runtime();
    let _enter = rt.enter();
    let mut garden = Kindergarten::default();
    let t = garden.spawn(start("exit 0")).unwrap();
    let waiting = garden.wait(t).unwrap();
    assert_eq!(waiting.exited(&mut garden, Err::<i32, &str>("no child")), Err("no child"));
    assert!(garden.get(t).is_none());
}

#[test]
fn wait_takes_the_ticket_not_the_child() {
    let rt = runtime();
    let _enter = rt.enter();
    let mut garden = Kindergarten::default();
    let t = Ticket::from_u128(7);
    let first = garden.get_or_insert_with(t, || start("exit 0")).unwrap();
    let waiting = garden.wait(t).unwrap();
    garden.remove(t);
    let second = garden.get_or_insert_with(t, || start("exit 0")).unwrap();
    assert!(!same(&first, &second));
    assert!(same(&waiting.kind, &first));
    assert_eq!(waiting.exited(&mut garden, Ok::<i32, &str>(0)), Ok(0));
    assert!(garden.get(t).is_none());
}

#[test]
fn children_stay_while_others_come_and_go() {
    let rt = runtime();
    let _enter = rt.enter();
    let mut garden = Kindergarten::default();
    let t = garden.spawn(start("exit 0")).unwrap();
    let kind = garden.get(t).unwrap();
    let others: Vec<Ticket> = (0..5).map(|_| garden.spawn(start("exit 0")).unwrap()).collect();
    let waits: Vec<_> = others.iter().map(|other| garden.wait(*other).unwrap()).collect();
    for waiting in waits.into_iter().rev() {
        waiting.exited(&mut garden, Ok::<i32, &str>(0)).unwrap();
        assert!(same(&kind, &garden.get(t).unwrap()));
    }
    for other in others {
        assert!(garden.get(other).is_none());
    }
}

struct Badge {
    ticket: Ticket,
}

impl ChildProcess for Badge {
    fn ticket(&self) -> Ticket {
        self.ticket
    }
}

#[test]
fn child_access_follows_the_ticket_of_its_provider() {
    let rt = runtime();
    let _enter = rt.enter();
    let mut garden = Kindergarten::default();
    let t = Ticket::from_u128(11);
    let access = ChildAccess { provider: Badge { ticket: t } };
    assert!(access.get(&garden).is_none());
    let err = access.get_or_spawn_with(&mut garden, || Err::<Spawned, &str>("refused"));
    assert_eq!(err.unwrap_err(), "refused");
    assert!(access.get(&garden).is_none());
    let started = access.get_or_spawn_with(&mut garden, || start("exit 0")).unwrap();
    assert!(same(&started, &access.get(&garden).unwrap()));
    assert!(same(&started, &garden.get(t).unwrap()));
    let again = access
        .get_or_spawn_with(&mut garden, || -> io::Result<Spawned> { panic!("a stray start") })
        .unwrap();
    assert!(same(&started, &again));
}
