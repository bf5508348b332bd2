use rust_binder::context_ops::{
    rust_binder_new_context, rust_binder_remove_context, RemoveContextStep,
};
use rust_binder::device::binder_device;
use rust_binder::error::Error;
use rust_binder::file_ops::{
    rust_binder_flush, rust_binder_ioctl, rust_binder_mmap, rust_binder_open, rust_binder_poll,
    rust_binder_release, OpenStep, POLLERR,
};

const INODE: usize = 0x10;
const DEVICE: usize = 0x20;
const FILE: usize = 0x30;
const CTX: usize = 0x40;
const PROCESS: usize = 0x50;
const PID: i32 = 77;

fn open(
    process: Result<usize, Error>,
    created: Result<usize, Error>,
) -> (Vec<String>, i32) {
    let mut log = Vec::new();
    let mut step = rust_binder_open(INODE, DEVICE, FILE);
    loop {
        step = match step {
            OpenStep::ReadDevice { device, then } => {
                log.push(format!("device {:#x}", device));
                then.resume(binder_device { minor: 3, ctx: CTX })
            }
            OpenStep::OpenProcess { ctx, file, then } => {
                log.push(format!("open {:#x} {:#x}", ctx, file));
                then.resume(process)
            }
            OpenStep::GetPid { process, then } => {
                log.push(format!("pid {:#x}", process));
                then.resume(PID)
            }
            OpenStep::CreateProcFile { inode, pid, then } => {
                log.push(format!("create {:#x} {}", inode, pid));
                then.resume(created)
            }
            OpenStep::SetBinderfsFile { process, proc_file, then } => {
                log.push(format!("give {:#x} {:#x}", process, proc_file.dentry));
                then.resume()
            }
            OpenStep::SetPrivateData { file, process, then } => {
                log.push(format!("private {:#x} {:#x}", file, process));
                then.resume()
            }
            OpenStep::DropProcess { process, then } => {
                log.push(format!("drop {:#x}", process));
                then.resume()
            }
            OpenStep::Return(value) => return (log, value),
        };
    }
}

#[test]
fn open_gives_the_process_its_file() {
    let (log, value) = open(Ok(PROCESS), Ok(0x60));
    assert_eq!(value, 0);
    assert_eq!(
        log,
        vec![
            "device 0x20",
            "open 0x40 0x30",
            "pid 0x50",
            "create 0x10 77",
            "give 0x50 0x60",
            "private 0x30 0x50",
        ]
    );
}

#[test]
fn open_succeeds_if_the_pid_has_a_file() {
    for created in [Err(Error { errno: -17 }), Ok(0)] {
        let (log, value) = open(Ok(PROCESS), created);
        assert_eq!(value, 0);
        assert_eq!(
            log,
            vec![
                "device 0x20",
                "open 0x40 0x30",
                "pid 0x50",
                "create 0x10 77",
                "private 0x30 0x50",
            ]
        );
    }
}

#[test]
fn open_fails_without_a_process() {
    let (log, value) = open(Err(Error { errno: -12 }), Ok(0x60));
    assert_eq!(value, -12);
    assert_eq!(log, vec!["device 0x20", "open 0x40 0x30"]);
}

#[test]
fn open_drops_the_process_if_its_file_fails() {
    let (log, value) = open(Ok(PROCESS), Err(Error { errno: -28 }));
    assert_eq!(value, -28);
    assert_eq!(
        log,
        vec![
            "device 0x20",
            "open 0x40 0x30",
            "pid 0x50",
            "create 0x10 77",
            "drop 0x50",
        ]
    );
}

#[test]
fn release_takes_the_process() {
    let call = rust_binder_release(PROCESS, FILE);
    assert_eq!((call.process, call.file), (PROCESS, FILE));
    assert_eq!(call.finish(), 0);
}

#[test]
fn ioctl_returns_zero_or_the_error() {
    let call = rust_binder_ioctl(PROCESS, FILE, 0xc030_6201, 0x7fff);
    assert_eq!(
        (call.process, call.file, call.cmd, call.arg),
        (PROCESS, FILE, 0xc030_6201, 0x7fff)
    );
    assert_eq!(call.finish(Ok(())), 0);
    assert_eq!(rust_binder_ioctl(PROCESS, FILE, 1, 2).finish(Err(Error { errno: -22 })), -22);
}

#[test]
fn mmap_returns_zero_or_the_error() {
    let call = rust_binder_mmap(PROCESS, FILE, 0x70);
    assert_eq!((call.process, call.file, call.vma), (PROCESS, FILE, 0x70));
    assert_eq!(call.finish(Ok(())), 0);
    assert_eq!(rust_binder_mmap(PROCESS, FILE, 0x70).finish(Err(Error { errno: -1 })), -1);
}

#[test]
fn poll_returns_readiness_or_pollerr() {
    let call = rust_binder_poll(PROCESS, FILE, 0x80);
    assert_eq!((call.process, call.file, call.wait), (PROCESS, FILE, 0x80));
    assert_eq!(call.finish(Ok(5)), 5);
    assert_eq!(rust_binder_poll(PROCESS, FILE, 0x80).finish(Ok(0)), 0);
    assert_eq!(rust_binder_poll(PROCESS, FILE, 0x80).finish(Err(Error { errno: -9 })), POLLERR);
    assert_eq!(POLLERR, 8);
}

#[test]
fn flush_returns_zero_or_the_error() {
    let call = rust_binder_flush(PROCESS);
    assert_eq!(call.process, PROCESS);
    assert_eq!(call.finish(Ok(())), 0);
    assert_eq!(rust_binder_flush(PROCESS).finish(Err(Error { errno: -4 })), -4);
}

#[test]
fn every_operation_finds_the_stored_process() {
    let (log, value) = open(Ok(PROCESS), Ok(0x60));
    assert_eq!(value, 0);
    let stored: Vec<&String> = log.iter().filter(|line| line.starts_with("private")).collect();
    assert_eq!(stored, vec!["private 0x30 0x50"]);
    assert_eq!(rust_binder_ioctl(PROCESS, FILE, 1, 2).process, PROCESS);
    assert_eq!(rust_binder_mmap(PROCESS, FILE, 3).process, PROCESS);
    assert_eq!(rust_binder_poll(PROCESS, FILE, 4).process, PROCESS);
    assert_eq!(rust_binder_flush(PROCESS).process, PROCESS);
    let release = rust_binder_release(PROCESS, FILE);
    assert_eq!((release.process, release.file), (PROCESS, FILE));
    assert_eq!(release.finish(), 0);
}

fn remove(device: usize) -> Vec<String> {
    let mut log = Vec::new();
    let mut step = rust_binder_remove_context(device);
    loop {
        step = match step {
            RemoveContextStep::Deregister { ctx, then } => {
                log.push(format!("deregister {:#x}", ctx));
                then.resume()
            }
            RemoveContextStep::DropContext { ctx, then } => {
                log.push(format!("drop {:#x}", ctx));
                then.resume()
            }
            RemoveContextStep::Return => return log,
        };
    }
}

#[test]
fn removing_a_context_undoes_its_creation() {
    let call = rust_binder_new_context(0x90);
    assert_eq!(call.name, 0x90);
    let ctx = call.finish(Ok(CTX));
    assert_eq!(ctx, CTX);
    assert_eq!(remove(ctx), vec!["deregister 0x40", "drop 0x40"]);
}

#[test]
fn removing_no_context_does_nothing() {
    let ctx = rust_binder_new_context(0x90).finish(Err(Error { errno: -12 }));
    assert_eq!(ctx, 0);
    assert!(remove(ctx).is_empty());
}
