use rust_binder::error::Error;
use rust_binder::show::{
    failure_text, rust_binder_proc_show, rust_binder_proc_show_impl, rust_binder_state_show_impl,
    rust_binder_stats_show_impl, rust_binder_transactions_show_impl, show_result, Listing,
    Printer, ShowEnd, ShowStep,
};

/// The contexts of a pretended driver, each with the pids of its processes.
struct World {
    contexts: Vec<Vec<i32>>,
    contexts_err: Option<Error>,
    /// The context whose processes cannot be listed.
    procs_err: Option<usize>,
    /// The context and the process that cannot be printed.
    print_err: Option<(usize, usize)>,
}

const ERR: Error = Error { errno: -12 };

fn world(contexts: Vec<Vec<i32>>) -> World {
    World { contexts, contexts_err: None, procs_err: None, print_err: None }
}

fn read(world: &World, mut step: ShowStep) -> (String, i32) {
    let mut text = String::new();
    let mut listed: Vec<i32> = Vec::new();
    let result = loop {
        step = match step {
            ShowStep::Print { text: line, then } => {
                text.push_str(line);
                then.resume()
            }
            ShowStep::PrintGlobalStats { prefix, then } => {
                text.push_str(&format!("{}global\n", prefix));
                then.resume()
            }
            ShowStep::GetAllContexts { then } => then.resume(match world.contexts_err {
                Some(err) => Err(err),
                None => Ok(world.contexts.len()),
            }),
            ShowStep::GetProcs { ctx, listing, then } => {
                listed = match listing {
                    Listing::All => world.contexts[ctx].clone(),
                    Listing::WithPid(pid) => {
                        world.contexts[ctx].iter().copied().filter(|p| *p == pid).collect()
                    }
                };
                then.resume(if world.procs_err == Some(ctx) { Err(ERR) } else { Ok(listed.len()) })
            }
            ShowStep::PrintProc { ctx, proc, printer, then } => {
                if world.print_err == Some((ctx, proc)) {
                    then.resume(Err(ERR))
                } else {
                    let kind = match printer {
                        Printer::State { print_all: true } => "state",
                        Printer::State { print_all: false } => "busy",
                        Printer::Stats => "stats",
                    };
                    text.push_str(&format!("{} {}/{}", kind, ctx, listed[proc]));
                    then.resume(Ok(()))
                }
            }
            ShowStep::Done(result) => break result,
        };
    };
    let mut end = show_result(result);
    loop {
        end = match end {
            ShowEnd::PrintFailure { err, then } => {
                text.push_str(&failure_text(&format!("E{}", -err.errno)));
                then.resume()
            }
            ShowEnd::Return(value) => return (text, value),
        };
    }
}

#[test]
fn transactions_of_all_processes() {
    let w = world(vec![vec![1, 2], vec![], vec![3]]);
    let (text, value) = read(&w, rust_binder_transactions_show_impl());
    assert_eq!(text, "binder transactions:\nbusy 0/1\nbusy 0/2\nbusy 2/3\n");
    assert_eq!(value, 0);
}

#[test]
fn statistics_begin_with_the_drivers_own() {
    let w = world(vec![vec![1], vec![2]]);
    let (text, value) = read(&w, rust_binder_stats_show_impl());
    assert_eq!(text, "binder stats:\nglobal\nstats 0/1\nstats 1/2\n");
    assert_eq!(value, 0);
}

#[test]
fn state_of_all_processes() {
    let w = world(vec![vec![1, 1]]);
    let (text, value) = read(&w, rust_binder_state_show_impl());
    assert_eq!(text, "binder state:\nstate 0/1\nstate 0/1\n");
    assert_eq!(value, 0);
}

#[test]
fn state_of_the_processes_with_a_pid() {
    let w = world(vec![vec![1, 2], vec![2, 3], vec![1]]);
    let (text, value) = read(&w, rust_binder_proc_show_impl(2));
    assert_eq!(text, "binder proc state:\nstate 0/2\nstate 1/2\n");
    assert_eq!(value, 0);
    let (again, _) = read(&w, rust_binder_proc_show(2));
    assert_eq!(again, text);
}

#[test]
fn no_contexts_leave_the_header() {
    let w = world(vec![]);
    assert_eq!(read(&w, rust_binder_state_show_impl()), (String::from("binder state:\n"), 0));
    assert_eq!(
        read(&w, rust_binder_transactions_show_impl()),
        (String::from("binder transactions:\n"), 0)
    );
    assert_eq!(
        read(&w, rust_binder_proc_show_impl(1)),
        (String::from("binder proc state:\n"), 0)
    );
}

#[test]
fn contexts_that_cannot_be_listed_are_told() {
    let mut w = world(vec![vec![1]]);
    w.contexts_err = Some(Error { errno: -5 });
    let (text, value) = read(&w, rust_binder_stats_show_impl());
    assert_eq!(text, "binder stats:\nglobal\nfailed to generate state: E5\n");
    assert_eq!(value, 0);
}

#[test]
fn processes_that_cannot_be_listed_are_told() {
    let mut w = world(vec![vec![1], vec![2], vec![3]]);
    w.procs_err = Some(1);
    let (text, value) = read(&w, rust_binder_state_show_impl());
    assert_eq!(text, "binder state:\nstate 0/1\nfailed to generate state: E12\n");
    assert_eq!(value, 0);
}

#[test]
fn a_process_that_cannot_be_printed_ends_the_report() {
    let mut w = world(vec![vec![1, 2, 3], vec![4]]);
    w.print_err = Some((0, 1));
    let (text, value) = read(&w, rust_binder_transactions_show_impl());
    assert_eq!(text, "binder transactions:\nbusy 0/1\nfailed to generate state: E12\n");
    assert_eq!(value, 0);
}
