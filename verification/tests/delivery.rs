use rust_binder::deliver::{arc_try_new, DTRWrap, DeliverCode, WorkStep, BR_TRANSACTION_COMPLETE};
use rust_binder::error::{AllocError, Error};
use rust_binder::module::{BinderModule, InitStep};
use rust_binder::writer::{BinderReturnWriter, WriteStep, WriteValue};

fn write(mut step: WriteStep, reply: Result<(), Error>, log: &mut Vec<String>) -> Result<(), Error> {
    loop {
        step = match step {
            WriteStep::CountGlobally { code, then } => {
                log.push(format!("global {}", code));
                then.resume()
            }
            WriteStep::CountInProcess { code, then } => {
                log.push(format!("process {}", code));
                then.resume()
            }
            WriteStep::Write { value, then } => {
                match value {
                    WriteValue::U32(value) => log.push(format!("u32 {}", value)),
                    WriteValue::Bytes(bytes) => log.push(format!("bytes {:?}", bytes)),
                }
                then.resume(reply)
            }
            WriteStep::Done(result) => return result,
        };
    }
}

fn work(item: &DeliverCode, reply: Result<(), Error>) -> (Vec<String>, Result<bool, Error>) {
    let writer = BinderReturnWriter::new("buffer", "thread");
    let mut log = Vec::new();
    let mut step = item.do_work();
    loop {
        step = match step {
            WorkStep::WriteCode { code, then } => {
                then.resume(write(writer.write_code(code), reply, &mut log))
            }
            WorkStep::Done(result) => return (log, result),
        };
    }
}

#[test]
fn writer_keeps_buffer_and_thread() {
    let writer = BinderReturnWriter::new(vec![1u8], 7u32);
    assert_eq!(writer.writer, vec![1u8]);
    assert_eq!(writer.thread, 7);
}

#[test]
fn code_is_counted_and_then_written() {
    let writer = BinderReturnWriter::new((), ());
    let mut log = Vec::new();
    assert_eq!(write(writer.write_code(9), Ok(()), &mut log), Ok(()));
    assert_eq!(log, vec!["global 9", "process 9", "u32 9"]);
}

#[test]
fn code_is_counted_even_if_the_write_fails() {
    let writer = BinderReturnWriter::new((), ());
    let mut log = Vec::new();
    let fault = Error { errno: -14 };
    assert_eq!(write(writer.write_code(9), Err(fault), &mut log), Err(fault));
    assert_eq!(log, vec!["global 9", "process 9", "u32 9"]);
}

#[test]
fn payload_is_not_counted() {
    let writer = BinderReturnWriter::new((), ());
    let mut log = Vec::new();
    assert_eq!(write(writer.write_payload(WriteValue::Bytes(vec![1, 2])), Ok(()), &mut log), Ok(()));
    assert_eq!(log, vec!["bytes [1, 2]"]);
    let fault = Error { errno: -14 };
    assert_eq!(write(writer.write_payload(WriteValue::Bytes(vec![])), Err(fault), &mut log), Err(fault));
}

#[test]
fn number_as_payload_is_written_like_a_code() {
    let writer = BinderReturnWriter::new((), ());
    let mut code = Vec::new();
    let mut payload = Vec::new();
    assert_eq!(write(writer.write_code(9), Ok(()), &mut code), Ok(()));
    assert_eq!(write(writer.write_payload(WriteValue::U32(9)), Ok(()), &mut payload), Ok(()));
    assert_eq!(payload, vec!["u32 9"]);
    assert_eq!(code[2..], payload[..]);
}

#[test]
fn item_delivers_its_code() {
    let item = DeliverCode::new(42);
    let (log, result) = work(&item, Ok(()));
    assert_eq!(log, vec!["global 42", "process 42", "u32 42"]);
    assert_eq!(result, Ok(true));
}

#[test]
fn item_passes_on_a_failed_write() {
    let fault = Error { errno: -14 };
    let (log, result) = work(&DeliverCode::new(42), Err(fault));
    assert_eq!(log.len(), 3);
    assert_eq!(result, Err(fault));
}

#[test]
fn skipped_item_does_nothing() {
    let mut item = DeliverCode::new(42);
    item.skip();
    item.skip();
    assert_eq!(item.code, 42);
    let (log, result) = work(&item, Err(Error { errno: -14 }));
    assert!(log.is_empty());
    assert_eq!(result, Ok(true));
}

#[test]
fn cancelled_item_is_unchanged() {
    let mut item = DeliverCode::new(42);
    item.cancel();
    assert_eq!(item, DeliverCode { code: 42, skip: false });
    assert!(!item.should_sync_wakeup());
}

#[test]
fn item_is_shown_in_debug_output() {
    let mut complete = DeliverCode::new(BR_TRANSACTION_COMPLETE);
    assert_eq!(complete.debug_print("  ", "    "), "  transaction complete\n");
    complete.skip();
    assert_eq!(complete.debug_print("  ", "    "), "  (skipped) transaction complete\n");

    let mut error = DeliverCode::new(29201);
    assert_eq!(error.debug_print("", "x"), "transaction error: 29201\n");
    error.skip();
    assert_eq!(error.debug_print("p: ", "x"), "p: (skipped) transaction error: 29201\n");
    assert_eq!(DeliverCode::new(0).debug_print("", ""), "transaction error: 0\n");
}

#[test]
fn wrapped_item_is_reached_through_the_wrapper() {
    let wrap = DTRWrap::new((), DeliverCode::new(5));
    assert_eq!(wrap.code, 5);
    assert_eq!(*wrap, DeliverCode::new(5));
}

#[test]
fn unsized_item_is_reached_through_the_wrapper() {
    let wrap: Box<DTRWrap<u8, [u32]>> = Box::new(DTRWrap::new(7u8, [1u32, 2, 3]));
    assert_eq!(wrap.links, 7);
    assert_eq!((**wrap).to_vec(), vec![1, 2, 3]);
}

#[test]
fn any_failure_to_allocate_is_an_alloc_error() {
    assert_eq!(arc_try_new(Ok(3u8)), Ok(3u8));
    assert_eq!(arc_try_new::<u8>(Err(Error { errno: -12 })), Err(AllocError));
    assert_eq!(arc_try_new::<u8>(Err(Error { errno: -22 })), Err(AllocError));
}

fn load(
    shrinker: Result<(), Error>,
    binderfs: Result<(), Error>,
) -> (Vec<String>, Result<BinderModule, Error>) {
    let mut log = Vec::new();
    let mut step = BinderModule::init();
    loop {
        step = match step {
            InitStep::InitContexts { then } => {
                log.push(String::from("contexts"));
                then.resume()
            }
            InitStep::Warn { text, then } => {
                log.push(format!("warn {}", text));
                then.resume()
            }
            InitStep::RegisterShrinker { name, then } => {
                log.push(format!("shrinker {}", name));
                then.resume(shrinker)
            }
            InitStep::InitBinderfs { then } => {
                log.push(String::from("binderfs"));
                then.resume(binderfs)
            }
            InitStep::Done(result) => return (log, result),
        };
    }
}

#[test]
fn loading_in_order() {
    let (log, result) = load(Ok(()), Ok(()));
    assert_eq!(
        log,
        vec![
            "contexts",
            "warn Loaded Rust Binder.",
            "shrinker android-binder",
            "binderfs",
        ]
    );
    assert_eq!(result, Ok(BinderModule {}));
}

#[test]
fn loading_stops_at_the_first_failure() {
    let err = Error { errno: -12 };
    let (log, result) = load(Err(err), Ok(()));
    assert_eq!(log.len(), 3);
    assert_eq!(result, Err(err));
    let (log, result) = load(Ok(()), Err(err));
    assert_eq!(log.len(), 4);
    assert_eq!(result, Err(err));
}
