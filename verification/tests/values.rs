use rust_binder::align::ptr_align;
use rust_binder::debug_id::DebugIds;
use rust_binder::device::binder_device;
use rust_binder::error::{Error, EEXIST};
use rust_binder::proc_file::BinderfsProcFile;
use rust_binder::show::{failure_text, private_to_pid};
use rust_binder::text::append_decimal;

const WORD: usize = core::mem::size_of::<usize>();

#[test]
fn align_rounds_up_to_pointer_size() {
    assert_eq!(ptr_align(0), Some(0));
    assert_eq!(ptr_align(1), Some(WORD));
    assert_eq!(ptr_align(WORD - 1), Some(WORD));
    assert_eq!(ptr_align(WORD), Some(WORD));
    assert_eq!(ptr_align(WORD + 1), Some(2 * WORD));
    assert_eq!(ptr_align(13), Some(16));
}

#[test]
fn align_fails_only_past_the_last_multiple() {
    let last = usize::MAX - (WORD - 1);
    assert_eq!(ptr_align(last), Some(last));
    assert_eq!(ptr_align(last - 1), Some(last));
    assert_eq!(ptr_align(last + 1), None);
    assert_eq!(ptr_align(usize::MAX), None);
}

#[test]
fn aligning_twice_is_aligning_once() {
    for value in 0..100usize {
        let once = ptr_align(value).unwrap();
        assert_eq!(ptr_align(once), Some(once));
        assert!(ptr_align(value + 1).unwrap() >= once);
    }
}

#[test]
fn debug_ids_count_up_from_zero() {
    let mut ids = DebugIds::new();
    assert_eq!(ids.next_debug_id(), 0);
    assert_eq!(ids.next_debug_id(), 1);
    assert_eq!(ids.next_debug_id(), 2);
}

#[test]
fn debug_ids_wrap_around() {
    let mut ids = DebugIds { next: usize::MAX };
    assert_eq!(ids.next_debug_id(), usize::MAX);
    assert_eq!(ids.next_debug_id(), 0);
}

#[test]
fn default_device_is_zero() {
    let device = binder_device::default();
    assert_eq!(device.minor, 0);
    assert_eq!(device.ctx, 0);
}

#[test]
fn errors_are_negative_numbers() {
    assert_eq!(Error::new(-12), Some(Error { errno: -12 }));
    assert_eq!(Error::new(-1), Some(Error { errno: -1 }));
    assert_eq!(Error::new(-4095), Some(Error { errno: -4095 }));
    assert_eq!(Error::new(-4096), None);
    assert_eq!(Error::new(i32::MIN), None);
    assert_eq!(Error::new(0), None);
    assert_eq!(Error::new(5), None);
    assert_eq!(Error { errno: -12 }.to_errno(), -12);
}

#[test]
fn proc_file_is_held_if_created() {
    let file = BinderfsProcFile::new(Ok(0x1000)).unwrap().unwrap();
    assert_eq!(file.dentry, 0x1000);
    assert_eq!(file.into_removed(), 0x1000);
}

#[test]
fn proc_file_may_be_missing() {
    assert_eq!(BinderfsProcFile::new(Ok(0)), Ok(None));
    assert_eq!(BinderfsProcFile::new(Err(Error { errno: EEXIST })), Ok(None));
    assert_eq!(BinderfsProcFile::new(Err(Error { errno: -17 })), Ok(None));
}

#[test]
fn proc_file_passes_on_other_errors() {
    assert_eq!(
        BinderfsProcFile::new(Err(Error { errno: -12 })),
        Err(Error { errno: -12 })
    );
}

#[test]
fn failure_line_holds_the_debug_text() {
    assert_eq!(failure_text("ENOMEM"), "failed to generate state: ENOMEM\n");
    assert_eq!(failure_text(""), "failed to generate state: \n");
}

#[test]
fn pid_is_the_low_half_of_the_private_field() {
    assert_eq!(private_to_pid(1234), 1234);
    assert_eq!(private_to_pid(0xffff_ffff), -1);
    assert_eq!(private_to_pid(0x8000_0000), i32::MIN);
    assert_eq!(private_to_pid(usize::MAX), -1);
    for pid in [0, 1, -1, 4711, i32::MIN, i32::MAX] {
        assert_eq!(private_to_pid(pid as usize), pid);
    }
}

#[test]
fn decimal_numbers() {
    for n in [0u32, 7, 9, 10, 99, 100, 29201, 1_000_000_000, u32::MAX] {
        let mut text = String::from("n=");
        append_decimal(&mut text, n);
        assert_eq!(text, format!("n={}", n));
    }
}
