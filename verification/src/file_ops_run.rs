//! What opening a device does, from its first step to its last, and what becomes of the
//! process that it opens.

use vstd::prelude::*;
use crate::device::binder_device;
use crate::error::{Error, EEXIST, MAX_ERRNO};
use crate::file_ops::{FlushCall, IoctlCall, MmapCall, OpenStep, PollCall, ReleaseCall};
use crate::proc_file::BinderfsProcFile;

verus! {

/// The replies that opening a device gets from the services that it asks.
pub struct OpenReplies {
    /// The device.
    pub device: binder_device,
    /// The address of the process, or the failure to open it.
    pub process: Result<usize, Error>,
    /// The pid of the process.
    pub pid: i32,
    /// The directory entry of the file of the process, or the failure to create it.
    pub created: Result<usize, Error>,
}

/// Something that opening a device does.
pub enum OpenAction {
    ReadDevice(usize),
    OpenProcess(usize, usize),
    GetPid(usize),
    CreateProcFile(usize, i32),
    SetBinderfsFile(usize, BinderfsProcFile),
    SetPrivateData(usize, usize),
    DropProcess(usize),
}

/// The number of actions that are left at most.
pub open spec fn steps_left(step: OpenStep) -> int {
    match step {
        OpenStep::ReadDevice { .. } => 6,
        OpenStep::OpenProcess { .. } => 5,
        OpenStep::GetPid { .. } => 4,
        OpenStep::CreateProcFile { .. } => 3,
        OpenStep::SetBinderfsFile { .. } => 2,
        OpenStep::SetPrivateData { .. } => 1,
        OpenStep::DropProcess { .. } => 1,
        OpenStep::Return(_) => 0,
    }
}

/// The step that follows `step`, given the replies.
pub open spec fn step_after(step: OpenStep, replies: OpenReplies) -> OpenStep {
    match step {
        OpenStep::ReadDevice { then, .. } => then.spec_resume(replies.device),
        OpenStep::OpenProcess { then, .. } => then.spec_resume(replies.process),
        OpenStep::GetPid { then, .. } => then.spec_resume(replies.pid),
        OpenStep::CreateProcFile { then, .. } => then.spec_resume(replies.created),
        OpenStep::SetBinderfsFile { then, .. } => then.spec_resume(),
        OpenStep::SetPrivateData { then, .. } => then.spec_resume(),
        OpenStep::DropProcess { then, .. } => then.spec_resume(),
        OpenStep::Return(_) => step,
    }
}

/// What a step does, unless it is the last.
pub open spec fn action_of(step: OpenStep) -> OpenAction {
    match step {
        OpenStep::ReadDevice { device, .. } => OpenAction::ReadDevice(device),
        OpenStep::OpenProcess { ctx, file, .. } => OpenAction::OpenProcess(ctx, file),
        OpenStep::GetPid { process, .. } => OpenAction::GetPid(process),
        OpenStep::CreateProcFile { inode, pid, .. } => OpenAction::CreateProcFile(inode, pid),
        OpenStep::SetBinderfsFile { process, proc_file, .. } => OpenAction::SetBinderfsFile(
            process,
            proc_file,
        ),
        OpenStep::SetPrivateData { file, process, .. } => OpenAction::SetPrivateData(
            file,
            process,
        ),
        OpenStep::DropProcess { process, .. } => OpenAction::DropProcess(process),
        OpenStep::Return(_) => arbitrary(),
    }
}

/// All that is done from `step` on, in order.
pub open spec fn actions(step: OpenStep, replies: OpenReplies) -> Seq<OpenAction>
    decreases steps_left(step),
{
    match step {
        OpenStep::Return(_) => Seq::empty(),
        _ => seq![action_of(step)] + actions(step_after(step, replies), replies),
    }
}

/// The value that is returned to C in the end.
pub open spec fn returned(step: OpenStep, replies: OpenReplies) -> int
    decreases steps_left(step),
{
    match step {
        OpenStep::Return(value) => value as int,
        _ => returned(step_after(step, replies), replies),
    }
}

/// Everything that opening a device does, for each combination of replies.
pub open spec fn expected_actions(
    inode: usize,
    i_private: usize,
    file: usize,
    replies: OpenReplies,
) -> Seq<OpenAction> {
    let asked = seq![
        OpenAction::ReadDevice(i_private),
        OpenAction::OpenProcess(replies.device.ctx, file),
    ];
    match replies.process {
        Err(_) => asked,
        Ok(process) => asked + seq![
            OpenAction::GetPid(process),
            OpenAction::CreateProcFile(inode, replies.pid),
        ] + match BinderfsProcFile::spec_new(replies.created) {
            Ok(Some(proc_file)) => seq![
                OpenAction::SetBinderfsFile(process, proc_file),
                OpenAction::SetPrivateData(file, process),
            ],
            Ok(None) => seq![OpenAction::SetPrivateData(file, process)],
            Err(_) => seq![OpenAction::DropProcess(process)],
        },
    }
}

/// The value that opening a device returns, for each combination of replies.
pub open spec fn expected_return(replies: OpenReplies) -> int {
    match replies.process {
        Err(err) => err.errno as int,
        Ok(_) => match BinderfsProcFile::spec_new(replies.created) {
            Ok(_) => 0,
            Err(err) => err.errno as int,
        },
    }
}

/// What opening a device does and returns, whatever the services reply.
pub proof fn law_open_in_full(inode: usize, i_private: usize, file: usize, replies: OpenReplies)
    ensures
        actions(crate::file_ops::spec_open(inode, i_private, file), replies) == expected_actions(
            inode,
            i_private,
            file,
            replies,
        ),
        returned(crate::file_ops::spec_open(inode, i_private, file), replies) == expected_return(
            replies,
        ),
{
    reveal_with_fuel(actions, 7);
    reveal_with_fuel(returned, 7);
    assert(actions(crate::file_ops::spec_open(inode, i_private, file), replies)
        =~= expected_actions(inode, i_private, file, replies));
}

/// The errors among the replies are error numbers.
pub open spec fn errors_wf(replies: OpenReplies) -> bool {
    &&& replies.process matches Err(err) ==> err.wf()
    &&& replies.created matches Err(err) ==> err.wf()
}

/// Opening returns 0 or an error number. It returns 0 exactly when the process could be
/// opened and its file could be created or was there already.
pub proof fn law_open_returns_zero_iff_open(
    inode: usize,
    i_private: usize,
    file: usize,
    replies: OpenReplies,
)
    requires
        errors_wf(replies),
    ensures
        -MAX_ERRNO <= returned(crate::file_ops::spec_open(inode, i_private, file), replies) <= 0,
        (returned(crate::file_ops::spec_open(inode, i_private, file), replies) == 0) <==> {
            &&& replies.process is Ok
            &&& (replies.created is Ok || replies.created->Err_0.errno == EEXIST)
        },
{
    law_open_in_full(inode, i_private, file, replies);
}

/// The private data of the file is set if and only if opening returns 0. It is set for the
/// file that is being opened, to the process that was opened for it, and as the last thing.
pub proof fn law_private_data_set_iff_open(
    inode: usize,
    i_private: usize,
    file: usize,
    replies: OpenReplies,
)
    requires
        errors_wf(replies),
    ensures
        ({
            let open = crate::file_ops::spec_open(inode, i_private, file);
            let done = actions(open, replies);
            &&& (returned(open, replies) == 0) <==> exists|f: usize, p: usize|
                #[trigger] done.contains(OpenAction::SetPrivateData(f, p))
            &&& forall|f: usize, p: usize|
                #[trigger] done.contains(OpenAction::SetPrivateData(f, p)) ==> {
                    &&& f == file
                    &&& replies.process == Ok::<usize, Error>(p)
                    &&& done.last() == OpenAction::SetPrivateData(f, p)
                }
        }),
{
    law_open_in_full(inode, i_private, file, replies);
    let open = crate::file_ops::spec_open(inode, i_private, file);
    let done = actions(open, replies);
    if returned(open, replies) == 0 {
        assert(done.last() == OpenAction::SetPrivateData(file, replies.process->Ok_0));
        assert(done.contains(OpenAction::SetPrivateData(file, replies.process->Ok_0)));
    }
}

/// No reference to the process is lost: a process that was opened either goes to the
/// private data of the file, or is dropped, and not both.
pub proof fn law_opened_process_is_kept_or_dropped(
    inode: usize,
    i_private: usize,
    file: usize,
    replies: OpenReplies,
)
    requires
        replies.process is Ok,
    ensures
        ({
            let done = actions(crate::file_ops::spec_open(inode, i_private, file), replies);
            let process = replies.process->Ok_0;
            let kept = OpenAction::SetPrivateData(file, process);
            let dropped = OpenAction::DropProcess(process);
            &&& done.contains(kept) != done.contains(dropped)
            &&& done.last() == kept || done.last() == dropped
            &&& forall|i: int| #![trigger done[i]]
                0 <= i < done.len() - 1 ==> done[i] != kept && done[i] != dropped
        }),
{
    law_open_in_full(inode, i_private, file, replies);
    let done = actions(crate::file_ops::spec_open(inode, i_private, file), replies);
    assert(done.contains(done.last()));
}

/// Between opening and closing a file, every operation on it is handed the process that
/// was opened for it: the private data that opening sets is what the operations read.
pub proof fn law_operations_find_the_opened_process(
    inode: usize,
    i_private: usize,
    file: usize,
    replies: OpenReplies,
    private_data: usize,
)
    requires
        actions(crate::file_ops::spec_open(inode, i_private, file), replies).contains(
            OpenAction::SetPrivateData(file, private_data),
        ),
    ensures
        replies.process == Ok::<usize, Error>(private_data),
        crate::file_ops::spec_release(private_data, file).process == private_data,
        forall|cmd: u32, arg: usize|
            (#[trigger] crate::file_ops::spec_ioctl(private_data, file, cmd, arg)).process
                == private_data,
        forall|vma: usize|
            (#[trigger] crate::file_ops::spec_mmap(private_data, file, vma)).process
                == private_data,
        forall|wait: usize|
            (#[trigger] crate::file_ops::spec_poll(private_data, file, wait)).process
                == private_data,
        crate::file_ops::spec_flush(private_data).process == private_data,
{
    law_open_in_full(inode, i_private, file, replies);
}

/// An operation on an open file that leaves it open.
pub enum FileOp {
    /// A command and its argument.
    Ioctl(u32, usize),
    /// Mapping a memory area.
    Mmap(usize),
    /// Polling with a table.
    Poll(usize),
    Flush,
}

/// What an operation on an open file asks of the process in its private data.
pub enum FileRequest {
    Ioctl(IoctlCall),
    Mmap(MmapCall),
    Poll(PollCall),
    Flush(FlushCall),
    Release(ReleaseCall),
}

impl FileRequest {
    /// The process that is asked.
    pub open spec fn process(self) -> usize {
        match self {
            FileRequest::Ioctl(call) => call.process,
            FileRequest::Mmap(call) => call.process,
            FileRequest::Poll(call) => call.process,
            FileRequest::Flush(call) => call.process,
            FileRequest::Release(call) => call.process,
        }
    }

    /// The file for which it is asked, where that is told.
    pub open spec fn file(self) -> Option<usize> {
        match self {
            FileRequest::Ioctl(call) => Some(call.file),
            FileRequest::Mmap(call) => Some(call.file),
            FileRequest::Poll(call) => Some(call.file),
            FileRequest::Flush(_) => None,
            FileRequest::Release(call) => Some(call.file),
        }
    }

    /// Releasing takes the process out of the private data, and with it the reference that
    /// is stored there; all other requests only borrow it.
    pub open spec fn gives_up_reference(self) -> bool {
        self is Release
    }
}

/// The request of an operation on `file`, of which `private_data` is the private data.
pub open spec fn request_of(op: FileOp, private_data: usize, file: usize) -> FileRequest {
    match op {
        FileOp::Ioctl(cmd, arg) => FileRequest::Ioctl(
            crate::file_ops::spec_ioctl(private_data, file, cmd, arg),
        ),
        FileOp::Mmap(vma) => FileRequest::Mmap(crate::file_ops::spec_mmap(private_data, file, vma)),
        FileOp::Poll(wait) => FileRequest::Poll(
            crate::file_ops::spec_poll(private_data, file, wait),
        ),
        FileOp::Flush => FileRequest::Flush(crate::file_ops::spec_flush(private_data)),
    }
}

/// All requests from after the opening of `file` to its closing, if `ops` are the operations
/// in between.
pub open spec fn requests_until_closed(
    ops: Seq<FileOp>,
    private_data: usize,
    file: usize,
) -> Seq<FileRequest> {
    ops.map_values(|op: FileOp| request_of(op, private_data, file)).push(
        FileRequest::Release(crate::file_ops::spec_release(private_data, file)),
    )
}

/// The number of references to a process that `done` stores in the private data of a file.
pub open spec fn references_stored(done: Seq<OpenAction>) -> int
    decreases done.len(),
{
    if done.len() == 0 {
        0
    } else {
        references_stored(done.drop_last()) + if done.last() is SetPrivateData {
            1int
        } else {
            0
        }
    }
}

/// The number of references that are left of `stored` ones after `requests`.
pub open spec fn references_left(stored: int, requests: Seq<FileRequest>) -> int
    decreases requests.len(),
{
    if requests.len() == 0 {
        stored
    } else {
        references_left(stored, requests.drop_last()) - if requests.last().gives_up_reference() {
            1int
        } else {
            0
        }
    }
}

proof fn lemma_references_kept(stored: int, requests: Seq<FileRequest>)
    requires
        forall|i: int|
            0 <= i < requests.len() ==> !(#[trigger] requests[i]).gives_up_reference(),
    ensures
        references_left(stored, requests) == stored,
    decreases requests.len(),
{
    if requests.len() > 0 {
        assert(!requests[requests.len() - 1].gives_up_reference());
        assert forall|i: int| 0 <= i < requests.drop_last().len() implies !(
        #[trigger] requests.drop_last()[i]).gives_up_reference() by {
            assert(requests.drop_last()[i] == requests[i]);
        }
        lemma_references_kept(stored, requests.drop_last());
    }
}

/// Over the life of a file, whatever operations come between opening and closing it: opening
/// stores one reference to the process that it opened; every operation finds that process
/// and, where it tells the file, that file; the reference stays stored until the file is
/// closed; and closing, and nothing else, gives it up, on the same process and file, and
/// returns 0.
pub proof fn law_reference_over_life_of_file(
    inode: usize,
    i_private: usize,
    file: usize,
    replies: OpenReplies,
    private_data: usize,
    ops: Seq<FileOp>,
)
    requires
        actions(crate::file_ops::spec_open(inode, i_private, file), replies).contains(
            OpenAction::SetPrivateData(file, private_data),
        ),
    ensures
        ({
            let opened = actions(crate::file_ops::spec_open(inode, i_private, file), replies);
            let requests = requests_until_closed(ops, private_data, file);
            let stored = references_stored(opened);
            &&& returned(crate::file_ops::spec_open(inode, i_private, file), replies) == 0
            &&& replies.process == Ok::<usize, Error>(private_data)
            &&& stored == 1
            &&& requests.len() == ops.len() + 1
            &&& forall|i: int| #![trigger requests[i]]
                0 <= i < requests.len() ==> {
                    &&& requests[i].process() == private_data
                    &&& requests[i].file() matches Some(f) ==> f == file
                    &&& requests[i].gives_up_reference() <==> i == ops.len()
                }
            &&& forall|k: int|
                0 <= k <= ops.len() ==> #[trigger] references_left(stored, requests.take(k)) == 1
            &&& references_left(stored, requests) == 0
            &&& requests.last() == FileRequest::Release(
                ReleaseCall { process: private_data, file },
            )
            &&& crate::file_ops::spec_release(private_data, file).spec_finish() == 0
        }),
{
    let opened = actions(crate::file_ops::spec_open(inode, i_private, file), replies);
    let requests = requests_until_closed(ops, private_data, file);
    law_open_in_full(inode, i_private, file, replies);
    assert(references_stored(opened) == 1) by {
        reveal_with_fuel(references_stored, 8);
    }
    assert forall|k: int| 0 <= k <= ops.len() implies #[trigger] references_left(
        1,
        requests.take(k),
    ) == 1 by {
        assert forall|i: int| 0 <= i < k implies !(#[trigger] requests.take(
            k,
        )[i]).gives_up_reference() by {
            assert(requests.take(k)[i] == request_of(ops[i], private_data, file));
        }
        lemma_references_kept(1, requests.take(k));
    }
    assert(requests.drop_last() =~= requests.take(ops.len() as int));
    assert forall|i: int| #![trigger requests[i]] 0 <= i < requests.len() implies {
        &&& requests[i].process() == private_data
        &&& requests[i].file() matches Some(f) ==> f == file
        &&& requests[i].gives_up_reference() <==> i == ops.len()
    } by {
        if i < ops.len() {
            assert(requests[i] == request_of(ops[i], private_data, file));
        }
    }
    assert(references_left(1, requests.take(ops.len() as int)) == 1);
}

/// A process that was opened is given up exactly once, whether or not the device could be
/// opened: by opening itself, if it fails after that, and else by closing the file.
pub proof fn law_reference_is_given_up_once(
    inode: usize,
    i_private: usize,
    file: usize,
    replies: OpenReplies,
    ops: Seq<FileOp>,
)
    requires
        replies.process is Ok,
    ensures
        ({
            let opened = actions(crate::file_ops::spec_open(inode, i_private, file), replies);
            let process = replies.process->Ok_0;
            let dropped = opened.contains(OpenAction::DropProcess(process));
            let stored = references_stored(opened);
            &&& stored == (if dropped {
                0int
            } else {
                1
            })
            &&& !dropped ==> references_left(stored, requests_until_closed(ops, process, file))
                == 0
        }),
{
    let opened = actions(crate::file_ops::spec_open(inode, i_private, file), replies);
    let process = replies.process->Ok_0;
    law_open_in_full(inode, i_private, file, replies);
    law_opened_process_is_kept_or_dropped(inode, i_private, file, replies);
    if opened.contains(OpenAction::DropProcess(process)) {
        reveal_with_fuel(references_stored, 8);
    } else {
        law_reference_over_life_of_file(inode, i_private, file, replies, process, ops);
    }
}

/// Opening reads the device to which the inode points, and opens a process for just this
/// file in just the context of that device, before anything else.
pub proof fn law_process_is_opened_in_context_of_device(
    inode: usize,
    i_private: usize,
    file: usize,
    first: OpenStep,
    replies: OpenReplies,
)
    requires
        call_ensures(crate::file_ops::rust_binder_open, (inode, i_private, file), first),
    ensures
        actions(first, replies).len() >= 2,
        actions(first, replies)[0] == OpenAction::ReadDevice(i_private),
        actions(first, replies)[1] == OpenAction::OpenProcess(replies.device.ctx, file),
{
    law_open_in_full(inode, i_private, file, replies);
}

/// If the process cannot be opened, nothing else is done, and the number of that error is
/// returned.
pub proof fn law_nothing_is_done_without_a_process(
    inode: usize,
    i_private: usize,
    file: usize,
    first: OpenStep,
    replies: OpenReplies,
)
    requires
        call_ensures(crate::file_ops::rust_binder_open, (inode, i_private, file), first),
    ensures
        replies.process is Err <==> actions(first, replies).len() == 2,
        replies.process matches Err(err) ==> returned(first, replies) == err.errno,
{
    law_open_in_full(inode, i_private, file, replies);
}

/// The file of a process that was opened is named by the pid of just that process, and is
/// created in the file system of the inode that was opened.
pub proof fn law_proc_file_is_named_by_pid(
    inode: usize,
    i_private: usize,
    file: usize,
    first: OpenStep,
    replies: OpenReplies,
)
    requires
        call_ensures(crate::file_ops::rust_binder_open, (inode, i_private, file), first),
        replies.process is Ok,
    ensures
        actions(first, replies).len() >= 5,
        actions(first, replies)[2] == OpenAction::GetPid(replies.process->Ok_0),
        actions(first, replies)[3] == OpenAction::CreateProcFile(inode, replies.pid),
{
    law_open_in_full(inode, i_private, file, replies);
}

/// What becomes of a process that was opened. If an entry was created, the process gets it
/// before it goes to the private data of the file; if there is no entry, or the pid has a
/// file already, which is error -17, it goes there without one; both return 0. With every
/// other error the process is dropped, the private data is left alone, and the number of
/// that error is returned.
pub proof fn law_what_becomes_of_the_process(
    inode: usize,
    i_private: usize,
    file: usize,
    first: OpenStep,
    replies: OpenReplies,
)
    requires
        call_ensures(crate::file_ops::rust_binder_open, (inode, i_private, file), first),
        replies.process is Ok,
    ensures
        ({
            let process = replies.process->Ok_0;
            let done = actions(first, replies);
            let value = returned(first, replies);
            match replies.created {
                Ok(dentry) => {
                    &&& value == 0
                    &&& dentry != 0 ==> {
                        &&& done.len() == 6
                        &&& done[4] == OpenAction::SetBinderfsFile(
                            process,
                            BinderfsProcFile { dentry },
                        )
                        &&& done[5] == OpenAction::SetPrivateData(file, process)
                    }
                    &&& dentry == 0 ==> {
                        &&& done.len() == 5
                        &&& done[4] == OpenAction::SetPrivateData(file, process)
                    }
                },
                Err(err) => {
                    &&& done.len() == 5
                    &&& err.errno == -17 ==> {
                        &&& value == 0
                        &&& done[4] == OpenAction::SetPrivateData(file, process)
                    }
                    &&& err.errno != -17 ==> {
                        &&& value == err.errno
                        &&& done[4] == OpenAction::DropProcess(process)
                    }
                },
            }
        }),
{
    law_open_in_full(inode, i_private, file, replies);
}

} // verus!
