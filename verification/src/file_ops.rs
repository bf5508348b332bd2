//! The operations on an open binder device.
//!
//! Opening a device creates the binder process of the file. Its address is kept in the
//! private data of the file, where the other operations find it and which closing the file
//! gives back. Addresses of objects that C or other modules own are plain numbers here.

use vstd::prelude::*;
use crate::device::binder_device;
use crate::error::Error;
use crate::proc_file::BinderfsProcFile;

verus! {

/// The readiness that is reported for a file that cannot be polled.
pub const POLLERR: u32 = 0x0008;

/// What to do next to open a device.
#[allow(inconsistent_fields)]
pub enum OpenStep {
    /// Read the device at this address, and reply with it.
    ReadDevice { device: usize, then: DevicePending },
    /// Open a process for `file` in the context `ctx`, and reply with its address.
    OpenProcess { ctx: usize, file: usize, then: ProcessPending },
    /// Reply with the pid of the task of `process`.
    GetPid { process: usize, then: PidPending },
    /// Create the file of the process with pid `pid` in the file system of `inode`, and
    /// reply with the address of its directory entry.
    CreateProcFile { inode: usize, pid: i32, then: ProcFilePending },
    /// Give `proc_file` to `process`.
    SetBinderfsFile { process: usize, proc_file: BinderfsProcFile, then: BinderfsFileSet },
    /// Set the private data of `file` to the address of `process`, which it owns from now
    /// on.
    SetPrivateData { file: usize, process: usize, then: PrivateDataSet },
    /// Drop the reference to `process`.
    DropProcess { process: usize, then: ProcessDropped },
    /// Return this value to C.
    Return(i32),
}

/// The device is being read.
#[derive(Debug, PartialEq, Eq, Structural)]
pub struct DevicePending {
    pub inode: usize,
    pub file: usize,
}

/// The process is being opened.
#[derive(Debug, PartialEq, Eq, Structural)]
pub struct ProcessPending {
    pub inode: usize,
    pub file: usize,
}

/// The pid of the process is being read.
#[derive(Debug, PartialEq, Eq, Structural)]
pub struct PidPending {
    pub inode: usize,
    pub file: usize,
    pub process: usize,
}

/// The file of the process is being created.
#[derive(Debug, PartialEq, Eq, Structural)]
pub struct ProcFilePending {
    pub file: usize,
    pub process: usize,
}

/// The process has its file.
#[derive(Debug, PartialEq, Eq, Structural)]
pub struct BinderfsFileSet {
    pub file: usize,
    pub process: usize,
}

/// The private data of the file is set.
#[derive(Debug, PartialEq, Eq, Structural)]
pub struct PrivateDataSet;

/// The process has been dropped because its file could not be created.
#[derive(Debug, PartialEq, Eq, Structural)]
pub struct ProcessDropped {
    pub err: Error,
}

/// Opens the device to which the private field `i_private` of `inode` points, for the new
/// file `file`.
pub fn rust_binder_open(inode: usize, i_private: usize, file: usize) -> (step: OpenStep)
    requires
        i_private != 0,
    ensures
        step == spec_open(inode, i_private, file),
{
    OpenStep::ReadDevice { device: i_private, then: DevicePending { inode, file } }
}

/// The first step of opening a device.
pub open spec fn spec_open(inode: usize, i_private: usize, file: usize) -> OpenStep {
    OpenStep::ReadDevice { device: i_private, then: DevicePending { inode, file } }
}

impl DevicePending {
    /// The process is opened in the context of the device.
    pub open spec fn spec_resume(self, device: binder_device) -> OpenStep {
        OpenStep::OpenProcess {
            ctx: device.ctx,
            file: self.file,
            then: ProcessPending { inode: self.inode, file: self.file },
        }
    }

    /// Takes the device.
    pub fn resume(self, device: binder_device) -> (step: OpenStep)
        ensures
            step == self.spec_resume(device),
    {
        OpenStep::OpenProcess {
            ctx: device.ctx,
            file: self.file,
            then: ProcessPending { inode: self.inode, file: self.file },
        }
    }
}

impl ProcessPending {
    /// A failure to open the process is returned.
    pub open spec fn spec_resume(self, reply: Result<usize, Error>) -> OpenStep {
        match reply {
            Ok(process) => OpenStep::GetPid {
                process,
                then: PidPending { inode: self.inode, file: self.file, process },
            },
            Err(err) => OpenStep::Return(err.errno),
        }
    }

    /// Takes the address of the process.
    pub fn resume(self, reply: Result<usize, Error>) -> (step: OpenStep)
        ensures
            step == self.spec_resume(reply),
    {
        match reply {
            Ok(process) => OpenStep::GetPid {
                process,
                then: PidPending { inode: self.inode, file: self.file, process },
            },
            Err(err) => OpenStep::Return(err.to_errno()),
        }
    }
}

impl PidPending {
    /// The file of the process is named by the pid.
    pub open spec fn spec_resume(self, pid: i32) -> OpenStep {
        OpenStep::CreateProcFile {
            inode: self.inode,
            pid,
            then: ProcFilePending { file: self.file, process: self.process },
        }
    }

    /// Takes the pid of the process.
    pub fn resume(self, pid: i32) -> (step: OpenStep)
        ensures
            step == self.spec_resume(pid),
    {
        OpenStep::CreateProcFile {
            inode: self.inode,
            pid,
            then: ProcFilePending { file: self.file, process: self.process },
        }
    }
}

impl ProcFilePending {
    /// The process gets its file, unless its pid has one already; a failure to create the
    /// file gives up the process.
    pub open spec fn spec_resume(self, created: Result<usize, Error>) -> OpenStep {
        match BinderfsProcFile::spec_new(created) {
            Ok(Some(proc_file)) => OpenStep::SetBinderfsFile {
                process: self.process,
                proc_file,
                then: BinderfsFileSet { file: self.file, process: self.process },
            },
            Ok(None) => OpenStep::SetPrivateData {
                file: self.file,
                process: self.process,
                then: PrivateDataSet,
            },
            Err(err) => OpenStep::DropProcess {
                process: self.process,
                then: ProcessDropped { err },
            },
        }
    }

    /// Takes the address of the directory entry.
    pub fn resume(self, created: Result<usize, Error>) -> (step: OpenStep)
        ensures
            step == self.spec_resume(created),
    {
        match BinderfsProcFile::new(created) {
            Ok(Some(proc_file)) => OpenStep::SetBinderfsFile {
                process: self.process,
                proc_file,
                then: BinderfsFileSet { file: self.file, process: self.process },
            },
            Ok(None) => OpenStep::SetPrivateData {
                file: self.file,
                process: self.process,
                then: PrivateDataSet,
            },
            Err(err) => OpenStep::DropProcess {
                process: self.process,
                then: ProcessDropped { err },
            },
        }
    }
}

impl BinderfsFileSet {
    /// The process goes to the private data of the file.
    pub open spec fn spec_resume(self) -> OpenStep {
        OpenStep::SetPrivateData { file: self.file, process: self.process, then: PrivateDataSet }
    }

    /// Goes on after the process got its file.
    pub fn resume(self) -> (step: OpenStep)
        ensures
            step == self.spec_resume(),
    {
        OpenStep::SetPrivateData { file: self.file, process: self.process, then: PrivateDataSet }
    }
}

impl PrivateDataSet {
    /// The device is open.
    pub open spec fn spec_resume(self) -> OpenStep {
        OpenStep::Return(0)
    }

    /// Goes on after the private data is set.
    pub fn resume(self) -> (step: OpenStep)
        ensures
            step == self.spec_resume(),
    {
        OpenStep::Return(0)
    }
}

impl ProcessDropped {
    /// The failure to create the file of the process is returned.
    pub open spec fn spec_resume(self) -> OpenStep {
        OpenStep::Return(self.err.errno)
    }

    /// Goes on after the process has been dropped.
    pub fn resume(self) -> (step: OpenStep)
        ensures
            step == self.spec_resume(),
    {
        OpenStep::Return(self.err.to_errno())
    }
}

/// The request to release `process` because `file` is closed. The process is taken out of
/// the private data of the file, which gives up its reference.
#[derive(Debug, PartialEq, Eq, Structural)]
pub struct ReleaseCall {
    pub process: usize,
    pub file: usize,
}

/// The request that closing the file makes.
pub open spec fn spec_release(private_data: usize, file: usize) -> ReleaseCall {
    ReleaseCall { process: private_data, file }
}

/// Closes `file`, of which `private_data` is the private data.
pub fn rust_binder_release(private_data: usize, file: usize) -> (call: ReleaseCall)
    ensures
        call == spec_release(private_data, file),
{
    ReleaseCall { process: private_data, file }
}

impl ReleaseCall {
    /// Closing a file always succeeds.
    pub open spec fn spec_finish(self) -> i32 {
        0
    }

    /// Returns to C after the process has been released.
    pub fn finish(self) -> (res: i32)
        ensures
            res == self.spec_finish(),
    {
        0
    }
}

/// The request that `process` handle the command `cmd` with argument `arg` on `file`.
#[derive(Debug, PartialEq, Eq, Structural)]
pub struct IoctlCall {
    pub process: usize,
    pub file: usize,
    pub cmd: u32,
    pub arg: usize,
}

/// The request that a command on the file makes.
pub open spec fn spec_ioctl(private_data: usize, file: usize, cmd: u32, arg: usize) -> IoctlCall {
    IoctlCall { process: private_data, file, cmd, arg }
}

/// Handles a command on `file`, of which `private_data` is the private data.
pub fn rust_binder_ioctl(private_data: usize, file: usize, cmd: u32, arg: usize) -> (call:
    IoctlCall)
    ensures
        call == spec_ioctl(private_data, file, cmd, arg),
{
    IoctlCall { process: private_data, file, cmd, arg }
}

impl IoctlCall {
    /// Takes the outcome of the command: 0 is returned, or the error number.
    pub fn finish(self, result: Result<(), Error>) -> (res: isize)
        ensures
            res == crate::error::errno_of(result),
    {
        match result {
            Ok(_) => 0,
            Err(err) => err.to_errno() as isize,
        }
    }
}

/// The request that `process` map the memory area `vma` for `file`.
#[derive(Debug, PartialEq, Eq, Structural)]
pub struct MmapCall {
    pub process: usize,
    pub file: usize,
    pub vma: usize,
}

/// The request that mapping memory for the file makes.
pub open spec fn spec_mmap(private_data: usize, file: usize, vma: usize) -> MmapCall {
    MmapCall { process: private_data, file, vma }
}

/// Maps the area `vma` for `file`, of which `private_data` is the private data.
pub fn rust_binder_mmap(private_data: usize, file: usize, vma: usize) -> (call: MmapCall)
    ensures
        call == spec_mmap(private_data, file, vma),
{
    MmapCall { process: private_data, file, vma }
}

impl MmapCall {
    /// Takes the outcome of mapping: 0 is returned, or the error number.
    pub fn finish(self, result: Result<(), Error>) -> (res: i32)
        ensures
            res == crate::error::errno_of(result),
    {
        match result {
            Ok(_) => 0,
            Err(err) => err.to_errno(),
        }
    }
}

/// The request that `process` tell for which operations `file` is ready, and wait on
/// `wait`.
#[derive(Debug, PartialEq, Eq, Structural)]
pub struct PollCall {
    pub process: usize,
    pub file: usize,
    pub wait: usize,
}

/// The request that polling the file makes.
pub open spec fn spec_poll(private_data: usize, file: usize, wait: usize) -> PollCall {
    PollCall { process: private_data, file, wait }
}

/// Polls `file`, of which `private_data` is the private data, with the table `wait`.
pub fn rust_binder_poll(private_data: usize, file: usize, wait: usize) -> (call: PollCall)
    ensures
        call == spec_poll(private_data, file, wait),
{
    PollCall { process: private_data, file, wait }
}

impl PollCall {
    /// Takes the outcome of polling: the readiness is returned; a failure of any kind is
    /// returned as readiness to fail.
    pub fn finish(self, result: Result<u32, Error>) -> (res: u32)
        ensures
            res == match result {
                Ok(ready) => ready,
                Err(_) => POLLERR,
            },
    {
        match result {
            Ok(ready) => ready,
            Err(_) => POLLERR,
        }
    }
}

/// The request that `process` be flushed.
#[derive(Debug, PartialEq, Eq, Structural)]
pub struct FlushCall {
    pub process: usize,
}

/// The request that flushing the file makes.
pub open spec fn spec_flush(private_data: usize) -> FlushCall {
    FlushCall { process: private_data }
}

/// Flushes a file of which `private_data` is the private data.
pub fn rust_binder_flush(private_data: usize) -> (call: FlushCall)
    ensures
        call == spec_flush(private_data),
{
    FlushCall { process: private_data }
}

impl FlushCall {
    /// Takes the outcome of flushing: 0 is returned, or the error number.
    pub fn finish(self, result: Result<(), Error>) -> (res: i32)
        ensures
            res == crate::error::errno_of(result),
    {
        match result {
            Ok(_) => 0,
            Err(err) => err.to_errno(),
        }
    }
}

/// A command reaches the process in the private data of the file as C gave it: for that
/// file, with the same command number and with the whole argument.
pub proof fn law_command_is_passed_on_unchanged(
    private_data: usize,
    file: usize,
    cmd: u32,
    arg: usize,
    call: IoctlCall,
)
    requires
        call_ensures(rust_binder_ioctl, (private_data, file, cmd, arg), call),
    ensures
        call.process == private_data,
        call.file == file,
        call.cmd == cmd,
        call.arg == arg,
{
}

/// The process in the private data of the file is asked to map, for that file, the very
/// area that C gave.
pub proof fn law_area_is_passed_on_unchanged(
    private_data: usize,
    file: usize,
    vma: usize,
    call: MmapCall,
)
    requires
        call_ensures(rust_binder_mmap, (private_data, file, vma), call),
    ensures
        call.process == private_data,
        call.file == file,
        call.vma == vma,
{
}

/// The process in the private data of the file is polled, for that file, with the very
/// table that C gave.
pub proof fn law_table_is_passed_on_unchanged(
    private_data: usize,
    file: usize,
    wait: usize,
    call: PollCall,
)
    requires
        call_ensures(rust_binder_poll, (private_data, file, wait), call),
    ensures
        call.process == private_data,
        call.file == file,
        call.wait == wait,
{
}

/// Flushing a file flushes the process in its private data, and closing the file releases
/// that process, for that file.
pub proof fn law_flush_and_release_name_the_process(
    private_data: usize,
    file: usize,
    flush: FlushCall,
    release: ReleaseCall,
)
    requires
        call_ensures(rust_binder_flush, (private_data,), flush),
        call_ensures(rust_binder_release, (private_data, file), release),
    ensures
        flush.process == private_data,
        release.process == private_data,
        release.file == file,
{
}

/// Commands, mappings and flushes answer C alike: success with 0, and a failure with the
/// number of just that error.
pub proof fn law_errors_are_returned_by_number(
    ioctl: IoctlCall,
    mmap: MmapCall,
    flush: FlushCall,
    result: Result<(), Error>,
    from_ioctl: isize,
    from_mmap: i32,
    from_flush: i32,
)
    requires
        call_ensures(IoctlCall::finish, (ioctl, result), from_ioctl),
        call_ensures(MmapCall::finish, (mmap, result), from_mmap),
        call_ensures(FlushCall::finish, (flush, result), from_flush),
    ensures
        result is Ok ==> from_ioctl == 0 && from_mmap == 0 && from_flush == 0,
        result matches Err(err) ==> {
            &&& from_ioctl == err.errno
            &&& from_mmap == err.errno
            &&& from_flush == err.errno
        },
{
}

/// The readiness that the process tells is returned bit for bit; every failure to poll is
/// returned as `POLLERR`, which is the bit 3.
pub proof fn law_readiness_is_returned(call: PollCall, result: Result<u32, Error>, res: u32)
    requires
        call_ensures(PollCall::finish, (call, result), res),
    ensures
        result matches Ok(ready) ==> res == ready,
        result is Err ==> res == 8,
{
}

/// Closing a file returns 0, whichever file it is.
pub proof fn law_closing_returns_zero(call: ReleaseCall, res: i32)
    requires
        call_ensures(ReleaseCall::finish, (call,), res),
    ensures
        res == 0,
{
}

} // verus!
