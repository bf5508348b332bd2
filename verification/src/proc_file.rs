//! The debug file that binderfs keeps for a process.

use vstd::prelude::*;
use crate::error::{Error, EEXIST, MAX_ERRNO};

verus! {

/// The file of one process in binderfs, held by the address of its directory entry.
///
/// The file is to be removed when its owner goes away.
#[derive(Debug, PartialEq, Eq, Structural)]
pub struct BinderfsProcFile {
    pub dentry: usize,
}

impl BinderfsProcFile {
    /// There is a directory entry.
    pub open spec fn wf(self) -> bool {
        self.dentry != 0
    }

    /// What the creation of the file of a process comes to: the file, if an entry was
    /// created; no file, if there is no entry or the pid has a file already; or any other
    /// failure.
    pub open spec fn spec_new(created: Result<usize, Error>) -> Result<Option<Self>, Error> {
        match created {
            Ok(dentry) => Ok(
                if dentry != 0 {
                    Some(BinderfsProcFile { dentry })
                } else {
                    None
                },
            ),
            Err(err) => if err.errno == EEXIST {
                Ok(None)
            } else {
                Err(err)
            },
        }
    }

    /// Takes what binderfs replied to the request to create the file: the address of the
    /// directory entry, or an error.
    pub fn new(created: Result<usize, Error>) -> (res: Result<Option<Self>, Error>)
        ensures
            res == Self::spec_new(created),
            res matches Ok(Some(file)) ==> file.wf(),
    {
        match created {
            Ok(dentry) => {
                if dentry != 0 {
                    Ok(Some(BinderfsProcFile { dentry }))
                } else {
                    Ok(None)
                }
            },
            Err(err) => {
                if err.errno == EEXIST {
                    Ok(None)
                } else {
                    Err(err)
                }
            },
        }
    }

    /// Gives up the file: the directory entry that is to be removed from binderfs.
    pub fn into_removed(self) -> (dentry: usize)
        requires
            self.wf(),
        ensures
            dentry == self.dentry,
            dentry != 0,
    {
        self.dentry
    }
}

/// The directory entry that is removed in the end is the one that was created, and none is
/// removed that was not created.
pub proof fn law_created_entry_is_the_one_removed(created: Result<usize, Error>)
    ensures
        (BinderfsProcFile::spec_new(created) matches Ok(Some(_))) <==> (created matches Ok(dentry)
            && dentry != 0),
        BinderfsProcFile::spec_new(created) matches Ok(Some(file)) ==> {
            &&& file.wf()
            &&& created == Ok::<usize, Error>(file.dentry)
        },
{
}

/// The address is one of the last, by which C encodes errors in place of addresses.
pub open spec fn is_error_pointer(address: usize) -> bool {
    address > usize::MAX - MAX_ERRNO
}

/// If a reply that is no error is no encoded error either, then neither is the entry that is
/// held: what is removed in the end is a real entry.
pub proof fn law_held_entry_is_no_error_pointer(created: Result<usize, Error>)
    requires
        created matches Ok(dentry) ==> !is_error_pointer(dentry),
    ensures
        BinderfsProcFile::spec_new(created) matches Ok(Some(file)) ==> {
            &&& file.dentry != 0
            &&& !is_error_pointer(file.dentry)
        },
{
}

/// That a pid has a file already is no failure; every other error is passed on.
pub proof fn law_existing_file_is_no_failure(created: Result<usize, Error>)
    ensures
        (BinderfsProcFile::spec_new(created) is Err) <==> (created matches Err(err) && err.errno
            != EEXIST),
        BinderfsProcFile::spec_new(created) matches Err(err) ==> created == Err::<usize, Error>(
            err,
        ),
{
}

/// What a process gets for each reply of binderfs: its file, for an entry; no file, where
/// there is no entry or a file of that pid is there already, which is error -17; and every
/// other error as it came. The entry that is removed in the end is the one of the reply.
pub proof fn law_new_file_in_full(
    created: Result<usize, Error>,
    res: Result<Option<BinderfsProcFile>, Error>,
    file: BinderfsProcFile,
    removed: usize,
)
    requires
        call_ensures(BinderfsProcFile::new, (created,), res),
        call_ensures(BinderfsProcFile::into_removed, (file,), removed),
    ensures
        created matches Ok(dentry) ==> {
            &&& res is Ok
            &&& res->Ok_0 is Some <==> dentry != 0
            &&& res == Ok::<Option<BinderfsProcFile>, Error>(Some(file)) ==> removed == dentry
        },
        created matches Err(err) ==> {
            &&& err.errno == -17 ==> res == Ok::<Option<BinderfsProcFile>, Error>(None)
            &&& err.errno != -17 ==> res == Err::<Option<BinderfsProcFile>, Error>(err)
        },
{
}

} // verus!
