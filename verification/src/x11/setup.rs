//! What a start of the managed server is made with: the paths of its files, and
//! the cookie that it lets clients in with.

use vstd::prelude::*;

use crate::x11::authority::X11AuthCookie;

verus! {

/// The name of the authority file in the private directory.
pub const AUTHORITY_FILE: &'static str = "authority";

/// The name of the log file in the private directory.
pub const LOG_FILE: &'static str = "vcxsrv.log";

/// The files in the private directory have different names, so the server does
/// not write its log over its cookie.
pub proof fn lemma_private_files_have_different_names()
    ensures
        AUTHORITY_FILE@ == "authority"@,
        LOG_FILE@ == "vcxsrv.log"@,
        AUTHORITY_FILE@ != LOG_FILE@,
{
    reveal_strlit("authority");
    reveal_strlit("vcxsrv.log");
    assert("authority"@.len() != "vcxsrv.log"@.len());
}

/// The files of a server in its private directory.
#[derive(Debug, PartialEq, Eq)]
pub struct PrivateFiles<P> {
    pub authority_path: P,
    pub log_path: P,
}

/// All that a server is launched from and with.
#[derive(Debug, PartialEq, Eq)]
pub struct ServerFiles<P> {
    pub runtime_dir: P,
    pub authority_path: P,
    pub log_path: P,
}

/// The same files, by reference.
pub open spec fn borrowed_files<P>(files: &ServerFiles<P>) -> ServerFiles<&P> {
    ServerFiles {
        runtime_dir: &files.runtime_dir,
        authority_path: &files.authority_path,
        log_path: &files.log_path,
    }
}

impl<P> ServerFiles<P> {
    /// The same files, by reference.
    pub fn borrowed(&self) -> (files: ServerFiles<&P>)
        ensures
            files == borrowed_files(self),
            *files.runtime_dir == self.runtime_dir,
            *files.authority_path == self.authority_path,
            *files.log_path == self.log_path,
    {
        ServerFiles {
            runtime_dir: &self.runtime_dir,
            authority_path: &self.authority_path,
            log_path: &self.log_path,
        }
    }
}

/// Files by reference are the same files, each in its place.
pub proof fn lemma_borrowed_files_are_the_files<P>(files: &ServerFiles<P>)
    ensures
        *borrowed_files(files).runtime_dir == files.runtime_dir,
        *borrowed_files(files).authority_path == files.authority_path,
        *borrowed_files(files).log_path == files.log_path,
{
}

/// The cookie and the files of a server.
#[derive(Debug, PartialEq, Eq)]
pub struct ServerSetup<P> {
    pub cookie: X11AuthCookie,
    pub files: ServerFiles<P>,
}

/// The cookie and the files of a server as a mathematical value.
#[verifier::ext_equal]
pub struct SetupView<P> {
    pub cookie: Seq<u8>,
    pub files: ServerFiles<P>,
}

impl<P> View for ServerSetup<P> {
    type V = SetupView<P>;

    open spec fn view(&self) -> SetupView<P> {
        SetupView { cookie: self.cookie@, files: self.files }
    }
}

/// A setup shows its cookie and its files.
pub proof fn lemma_setup_shows_cookie_and_files<P>(setup: ServerSetup<P>)
    ensures
        setup@.cookie == setup.cookie@,
        setup@.files.runtime_dir == setup.files.runtime_dir,
        setup@.files.authority_path == setup.files.authority_path,
        setup@.files.log_path == setup.files.log_path,
{
}

} // verus!
