//! Where per-account signing credentials of sandbox accounts are kept.
use vstd::prelude::*;
use crate::text::{join_path, path_join};

verus! {

/// The credentials directory, relative to the user's home directory.
pub const SANDBOX_CREDENTIALS_DIR: &'static str = ".near-credentials/sandbox/";

/// The credentials directory under the home directory `home`.
pub open spec fn credentials_dir_of(home: Seq<char>) -> Seq<char> {
    path_join(home, ".near-credentials/sandbox/"@)
}

/// The credentials file of `account_id` under the home directory `home`.
pub open spec fn credentials_file_of(home: Seq<char>, account_id: Seq<char>) -> Seq<char> {
    path_join(credentials_dir_of(home), account_id + ".json"@)
}

/// Why the location of a credentials file could not be settled.
#[derive(Clone, Debug, PartialEq, Eq)]
pub enum CredentialError {
    /// The user's home directory is unknown.
    HomeDirUnavailable,
    /// The credentials directory could not be created; the system's reason.
    DirectoryCreation(String),
}

impl CredentialError {
    /// The diagnostic text of this error.
    pub fn message(&self) -> (r: String)
        ensures
            self is HomeDirUnavailable ==> r@ == "Could not get HOME_DIR"@,
            self is DirectoryCreation ==> r@ == "Could not create near credential directory: "@
                + self->DirectoryCreation_0@,
    {
        match self {
            CredentialError::HomeDirUnavailable => String::from_str("Could not get HOME_DIR"),
            CredentialError::DirectoryCreation(detail) => {
                let mut m = String::from_str("Could not create near credential directory: ");
                m.append(detail.as_str());
                m
            },
        }
    }
}

/// The credentials directory to create and the file inside it that holds one
/// account's credentials.
#[derive(Clone, Debug, PartialEq, Eq)]
pub struct CredentialLocation {
    pub dir: String,
    pub file: String,
}

/// Where the credentials of `account_id` live, given the user's home
/// directory if it is known. The caller creates `dir` before using `file`.
pub fn credentials_filepath(home: Option<&str>, account_id: &str) -> (r: Result<
    CredentialLocation,
    CredentialError,
>)
    ensures
        home is None <==> r == Err::<CredentialLocation, CredentialError>(
            CredentialError::HomeDirUnavailable,
        ),
        home is Some ==> r is Ok && r->Ok_0.dir@ == credentials_dir_of(home->Some_0@)
            && r->Ok_0.file@ == credentials_file_of(home->Some_0@, account_id@),
{
    match home {
        None => Err(CredentialError::HomeDirUnavailable),
        Some(h) => {
            let dir = join_path(h, SANDBOX_CREDENTIALS_DIR);
            let mut name = String::from_str(account_id);
            name.append(".json");
            let file = join_path(dir.as_str(), name.as_str());
            Ok(CredentialLocation { dir, file })
        },
    }
}

} // verus!
