//! Where the single encrypted credential file lives, and how its text is
//! opened. Reading and writing the file itself is left to the caller.
use vstd::prelude::*;
use vstd::string::StringExecFns;
use std::path::PathBuf;

use crate::crypto::{derive_key_from_hwid, get_hwid, machine_key, open_with_key, sealable, sealed_token, KEY_LEN, NONCE_LEN};
use crate::types::AuthError;

verus! {

#[verifier::external_type_specification]
#[verifier::external_body]
pub struct ExPathBuf(PathBuf);

const APP_QUALIFIER: &'static str = "com";

const APP_ORGANIZATION: &'static str = "spotify-rework";

const APP_NAME: &'static str = "spotify-rework";

/// Name of the credential file inside the data directory.
pub const AUTH_FILE: &'static str = "auth.enc";

/// Relies on directories' `ProjectDirs::from` and `data_local_dir`: the
/// local data directory of the application, if the home directory is known.
#[verifier::external_body]
fn project_data_dir(qualifier: &str, organization: &str, application: &str) -> (r: Option<PathBuf>) {
    match directories::ProjectDirs::from(qualifier, organization, application) {
        Some(dirs) => Some(dirs.data_local_dir().to_path_buf()),
        None => None,
    }
}

/// Relies on `PathBuf::push`: `name` appended to `dir`.
#[verifier::external_body]
fn path_join(dir: PathBuf, name: &str) -> (r: PathBuf) {
    let mut p = dir;
    p.push(name);
    p
}

/// Relies on `Path::exists`: whether something is on disk at `path`.
#[verifier::external_body]
fn path_exists(path: &PathBuf) -> (r: bool) {
    path.exists()
}

/// The application's local data directory.
pub fn get_data_dir() -> (r: Result<PathBuf, AuthError>)
    ensures
        r matches Err(e) ==> e is StorageError,
{
    match project_data_dir(APP_QUALIFIER, APP_ORGANIZATION, APP_NAME) {
        Some(d) => Ok(d),
        None => Err(AuthError::StorageError(String::from_str("Could not determine data directory"))),
    }
}

/// The path of the credential file.
pub fn get_auth_file_path() -> (r: Result<PathBuf, AuthError>)
    ensures
        r matches Err(e) ==> e is StorageError,
{
    let dir = get_data_dir()?;
    Ok(path_join(dir, AUTH_FILE))
}

/// Whether a credential file is present; false where its path is unknown.
pub fn has_auth_state() -> (r: bool) {
    match get_auth_file_path() {
        Ok(p) => path_exists(&p),
        Err(_) => false,
    }
}

/// Opens the text of the credential file under `key`. `None` stands for an
/// absent file, which means no stored state; anything that fails to open
/// is a storage error, never "no state".
pub fn open_auth_file(key: &Vec<u8>, contents: Option<&str>) -> (r: Result<Option<String>, AuthError>)
    requires
        key@.len() == KEY_LEN,
    ensures
        contents is None ==> r matches Ok(None),
        contents is Some ==> !(r matches Ok(None)),
        forall|n: Seq<u8>, p: Seq<char>|
            n.len() == NONCE_LEN && sealable(p) && contents is Some && contents->Some_0@
                == #[trigger] sealed_token(key@, n, p) ==> (r is Ok && r->Ok_0 is Some
                && r->Ok_0->Some_0@ == p),
        r matches Ok(Some(s)) ==> exists|n: Seq<u8>|
            n.len() == NONCE_LEN && contents->Some_0@ == #[trigger] sealed_token(key@, n, s@),
        r matches Err(e) ==> e is StorageError,
{
    match contents {
        None => Ok(None),
        Some(t) => match open_with_key(key, t) {
            Ok(s) => {
                let ghost n = choose|n: Seq<u8>|
                    n.len() == NONCE_LEN && t@ == #[trigger] sealed_token(key@, n, s@);
                let r: Result<Option<String>, AuthError> = Ok(Some(s));
                assert(t@ == sealed_token(key@, n, r->Ok_0->Some_0@));
                r
            },
            Err(e) => Err(AuthError::StorageError(e.message())),
        },
    }
}

/// Opens the text of the credential file under this machine's key: a text
/// comes out only of a file that seals exactly that text under the key of
/// the machine identifier that was read.
pub fn read_auth_file(contents: Option<&str>) -> (r: Result<Option<String>, AuthError>)
    ensures
        contents is None ==> r matches Ok(None),
        contents is Some ==> !(r matches Ok(None)),
        r matches Ok(Some(s)) ==> exists|h: Seq<char>, n: Seq<u8>|
            n.len() == NONCE_LEN && contents->Some_0@ == #[trigger] sealed_token(machine_key(h), n, s@),
        r matches Err(e) ==> e is StorageError,
{
    match contents {
        None => Ok(None),
        Some(t) => {
            let hwid = match get_hwid() {
                Ok(h) => h,
                Err(e) => {
                    return Err(AuthError::StorageError(e.message()));
                },
            };
            let key = derive_key_from_hwid(hwid.as_str());
            let r = open_auth_file(&key, Some(t));
            proof {
                if r is Ok && r->Ok_0 is Some {
                    let text = r->Ok_0->Some_0@;
                    let n = choose|n: Seq<u8>|
                        n.len() == NONCE_LEN && t@ == #[trigger] sealed_token(key@, n, text);
                    assert(t@ == sealed_token(machine_key(hwid@), n, text));
                }
            }
            r
        },
    }
}

} // verus!
