//! Where the storage environment's files live: the directory named on the
//! command line, or a fixed directory under the user's home, with a fixed
//! subdirectory below either.
//!
//! Paths are text, joined with `/` as `PathBuf::push` joins them on Unix; on
//! a system with another separator the result still uses `/`.

use crate::error::StartupError;
use crate::text::slice_text;
use vstd::prelude::*;
use vstd::string::*;

verus! {

/// The directory under the home directory that is the default base.
pub const DEFAULT_DATA_DIR_RELATIVE: &'static str = ".casperlabs";

/// The subdirectory of the base that holds the global state.
pub const GLOBAL_STATE_DIR: &'static str = "global_state";

/// `base` extended by `name`: an absolute `name` stands for itself, and
/// otherwise `name` follows `base`, after a `/` unless `base` is empty or
/// ends with one.
pub open spec fn joined(base: Seq<char>, name: Seq<char>) -> Seq<char> {
    if name.len() > 0 && name[0] == '/' {
        name
    } else if base.len() == 0 || base.last() == '/' {
        base + name
    } else {
        base + seq!['/'] + name
    }
}

/// The directory of the global state: under the data directory where one is
/// given, else under the default directory below the home directory, which
/// then must be known.
pub open spec fn storage_path_of(data_dir: Option<Seq<char>>, home: Option<Seq<char>>) -> Result<
    Seq<char>,
    StartupError,
> {
    match data_dir {
        Some(dir) => Ok(joined(dir, GLOBAL_STATE_DIR@)),
        None => match home {
            Some(home) => Ok(joined(joined(home, DEFAULT_DATA_DIR_RELATIVE@), GLOBAL_STATE_DIR@)),
            None => Err(StartupError::HomeDirectory),
        },
    }
}

/// Extends the path `base` by `name`.
pub fn join_path(base: &str, name: &str) -> (path: String)
    ensures
        path@ == joined(base@, name@),
{
    proof {
        reveal_strlit("/");
    }
    let name_len = name.unicode_len();
    if name_len > 0 && name.get_char(0) == '/' {
        return name.to_owned();
    }
    let base_len = base.unicode_len();
    let mut path = base.to_owned();
    if base_len > 0 && base.get_char(base_len - 1) != '/' {
        path.append("/");
    }
    path.append(name);
    path
}

/// Resolves the directory of the global state from the data directory given
/// on the command line, if any, and the home directory, if known. The home
/// directory is looked at only where no data directory is given.
pub fn storage_path(data_dir: Option<&str>, home: Option<&str>) -> (path: Result<
    String,
    StartupError,
>)
    ensures
        match storage_path_of(slice_text(data_dir), slice_text(home)) {
            Ok(text) => path matches Ok(found) && found@ == text,
            Err(error) => path == Err::<String, StartupError>(error),
        },
{
    match data_dir {
        Some(dir) => Ok(join_path(dir, GLOBAL_STATE_DIR)),
        None => match home {
            Some(home) => {
                let base = join_path(home, DEFAULT_DATA_DIR_RELATIVE);
                Ok(join_path(base.as_str(), GLOBAL_STATE_DIR))
            },
            None => Err(StartupError::HomeDirectory),
        },
    }
}

/// Calls `dirs::home_dir`, which reads the environment and the user
/// database: the home directory of the current user, where there is one and
/// its path is valid UTF-8. Nothing is promised of the answer.
#[verifier::external_body]
fn home_dir() -> (home: Option<String>) {
    match dirs::home_dir() {
        Some(path) => path.into_os_string().into_string().ok(),
        None => None,
    }
}

/// Resolves the directory of the global state for this process. With a data
/// directory the answer is fixed. Without one the home directory is asked
/// for: the answer is then the default directory below whatever home was
/// found, and `HomeDirectory` where none was.
pub fn get_data_dir(data_dir: Option<&str>) -> (path: Result<String, StartupError>)
    ensures
        data_dir matches Some(dir) ==> path matches Ok(found) && found@ == joined(
            dir@,
            GLOBAL_STATE_DIR@,
        ),
        data_dir is None ==> match path {
            Ok(found) => exists|home: Seq<char>|
                found@ == joined(
                    #[trigger] joined(home, DEFAULT_DATA_DIR_RELATIVE@),
                    GLOBAL_STATE_DIR@,
                ),
            Err(error) => error == StartupError::HomeDirectory,
        },
{
    match data_dir {
        Some(dir) => storage_path(Some(dir), None),
        None => {
            let home = home_dir();
            match home {
                Some(home) => {
                    let path = storage_path(None, Some(home.as_str()));
                    proof {
                        let witness = home@;
                        assert(path matches Ok(found) && found@ == joined(
                            joined(witness, DEFAULT_DATA_DIR_RELATIVE@),
                            GLOBAL_STATE_DIR@,
                        ));
                    }
                    path
                },
                None => storage_path(None, None),
            }
        },
    }
}

} // verus!
