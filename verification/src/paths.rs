use vstd::prelude::*;

use crate::constants;
use crate::CustomError;
use vstd::string::StringExecFns;

verus! {

/// Relies on home::home_dir: the current user's home directory, read from
/// the environment, or `CouldNotFindHome` when the environment does not name
/// one.  The value depends on the environment, so nothing is promised of the
/// `Ok` contents.
#[verifier::external_body]
pub fn get_home_path() -> (r: Result<String, CustomError>)
    ensures
        r matches Err(e) ==> e == CustomError::CouldNotFindHome,
{
    match home::home_dir() {
        Some(path) => Ok(path.display().to_string()),
        None => Err(CustomError::CouldNotFindHome),
    }
}

/// The directory recordings are stored in, under the given home directory.
pub fn get_video_directory_path(home: &str) -> (r: String)
    ensures
        r@ == home@ + "/"@ + constants::VIDEOS_FOLDER_FROM_HOME@,
{
    let mut path = home.to_owned();
    path.append("/");
    path.append(constants::VIDEOS_FOLDER_FROM_HOME);
    proof {
        assert(path@ =~= home@ + "/"@ + constants::VIDEOS_FOLDER_FROM_HOME@);
    }
    path
}

/// Where a recording with the given filename is stored, under the given home
/// directory.
pub fn get_video_path(home: &str, filename: &String) -> (r: String)
    ensures
        r@ == home@ + "/"@ + constants::VIDEOS_FOLDER_FROM_HOME@ + "/"@ + filename@,
{
    let mut path = get_video_directory_path(home);
    path.append("/");
    path.append(filename.as_str());
    proof {
        assert(path@ =~= home@ + "/"@ + constants::VIDEOS_FOLDER_FROM_HOME@ + "/"@ + filename@);
    }
    path
}

/// The streaming endpoint for the given video identifier.
pub fn get_stream_path(vid: &String) -> (r: String)
    ensures
        r@ == constants::STREAM_API@ + "/"@ + vid@,
{
    let mut path = constants::STREAM_API.to_owned();
    path.append("/");
    path.append(vid.as_str());
    proof {
        assert(path@ =~= constants::STREAM_API@ + "/"@ + vid@);
    }
    path
}

} // verus!
