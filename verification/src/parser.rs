use vstd::prelude::*;

use crate::constants;
use crate::digits;
use crate::digits::dec_rep;
use crate::options::SType;
use vstd::string::StringExecFns;

verus! {

/// The shape of a produced target filename: recordings get the container
/// extension appended, streams get the backend live-path prefix.
pub open spec fn filename_view(st: SType, name: Seq<char>) -> Seq<char> {
    match st {
        SType::Record => name + ".mkv"@,
        SType::Stream => "/"@ + constants::STREAM_API_PATH@ + "/"@ + name,
    }
}

/// Shape the given stem into a target filename for the session type.
fn make_filename(st: SType, name: String) -> (r: String)
    ensures
        r@ == filename_view(st, name@),
{
    match st {
        SType::Record => {
            let mut r = name;
            r.append(".mkv");
            r
        }
        SType::Stream => {
            let mut r = String::from_str("/");
            r.append(constants::STREAM_API_PATH);
            r.append("/");
            r.append(name.as_str());
            proof {
                assert(r@ =~= "/"@ + constants::STREAM_API_PATH@ + "/"@ + name@);
            }
            r
        }
    }
}

/// The target filename for a session: built from the given stem, or from the
/// current millisecond timestamp when none was given.
pub fn get_filename_from_arg(st: SType, arg_filename: Option<&str>) -> (r: String)
    ensures
        (match arg_filename {
            Some(f) => r@ == filename_view(st, f@),
            None => exists|ms: u64| r@ == filename_view(st, dec_rep(ms as nat)),
        }),
{
    match arg_filename {
        Some(f) => make_filename(st, f.to_owned()),
        None => {
            let ms = crate::now_millis();
            let name = digits::u64_to_string(ms);
            let r = make_filename(st, name);
            proof {
                assert(r@ == filename_view(st, dec_rep(ms as nat)));
            }
            r
        }
    }
}

} // verus!
