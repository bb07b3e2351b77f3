use vstd::prelude::*;

use crate::CustomError;
use vstd::string::StringExecFns;

verus! {

/** Quality */

/// The vertical resolution a capture is encoded at.
#[derive(Debug, Clone, Copy, PartialEq, Eq, Structural)]
pub enum Quality {
    Q720,
    Q1080,
}

impl Default for Quality {
    fn default() -> (r: Self)
        ensures
            r == Quality::Q720,
    {
        Quality::Q720
    }
}

impl Quality {
    /// Parse the command-line spelling of a quality.
    pub fn from_str(s: &str) -> (r: Result<Quality, CustomError>)
        ensures
            s@ == "720"@ ==> r == Ok::<Quality, CustomError>(Quality::Q720),
            s@ == "1080"@ ==> r == Ok::<Quality, CustomError>(Quality::Q1080),
            s@ != "720"@ && s@ != "1080"@ ==> r == Err::<Quality, CustomError>(CustomError::InvalidAnswer),
    {
        proof {
            reveal_strlit("720");
            reveal_strlit("1080");
            assert("720"@.len() == 3);
            assert("1080"@.len() == 4);
        }
        let owned = s.to_owned();
        if owned == String::from_str("720") {
            Ok(Quality::Q720)
        } else if owned == String::from_str("1080") {
            Ok(Quality::Q1080)
        } else {
            Err(CustomError::InvalidAnswer)
        }
    }

    /// The command-line spelling of this quality.
    pub fn to_string(&self) -> (r: String)
        ensures
            *self == Quality::Q720 ==> r@ == "720"@,
            *self == Quality::Q1080 ==> r@ == "1080"@,
    {
        match self {
            Quality::Q720 => String::from_str("720"),
            Quality::Q1080 => String::from_str("1080"),
        }
    }

    /// The spellings a quality argument accepts.
    pub fn values() -> (r: [&'static str; 2])
        ensures
            r@[0]@ == "720"@,
            r@[1]@ == "1080"@,
    {
        ["720", "1080"]
    }

    /// The number of lines this quality stands for.
    pub fn value(&self) -> (v: u32)
        ensures
            *self == Quality::Q720 ==> v == 720,
            *self == Quality::Q1080 ==> v == 1080,
    {
        match self {
            Quality::Q720 => 720,
            Quality::Q1080 => 1080,
        }
    }
}

/** Framerate */

/// The frames-per-second a capture runs at.
#[derive(Debug, Clone, Copy, PartialEq, Eq, Structural)]
pub enum FrameRate {
    F24,
    F30,
}

impl Default for FrameRate {
    fn default() -> (r: Self)
        ensures
            r == FrameRate::F24,
    {
        FrameRate::F24
    }
}

impl FrameRate {
    /// Parse the command-line spelling of a framerate.
    pub fn from_str(s: &str) -> (r: Result<FrameRate, CustomError>)
        ensures
            s@ == "24"@ ==> r == Ok::<FrameRate, CustomError>(FrameRate::F24),
            s@ == "30"@ ==> r == Ok::<FrameRate, CustomError>(FrameRate::F30),
            s@ != "24"@ && s@ != "30"@ ==> r == Err::<FrameRate, CustomError>(CustomError::InvalidAnswer),
    {
        proof {
            reveal_strlit("24");
            reveal_strlit("30");
            assert("24"@[0] == '2');
            assert("30"@[0] == '3');
        }
        let owned = s.to_owned();
        if owned == String::from_str("24") {
            Ok(FrameRate::F24)
        } else if owned == String::from_str("30") {
            Ok(FrameRate::F30)
        } else {
            Err(CustomError::InvalidAnswer)
        }
    }

    /// The command-line spelling of this framerate.
    pub fn to_string(&self) -> (r: String)
        ensures
            *self == FrameRate::F24 ==> r@ == "24"@,
            *self == FrameRate::F30 ==> r@ == "30"@,
    {
        match self {
            FrameRate::F24 => String::from_str("24"),
            FrameRate::F30 => String::from_str("30"),
        }
    }

    /// The spellings a framerate argument accepts.
    pub fn values() -> (r: [&'static str; 2])
        ensures
            r@[0]@ == "24"@,
            r@[1]@ == "30"@,
    {
        ["24", "30"]
    }

    /// The frames per second this framerate stands for.
    pub fn value(&self) -> (v: u32)
        ensures
            *self == FrameRate::F24 ==> v == 24,
            *self == FrameRate::F30 ==> v == 30,
    {
        match self {
            FrameRate::F24 => 24,
            FrameRate::F30 => 30,
        }
    }
}

/** Type */

/// Whether a session records to local storage or streams to the backend.
#[derive(Debug, Clone, Copy, PartialEq, Eq, Structural)]
pub enum SType {
    Record,
    Stream,
}

impl Default for SType {
    fn default() -> (r: Self)
        ensures
            r == SType::Stream,
    {
        SType::Stream
    }
}

impl SType {
    /// Parse the command-line spelling of a session type.
    pub fn from_str(s: &str) -> (r: Result<SType, CustomError>)
        ensures
            s@ == "record"@ ==> r == Ok::<SType, CustomError>(SType::Record),
            s@ == "stream"@ ==> r == Ok::<SType, CustomError>(SType::Stream),
            s@ != "record"@ && s@ != "stream"@ ==> r == Err::<SType, CustomError>(CustomError::InvalidAnswer),
    {
        proof {
            reveal_strlit("record");
            reveal_strlit("stream");
            assert("record"@[0] == 'r');
            assert("stream"@[0] == 's');
        }
        let owned = s.to_owned();
        if owned == String::from_str("record") {
            Ok(SType::Record)
        } else if owned == String::from_str("stream") {
            Ok(SType::Stream)
        } else {
            Err(CustomError::InvalidAnswer)
        }
    }

    /// The command-line spelling of this session type.
    pub fn to_string(&self) -> (r: String)
        ensures
            *self == SType::Record ==> r@ == "record"@,
            *self == SType::Stream ==> r@ == "stream"@,
    {
        match self {
            SType::Record => String::from_str("record"),
            SType::Stream => String::from_str("stream"),
        }
    }

    /// The spellings a session-type argument accepts.
    pub fn values() -> (r: [&'static str; 2])
        ensures
            r@[0]@ == "record"@,
            r@[1]@ == "stream"@,
    {
        ["record", "stream"]
    }
}

} // verus!
