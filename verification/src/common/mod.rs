pub mod http;
pub mod json;
pub mod text;

use vstd::prelude::*;

verus! {

/// Why a configuration path was refused.
#[derive(Debug, Clone)]
pub enum ConfigPathError {
    /// The path names no regular file.
    NotAFile(String),
}

impl ConfigPathError {
    /// The text of the error.
    pub fn message(&self) -> (m: String)
        ensures
            self matches ConfigPathError::NotAFile(p) ==> m@ == not_a_file_message(p@),
    {
        match self {
            ConfigPathError::NotAFile(p) => {
                let mut m = String::from_str("\"");
                m.append(p.as_str());
                m.append("\" is not a regular file or not exist");
                m
            },
        }
    }
}

/// The text of the error for a path `p` that is no regular file.
pub open spec fn not_a_file_message(p: Seq<char>) -> Seq<char> {
    "\""@ + p + "\" is not a regular file or not exist"@
}

/// Checks the path given for the configuration file. `is_file` is whether
/// `s` names an existing regular file. Returns the path when it does, and
/// the error naming the path otherwise.
pub fn is_config_exist(s: &str, is_file: bool) -> (res: Result<String, ConfigPathError>)
    ensures
        is_file ==> (res matches Ok(p) && p@ == s@),
        !is_file ==> (res matches Err(ConfigPathError::NotAFile(p)) && p@ == s@),
{
    let path = String::from_str(s);
    if is_file {
        Ok(path)
    } else {
        Err(ConfigPathError::NotAFile(path))
    }
}

} // verus!
