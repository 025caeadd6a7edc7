//! Where the API key is kept, and which stored or typed keys are usable.
use vstd::prelude::*;
use crate::text::{trim, trimmed};

verus! {

/// The location of the credential store.
pub struct Config {
    /// The file, relative to the working directory, that holds the key.
    pub api_key_path: String,
}

impl Config {
    pub fn new() -> (r: Self)
        ensures
            r.api_key_path@ == "vast_key"@,
    {
        Config { api_key_path: String::from_str("vast_key") }
    }

    /// The key held by the store's contents: the contents without
    /// surrounding whitespace, unless nothing is left.
    pub fn key_from_file(contents: &str) -> (r: Option<String>)
        ensures
            trimmed(contents@).len() > 0 <==> r is Some,
            r is Some ==> r->0@ == trimmed(contents@),
    {
        let key = trim(contents);
        if key.as_str().unicode_len() > 0 {
            Some(key)
        } else {
            None
        }
    }

    /// The key typed at the prompt, without surrounding whitespace; an
    /// error when nothing is left.
    pub fn key_from_prompt(entered: &str) -> (r: Result<String, String>)
        ensures
            trimmed(entered@).len() > 0 <==> r is Ok,
            r is Ok ==> r->Ok_0@ == trimmed(entered@),
            r is Err ==> r->Err_0@ == "API key cannot be empty"@,
    {
        let key = trim(entered);
        if key.as_str().unicode_len() > 0 {
            Ok(key)
        } else {
            Err(String::from_str("API key cannot be empty"))
        }
    }
}

} // verus!
