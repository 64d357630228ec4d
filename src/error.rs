use vstd::prelude::*;

verus! {

/// The fatal errors of a run. Each ends the process with a non-zero status.
#[derive(Debug, Clone, Copy, PartialEq, Eq, Structural)]
pub enum FeroxError {
    /// The wordlist file could not be opened, or one of its lines could not be read.
    WordlistUnreadable,
    /// The wordlist file holds no word.
    WordlistEmpty,
    /// A target line on standard input could not be decoded.
    InputStream,
}

/// The component that raised each error, as its diagnostic names it.
pub open spec fn component_of(e: FeroxError) -> Seq<char> {
    match e {
        FeroxError::WordlistUnreadable => "main::get_unique_words_from_wordlist"@,
        FeroxError::WordlistEmpty => "main::scan"@,
        FeroxError::InputStream => "main::get_targets"@,
    }
}

impl FeroxError {
    /// The component named in the `ERROR <component> <message>` diagnostic.
    pub fn component(&self) -> (r: String)
        ensures
            r@ == component_of(*self),
    {
        match self {
            FeroxError::WordlistUnreadable => String::from_str("main::get_unique_words_from_wordlist"),
            FeroxError::WordlistEmpty => String::from_str("main::scan"),
            FeroxError::InputStream => String::from_str("main::get_targets"),
        }
    }
}

/// The process exit status for the outcome of a run: zero on success, one on
/// any fatal error.
pub fn exit_status(outcome: &Result<(), FeroxError>) -> (code: i32)
    ensures
        code == (if outcome is Ok { 0i32 } else { 1i32 }),
{
    match outcome {
        Ok(_) => 0,
        Err(_) => 1,
    }
}

} // verus!
