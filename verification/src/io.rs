//! The input side of the interactive shell: a line reader over any buffered
//! source, so that a session can run on standard input and a test on a byte
//! slice.
//!
//! What is read is raw text; every interpretation of it (season validation,
//! menu selections, the name query) happens in the verified pipeline, which
//! trims and parses for itself.

use std::io::BufRead;
use vstd::prelude::*;

verus! {

/// A line reader over a buffered input source.
#[derive(Debug)]
pub struct IOReader<R> {
    pub reader: R,
}

impl<R: BufRead> IOReader<R> {
    /// Relies on std::io::BufRead::read_line: appends one line of input,
    /// newline included when present, to `line`; at end of input nothing is
    /// appended, and an input fault reads as end of input.  Whatever was
    /// read, the prior contents of `line` stay in place as a prefix.
    #[verifier::external_body]
    pub fn read_input(&mut self, line: &mut String)
        ensures
            old(line)@.len() <= final(line)@.len(),
            final(line)@.subrange(0, old(line)@.len() as int) == old(line)@,
    {
        let _ = self.reader.read_line(line);
    }
}

} // verus!
