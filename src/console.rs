//! The operator's console, buffered: lines to show collect here until the
//! caller flushes them; after a question the console awaits the line the
//! caller reads in reply.
use vstd::prelude::*;

verus! {

/// A line as read, less its final character (the line break), if any.
pub open spec fn without_line_end(line: Seq<char>) -> Seq<char> {
    if line.len() > 0 {
        line.drop_last()
    } else {
        line
    }
}

/// Console output waiting to be flushed.
pub struct IO {
    pending: String,
    awaiting_reply: bool,
}

impl IO {
    /// The text written and not yet taken.
    pub closed spec fn pending(&self) -> Seq<char> {
        self.pending@
    }

    /// A question has been asked and its reply not yet handed in.
    pub closed spec fn awaiting_reply(&self) -> bool {
        self.awaiting_reply
    }

    /// A console with nothing pending.
    pub fn new() -> (io: IO)
        ensures
            io.pending() == Seq::<char>::empty(),
            !io.awaiting_reply(),
    {
        IO { pending: String::new(), awaiting_reply: false }
    }

    /// Writes one line.
    pub fn write_output(&mut self, line: &str)
        ensures
            final(self).pending() == old(self).pending() + line@ + "\n"@,
            final(self).awaiting_reply() == old(self).awaiting_reply(),
    {
        self.pending.append(line);
        self.pending.append("\n");
    }

    /// Writes the question as a line; the console then awaits its reply.
    pub fn prompt(&mut self, question: &str)
        ensures
            final(self).pending() == old(self).pending() + question@ + "\n"@,
            final(self).awaiting_reply(),
    {
        self.write_output(question);
        self.awaiting_reply = true;
    }

    /// Takes the line read in answer to the question and returns the reply:
    /// the line less its line break.
    pub fn reply(&mut self, line: &str) -> (r: String)
        requires
            old(self).awaiting_reply(),
        ensures
            r@ == without_line_end(line@),
            !final(self).awaiting_reply(),
            final(self).pending() == old(self).pending(),
    {
        self.awaiting_reply = false;
        let n = line.unicode_len();
        if n > 0 {
            String::from_str(line.substring_char(0, n - 1))
        } else {
            String::from_str(line)
        }
    }

    /// Hands out what is pending, for the caller to flush, and clears it.
    pub fn take_output(&mut self) -> (r: String)
        ensures
            r@ == old(self).pending(),
            final(self).pending() == Seq::<char>::empty(),
            final(self).awaiting_reply() == old(self).awaiting_reply(),
    {
        let r = self.pending.clone();
        self.pending = String::new();
        r
    }
}

} // verus!
