//! The developer console's text state: the line being typed and the
//! lines already entered.
use vstd::prelude::*;
use vstd::string::StringExecFns;

verus! {

/// The console: whether it is open, the line being typed, and the
/// lines entered so far.
pub struct Console {
    pub active: bool,
    pub current_line: String,
    pub new_lines: Vec<String>,
}

/// Relies on String::pop: removes and returns the last character, or
/// returns nothing for the empty string.
#[verifier::external_body]
fn string_pop(s: &mut String) -> (r: Option<char>)
    ensures
        old(s)@.len() == 0 ==> final(s)@ == old(s)@ && r is None,
        old(s)@.len() > 0 ==> final(s)@ == old(s)@.drop_last() && r == Some(old(s)@.last()),
{
    s.pop()
}

impl Console {
    /// A closed console with nothing typed and nothing entered.
    pub fn new() -> (r: Console)
        ensures
            !r.active,
            r.current_line@ == Seq::<char>::empty(),
            r.new_lines.deep_view() == Seq::<Seq<char>>::empty(),
    {
        let r = Console { active: false, current_line: String::new(), new_lines: Vec::new() };
        proof {
            assert(r.new_lines.deep_view() =~= Seq::<Seq<char>>::empty());
        }
        r
    }

    /// Opens the console if it is closed and closes it if it is
    /// open; the text is kept.
    pub fn toggle(&mut self)
        ensures
            final(self).active == !old(self).active,
            final(self).current_line == old(self).current_line,
            final(self).new_lines == old(self).new_lines,
    {
        self.active = !self.active;
    }

    /// Deletes the last typed character, if there is one.
    pub fn backspace(&mut self)
        ensures
            final(self).active == old(self).active,
            final(self).new_lines == old(self).new_lines,
            old(self).current_line@.len() == 0 ==> final(self).current_line@ == old(
                self,
            ).current_line@,
            old(self).current_line@.len() > 0 ==> final(self).current_line@ == old(
                self,
            ).current_line@.drop_last(),
    {
        let _ = string_pop(&mut self.current_line);
    }

    /// Types `text` at the end of the current line.
    pub fn append(&mut self, text: &str)
        ensures
            final(self).active == old(self).active,
            final(self).new_lines == old(self).new_lines,
            final(self).current_line@ == old(self).current_line@ + text@,
    {
        self.current_line.append(text);
    }

    /// Enters the current line: it is appended to the entered lines,
    /// returned, and the typing starts over empty.
    pub fn submit(&mut self) -> (line: String)
        ensures
            final(self).active == old(self).active,
            line@ == old(self).current_line@,
            final(self).current_line@ == Seq::<char>::empty(),
            final(self).new_lines.deep_view() == old(self).new_lines.deep_view().push(
                old(self).current_line@,
            ),
    {
        let line = self.current_line.clone();
        self.new_lines.push(self.current_line.clone());
        self.current_line = String::new();
        proof {
            assert(self.new_lines.deep_view() =~= old(self).new_lines.deep_view().push(
                old(self).current_line@,
            ));
        }
        line
    }
}

} // verus!
