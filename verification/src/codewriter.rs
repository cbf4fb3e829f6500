//! A writer of indented lines of text.

use vstd::prelude::*;
use vstd::string::*;

verus! {

/// The text that indents a line at level `level`: two spaces for each
/// level.
pub open spec fn indentation(level: nat) -> Seq<char>
    decreases level,
{
    if level == 0 {
        Seq::empty()
    } else {
        indentation((level - 1) as nat) + seq![' ', ' ']
    }
}

/// The text of one line at level `level`: the indentation, the content,
/// and a line feed.
pub open spec fn line_text(level: nat, content: Seq<char>) -> Seq<char> {
    indentation(level) + content + seq!['\n']
}

/// Text that grows line by line, with a current level of indentation.
pub struct CodeWriter {
    indent_level: usize,
    output: String,
}

/// What a [`CodeWriter`] holds.
pub struct CodeWriterView {
    pub indent_level: nat,
    pub output: Seq<char>,
}

impl CodeWriterView {
    /// The same text, one level deeper.
    pub open spec fn deeper(self) -> CodeWriterView {
        CodeWriterView { indent_level: self.indent_level + 1, output: self.output }
    }
}

impl View for CodeWriter {
    type V = CodeWriterView;

    closed spec fn view(&self) -> CodeWriterView {
        CodeWriterView { indent_level: self.indent_level as nat, output: self.output@ }
    }
}

impl CodeWriter {
    pub fn new() -> (writer: CodeWriter)
        ensures
            writer@.indent_level == 0,
            writer@.output == Seq::<char>::empty(),
    {
        CodeWriter { indent_level: 0, output: String::new() }
    }

    /// Appends `line` as one line at the current level.
    pub fn write_line(&mut self, line: &str)
        ensures
            final(self)@.output == old(self)@.output + line_text(old(self)@.indent_level, line@),
            final(self)@.indent_level == old(self)@.indent_level,
    {
        proof {
            reveal_strlit("\n");
        }
        let level = self.indent_level;
        for i in 0..level
            invariant
                self.indent_level == old(self).indent_level,
                self.output@ == old(self).output@ + indentation(i as nat),
        {
            proof {
                reveal_strlit("  ");
            }
            self.output.append("  ");
        }
        self.output.append(line);
        self.output.append("\n");
    }

    /// Appends one line at the current level, whose content is what
    /// `composer` writes to the empty line that it is handed.
    pub fn line<F>(&mut self, composer: F) where F: FnOnce(&mut LineWriter)
        requires
            forall|writer: &mut LineWriter|
                writer@ == Seq::<char>::empty() ==> call_requires(composer, (writer,)),
        ensures
            exists|writer: &mut LineWriter|
                writer@ == Seq::<char>::empty() && #[trigger] call_ensures(composer, (writer,), ())
                    && final(self)@.output == old(self)@.output + line_text(
                    old(self)@.indent_level,
                    final(writer)@,
                ),
            final(self)@.indent_level == old(self)@.indent_level,
    {
        let mut writer = LineWriter::new();
        composer(&mut writer);
        self.write_line(writer.line.as_str());
    }

    /// Appends an empty line, without indentation.
    pub fn blank_line(&mut self)
        ensures
            final(self)@.output == old(self)@.output + seq!['\n'],
            final(self)@.indent_level == old(self)@.indent_level,
    {
        proof {
            reveal_strlit("\n");
        }
        self.output.append("\n");
    }

    /// Runs `cb` on the writer one level deeper, and goes back up one
    /// level from where `cb` has left the writer, which must not be the
    /// outermost level.
    pub fn write_block<F>(&mut self, cb: F) where F: FnOnce(&mut CodeWriter)
        requires
            old(self)@.indent_level < usize::MAX,
            forall|writer: &mut CodeWriter|
                writer@ == old(self)@.deeper() ==> call_requires(cb, (writer,)),
            forall|writer: &mut CodeWriter|
                writer@ == old(self)@.deeper() && #[trigger] call_ensures(cb, (writer,), ())
                    ==> final(writer)@.indent_level >= 1,
        ensures
            exists|writer: &mut CodeWriter|
                writer@ == old(self)@.deeper() && #[trigger] call_ensures(cb, (writer,), ())
                    && final(self)@.output == final(writer)@.output
                    && final(self)@.indent_level == final(writer)@.indent_level - 1,
    {
        self.indent_level += 1;
        assert(self@ == old(self)@.deeper());
        cb(self);
        self.indent_level -= 1;
    }

    pub fn as_str(&mut self) -> (text: &str)
        ensures
            text@ == old(self)@.output,
            final(self)@ == old(self)@,
    {
        self.output.as_str()
    }
}

/// The content of one line while it is put together.
pub struct LineWriter {
    line: String,
}

impl View for LineWriter {
    type V = Seq<char>;

    closed spec fn view(&self) -> Seq<char> {
        self.line@
    }
}

impl LineWriter {
    fn new() -> (writer: LineWriter)
        ensures
            writer@ == Seq::<char>::empty(),
    {
        LineWriter { line: String::new() }
    }

    /// Appends `content` to the line.
    pub fn write(&mut self, content: &str)
        ensures
            final(self)@ == old(self)@ + content@,
    {
        self.line.append(content);
    }
}

impl Into<String> for CodeWriter {
    fn into(self) -> (text: String)
        ensures
            <String as View>::view(&text) == self@.output,
    {
        self.output
    }
}

impl vstd::std_specs::convert::IntoSpecImpl<String> for CodeWriter {
    open spec fn obeys_into_spec() -> bool {
        true
    }

    closed spec fn into_spec(self) -> String {
        self.output
    }
}

} // verus!
