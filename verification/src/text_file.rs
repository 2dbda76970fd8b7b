//! What is written to a text file for a list of lines, and how the file is
//! opened for it.

use vstd::prelude::*;
use vstd::string::StringExecFns;

verus! {

/// How a file is opened for writing lines to it.
#[derive(Clone, Copy, Debug, PartialEq, Eq, Structural)]
pub struct OpenMode {
    /// Open for writing.
    pub write: bool,
    /// Create the file if it is not there.
    pub create: bool,
    /// Empty the file first.
    pub truncate: bool,
    /// Write at the end of what is there.
    pub append: bool,
}

/// The mode for writing lines: always for writing and creating; emptying the
/// file when `overwrite` is set, and adding to its end when it is not.
pub fn open_mode(overwrite: bool) -> (mode: OpenMode)
    ensures
        mode == (OpenMode { write: true, create: true, truncate: overwrite, append: !overwrite }),
{
    OpenMode { write: true, create: true, truncate: overwrite, append: !overwrite }
}

/// The text of a list of lines: each line in turn, each followed by a
/// newline.
pub open spec fn lines_text(lines: Seq<Seq<char>>) -> Seq<char>
    decreases lines.len(),
{
    if lines.len() == 0 {
        Seq::empty()
    } else {
        lines_text(lines.drop_last()) + lines.last() + seq!['\n']
    }
}

/// The lines of a slice of strings, each as a sequence of characters.
pub open spec fn line_views(lines: Seq<&str>) -> Seq<Seq<char>> {
    Seq::new(lines.len(), |i: int| lines[i]@)
}

/// Builds the text that writing `lines` puts into a file.
pub fn render_lines(lines: &[&str]) -> (text: String)
    ensures
        text@ == lines_text(line_views(lines@)),
{
    let mut text = String::new();
    let mut i: usize = 0;
    proof {
        reveal_strlit("\n");
    }
    while i < lines.len()
        invariant
            i <= lines.len(),
            text@ == lines_text(line_views(lines@).take(i as int)),
            "\n"@ == seq!['\n'],
        decreases lines.len() - i,
    {
        proof {
            let next = line_views(lines@).take(i + 1);
            assert(next.drop_last() =~= line_views(lines@).take(i as int));
            assert(next.last() == lines@[i as int]@);
        }
        text.append(lines[i]);
        text.append("\n");
        i = i + 1;
    }
    proof {
        assert(line_views(lines@).take(i as int) =~= line_views(lines@));
    }
    text
}

} // verus!
