use vstd::prelude::*;
use crate::io::code_buffer::{CodeBuffer, CodeBufferLine, Codepoint, LineTerminator};
use crate::vector::Vector3;

verus! {

/// The character that ends a line and leads to the next row.
pub const ROW_FEED: char = '\u{10}';

/// The character that ends a line and leads to the next row, alone or with a
/// row feed behind it.
pub const ROW_RETURN: char = '\u{13}';

/// The character that ends a line and leads to the next plane.
pub const PLANE_FEED: char = '\u{12}';

/// What a line of a program holds: its cells, and what ends it.
pub struct LineView {
    pub data: Seq<Codepoint>,
    pub terminator: LineTerminator,
}

impl View for CodeBufferLine {
    type V = LineView;

    open spec fn view(&self) -> LineView {
        LineView { data: self.data@, terminator: self.terminator }
    }
}

/// The lines of `lines`, each as what it holds.
pub open spec fn line_views(lines: Seq<CodeBufferLine>) -> Seq<LineView> {
    Seq::new(lines.len(), |i: int| lines[i]@)
}

/// Whether `c` ends a line.
pub open spec fn is_line_end(c: char) -> bool {
    c == ROW_FEED || c == ROW_RETURN || c == PLANE_FEED
}

/// Where the line that starts at `from` ends: at the first character at or
/// behind `from` that ends a line, or at the end of the text.
pub open spec fn line_end(text: Seq<char>, from: int) -> int
    decreases text.len() - from,
{
    if from < 0 || from >= text.len() || is_line_end(text[from]) {
        from
    } else {
        line_end(text, from + 1)
    }
}

/// What ends the line that ends at `end`.
pub open spec fn terminator_at(text: Seq<char>, end: int) -> LineTerminator {
    if end >= text.len() {
        LineTerminator::End
    } else if text[end] == PLANE_FEED {
        LineTerminator::FeedZ
    } else {
        LineTerminator::FeedY
    }
}

/// Where the next line starts behind the line that ends at `end`: behind the
/// character that ends the line, and behind the row feed that follows a row
/// return.
pub open spec fn next_line_start(text: Seq<char>, end: int) -> int {
    if end >= text.len() {
        text.len() as int
    } else if text[end] == ROW_RETURN && end + 1 < text.len() && text[end + 1] == ROW_FEED {
        end + 2
    } else {
        end + 1
    }
}

/// The lines of the text from `from` on. Each character becomes a cell with
/// its code point, but for the characters that end a line. There is always a
/// line, and no line starts at the end of the text but the first.
pub open spec fn decoded_lines(text: Seq<char>, from: int) -> Seq<LineView>
    decreases text.len() - from,
{
    let end = line_end(text, from);
    let line = LineView {
        data: Seq::new((end - from) as nat, |i: int| text[from + i] as u32),
        terminator: terminator_at(text, end),
    };
    let next = next_line_start(text, end);
    if from < 0 || next >= text.len() || next <= from {
        seq![line]
    } else {
        seq![line] + decoded_lines(text, next)
    }
}

/// The length of the longest of `lines`.
pub open spec fn widest(lines: Seq<LineView>) -> nat
    decreases lines.len(),
{
    if lines.len() == 0 {
        0
    } else if lines.last().data.len() > widest(lines.drop_last()) {
        lines.last().data.len()
    } else {
        widest(lines.drop_last())
    }
}

/// The number of those of `lines` that end with `terminator`.
pub open spec fn count_ends(lines: Seq<LineView>, terminator: LineTerminator) -> nat
    decreases lines.len(),
{
    if lines.len() == 0 {
        0
    } else {
        count_ends(lines.drop_last(), terminator) + if lines.last().terminator == terminator {
            1nat
        } else {
            0nat
        }
    }
}

/// The extent of a program: the length of its longest line, and one more
/// than the number of its lines that lead to a next row or a next plane, the
/// last line left aside. No extent is less than one.
pub open spec fn extent(lines: Seq<LineView>) -> (nat, nat, nat) {
    (
        if widest(lines) > 1 {
            widest(lines)
        } else {
            1
        },
        1 + count_ends(lines.drop_last(), LineTerminator::FeedY),
        1 + count_ends(lines.drop_last(), LineTerminator::FeedZ),
    )
}

/// Loads funge source code from text into a code buffer.
pub struct CodeLoader {
}

impl CodeLoader {
    /// A loader.
    pub fn new() -> Self {
        return CodeLoader {  };
    }

    /// The characters of `text`, one by one.
    fn characters(text: &str) -> (chars: Vec<char>)
        ensures
            chars@ == text@,
    {
        let mut chars: Vec<char> = Vec::new();
        for c in it: text.chars()
            invariant
                it.seq() == text@,
                chars@ == text@.take(it.index() as int),
        {
            chars.push(c);
            assert(chars@ =~= text@.take(it.index() + 1));
        }
        assert(chars@ =~= text@);
        chars
    }

    /// Reads the line that starts at `from`, and tells where it ends.
    fn read_line(chars: &Vec<char>, from: usize) -> (read: (CodeBufferLine, usize))
        requires
            from <= chars@.len(),
        ensures
            read.1 == line_end(chars@, from as int),
            from <= read.1 <= chars@.len(),
            read.0@ == (LineView {
                data: Seq::new((read.1 - from) as nat, |i: int| chars@[from + i] as u32),
                terminator: terminator_at(chars@, read.1 as int),
            }),
    {
        // Allocate new line
        let mut current_line = CodeBufferLine::new(32);
        let n = chars.len();
        let mut end = from;
        // Fill line
        while end < n && chars[end] != ROW_FEED && chars[end] != ROW_RETURN && chars[end]
            != PLANE_FEED
            invariant
                from <= end <= n,
                n == chars@.len(),
                line_end(chars@, from as int) == line_end(chars@, end as int),
                current_line.data@ == Seq::new(
                    (end - from) as nat,
                    |i: int| chars@[from + i] as u32,
                ),
            decreases n - end,
        {
            // Put char into line
            current_line.data.push(chars[end] as u32);
            end = end + 1;
            assert(current_line.data@ =~= Seq::new(
                (end - from) as nat,
                |i: int| chars@[from + i] as u32,
            ));
        }
        // Set terminator: if the line ends without a line terminator
        // then it's just gonna be End, indicating EOL.
        current_line.terminator = if end >= n {
            LineTerminator::End
        } else if chars[end] == PLANE_FEED {
            LineTerminator::FeedZ
        } else {
            LineTerminator::FeedY
        };
        (current_line, end)
    }

    /// Tries to load funge* source code from the given text.
    ///
    /// The resulting code buffer holds the lines of the text, without the
    /// row feeds, row returns and plane feeds that end them.
    pub fn load_from_string(&mut self, contents: &str) -> (buffer: CodeBuffer)
        requires
            contents@.len() < u32::MAX,
        ensures
            line_views(buffer.lines@) == decoded_lines(contents@, 0),
            buffer.bounding_box@.0 == extent(decoded_lines(contents@, 0)).0,
            buffer.bounding_box@.1 == extent(decoded_lines(contents@, 0)).1,
            buffer.bounding_box@.2 == extent(decoded_lines(contents@, 0)).2,
            buffer.dimensionality == 0,
    {
        let chars = Self::characters(contents);
        let n = chars.len();
        let ghost text = chars@;

        // Allocate line buffer
        let mut line_buffer = Vec::<CodeBufferLine>::with_capacity(64);

        let mut box_x: u32 = 1;
        let mut box_y: u32 = 1;
        let mut box_z: u32 = 1;

        // Consume data
        let mut pos: usize = 0;
        assert(line_views(line_buffer@) + decoded_lines(text, 0) =~= decoded_lines(text, 0));
        loop
            invariant_except_break
                pos <= n,
                decoded_lines(text, 0) == line_views(line_buffer@) + decoded_lines(
                    text,
                    pos as int,
                ),
                box_y == 1 + count_ends(line_views(line_buffer@), LineTerminator::FeedY),
                box_z == 1 + count_ends(line_views(line_buffer@), LineTerminator::FeedZ),
                box_y + box_z <= 2 + pos,
            invariant
                n == text.len(),
                n < u32::MAX,
                text == chars@,
                text == contents@,
                box_x == (if widest(line_views(line_buffer@)) > 1 {
                    widest(line_views(line_buffer@))
                } else {
                    1
                }),
                widest(line_views(line_buffer@)) <= n,
            ensures
                line_views(line_buffer@) == decoded_lines(text, 0),
                line_buffer@.len() > 0,
                box_y == 1 + count_ends(line_views(line_buffer@).drop_last(), LineTerminator::FeedY),
                box_z == 1 + count_ends(line_views(line_buffer@).drop_last(), LineTerminator::FeedZ),
            decreases n - pos,
        {
            let ghost earlier = line_views(line_buffer@);
            let (current_line, end) = Self::read_line(&chars, pos);
            let ghost line = current_line@;

            // Check if next char is line feed to make it a carriage return, line feed combo
            let next = if end >= n {
                n
            } else if chars[end] == ROW_RETURN && end + 1 < n && chars[end + 1] == ROW_FEED {
                end + 2
            } else {
                end + 1
            };

            // Update bounding box
            let width = current_line.data.len() as u32;
            if width > box_x {
                box_x = width;
            }
            // Put line into buffer

            let current_terminator = current_line.terminator;
            line_buffer.push(current_line);
            proof {
                assert(line_views(line_buffer@) =~= earlier.push(line));
                assert(line_views(line_buffer@).drop_last() =~= earlier);
            }

            // Check if we still have something left
            if next >= n {
                proof {
                    assert(decoded_lines(text, pos as int) =~= seq![line]);
                    assert(earlier + seq![line] =~= earlier.push(line));
                }
                break ;
            } else {
                // Increase bounding box (only if there's actually another line)
                match current_terminator {
                    LineTerminator::FeedY => {
                        box_y = box_y + 1;
                    },
                    LineTerminator::FeedZ => {
                        box_z = box_z + 1;
                    },
                    _ => {},
                }
                proof {
                    assert(decoded_lines(text, pos as int) =~= seq![line] + decoded_lines(
                        text,
                        next as int,
                    ));
                    assert(earlier + (seq![line] + decoded_lines(text, next as int))
                        =~= earlier.push(line) + decoded_lines(text, next as int));
                }
                pos = next;
            }
        }

        // Make code buffer instance
        let bounding_box = Vector3::<u32>::new_xyz(box_x, box_y, box_z);
        let code_buffer = CodeBuffer::new(line_buffer, bounding_box, 0);
        return code_buffer;
    }
}

/// What can be wrong with a program that was read.
pub enum CodeReadError {
    InvalidDimensions,
}

} // verus!
