//! Plain values that cross the console: the lines the application writes and
//! what a keyboard poll can bring back.

use vstd::prelude::*;

verus! {

/// One of the three lines written on start-up, in the order they are written.
#[derive(Clone, Copy, Debug, PartialEq, Eq, Structural)]
pub enum Line {
    /// The greeting.
    Greeting,
    /// The empty line that sets the greeting apart.
    Blank,
    /// The line that tells the user how to go on.
    Instruction,
}

impl Line {
    /// The characters of the line, without its line terminator.
    pub open spec fn text_spec(self) -> Seq<char> {
        match self {
            Line::Greeting => "Hello, UEFI world!"@,
            Line::Blank => Seq::empty(),
            Line::Instruction => "press any key to continue"@,
        }
    }

    /// What is handed to the console for the line: its characters and one
    /// line feed.
    pub open spec fn terminated_spec(self) -> Seq<char> {
        self.text_spec().push('\n')
    }

    /// The line that is written after this one, if any.
    pub open spec fn successor_spec(self) -> Option<Line> {
        match self {
            Line::Greeting => Some(Line::Blank),
            Line::Blank => Some(Line::Instruction),
            Line::Instruction => None,
        }
    }

    /// Position of the line among the lines written on start-up.
    pub open spec fn index_spec(self) -> nat {
        match self {
            Line::Greeting => 0,
            Line::Blank => 1,
            Line::Instruction => 2,
        }
    }

    /// The characters of the line, without its line terminator.
    pub fn text(self) -> (s: &'static str)
        ensures
            s@ == self.text_spec(),
    {
        match self {
            Line::Greeting => "Hello, UEFI world!",
            Line::Blank => {
                proof {
                    reveal_strlit("");
                }
                assert(""@ =~= Seq::<char>::empty());
                ""
            },
            Line::Instruction => "press any key to continue",
        }
    }

    /// The string to hand to the console in one write: the line and its
    /// line feed.
    pub fn terminated(self) -> (s: &'static str)
        ensures
            s@ == self.terminated_spec(),
    {
        match self {
            Line::Greeting => {
                proof {
                    reveal_strlit("Hello, UEFI world!");
                    reveal_strlit("Hello, UEFI world!\n");
                }
                assert("Hello, UEFI world!\n"@ =~= "Hello, UEFI world!"@.push('\n'));
                "Hello, UEFI world!\n"
            },
            Line::Blank => {
                proof {
                    reveal_strlit("\n");
                }
                assert("\n"@ =~= Seq::<char>::empty().push('\n'));
                "\n"
            },
            Line::Instruction => {
                proof {
                    reveal_strlit("press any key to continue");
                    reveal_strlit("press any key to continue\n");
                }
                assert("press any key to continue\n"@ =~= "press any key to continue"@.push(
                    '\n',
                ));
                "press any key to continue\n"
            },
        }
    }

    /// The line that follows this one, or `None` after the last line.
    pub fn successor(self) -> (next: Option<Line>)
        ensures
            next == self.successor_spec(),
    {
        match self {
            Line::Greeting => Some(Line::Blank),
            Line::Blank => Some(Line::Instruction),
            Line::Instruction => None,
        }
    }
}

/// A key as the console reports it.
#[derive(Clone, Copy, Debug, PartialEq, Eq, Structural)]
pub enum Key {
    /// A key that stands for a character, given as its UCS-2 code unit.
    Printable(u16),
    /// A key without a character (arrows, function keys), given as its scan
    /// code.
    Special(u16),
}

/// Result of one non-blocking query of the keyboard.
#[derive(Clone, Copy, Debug, PartialEq, Eq, Structural)]
pub enum KeyPoll {
    /// A key was waiting in the buffer.
    Pressed(Key),
    /// The buffer was empty.
    Empty,
    /// The input device reported an error.
    Failed,
}

} // verus!
