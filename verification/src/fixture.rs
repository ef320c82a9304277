//! Test-case files of the detector's corpus: a few marked sections of text,
//! of which the input and the expected fingerprint are read.
//!
//! A file is read line by line. The lines `--TEST--`, `--INPUT--` and
//! `--EXPECTED--` open a section each. The input is the last line of an
//! input section; the expected fingerprint is what the lines of the expected
//! sections give when joined, without the white space around it. An empty
//! expectation says that the input is no injection.

use crate::text::{chars_of, string_of, trim, trimmed};
use vstd::prelude::*;

verus! {

/// One test case.
#[derive(Debug)]
pub struct Test {
    /// The name of the file that the case was read from.
    pub name: String,
    /// The text to put to the detector.
    pub input: String,
    /// The fingerprint that the detector is to give; empty where it is to
    /// find nothing.
    pub expected: String,
}

/// The section that a line of a test-case file stands in.
#[derive(Clone, Copy, Debug, PartialEq, Eq, Structural)]
pub enum Section {
    /// Before the first marker.
    Preamble,
    /// After `--TEST--`.
    Test,
    /// After `--INPUT--`.
    Input,
    /// After `--EXPECTED--`.
    Expected,
}

/// What has been read of a test-case file so far.
pub struct Reading {
    pub section: Section,
    pub input: Seq<char>,
    pub expected: Seq<char>,
}

/// The section that `line` opens, if it is a marker.
pub open spec fn marker(line: Seq<char>) -> Option<Section> {
    if line == "--TEST--"@ {
        Some(Section::Test)
    } else if line == "--INPUT--"@ {
        Some(Section::Input)
    } else if line == "--EXPECTED--"@ {
        Some(Section::Expected)
    } else {
        None
    }
}

/// The reading before the first line.
pub open spec fn blank() -> Reading {
    Reading { section: Section::Preamble, input: Seq::empty(), expected: Seq::empty() }
}

/// The reading after one more line.
pub open spec fn read_line(so_far: Reading, line: Seq<char>) -> Reading {
    match marker(line) {
        Some(section) => Reading { section, ..so_far },
        None => match so_far.section {
            Section::Input => Reading { input: line, ..so_far },
            Section::Expected => Reading { expected: so_far.expected + line, ..so_far },
            _ => so_far,
        },
    }
}

/// The reading after the lines `lines`, taken in order.
pub open spec fn read_lines(so_far: Reading, lines: Seq<Seq<char>>) -> Reading
    decreases lines.len(),
{
    if lines.len() == 0 {
        so_far
    } else {
        read_lines(read_line(so_far, lines.first()), lines.drop_first())
    }
}

/// The first index at or after `from` at which `text` has a line feed, or
/// the length of `text` where it has none there.
pub open spec fn line_end(text: Seq<char>, from: int) -> int
    decreases text.len() - from,
{
    if from < 0 || from >= text.len() || text[from] == '\n' {
        from
    } else {
        line_end(text, from + 1)
    }
}

/// The line of `text` that begins at `from`: what stands before the next
/// line feed, less a carriage return right before that line feed.
pub open spec fn line_at(text: Seq<char>, from: int) -> Seq<char> {
    let end = line_end(text, from);
    if from < end < text.len() && text[end - 1] == '\r' {
        text.subrange(from, end - 1)
    } else {
        text.subrange(from, end)
    }
}

/// The lines of `text` from index `from` on. A line feed ends a line; what
/// follows the last line feed is a line if it is not empty.
pub open spec fn lines_from(text: Seq<char>, from: int) -> Seq<Seq<char>>
    decreases text.len() - from,
{
    if from < 0 || from >= text.len() {
        Seq::empty()
    } else {
        let end = line_end(text, from);
        if from <= end < text.len() {
            seq![line_at(text, from)] + lines_from(text, end + 1)
        } else {
            seq![line_at(text, from)]
        }
    }
}

/// The lines of `text`.
pub open spec fn lines_of(text: Seq<char>) -> Seq<Seq<char>> {
    lines_from(text, 0)
}

/// The input that a test-case file with the text `content` holds.
pub open spec fn input_of(content: Seq<char>) -> Seq<char> {
    read_lines(blank(), lines_of(content)).input
}

/// The fingerprint that a test-case file with the text `content` expects.
pub open spec fn expected_of(content: Seq<char>) -> Seq<char> {
    trimmed(read_lines(blank(), lines_of(content)).expected)
}

/// `test` is the case that the file `name` with the text `content` holds.
pub open spec fn is_case_of(test: Test, name: Seq<char>, content: Seq<char>) -> bool {
    &&& test.name@ == name
    &&& test.input@ == input_of(content)
    &&& test.expected@ == expected_of(content)
}

/// Whether the characters of `chars` from `from` up to `to` are those of
/// `word`.
fn is_word(chars: &Vec<char>, from: usize, to: usize, word: &Vec<char>) -> (same: bool)
    requires
        from <= to <= chars@.len(),
    ensures
        same == (chars@.subrange(from as int, to as int) == word@),
{
    if to - from != word.len() {
        return false;
    }
    let mut i: usize = 0;
    while i < word.len()
        invariant
            from <= to <= chars@.len(),
            to - from == word@.len(),
            0 <= i <= word@.len(),
            forall|k: int| 0 <= k < i ==> chars@[from + k] == word@[k],
        decreases word@.len() - i,
    {
        if chars[from + i] != word[i] {
            assert(chars@.subrange(from as int, to as int)[i as int] != word@[i as int]);
            return false;
        }
        i += 1;
    }
    assert(chars@.subrange(from as int, to as int) =~= word@);
    true
}

/// The three markers, as characters.
struct Markers {
    test: Vec<char>,
    input: Vec<char>,
    expected: Vec<char>,
}

impl Markers {
    spec fn wf(&self) -> bool {
        &&& self.test@ == "--TEST--"@
        &&& self.input@ == "--INPUT--"@
        &&& self.expected@ == "--EXPECTED--"@
    }

    fn new() -> (markers: Markers)
        ensures
            markers.wf(),
    {
        Markers {
            test: chars_of("--TEST--"),
            input: chars_of("--INPUT--"),
            expected: chars_of("--EXPECTED--"),
        }
    }

    /// The section that the line from `from` up to `to` opens, if it is a
    /// marker.
    fn section_at(&self, chars: &Vec<char>, from: usize, to: usize) -> (opened: Option<Section>)
        requires
            self.wf(),
            from <= to <= chars@.len(),
        ensures
            opened == marker(chars@.subrange(from as int, to as int)),
    {
        if is_word(chars, from, to, &self.test) {
            Some(Section::Test)
        } else if is_word(chars, from, to, &self.input) {
            Some(Section::Input)
        } else if is_word(chars, from, to, &self.expected) {
            Some(Section::Expected)
        } else {
            None
        }
    }
}

/// Appends the characters of `chars` from `from` up to `to` to `onto`.
fn append_range(onto: &mut Vec<char>, chars: &Vec<char>, from: usize, to: usize)
    requires
        from <= to <= chars@.len(),
    ensures
        final(onto)@ == old(onto)@ + chars@.subrange(from as int, to as int),
{
    let mut i: usize = from;
    while i < to
        invariant
            from <= i <= to <= chars@.len(),
            onto@ == old(onto)@ + chars@.subrange(from as int, i as int),
        decreases to - i,
    {
        onto.push(chars[i]);
        i += 1;
        assert(onto@ =~= old(onto)@ + chars@.subrange(from as int, i as int));
    }
}

/// Reads the test case that the file `name` with the text `content` holds.
pub fn parse_fixture(name: &str, content: &str) -> (test: Test)
    ensures
        is_case_of(test, name@, content@),
{
    let chars = chars_of(content);
    let markers = Markers::new();
    let n = chars.len();
    let mut section = Section::Preamble;
    let mut input_from: usize = 0;
    let mut input_to: usize = 0;
    let mut expected: Vec<char> = Vec::new();
    let mut from: usize = 0;
    let ghost mut so_far = blank();
    proof {
        assert(chars@.subrange(0, 0) =~= Seq::<char>::empty());
    }
    while from < n
        invariant
            n == chars@.len(),
            markers.wf(),
            0 <= from <= n,
            input_from <= input_to <= n,
            so_far.section == section,
            so_far.input == chars@.subrange(input_from as int, input_to as int),
            so_far.expected == expected@,
            read_lines(blank(), lines_of(chars@)) == read_lines(
                so_far,
                lines_from(chars@, from as int),
            ),
        decreases n - from,
    {
        let mut end: usize = from;
        while end < n && chars[end] != '\n'
            invariant
                n == chars@.len(),
                from <= end <= n,
                line_end(chars@, from as int) == line_end(chars@, end as int),
            decreases n - end,
        {
            end += 1;
        }
        let stop: usize = if from < end && end < n && chars[end - 1] == '\r' {
            end - 1
        } else {
            end
        };
        let ghost line = chars@.subrange(from as int, stop as int);
        assert(line == line_at(chars@, from as int));
        let ghost rest = if end < n {
            lines_from(chars@, end + 1)
        } else {
            Seq::<Seq<char>>::empty()
        };
        proof {
            let lines = lines_from(chars@, from as int);
            assert(lines == seq![line] + rest);
            assert(lines.first() == line);
            assert(lines.drop_first() =~= rest);
            if end >= n {
                assert(lines_from(chars@, n as int) =~= rest);
            }
        }
        match markers.section_at(&chars, from, stop) {
            Some(opened) => {
                section = opened;
            },
            None => {
                match section {
                    Section::Input => {
                        input_from = from;
                        input_to = stop;
                    },
                    Section::Expected => {
                        append_range(&mut expected, &chars, from, stop);
                    },
                    _ => {},
                }
            },
        }
        proof {
            so_far = read_line(so_far, line);
        }
        from = if end < n {
            end + 1
        } else {
            n
        };
    }
    Test {
        name: name.to_owned(),
        input: string_of(&chars, input_from, input_to),
        expected: trim(&expected),
    }
}

/// Reads one test case from each file of `files`, a file being its name and
/// its text. The cases come in the order of the files.
pub fn get_sqli_tests(files: &Vec<(String, String)>) -> (tests: Vec<Test>)
    ensures
        tests@.len() == files@.len(),
        forall|i: int|
            0 <= i < files@.len() ==> is_case_of(#[trigger] tests@[i], files@[i].0@, files@[i].1@),
{
    let mut tests: Vec<Test> = Vec::new();
    let mut i: usize = 0;
    while i < files.len()
        invariant
            0 <= i <= files@.len(),
            tests@.len() == i,
            forall|k: int|
                0 <= k < i ==> is_case_of(#[trigger] tests@[k], files@[k].0@, files@[k].1@),
        decreases files@.len() - i,
    {
        let test = parse_fixture(files[i].0.as_str(), files[i].1.as_str());
        tests.push(test);
        i += 1;
    }
    tests
}

} // verus!
