use vstd::prelude::*;

verus! {

/// Unicode white space: the characters that count as blank around a command.
pub open spec fn blank(c: char) -> bool {
    let n = c as u32;
    ||| 0x09 <= n <= 0x0D
    ||| n == 0x20
    ||| n == 0x85
    ||| n == 0xA0
    ||| n == 0x1680
    ||| 0x2000 <= n <= 0x200A
    ||| n == 0x2028
    ||| n == 0x2029
    ||| n == 0x202F
    ||| n == 0x205F
    ||| n == 0x3000
}

/// A line asks to quit when it holds the single letter `q` and, around it,
/// nothing but white space.
pub open spec fn quit_requested(line: Seq<char>) -> bool {
    exists|i: int|
        0 <= i < line.len() && #[trigger] line[i] == 'q' && forall|j: int|
            0 <= j < line.len() && j != i ==> blank(#[trigger] line[j])
}

pub fn is_blank(c: char) -> (b: bool)
    ensures
        b == blank(c),
{
    let n: u32 = c as u32;
    (0x09 <= n && n <= 0x0D) || n == 0x20 || n == 0x85 || n == 0xA0 || n == 0x1680 || (0x2000 <= n
        && n <= 0x200A) || n == 0x2028 || n == 0x2029 || n == 0x202F || n == 0x205F || n == 0x3000
}

/// Whether a line typed at the console asks to quit.
pub fn is_quit_command(line: &str) -> (quit: bool)
    ensures
        quit == quit_requested(line@),
{
    let n: usize = line.unicode_len();
    let mut i: usize = 0;
    let mut found: bool = false;
    let ghost mut at: int = 0;
    while i < n
        invariant
            0 <= i <= n,
            n == line@.len(),
            found ==> 0 <= at < i && line@[at] == 'q' && forall|j: int|
                0 <= j < i && j != at ==> blank(#[trigger] line@[j]),
            !found ==> forall|j: int| 0 <= j < i ==> blank(#[trigger] line@[j]),
        decreases n - i,
    {
        let c: char = line.get_char(i);
        if is_blank(c) {
        } else if c == 'q' && !found {
            found = true;
            proof {
                at = i as int;
            }
        } else {
            proof {
                assert(!blank('q'));
                assert(!blank(line@[i as int]));
                if quit_requested(line@) {
                    let k = choose|k: int|
                        0 <= k < line@.len() && #[trigger] line@[k] == 'q' && forall|j: int|
                            0 <= j < line@.len() && j != k ==> blank(#[trigger] line@[j]);
                    if found {
                        assert(k == at) by {
                            if k != at {
                                assert(blank(line@[at]));
                            }
                        }
                    }
                    assert(k != i);
                    assert(blank(line@[i as int]));
                }
            }
            return false;
        }
        i = i + 1;
    }
    proof {
        assert(!blank('q'));
        if found {
            assert(line@[at] == 'q');
        } else if quit_requested(line@) {
            let k = choose|k: int|
                0 <= k < line@.len() && #[trigger] line@[k] == 'q' && forall|j: int|
                    0 <= j < line@.len() && j != k ==> blank(#[trigger] line@[j]);
            assert(blank(line@[k]));
        }
    }
    found
}

/// The two paths that the program is started with.
pub struct Invocation {
    /// The input device to read.
    pub device_path: String,
    /// The file that holds the table.
    pub mapping_path: String,
}

/// The program was started with too few or too many arguments.
#[derive(Clone, Copy, Debug, PartialEq, Eq, Structural)]
pub struct UsageError {
    /// How many arguments followed the program's name.
    pub given: usize,
}

impl UsageError {
    pub open spec fn text() -> Seq<char> {
        "Wrong number of arguments provided. Example usage: evdev-midi /dev/input/event1 mapping.json"@
    }

    pub fn message(&self) -> (s: &'static str)
        ensures
            s@ == UsageError::text(),
    {
        "Wrong number of arguments provided. Example usage: evdev-midi /dev/input/event1 mapping.json"
    }
}

/// Takes the command line, the program's name first. With exactly two
/// arguments after the name these are the device path and the mapping path,
/// in that order; any other count is a usage error.
pub fn parse_invocation(args: Vec<String>) -> (r: Result<Invocation, UsageError>)
    ensures
        args@.len() == 3 ==> (r matches Ok(inv) && inv.device_path == args@[1]
            && inv.mapping_path == args@[2]),
        args@.len() != 3 ==> (r matches Err(e) && e.given == if args@.len() == 0 {
            0
        } else {
            args@.len() - 1
        }),
{
    let mut rest = args;
    let count: usize = rest.len();
    if count == 3 {
        let mapping_path = rest.pop().unwrap();
        let device_path = rest.pop().unwrap();
        Ok(Invocation { device_path, mapping_path })
    } else if count == 0 {
        Err(UsageError { given: 0 })
    } else {
        Err(UsageError { given: count - 1 })
    }
}

} // verus!
