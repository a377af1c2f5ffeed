//! The directory that the photos are kept in.

use vstd::prelude::*;
use vstd::string::*;

use crate::text::chars_of;

verus! {

/// Whether a file name has the extension `jpg`: it ends in `.jpg` and does not begin there.
pub open spec fn is_jpg(name: Seq<char>) -> bool {
    name.len() > 4 && name.skip(name.len() - 4) == seq!['.', 'j', 'p', 'g']
}

/// How many of the file names have the extension `jpg`.
pub open spec fn jpg_count(names: Seq<Seq<char>>) -> nat
    decreases names.len(),
{
    if names.len() == 0 {
        0
    } else {
        jpg_count(names.drop_last()) + (if is_jpg(names.last()) {
            1nat
        } else {
            0
        })
    }
}

fn has_jpg_extension(name: &str) -> (r: bool)
    ensures
        r == is_jpg(name@),
{
    let c = chars_of(name);
    let n: usize = c.len();
    if n <= 4 {
        return false;
    }
    let r = c[n - 4] == '.' && c[n - 3] == 'j' && c[n - 2] == 'p' && c[n - 1] == 'g';
    proof {
        let tail = name@.skip(n - 4);
        assert(tail[0] == c@[n - 4] && tail[1] == c@[n - 3] && tail[2] == c@[n - 2] && tail[3]
            == c@[n - 1]);
        if r {
            assert(tail =~= seq!['.', 'j', 'p', 'g']);
        }
    }
    r
}

/// The names of files, as character sequences.
pub open spec fn names_view(names: Seq<String>) -> Seq<Seq<char>> {
    names.map_values(|n: String| n@)
}

/// How many photos a directory with these file names holds, counted in 32 bits.
pub fn count_jpgs(names: &Vec<String>) -> (r: u32)
    ensures
        r == jpg_count(names_view(names@)) % 0x1_0000_0000,
{
    let ghost all = names_view(names@);
    let mut n: u64 = 0;
    let mut i: usize = 0;
    while i < names.len()
        invariant
            all == names_view(names@),
            i <= names.len(),
            n == jpg_count(all.take(i as int)),
            n <= i,
        decreases names.len() - i,
    {
        proof {
            assert(all.take(i + 1).drop_last() =~= all.take(i as int));
            assert(all.take(i + 1).last() == names[i as int]@);
        }
        if has_jpg_extension(names[i].as_str()) {
            n = n + 1;
        }
        i = i + 1;
    }
    proof {
        assert(all.take(i as int) =~= all);
        assert(n as u32 == n % 0x1_0000_0000) by (bit_vector);
    }
    n as u32
}

/// Why the directory cannot be used.
#[derive(Clone, Copy, Debug, PartialEq, Eq, Structural)]
pub enum DirFault {
    CannotCreate,
    NotADirectory,
    NotWritable,
}

/// What the check of the directory does next, or how it ended.
#[derive(Clone, Copy, Debug, PartialEq, Eq, Structural)]
pub enum DirCheck {
    /// See whether the path exists.
    Exists,
    /// Create the directory with its parents.
    Create,
    /// See whether the path is a directory.
    IsDir,
    /// Write the file that shows that the directory can be written to.
    Write,
    /// Remove that file.
    Remove,
    /// The directory can be used.
    Passed,
    /// The directory cannot be used.
    Failed(DirFault),
}

impl DirCheck {
    /// What follows a step that went well, or did not.
    pub open spec fn after(self, ok: bool) -> DirCheck {
        match self {
            DirCheck::Exists => if ok {
                DirCheck::IsDir
            } else {
                DirCheck::Create
            },
            DirCheck::Create => if ok {
                DirCheck::IsDir
            } else {
                DirCheck::Failed(DirFault::CannotCreate)
            },
            DirCheck::IsDir => if ok {
                DirCheck::Write
            } else {
                DirCheck::Failed(DirFault::NotADirectory)
            },
            DirCheck::Write => if ok {
                DirCheck::Remove
            } else {
                DirCheck::Failed(DirFault::NotWritable)
            },
            DirCheck::Remove => DirCheck::Passed,
            DirCheck::Passed => DirCheck::Passed,
            DirCheck::Failed(f) => DirCheck::Failed(f),
        }
    }

    /// What follows a step that went well, or did not.
    pub fn next(self, ok: bool) -> (r: DirCheck)
        ensures
            r == self.after(ok),
    {
        match self {
            DirCheck::Exists => if ok {
                DirCheck::IsDir
            } else {
                DirCheck::Create
            },
            DirCheck::Create => if ok {
                DirCheck::IsDir
            } else {
                DirCheck::Failed(DirFault::CannotCreate)
            },
            DirCheck::IsDir => if ok {
                DirCheck::Write
            } else {
                DirCheck::Failed(DirFault::NotADirectory)
            },
            DirCheck::Write => if ok {
                DirCheck::Remove
            } else {
                DirCheck::Failed(DirFault::NotWritable)
            },
            DirCheck::Remove => DirCheck::Passed,
            DirCheck::Passed => DirCheck::Passed,
            DirCheck::Failed(f) => DirCheck::Failed(f),
        }
    }

    /// Where the check stands after a number of steps, each of which went well or did not.
    pub open spec fn after_all(self, answers: Seq<bool>) -> DirCheck
        decreases answers.len(),
    {
        if answers.len() == 0 {
            self
        } else {
            self.after_all(answers.drop_last()).after(answers.last())
        }
    }
}

impl DirFault {
    /// What is said of the fault, in front of the path.
    pub open spec fn text(self) -> Seq<char> {
        match self {
            DirFault::CannotCreate => "Cannot create log_dir: "@,
            DirFault::NotADirectory => "log_dir is not a directory: "@,
            DirFault::NotWritable => "log_dir not writable: "@,
        }
    }

    /// The message about the directory `dir`.
    pub fn message(self, dir: &str) -> (r: String)
        ensures
            r@ == self.text() + dir@,
    {
        let mut t = match self {
            DirFault::CannotCreate => "Cannot create log_dir: ".to_owned(),
            DirFault::NotADirectory => "log_dir is not a directory: ".to_owned(),
            DirFault::NotWritable => "log_dir not writable: ".to_owned(),
        };
        t.append(dir);
        t
    }
}

/// The check of the directory ends after five steps at the latest, and it passes exactly if the
/// path existed or was created, is a directory, and could be written to.
pub proof fn law_check_decides(answers: Seq<bool>)
    requires
        answers.len() == 5,
    ensures
        DirCheck::Exists.after_all(answers) == (if answers[0] {
            if !answers[1] {
                DirCheck::Failed(DirFault::NotADirectory)
            } else if !answers[2] {
                DirCheck::Failed(DirFault::NotWritable)
            } else {
                DirCheck::Passed
            }
        } else {
            if !answers[1] {
                DirCheck::Failed(DirFault::CannotCreate)
            } else if !answers[2] {
                DirCheck::Failed(DirFault::NotADirectory)
            } else if !answers[3] {
                DirCheck::Failed(DirFault::NotWritable)
            } else {
                DirCheck::Passed
            }
        }),
{
    reveal_with_fuel(DirCheck::after_all, 6);
}

} // verus!
