//! The executable validator: whether a file may be handed out as a runnable
//! artifact.
//!
//! The validator judges what the file system reported of a path; it reads
//! nothing itself. A missing file is an answer, not a failure.

use vstd::prelude::*;

verus! {

/// What a path leads to, symbolic links followed.
#[derive(Debug, Clone, Copy, PartialEq, Eq, Structural)]
pub enum FileKind {
    Regular,
    Directory,
    /// A device, a socket, a pipe or anything else that is no file or directory.
    Special,
}

/// What the file system reports of an existing path.
#[derive(Debug)]
pub struct FileFacts {
    pub kind: FileKind,
    /// The permission bits, on platforms that have them.
    pub mode: Option<u32>,
    /// Whether the file belongs to the user that this process runs as.
    pub owned: bool,
    /// The first bytes of the content, as far as they were read.
    pub header: Vec<u8>,
}

/// The mathematical value of a [`FileFacts`].
pub struct FileFactsView {
    pub kind: FileKind,
    pub mode: Option<u32>,
    pub owned: bool,
    pub header: Seq<u8>,
}

impl View for FileFacts {
    type V = FileFactsView;

    open spec fn view(&self) -> FileFactsView {
        FileFactsView { kind: self.kind, mode: self.mode, owned: self.owned, header: self.header@ }
    }
}

impl DeepView for FileFacts {
    type V = FileFactsView;

    open spec fn deep_view(&self) -> FileFactsView {
        self@
    }
}

/// The validator's answer.
#[derive(Debug, Clone, Copy, PartialEq, Eq, Structural)]
pub enum Verdict {
    /// The file can be run as it is.
    Usable,
    /// The file can be run once its executable bit is set, which this process
    /// may do.
    NeedsExecBit,
    /// Nothing lies at the path.
    Missing,
    /// The path leads to something that is no regular file.
    NotRegular,
    /// The executable bit is not set, and the file is not ours to change.
    NotExecutable,
    /// The content does not begin as an executable does.
    BadHeader,
}

/// The permission bits that let the owner, the group or anyone execute a file.
pub const EXEC_BITS: u32 = 0o111;

/// Whether some executable bit is set in `mode`.
pub open spec fn has_exec_bit(mode: u32) -> bool {
    mode & EXEC_BITS != 0
}

/// Whether `h` begins with the four bytes `a b c d`.
pub open spec fn starts_with4(h: Seq<u8>, a: u8, b: u8, c: u8, d: u8) -> bool {
    h.len() >= 4 && h[0] == a && h[1] == b && h[2] == c && h[3] == d
}

/// Whether `h` begins as an executable does: with the magic number of ELF, or
/// of Mach-O in either width and byte order, or of a Mach-O universal binary.
pub open spec fn is_executable_header(h: Seq<u8>) -> bool {
    ||| starts_with4(h, 0x7f, 0x45, 0x4c, 0x46)
    ||| starts_with4(h, 0xfe, 0xed, 0xfa, 0xce)
    ||| starts_with4(h, 0xfe, 0xed, 0xfa, 0xcf)
    ||| starts_with4(h, 0xce, 0xfa, 0xed, 0xfe)
    ||| starts_with4(h, 0xcf, 0xfa, 0xed, 0xfe)
    ||| starts_with4(h, 0xca, 0xfe, 0xba, 0xbe)
}

/// The verdict on a path of which the file system reported `file`, or nothing.
/// The checks run in order and stop at the first that fails: there is a
/// regular file; it may be executed, or can be made so; and, where
/// `check_header` asks for it, its content begins as an executable does.
pub open spec fn verdict_of(file: Option<FileFactsView>, check_header: bool) -> Verdict {
    match file {
        None => Verdict::Missing,
        Some(f) => {
            if f.kind != FileKind::Regular {
                Verdict::NotRegular
            } else if f.mode is Some && !has_exec_bit(f.mode->0) && !f.owned {
                Verdict::NotExecutable
            } else if check_header && !is_executable_header(f.header) {
                Verdict::BadHeader
            } else if f.mode is Some && !has_exec_bit(f.mode->0) {
                Verdict::NeedsExecBit
            } else {
                Verdict::Usable
            }
        },
    }
}

/// Whether `header` begins with the magic number of a known executable format.
pub fn sniff_header(header: &Vec<u8>) -> (known: bool)
    ensures
        known == is_executable_header(header@),
{
    if header.len() < 4 {
        return false;
    }
    let a: u8 = header[0];
    let b: u8 = header[1];
    let c: u8 = header[2];
    let d: u8 = header[3];
    (a == 0x7f && b == 0x45 && c == 0x4c && d == 0x46) || (a == 0xfe && b == 0xed && c == 0xfa
        && d == 0xce) || (a == 0xfe && b == 0xed && c == 0xfa && d == 0xcf) || (a == 0xce && b
        == 0xfa && c == 0xed && d == 0xfe) || (a == 0xcf && b == 0xfa && c == 0xed && d == 0xfe)
        || (a == 0xca && b == 0xfe && c == 0xba && d == 0xbe)
}

/// Judges whether the file at a path can be handed out as a runnable
/// artifact, from what the file system reported of the path (`None`: nothing
/// is there).
pub fn looks_executable(file: &Option<FileFacts>, check_header: bool) -> (verdict: Verdict)
    ensures
        verdict == verdict_of(file.deep_view(), check_header),
{
    match file {
        None => Verdict::Missing,
        Some(f) => {
            let lacks_bit = match f.mode {
                Some(m) => m & EXEC_BITS == 0,
                None => false,
            };
            match f.kind {
                FileKind::Regular => {
                    if lacks_bit && !f.owned {
                        Verdict::NotExecutable
                    } else if check_header && !sniff_header(&f.header) {
                        Verdict::BadHeader
                    } else if lacks_bit {
                        Verdict::NeedsExecBit
                    } else {
                        Verdict::Usable
                    }
                },
                _ => Verdict::NotRegular,
            }
        },
    }
}

impl Verdict {
    /// Whether the file can be handed out, at once or after its executable
    /// bit was set.
    pub open spec fn accepts(self) -> bool {
        self == Verdict::Usable || self == Verdict::NeedsExecBit
    }
}

/// The validator accepts a file only if it is a regular file whose content,
/// where that was asked, begins as an executable does; and it accepts it as
/// it is only if the file may be executed.
pub proof fn law_accepted_is_regular(file: Option<FileFactsView>, check_header: bool)
    ensures
        verdict_of(file, check_header).accepts() ==> {
            &&& file is Some
            &&& file->0.kind == FileKind::Regular
            &&& check_header ==> is_executable_header(file->0.header)
        },
        verdict_of(file, check_header) == Verdict::Usable ==> (file->0.mode is Some
            ==> has_exec_bit(file->0.mode->0)),
        verdict_of(file, check_header) == Verdict::NeedsExecBit ==> file->0.owned,
{
}

} // verus!
