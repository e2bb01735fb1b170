use vstd::prelude::*;

verus! {

use vstd::string::StrSliceExecFns;

use crate::filter::FilterError;

/// Hardware architectures the syscall tables cover.
///
/// Numeric syscall identifiers differ between architectures, and a number
/// hard-coded for the wrong one silently yields a wrong policy; every
/// lookup therefore names the architecture it is for.  Picking the
/// architecture that matches the running kernel is the embedding
/// program's concern.
#[derive(Copy, Clone, PartialEq, Eq, Structural, Debug)]
pub enum Arch {
    /// 32-bit x86.
    X86,
    /// 64-bit x86.
    X86_64,
}

/// The well-known syscalls a policy author is expected to reference by
/// name rather than by a magic number.
#[derive(Copy, Clone, PartialEq, Eq, Structural, Debug)]
pub enum Syscall {
    READ,
    WRITE,
    OPEN,
    CLOSE,
    EXIT,
    EXIT_GROUP,
    MUNMAP,
    MADVISE,
    FUTEX,
}

impl Syscall {
    /// The syscall's numeric identifier on `arch`.
    pub open spec fn spec_number(&self, arch: Arch) -> i32 {
        match arch {
            Arch::X86 => match self {
                Syscall::READ => 3,
                Syscall::WRITE => 4,
                Syscall::OPEN => 5,
                Syscall::CLOSE => 6,
                Syscall::EXIT => 1,
                Syscall::EXIT_GROUP => 252,
                Syscall::MUNMAP => 91,
                Syscall::MADVISE => 219,
                Syscall::FUTEX => 240,
            },
            Arch::X86_64 => match self {
                Syscall::READ => 0,
                Syscall::WRITE => 1,
                Syscall::OPEN => 2,
                Syscall::CLOSE => 3,
                Syscall::EXIT => 60,
                Syscall::EXIT_GROUP => 231,
                Syscall::MUNMAP => 11,
                Syscall::MADVISE => 28,
                Syscall::FUTEX => 202,
            },
        }
    }

    /// The syscall's numeric identifier on `arch`.
    #[verifier::when_used_as_spec(spec_number)]
    pub fn number(&self, arch: Arch) -> (id: i32)
        ensures
            id == self.spec_number(arch),
    {
        match arch {
            Arch::X86 => match self {
                Syscall::READ => 3,
                Syscall::WRITE => 4,
                Syscall::OPEN => 5,
                Syscall::CLOSE => 6,
                Syscall::EXIT => 1,
                Syscall::EXIT_GROUP => 252,
                Syscall::MUNMAP => 91,
                Syscall::MADVISE => 219,
                Syscall::FUTEX => 240,
            },
            Arch::X86_64 => match self {
                Syscall::READ => 0,
                Syscall::WRITE => 1,
                Syscall::OPEN => 2,
                Syscall::CLOSE => 3,
                Syscall::EXIT => 60,
                Syscall::EXIT_GROUP => 231,
                Syscall::MUNMAP => 11,
                Syscall::MADVISE => 28,
                Syscall::FUTEX => 202,
            },
        }
    }
}

/// The identifier `name` resolves to on `arch`, or absence when the name
/// is not in the table.
pub open spec fn spec_resolve_name(arch: Arch, name: Seq<char>) -> Option<i32> {
    if name == "read"@ {
        Some(Syscall::READ.spec_number(arch))
    } else if name == "write"@ {
        Some(Syscall::WRITE.spec_number(arch))
    } else if name == "open"@ {
        Some(Syscall::OPEN.spec_number(arch))
    } else if name == "close"@ {
        Some(Syscall::CLOSE.spec_number(arch))
    } else if name == "exit"@ {
        Some(Syscall::EXIT.spec_number(arch))
    } else if name == "exit_group"@ {
        Some(Syscall::EXIT_GROUP.spec_number(arch))
    } else if name == "munmap"@ {
        Some(Syscall::MUNMAP.spec_number(arch))
    } else if name == "madvise"@ {
        Some(Syscall::MADVISE.spec_number(arch))
    } else if name == "futex"@ {
        Some(Syscall::FUTEX.spec_number(arch))
    } else {
        None
    }
}

/// Character-for-character equality of two strings.
fn str_eq(a: &str, b: &str) -> (r: bool)
    ensures
        r == (a@ == b@),
{
    let a_len = a.unicode_len();
    let b_len = b.unicode_len();
    if a_len != b_len {
        return false;
    }
    let mut i: usize = 0;
    while i < a_len
        invariant
            a_len == a@.len(),
            b_len == b@.len(),
            a_len == b_len,
            i <= a_len,
            forall|j: int| 0 <= j < i ==> a@[j] == b@[j],
        decreases a_len - i,
    {
        if a.get_char(i) != b.get_char(i) {
            return false;
        }
        i += 1;
    }
    proof {
        assert(a@ =~= b@);
    }
    true
}

/// Resolves a symbolic syscall name against `arch`'s table.
///
/// An unknown name gives absence, never a crash, and the answer is always
/// a defined identifier: absence is distinguishable from a name that
/// legitimately resolves, since every identifier in the tables is
/// non-negative and the result is separate from any in-band sentinel.
pub fn syscall_resolve_name(arch: Arch, name: &str) -> (r: Option<i32>)
    ensures
        r == spec_resolve_name(arch, name@),
        r matches Some(id) ==> id >= 0,
{
    if str_eq(name, "read") {
        Some(Syscall::READ.number(arch))
    } else if str_eq(name, "write") {
        Some(Syscall::WRITE.number(arch))
    } else if str_eq(name, "open") {
        Some(Syscall::OPEN.number(arch))
    } else if str_eq(name, "close") {
        Some(Syscall::CLOSE.number(arch))
    } else if str_eq(name, "exit") {
        Some(Syscall::EXIT.number(arch))
    } else if str_eq(name, "exit_group") {
        Some(Syscall::EXIT_GROUP.number(arch))
    } else if str_eq(name, "munmap") {
        Some(Syscall::MUNMAP.number(arch))
    } else if str_eq(name, "madvise") {
        Some(Syscall::MADVISE.number(arch))
    } else if str_eq(name, "futex") {
        Some(Syscall::FUTEX.number(arch))
    } else {
        None
    }
}

/// Resolves a symbolic syscall name against `arch`'s table, reporting an
/// unknown name as the typed failure `NameNotFound`.
pub fn resolve_name(arch: Arch, name: &str) -> (r: Result<i32, FilterError>)
    ensures
        spec_resolve_name(arch, name@) matches Some(id) ==> r == Ok::<i32, FilterError>(id),
        spec_resolve_name(arch, name@) is None ==> r == Err::<i32, FilterError>(
            FilterError::NameNotFound,
        ),
{
    match syscall_resolve_name(arch, name) {
        Some(id) => Ok(id),
        None => Err(FilterError::NameNotFound),
    }
}

} // verus!
