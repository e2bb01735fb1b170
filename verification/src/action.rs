use vstd::prelude::*;

verus! {

/// Disposition applied when a rule matches or, for the filter's default,
/// when no rule matches.
///
/// The native compiler reads a disposition as one 32-bit flag: the high 16
/// bits select the behaviour class, the low 16 bits carry the payload of
/// the trace and errno classes.  A value of this type holds exactly one of
/// the encodings the five constructors below produce.
#[derive(Copy, Clone, Debug)]
pub struct Action {
    flag: u32,
}

impl Action {
    /// The 32-bit flag in the native compiler's encoding.
    pub closed spec fn spec_flag(&self) -> u32 {
        self.flag
    }

    /// The 32-bit flag in the native compiler's encoding.
    #[verifier::when_used_as_spec(spec_flag)]
    pub fn flag(&self) -> (flag: u32)
        ensures
            flag == self.spec_flag(),
    {
        self.flag
    }
}

/// Kill the process.
pub fn act_kill() -> (action: Action)
    ensures
        action.flag() == 0x00000000u32,
{
    Action { flag: 0x00000000 }
}

/// Throw a SIGSYS signal at the calling thread.
pub fn act_trap() -> (action: Action)
    ensures
        action.flag() == 0x00030000u32,
{
    Action { flag: 0x00030000 }
}

/// Allow the system call to be executed.
pub fn act_allow() -> (action: Action)
    ensures
        action.flag() == 0x7fff0000u32,
{
    Action { flag: 0x7fff0000 }
}

/// Notify a tracing process with the specified value.
///
/// The message number sits unsigned in the low 16 bits of the flag.
pub fn act_trace(msg_num: u16) -> (action: Action)
    ensures
        action.flag() == (0x7ff00000u32 | msg_num as u32),
        action.flag() == 0x7ff00000u32 + msg_num,
{
    let m: u32 = msg_num as u32;
    proof {
        assert((m & 0x0000ffffu32) == m && (0x7ff00000u32 | m) == 0x7ff00000u32 + m)
            by (bit_vector)
            requires
                m <= 0xffffu32,
        ;
    }
    Action { flag: 0x7ff00000 | (m & 0x0000ffff) }
}

/// Return the specified error code to the caller in place of running the call.
///
/// The errno sits unsigned in the low 16 bits of the flag.
pub fn act_errno(errno: u16) -> (action: Action)
    ensures
        action.flag() == (0x00050000u32 | errno as u32),
        action.flag() == 0x00050000u32 + errno,
{
    let e: u32 = errno as u32;
    proof {
        assert((e & 0x0000ffffu32) == e && (0x00050000u32 | e) == 0x00050000u32 + e)
            by (bit_vector)
            requires
                e <= 0xffffu32,
        ;
    }
    Action { flag: 0x00050000 | (e & 0x0000ffff) }
}

} // verus!
