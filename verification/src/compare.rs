use vstd::prelude::*;

verus! {

/// Comparison operators understood by the native compiler.
///
/// The native side identifies each operator by a 32-bit code, given by
/// [`scmp_compare::code`]: the seven defined operators carry the codes 1
/// through 7, and the two border variants are reserved sentinels with the
/// codes 0 and 8.
#[derive(Copy, Clone, PartialEq, Eq, Structural, Debug)]
pub enum scmp_compare {
    _SCMP_CMP_MIN,
    SCMP_CMP_NE,
    SCMP_CMP_LT,
    SCMP_CMP_LE,
    SCMP_CMP_EQ,
    SCMP_CMP_GE,
    SCMP_CMP_GT,
    SCMP_CMP_MASKED_EQ,
    _SCMP_CMP_MAX,
}

impl scmp_compare {
    /// The 32-bit operator code the native compiler expects.
    pub open spec fn spec_code(&self) -> u32 {
        match self {
            scmp_compare::_SCMP_CMP_MIN => 0,
            scmp_compare::SCMP_CMP_NE => 1,
            scmp_compare::SCMP_CMP_LT => 2,
            scmp_compare::SCMP_CMP_LE => 3,
            scmp_compare::SCMP_CMP_EQ => 4,
            scmp_compare::SCMP_CMP_GE => 5,
            scmp_compare::SCMP_CMP_GT => 6,
            scmp_compare::SCMP_CMP_MASKED_EQ => 7,
            scmp_compare::_SCMP_CMP_MAX => 8,
        }
    }

    /// The 32-bit operator code the native compiler expects.
    #[verifier::when_used_as_spec(spec_code)]
    pub fn code(&self) -> (code: u32)
        ensures
            code == self.spec_code(),
    {
        match self {
            scmp_compare::_SCMP_CMP_MIN => 0,
            scmp_compare::SCMP_CMP_NE => 1,
            scmp_compare::SCMP_CMP_LT => 2,
            scmp_compare::SCMP_CMP_LE => 3,
            scmp_compare::SCMP_CMP_EQ => 4,
            scmp_compare::SCMP_CMP_GE => 5,
            scmp_compare::SCMP_CMP_GT => 6,
            scmp_compare::SCMP_CMP_MASKED_EQ => 7,
            scmp_compare::_SCMP_CMP_MAX => 8,
        }
    }
}

/// The operators a caller picks from when building a single-datum
/// comparator with [`Compare::new`].
///
/// These are the defined operators less masked-equality, which needs two
/// data and has its own constructor, [`Compare::new_masked_eq`].
#[derive(Copy, Clone, PartialEq, Eq, Structural, Debug)]
pub enum Op {
    OpNe,
    OpLt,
    OpLe,
    OpEq,
    OpGe,
    OpGt,
}

impl Op {
    /// The native operator this one stands for.
    pub open spec fn spec_compare(&self) -> scmp_compare {
        match self {
            Op::OpNe => scmp_compare::SCMP_CMP_NE,
            Op::OpLt => scmp_compare::SCMP_CMP_LT,
            Op::OpLe => scmp_compare::SCMP_CMP_LE,
            Op::OpEq => scmp_compare::SCMP_CMP_EQ,
            Op::OpGe => scmp_compare::SCMP_CMP_GE,
            Op::OpGt => scmp_compare::SCMP_CMP_GT,
        }
    }

    /// The native operator this one stands for.
    #[verifier::when_used_as_spec(spec_compare)]
    pub fn compare(&self) -> (cmp: scmp_compare)
        ensures
            cmp == self.spec_compare(),
    {
        match self {
            Op::OpNe => scmp_compare::SCMP_CMP_NE,
            Op::OpLt => scmp_compare::SCMP_CMP_LT,
            Op::OpLe => scmp_compare::SCMP_CMP_LE,
            Op::OpEq => scmp_compare::SCMP_CMP_EQ,
            Op::OpGe => scmp_compare::SCMP_CMP_GE,
            Op::OpGt => scmp_compare::SCMP_CMP_GT,
        }
    }
}

/// One relational test against a single argument slot of a syscall
/// invocation.
///
/// The native compiler reads a rule's comparators as a contiguous array of
/// four-field records in exactly this order: argument index, operator
/// code, primary datum, secondary datum.  For every operator but
/// masked-equality the secondary datum is unused and held at zero; for
/// masked-equality the primary datum is the mask and the secondary datum
/// is the value expected after masking.
#[derive(Copy, Clone, PartialEq, Eq, Structural, Debug)]
pub struct Compare {
    /// 0-based index of the argument slot under test.
    pub arg: u32,
    /// The relational operator.
    pub op: scmp_compare,
    /// Primary datum: the comparison value, or the mask for masked-equality.
    pub datum_a: u64,
    /// Secondary datum: zero, or the expected value for masked-equality.
    pub datum_b: u64,
}

impl Compare {
    /// A single-datum test: argument `arg` related to `x` by `op`.
    pub fn new(arg: u32, op: Op, x: u64) -> (c: Compare)
        ensures
            c.arg == arg,
            c.op == op.compare(),
            c.datum_a == x,
            c.datum_b == 0,
    {
        Compare { arg, op: op.compare(), datum_a: x, datum_b: 0 }
    }

    /// A masked-equality test: argument `arg` masked with `mask` must
    /// equal `x`.
    pub fn new_masked_eq(arg: u32, mask: u64, x: u64) -> (c: Compare)
        ensures
            c.arg == arg,
            c.op == scmp_compare::SCMP_CMP_MASKED_EQ,
            c.datum_a == mask,
            c.datum_b == x,
    {
        Compare { arg, op: scmp_compare::SCMP_CMP_MASKED_EQ, datum_a: mask, datum_b: x }
    }
}

} // verus!
