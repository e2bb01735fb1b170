use seccomp::{act_allow, act_errno, act_kill, act_trace, act_trap, scmp_compare, Compare, Op};

#[test]
fn kill_trap_allow_flags() {
    assert_eq!(act_kill().flag(), 0x00000000);
    assert_eq!(act_trap().flag(), 0x00030000);
    assert_eq!(act_allow().flag(), 0x7fff0000);
}

#[test]
fn trace_flag_carries_message() {
    assert_eq!(act_trace(7).flag(), 0x7ff00007);
    assert_eq!(act_trace(0).flag(), 0x7ff00000);
    assert_eq!(act_trace(0xffff).flag(), 0x7ff0ffff);
}

#[test]
fn errno_flag_carries_code() {
    assert_eq!(act_errno(13).flag(), 0x0005000d);
    assert_eq!(act_errno(0).flag(), 0x00050000);
    assert_eq!(act_errno(0xffff).flag(), 0x0005ffff);
}

#[test]
fn compare_new_keeps_fields_verbatim() {
    let c = Compare::new(3, Op::OpLe, u64::MAX);
    assert_eq!(c.arg, 3);
    assert_eq!(c.op, scmp_compare::SCMP_CMP_LE);
    assert_eq!(c.datum_a, u64::MAX);
    assert_eq!(c.datum_b, 0);
}

#[test]
fn compare_masked_eq_keeps_fields_verbatim() {
    let c = Compare::new_masked_eq(5, 0xff00ff00ff00ff00, 0x1200340056007800);
    assert_eq!(c.arg, 5);
    assert_eq!(c.op, scmp_compare::SCMP_CMP_MASKED_EQ);
    assert_eq!(c.datum_a, 0xff00ff00ff00ff00);
    assert_eq!(c.datum_b, 0x1200340056007800);
}

#[test]
fn operator_codes_match_native_values() {
    assert_eq!(scmp_compare::_SCMP_CMP_MIN.code(), 0);
    assert_eq!(scmp_compare::SCMP_CMP_NE.code(), 1);
    assert_eq!(scmp_compare::SCMP_CMP_LT.code(), 2);
    assert_eq!(scmp_compare::SCMP_CMP_LE.code(), 3);
    assert_eq!(scmp_compare::SCMP_CMP_EQ.code(), 4);
    assert_eq!(scmp_compare::SCMP_CMP_GE.code(), 5);
    assert_eq!(scmp_compare::SCMP_CMP_GT.code(), 6);
    assert_eq!(scmp_compare::SCMP_CMP_MASKED_EQ.code(), 7);
    assert_eq!(scmp_compare::_SCMP_CMP_MAX.code(), 8);
}

#[test]
fn op_maps_onto_native_operators() {
    assert_eq!(Op::OpNe.compare(), scmp_compare::SCMP_CMP_NE);
    assert_eq!(Op::OpLt.compare(), scmp_compare::SCMP_CMP_LT);
    assert_eq!(Op::OpLe.compare(), scmp_compare::SCMP_CMP_LE);
    assert_eq!(Op::OpEq.compare(), scmp_compare::SCMP_CMP_EQ);
    assert_eq!(Op::OpGe.compare(), scmp_compare::SCMP_CMP_GE);
    assert_eq!(Op::OpGt.compare(), scmp_compare::SCMP_CMP_GT);
}
