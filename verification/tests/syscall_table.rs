use seccomp::{resolve_name, syscall_resolve_name, Arch, FilterError, Syscall};

#[test]
fn write_resolves_on_both_architectures() {
    assert_eq!(syscall_resolve_name(Arch::X86_64, "write"), Some(1));
    assert_eq!(syscall_resolve_name(Arch::X86, "write"), Some(4));
}

#[test]
fn unknown_name_resolves_to_absence() {
    assert_eq!(syscall_resolve_name(Arch::X86_64, "not_a_real_syscall"), None);
    assert_eq!(syscall_resolve_name(Arch::X86, "not_a_real_syscall"), None);
    assert_eq!(syscall_resolve_name(Arch::X86_64, ""), None);
}

#[test]
fn resolve_name_reports_unknown_names_as_typed_failure() {
    assert_eq!(resolve_name(Arch::X86_64, "write"), Ok(1));
    assert_eq!(resolve_name(Arch::X86, "write"), Ok(4));
    assert_eq!(resolve_name(Arch::X86_64, "not_a_real_syscall"), Err(FilterError::NameNotFound));
}

#[test]
fn absence_is_distinct_from_any_sentinel_identifier() {
    // The table never answers with the native in-band error value.
    let r = syscall_resolve_name(Arch::X86_64, "write");
    assert_ne!(r, None);
    assert_ne!(r, Some(-1));
    assert!(r.unwrap() >= 0);
}

#[test]
fn x86_64_table_matches_named_constants() {
    let names = [
        ("read", Syscall::READ),
        ("write", Syscall::WRITE),
        ("open", Syscall::OPEN),
        ("close", Syscall::CLOSE),
        ("exit", Syscall::EXIT),
        ("exit_group", Syscall::EXIT_GROUP),
        ("munmap", Syscall::MUNMAP),
        ("madvise", Syscall::MADVISE),
        ("futex", Syscall::FUTEX),
    ];
    for (name, sc) in names {
        assert_eq!(syscall_resolve_name(Arch::X86_64, name), Some(sc.number(Arch::X86_64)));
        assert_eq!(syscall_resolve_name(Arch::X86, name), Some(sc.number(Arch::X86)));
    }
}

#[test]
fn well_known_x86_64_numbers() {
    assert_eq!(Syscall::READ.number(Arch::X86_64), 0);
    assert_eq!(Syscall::WRITE.number(Arch::X86_64), 1);
    assert_eq!(Syscall::OPEN.number(Arch::X86_64), 2);
    assert_eq!(Syscall::CLOSE.number(Arch::X86_64), 3);
    assert_eq!(Syscall::MUNMAP.number(Arch::X86_64), 11);
    assert_eq!(Syscall::MADVISE.number(Arch::X86_64), 28);
    assert_eq!(Syscall::EXIT.number(Arch::X86_64), 60);
    assert_eq!(Syscall::FUTEX.number(Arch::X86_64), 202);
    assert_eq!(Syscall::EXIT_GROUP.number(Arch::X86_64), 231);
}

#[test]
fn well_known_x86_numbers() {
    assert_eq!(Syscall::EXIT.number(Arch::X86), 1);
    assert_eq!(Syscall::READ.number(Arch::X86), 3);
    assert_eq!(Syscall::WRITE.number(Arch::X86), 4);
    assert_eq!(Syscall::OPEN.number(Arch::X86), 5);
    assert_eq!(Syscall::CLOSE.number(Arch::X86), 6);
    assert_eq!(Syscall::MUNMAP.number(Arch::X86), 91);
    assert_eq!(Syscall::MADVISE.number(Arch::X86), 219);
    assert_eq!(Syscall::FUTEX.number(Arch::X86), 240);
    assert_eq!(Syscall::EXIT_GROUP.number(Arch::X86), 252);
}
