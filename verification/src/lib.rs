//! A verified front end for a kernel syscall-filtering policy compiler.
//!
//! The crate models the whole life of a filter policy: the encoding of
//! dispositions ([`Action`]), the per-argument tests of a rule
//! ([`Compare`]), the per-architecture syscall tables ([`Syscall`],
//! [`syscall_resolve_name`]), and the lifecycle of a filter context
//! ([`Filter`]): create, add rules, install, reset, release.
//!
//! The native policy compiler itself is an outside service reached through
//! raw calls that stay with the embedding program.  Every decision around
//! those calls is made here: each fallible native operation is split into a
//! verified step that validates and marshals the request, and a verified
//! step that takes the native status code and advances the filter's state.

#![allow(non_camel_case_types)]

mod action;
mod compare;
mod filter;
mod syscall;

pub use action::{act_allow, act_errno, act_kill, act_trace, act_trap, Action};
pub use compare::{scmp_compare, Compare, Op};
pub use filter::{
    comparator_count_to_native, comparators_in_range, lemma_release_frees_at_most_once, Filter,
    FilterError, FilterModel, FilterState, Rule, RuleModel, MAX_SYSCALL_ARGS,
};
pub use syscall::{resolve_name, spec_resolve_name, syscall_resolve_name, Arch, Syscall};
