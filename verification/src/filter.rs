use vstd::prelude::*;

verus! {

use vstd::slice::slice_to_vec;

use crate::action::Action;
use crate::compare::Compare;

/// Failures reported by the filter engine.
#[derive(Copy, Clone, PartialEq, Eq, Structural, Debug)]
pub enum FilterError {
    /// The native compiler refused to allocate, or to reseed, a context.
    AllocationFailed,
    /// A rule is invalid: a comparator's argument index is out of range,
    /// or the native compiler rejected the rule's combination of syscall,
    /// operator and arguments.
    RuleRejected,
    /// A rule's comparator count exceeds the native array-length type.
    CountOverflow,
    /// The native compiler refused to install the assembled policy.
    LoadRejected,
    /// A syscall name matched nothing in the architecture's table.
    NameNotFound,
    /// The operation is not valid in the filter's current state.
    InvalidState,
}

/// Lifecycle states of a [`Filter`].
#[derive(Copy, Clone, PartialEq, Eq, Structural, Debug)]
pub enum FilterState {
    /// The native context is live and rules are accumulating.
    Declarative,
    /// The policy has been installed in the kernel; irreversible for the
    /// life of the process.
    Installed,
    /// The native context has been handed back; terminal.
    Released,
}

/// Highest number of argument slots a syscall carries in the native ABI:
/// comparators may test the 0-based slots below this bound.
pub const MAX_SYSCALL_ARGS: u32 = 6;

/// The comparator count as the native 32-bit array-length type, or absence
/// when the count does not fit and the native layer must not be invoked.
pub fn comparator_count_to_native(count: usize) -> (r: Option<u32>)
    ensures
        count <= u32::MAX ==> r == Some(count as u32),
        count > u32::MAX ==> r is None,
{
    if count <= u32::MAX as usize {
        Some(count as u32)
    } else {
        None
    }
}

/// True when every comparator tests an argument slot the native ABI has.
pub open spec fn comparators_in_range(cs: Seq<Compare>) -> bool {
    forall|i: int| 0 <= i < cs.len() ==> cs[i].arg < MAX_SYSCALL_ARGS
}

/// Mathematical content of a [`Rule`].
#[verifier::ext_equal]
pub ghost struct RuleModel {
    /// Encoded flag of the action the rule applies.
    pub action_flag: u32,
    /// Numeric identifier of the syscall the rule is about.
    pub syscall: i32,
    /// The comparator array, in submission order.
    pub comparators: Seq<Compare>,
}

/// A validated, marshaled rule: exactly the values the native add-rule
/// call receives — action flag, syscall identifier, and a contiguous
/// comparator array whose length fits the native count type.
///
/// Only [`Filter::rule_add`] produces values of this type, so holding one
/// is evidence that validation has passed.
#[derive(Debug)]
pub struct Rule {
    action_flag: u32,
    syscall: i32,
    comparators: Vec<Compare>,
}

impl View for Rule {
    type V = RuleModel;

    closed spec fn view(&self) -> RuleModel {
        RuleModel {
            action_flag: self.action_flag,
            syscall: self.syscall,
            comparators: self.comparators@,
        }
    }
}

impl Rule {
    #[verifier::type_invariant]
    spec fn count_fits_native(self) -> bool {
        self.comparators@.len() <= u32::MAX
    }

    /// Encoded flag of the action the rule applies.
    pub fn action_flag(&self) -> (flag: u32)
        ensures
            flag == self@.action_flag,
    {
        self.action_flag
    }

    /// Numeric identifier of the syscall the rule is about.
    pub fn syscall(&self) -> (id: i32)
        ensures
            id == self@.syscall,
    {
        self.syscall
    }

    /// The comparator count, in the native array-length type.
    pub fn comparator_count(&self) -> (count: u32)
        ensures
            count == self@.comparators.len(),
    {
        proof {
            use_type_invariant(self);
        }
        self.comparators.len() as u32
    }

    /// The marshaled comparator array, in submission order.
    pub fn comparators(&self) -> (cs: &Vec<Compare>)
        ensures
            cs@ == self@.comparators,
    {
        &self.comparators
    }
}

/// Mathematical content of a [`Filter`].
#[verifier::ext_equal]
pub ghost struct FilterModel {
    /// Where the filter stands in its lifecycle.
    pub state: FilterState,
    /// Encoded flag of the default action.
    pub default_flag: u32,
    /// Every rule the native compiler has accepted, in submission order.
    pub rules: Seq<RuleModel>,
}

/// The filter engine: a default action, the lifecycle state of the native
/// context, and the rules the native compiler has accepted so far.
///
/// The native compiler is driven by the embedding program, not by this
/// type; each fallible native operation therefore comes in two verified
/// steps.  First a guard — [`Filter::rule_add`], [`Filter::load`],
/// [`Filter::reset`] — validates the operation and, for a rule, marshals
/// the values the native call takes; only when the guard succeeds may the
/// embedding program make the native call.  Then the matching commit —
/// [`Filter::rule_add_commit`], [`Filter::load_commit`],
/// [`Filter::reset_commit`] — takes the native status code and advances
/// the model.  A zero status is the native convention for success.
pub struct Filter {
    state: FilterState,
    default_flag: u32,
    rules: Vec<Rule>,
}

impl View for Filter {
    type V = FilterModel;

    closed spec fn view(&self) -> FilterModel {
        FilterModel {
            state: self.state,
            default_flag: self.default_flag,
            rules: self.rules@.map_values(|r: Rule| r@),
        }
    }
}

impl Filter {
    /// Where the filter stands in its lifecycle.
    pub fn state(&self) -> (s: FilterState)
        ensures
            s == self@.state,
    {
        self.state
    }

    /// Encoded flag of the filter's default action.
    pub fn default_flag(&self) -> (flag: u32)
        ensures
            flag == self@.default_flag,
    {
        self.default_flag
    }

    /// How many rules the native compiler has accepted.
    pub fn rule_count(&self) -> (count: usize)
        ensures
            count == self@.rules.len(),
    {
        self.rules.len()
    }

    /// The `index`-th accepted rule, in submission order.
    pub fn rule(&self, index: usize) -> (rule: &Rule)
        requires
            index < self@.rules.len(),
        ensures
            rule@ == self@.rules[index as int],
    {
        &self.rules[index]
    }

    /// Accounts for the native context allocation the embedding program
    /// has just attempted with `def_action`'s flag: a filter in the
    /// declarative state when a context came back, `AllocationFailed` when
    /// the native compiler returned none.
    pub fn new(def_action: &Action, context_allocated: bool) -> (r: Result<Filter, FilterError>)
        ensures
            context_allocated ==> (r matches Ok(f) && f@ == (FilterModel {
                state: FilterState::Declarative,
                default_flag: def_action.flag(),
                rules: Seq::empty(),
            })),
            !context_allocated ==> r == Err::<Filter, FilterError>(FilterError::AllocationFailed),
    {
        if context_allocated {
            let filter = Filter {
                state: FilterState::Declarative,
                default_flag: def_action.flag(),
                rules: Vec::new(),
            };
            proof {
                assert(filter@.rules =~= Seq::<RuleModel>::empty());
            }
            Ok(filter)
        } else {
            Err(FilterError::AllocationFailed)
        }
    }

    /// Validates a rule declaration and marshals it for the native
    /// compiler.
    ///
    /// Succeeds exactly when the filter is declarative, the comparator
    /// count fits the native count type, and every comparator tests an
    /// argument slot the ABI has; the returned [`Rule`] holds verbatim
    /// what the native add-rule call must receive.  No rule is recorded
    /// until [`Filter::rule_add_commit`] sees the native status.
    pub fn rule_add(&self, action: &Action, syscall: i32, comparators: &[Compare]) -> (r: Result<
        Rule,
        FilterError,
    >)
        ensures
            !(self@.state is Declarative) ==> r == Err::<Rule, FilterError>(
                FilterError::InvalidState,
            ),
            self@.state is Declarative && comparators@.len() > u32::MAX ==> r == Err::<
                Rule,
                FilterError,
            >(FilterError::CountOverflow),
            self@.state is Declarative && comparators@.len() <= u32::MAX
                && !comparators_in_range(comparators@) ==> r == Err::<Rule, FilterError>(
                FilterError::RuleRejected,
            ),
            self@.state is Declarative && comparators@.len() <= u32::MAX && comparators_in_range(
                comparators@,
            ) ==> (r matches Ok(rule) && rule@ == (RuleModel {
                action_flag: action.flag(),
                syscall: syscall,
                comparators: comparators@,
            })),
    {
        if self.state != FilterState::Declarative {
            return Err(FilterError::InvalidState);
        }
        if comparator_count_to_native(comparators.len()).is_none() {
            return Err(FilterError::CountOverflow);
        }
        let mut i: usize = 0;
        while i < comparators.len()
            invariant
                self@.state is Declarative,
                i <= comparators@.len(),
                comparators@.len() <= u32::MAX,
                forall|j: int| 0 <= j < i ==> comparators@[j].arg < MAX_SYSCALL_ARGS,
            decreases comparators@.len() - i,
        {
            if comparators[i].arg >= MAX_SYSCALL_ARGS {
                proof {
                    assert(!comparators_in_range(comparators@)) by {
                        assert(comparators@[i as int].arg >= MAX_SYSCALL_ARGS);
                    }
                }
                return Err(FilterError::RuleRejected);
            }
            i += 1;
        }
        Ok(Rule { action_flag: action.flag(), syscall, comparators: slice_to_vec(comparators) })
    }

    /// Records the native compiler's verdict on a marshaled rule: on a
    /// zero status the rule joins the filter's policy, on any other the
    /// policy is left as it was and the rule is reported rejected.
    pub fn rule_add_commit(&mut self, rule: Rule, status: i32) -> (r: Result<(), FilterError>)
        ensures
            !(old(self)@.state is Declarative) ==> r == Err::<(), FilterError>(
                FilterError::InvalidState,
            ) && final(self)@ == old(self)@,
            old(self)@.state is Declarative && status == 0 ==> r == Ok::<(), FilterError>(())
                && final(self)@ == (FilterModel { rules: old(self)@.rules.push(rule@), ..old(self)@ }),
            old(self)@.state is Declarative && status != 0 ==> r == Err::<(), FilterError>(
                FilterError::RuleRejected,
            ) && final(self)@ == old(self)@,
    {
        if self.state != FilterState::Declarative {
            return Err(FilterError::InvalidState);
        }
        if status == 0 {
            let ghost pre = self@;
            self.rules.push(rule);
            proof {
                assert(self@.rules =~= pre.rules.push(rule@));
                assert(self@ =~= (FilterModel { rules: pre.rules.push(rule@), ..pre }));
            }
            Ok(())
        } else {
            Err(FilterError::RuleRejected)
        }
    }

    /// The guard before installation: succeeds exactly when the filter is
    /// declarative, so that the embedding program may hand the context to
    /// the native compiler for installation and report the status to
    /// [`Filter::load_commit`].
    pub fn load(&self) -> (r: Result<(), FilterError>)
        ensures
            self@.state is Declarative ==> r == Ok::<(), FilterError>(()),
            !(self@.state is Declarative) ==> r == Err::<(), FilterError>(
                FilterError::InvalidState,
            ),
    {
        if self.state != FilterState::Declarative {
            return Err(FilterError::InvalidState);
        }
        Ok(())
    }

    /// Records the native compiler's verdict on installation: on a zero
    /// status the filter is installed, irreversibly for the process; on
    /// any other it stays declarative, the policy uninstalled, and may be
    /// corrected and retried.
    pub fn load_commit(&mut self, status: i32) -> (r: Result<(), FilterError>)
        ensures
            !(old(self)@.state is Declarative) ==> r == Err::<(), FilterError>(
                FilterError::InvalidState,
            ) && final(self)@ == old(self)@,
            old(self)@.state is Declarative && status == 0 ==> r == Ok::<(), FilterError>(())
                && final(self)@ == (FilterModel { state: FilterState::Installed, ..old(self)@ }),
            old(self)@.state is Declarative && status != 0 ==> r == Err::<(), FilterError>(
                FilterError::LoadRejected,
            ) && final(self)@ == old(self)@,
    {
        if self.state != FilterState::Declarative {
            return Err(FilterError::InvalidState);
        }
        if status == 0 {
            self.state = FilterState::Installed;
            Ok(())
        } else {
            Err(FilterError::LoadRejected)
        }
    }

    /// The guard before reseeding: succeeds exactly when the filter is
    /// declarative, so that the embedding program may ask the native
    /// compiler to reinitialize the context and report the status to
    /// [`Filter::reset_commit`].  Once installed, a filter can no longer
    /// be reset.
    pub fn reset(&self) -> (r: Result<(), FilterError>)
        ensures
            self@.state is Declarative ==> r == Ok::<(), FilterError>(()),
            !(self@.state is Declarative) ==> r == Err::<(), FilterError>(
                FilterError::InvalidState,
            ),
    {
        if self.state != FilterState::Declarative {
            return Err(FilterError::InvalidState);
        }
        Ok(())
    }

    /// Records the native compiler's verdict on reseeding the context
    /// with `def_action`: on a zero status every declared rule is
    /// discarded and the default action replaced, the filter staying
    /// declarative; on any other the filter is left as it was.
    pub fn reset_commit(&mut self, def_action: &Action, status: i32) -> (r: Result<
        (),
        FilterError,
    >)
        ensures
            !(old(self)@.state is Declarative) ==> r == Err::<(), FilterError>(
                FilterError::InvalidState,
            ) && final(self)@ == old(self)@,
            old(self)@.state is Declarative && status == 0 ==> r == Ok::<(), FilterError>(())
                && final(self)@ == (FilterModel {
                state: FilterState::Declarative,
                default_flag: def_action.flag(),
                rules: Seq::empty(),
            }),
            old(self)@.state is Declarative && status != 0 ==> r == Err::<(), FilterError>(
                FilterError::AllocationFailed,
            ) && final(self)@ == old(self)@,
    {
        if self.state != FilterState::Declarative {
            return Err(FilterError::InvalidState);
        }
        if status == 0 {
            self.default_flag = def_action.flag();
            self.rules = Vec::new();
            proof {
                assert(self@.rules =~= Seq::<RuleModel>::empty());
            }
            Ok(())
        } else {
            Err(FilterError::AllocationFailed)
        }
    }

    /// Retires the filter: the result says whether the embedding program
    /// must free the native context now.  The first call on a filter
    /// answers `true`, every later one `false`, so the context is freed
    /// exactly once however often release is attempted, and in whatever
    /// state the filter was.
    pub fn release(&mut self) -> (freed: bool)
        ensures
            freed == !(old(self)@.state is Released),
            final(self)@ == (FilterModel { state: FilterState::Released, ..old(self)@ }),
    {
        let live = self.state != FilterState::Released;
        self.state = FilterState::Released;
        live
    }
}

/// Law: however often a filter is released, the native context is freed
/// at most once, and the filter ends released.
///
/// The hypotheses are the contract of [`Filter::release`], applied to two
/// calls in sequence: `pre` is the model before the first call, `mid`
/// after it, `post` after the second, and the two booleans are the calls'
/// answers.  Whatever state the filter started in, the two answers are
/// never both true, the first one is true exactly when the filter had not
/// been released before, and the filter ends released.
pub proof fn lemma_release_frees_at_most_once(
    pre: FilterModel,
    mid: FilterModel,
    freed_first: bool,
    post: FilterModel,
    freed_second: bool,
)
    requires
        freed_first == !(pre.state is Released),
        mid == (FilterModel { state: FilterState::Released, ..pre }),
        freed_second == !(mid.state is Released),
        post == (FilterModel { state: FilterState::Released, ..mid }),
    ensures
        !(freed_first && freed_second),
        !freed_second,
        freed_first == !(pre.state is Released),
        post.state is Released,
{
}

} // verus!
