//! The seccomp compiler that turns a worker's rules into a BPF program.

use crate::seccomp_rules::{ArgLen, Operator, SeccompRule};
use seccompiler::SeccompAction as Action;
use seccompiler::SeccompCmpArgLen as Len;
use seccompiler::SeccompCmpOp as Op;
use seccompiler::SeccompCondition as Condition;
use seccompiler::SeccompRule as Rule;
use seccompiler::{sock_filter, BackendError, BpfProgram, SeccompFilter};
use std::collections::BTreeMap;
#[allow(unused_imports)]
use vstd::prelude::*;

verus! {

/// What the kernel does with a system call.
#[derive(Clone, Copy, Debug, PartialEq, Eq, Structural)]
pub enum SeccompAction {
    /// Lets the call through.
    Allow,
    /// Fails the call with the given error number.
    Errno(u32),
    /// Kills the calling thread.
    KillThread,
    /// Kills the calling process.
    KillProcess,
    /// Lets the call through and logs it.
    Log,
    /// Hands the given number to the process that traces the caller.
    Trace(u32),
    /// Sends `SIGSYS` to the calling process.
    Trap,
}

/// One instruction of a BPF program.
#[derive(Clone, Copy, Debug, PartialEq, Eq, Structural)]
pub struct SockFilter {
    pub code: u16,
    pub jt: u8,
    pub jf: u8,
    pub k: u32,
}

/// `seccompiler::SeccompRule`: conditions on the arguments of a system call.
#[verifier::external_type_specification]
#[verifier::external_body]
pub struct ExSeccompRule(Rule);

/// `seccompiler::SeccompFilter`: a map from system call numbers to rules, with the actions and
/// the architecture that it was made for.
#[verifier::external_type_specification]
#[verifier::external_body]
pub struct ExSeccompFilter(SeccompFilter);

/// `seccompiler::BackendError`: why a filter cannot be made or compiled.
#[verifier::external_type_specification]
#[verifier::external_body]
pub struct ExBackendError(BackendError);

/// The condition that a rule holds, or `None` if it holds several.
pub uninterp spec fn rule_content(rule: Rule) -> Option<SeccompRule>;

/// The rules that a filter holds, by system call number, or `None` if one of them has several
/// conditions.
pub uninterp spec fn filter_rules(filter: SeccompFilter) -> Option<Map<i64, Seq<SeccompRule>>>;

/// What a filter was made with: the action for calls that match none of its rules, the action
/// for those that match one, and the name of the architecture.
pub uninterp spec fn filter_settings(filter: SeccompFilter) -> (
    SeccompAction,
    SeccompAction,
    Seq<char>,
);

/// The BPF program that a filter compiles to, or `None` if it would be longer than the kernel
/// takes.
pub uninterp spec fn bpf_program(
    rules: Map<i64, Seq<SeccompRule>>,
    settings: (SeccompAction, SeccompAction, Seq<char>),
) -> Option<Seq<SockFilter>>;

/// Whether every rule has one condition.
pub open spec fn are_single(chain: Seq<Rule>) -> bool {
    forall|i: int| 0 <= i < chain.len() ==> rule_content(#[trigger] chain[i]) is Some
}

/// The conditions of rules that have one each.
pub open spec fn contents(chain: Seq<Rule>) -> Seq<SeccompRule> {
    chain.map_values(|rule: Rule| rule_content(rule)->0)
}

/// The conditions of the rules that a map holds, by system call number.
pub open spec fn chains(rules: Map<i64, Vec<Rule>>) -> Map<i64, Seq<SeccompRule>> {
    rules.map_values(|chain: Vec<Rule>| contents(chain@))
}

/// Whether every system call number fits the 32 bits that a BPF program compares.
pub open spec fn numbers_fit(rules: Map<i64, Seq<SeccompRule>>) -> bool {
    forall|number: i64| #[trigger] rules.contains_key(number) ==> 0 <= number <= u32::MAX
}

/// Whether the program for these rules stays below the 4096 instructions that the kernel takes
/// less than. A condition makes at most 6 instructions, its rule 3 more, and a system call 2 more
/// than its rules; so at most 100 system calls, with at most four rules each, make at most
/// 100 * 38 + 5 instructions.
pub open spec fn is_short(rules: Map<i64, Seq<SeccompRule>>) -> bool {
    &&& rules.dom().finite()
    &&& rules.dom().len() <= 100
    &&& forall|number: i64| #[trigger] rules.contains_key(number) ==> rules[number].len() <= 4
}

/// `SeccompRule::new`, with its one condition made by `SeccompCondition::new`. A condition is
/// refused only for an argument that no system call has, and a rule only for having none.
#[verifier::external_body]
pub(crate) fn new_rule(rule: SeccompRule) -> (made: Rule)
    requires
        rule.arg_index <= 5,
    ensures
        rule_content(made) == Some(rule),
{
    let len = match rule.arg_len {
        ArgLen::Dword => Len::Dword,
        ArgLen::Qword => Len::Qword,
    };
    let operator = match rule.operator {
        Operator::Eq => Op::Eq,
        Operator::Ge => Op::Ge,
        Operator::Gt => Op::Gt,
        Operator::Le => Op::Le,
        Operator::Lt => Op::Lt,
        Operator::MaskedEq(mask) => Op::MaskedEq(mask),
        Operator::Ne => Op::Ne,
    };
    Rule::new(vec![Condition::new(rule.arg_index, len, operator, rule.value).unwrap()]).unwrap()
}

/// `SeccompFilter::new`, with the architecture found by `TargetArch::try_from`. The filter holds
/// the rules it is given. It is refused exactly when both actions are the same.
#[verifier::external_body]
pub(crate) fn new_filter(
    rules: BTreeMap<i64, Vec<Rule>>,
    on_mismatch: SeccompAction,
    on_match: SeccompAction,
    arch: &str,
) -> (filter: Result<SeccompFilter, BackendError>)
    requires
        forall|number: i64| #[trigger]
            rules@.contains_key(number) ==> are_single(rules@[number]@),
        arch@ == "x86_64"@ || arch@ == "aarch64"@ || arch@ == "riscv64"@,
    ensures
        filter is Ok <==> on_mismatch != on_match,
        filter matches Ok(filter) ==> {
            &&& filter_rules(filter) == Some(chains(rules@))
            &&& filter_settings(filter) == (on_mismatch, on_match, arch@)
        },
{
    let action = |a: SeccompAction| match a {
        SeccompAction::Allow => Action::Allow,
        SeccompAction::Errno(number) => Action::Errno(number),
        SeccompAction::KillThread => Action::KillThread,
        SeccompAction::KillProcess => Action::KillProcess,
        SeccompAction::Log => Action::Log,
        SeccompAction::Trace(number) => Action::Trace(number),
        SeccompAction::Trap => Action::Trap,
    };
    SeccompFilter::new(rules, action(on_mismatch), action(on_match), arch.try_into()?)
}

/// `BpfProgram::try_from`: the filter's program, which depends on nothing but what the filter
/// holds. It is never empty, and a filter with few enough rules always has one.
#[verifier::external_body]
pub(crate) fn compile(filter: SeccompFilter) -> (program: Result<Vec<SockFilter>, BackendError>)
    requires
        filter_rules(filter) is Some,
        numbers_fit(filter_rules(filter)->0),
    ensures
        program is Ok <==> bpf_program(filter_rules(filter)->0, filter_settings(filter)) is Some,
        program matches Ok(program) ==> {
            &&& program@ == bpf_program(filter_rules(filter)->0, filter_settings(filter))->0
            &&& program@.len() > 0
        },
        is_short(filter_rules(filter)->0) ==> program is Ok,
{
    let program = BpfProgram::try_from(filter)?;
    let copy = |i: sock_filter| SockFilter { code: i.code, jt: i.jt, jf: i.jf, k: i.k };
    Ok(program.into_iter().map(copy).collect())
}

/// The rules of a map are those of its system calls, each by its one condition and in their order.
pub proof fn law_chains_hold_each_rule(rules: Map<i64, Vec<Rule>>)
    ensures
        chains(rules).dom() == rules.dom(),
        forall|number: i64, i: int|
            rules.contains_key(number) && 0 <= i < rules[number]@.len() ==> {
                &&& chains(rules)[number].len() == rules[number]@.len()
                &&& #[trigger] chains(rules)[number][i] == rule_content(rules[number]@[i])->0
            },
{
    assert(chains(rules).dom() =~= rules.dom());
}

} // verus!
