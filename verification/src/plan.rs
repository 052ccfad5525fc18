//! The plan of a run: the invocations to make, in order, and how the run
//! ends.

use vstd::prelude::*;
use crate::failure::Failure;
use crate::manifest::{
    load, loaded, member_names, member_trees, member_values, names_of,
    table_entries, Tree,
};
use crate::operation::{invocation_for, Invocation, InvocationView, Operation, PROGRAM};

verus! {

/// Everything a run does: `commands` are started one after another, each
/// left to finish before the next; then, where `failure` is set, the run
/// reports it and ends with its exit status.
#[derive(Clone, Debug, PartialEq, Eq)]
pub struct Plan {
    /// The invocations to make, in manifest order.
    pub commands: Vec<Invocation>,
    /// The failure that ends the run, if any.
    pub failure: Option<Failure>,
    /// The underlying error's own words: the parser's for `Malformed`, the
    /// reader's for `Unreadable`.
    pub detail: Option<String>,
}

/// A [`Plan`] as plain sequences.
pub struct PlanView {
    pub commands: Seq<InvocationView>,
    pub failure: Option<Failure>,
    pub detail: Option<Seq<char>>,
}

impl View for Plan {
    type V = PlanView;

    open spec fn view(&self) -> PlanView {
        PlanView {
            commands: self.commands@.map_values(|command: Invocation| command@),
            failure: self.failure,
            detail: self.detail.deep_view(),
        }
    }
}

impl PlanView {
    /// The exit status of the run: zero when nothing failed.
    pub open spec fn status(self) -> int {
        match self.failure {
            Some(failure) => failure.status(),
            None => 0,
        }
    }
}

/// A plan that makes no invocation and ends in `failure`.
pub open spec fn halted(failure: Failure, detail: Option<Seq<char>>) -> PlanView {
    PlanView { commands: Seq::empty(), failure: Some(failure), detail }
}

/// How many names stand before the first element that has none.
pub open spec fn leading(names: Seq<Option<Seq<char>>>) -> nat
    decreases names.len(),
{
    if names.len() == 0 || names[0] is None {
        0
    } else {
        1 + leading(names.drop_first())
    }
}

/// The plan for a member array read as `names`: one invocation for each
/// name before the first gap, and a `MemberNotString` failure where there is
/// a gap.
pub open spec fn dispatched(operation: Operation, names: Seq<Option<Seq<char>>>) -> PlanView {
    PlanView {
        commands: Seq::new(leading(names), |i: int| invocation_for(operation, names[i]->0)),
        failure: if leading(names) < names.len() {
            Some(Failure::MemberNotString)
        } else {
            None
        },
        detail: None,
    }
}

/// The plan for a manifest with the given top-level entries.
pub open spec fn planned_for_entries(operation: Operation, root: Map<Seq<char>, Tree>) -> PlanView {
    match member_trees(root) {
        Ok(items) => dispatched(operation, names_of(items)),
        Err(failure) => halted(failure, None),
    }
}

/// The plan for what reading the manifest file gave: its text, or the
/// reason it could not be read.
pub open spec fn planned_after_read(
    operation: Operation,
    read: Result<Seq<char>, Seq<char>>,
) -> PlanView {
    match read {
        Ok(text) => planned(operation, text),
        Err(reason) => halted(Failure::Unreadable, Some(reason)),
    }
}

/// The plan for a manifest text.
pub open spec fn planned(operation: Operation, text: Seq<char>) -> PlanView {
    match loaded(text) {
        Ok(root) => planned_for_entries(operation, root),
        Err((failure, complaint)) => halted(failure, Some(complaint)),
    }
}

/// `leading` is the index of the first gap, or the length where there is
/// none.
pub proof fn lemma_leading(names: Seq<Option<Seq<char>>>, k: nat)
    requires
        k <= names.len(),
        forall|j: int| 0 <= j < k ==> names[j] is Some,
        k == names.len() || names[k as int] is None,
    ensures
        leading(names) == k,
    decreases k,
{
    if k > 0 {
        let rest = names.drop_first();
        assert forall|j: int| 0 <= j < k - 1 implies rest[j] is Some by {
            assert(rest[j] == names[j + 1]);
        }
        if k < names.len() {
            assert(rest[k - 1] == names[k as int]);
        }
        lemma_leading(rest, (k - 1) as nat);
    }
}

/// The manifest text parses, and its `workspace.members` is an array of
/// exactly the strings `members`, in that order.
pub open spec fn lists_members(text: Seq<char>, members: Seq<Seq<char>>) -> bool {
    &&& loaded(text) matches Ok(root)
    &&& member_trees(root) matches Ok(items)
    &&& items == members.map_values(|member: Seq<char>| Tree::Text(member))
}

/// For a manifest that lists only strings as members, the plan holds one
/// invocation per member, in manifest order, and ends without failure.
pub proof fn lemma_every_member_handled(
    operation: Operation,
    text: Seq<char>,
    members: Seq<Seq<char>>,
)
    requires
        lists_members(text, members),
    ensures
        planned(operation, text).commands == members.map_values(
            |member: Seq<char>| invocation_for(operation, member),
        ),
        planned(operation, text).commands.len() == members.len(),
        planned(operation, text).failure is None,
        planned(operation, text).status() == 0,
{
    let root = loaded(text)->Ok_0;
    let items = member_trees(root)->Ok_0;
    let names = names_of(items);
    assert(names.len() == members.len());
    assert forall|j: int| 0 <= j < names.len() implies names[j] == Some(members[j]) by {
        assert(items[j] == Tree::Text(members[j]));
    }
    lemma_leading(names, names.len());
    assert(planned(operation, text).commands =~= members.map_values(
        |member: Seq<char>| invocation_for(operation, member),
    ));
}

/// Installing a workspace with members `members` runs `cargo` once per
/// member, in manifest order, with `install --path <member>`, followed by
/// `--force` exactly when forcing.
pub proof fn lemma_install_commands(text: Seq<char>, members: Seq<Seq<char>>, force: bool)
    requires
        lists_members(text, members),
    ensures
        planned(Operation::Install { force }, text).failure is None,
        planned(Operation::Install { force }, text).commands.len() == members.len(),
        forall|i: int|
            0 <= i < members.len() ==> {
                let command = #[trigger] planned(Operation::Install { force }, text).commands[i];
                &&& command.program == PROGRAM@
                &&& force ==> command.args == seq![
                    "install"@,
                    "--path"@,
                    members[i],
                    "--force"@,
                ]
                &&& !force ==> command.args == seq!["install"@, "--path"@, members[i]]
            },
{
    lemma_every_member_handled(Operation::Install { force }, text, members);
}

/// Uninstalling a workspace with members `members` runs `cargo` once per
/// member, in manifest order, with `uninstall -p <member>`.
pub proof fn lemma_uninstall_commands(text: Seq<char>, members: Seq<Seq<char>>)
    requires
        lists_members(text, members),
    ensures
        planned(Operation::Uninstall, text).failure is None,
        planned(Operation::Uninstall, text).commands.len() == members.len(),
        forall|i: int|
            0 <= i < members.len() ==> {
                let command = #[trigger] planned(Operation::Uninstall, text).commands[i];
                &&& command.program == PROGRAM@
                &&& command.args == seq!["uninstall"@, "-p"@, members[i]]
            },
{
    lemma_every_member_handled(Operation::Uninstall, text, members);
}

/// A manifest of the wrong shape ends the run with exit status 1. Without a
/// `workspace` entry, without `members` in a `workspace` table, or with a
/// `members` that is no array, nothing is invoked. With an array whose
/// element `k` is the first that is not a string, exactly the `k` members
/// before it are handled.
pub proof fn lemma_shape_failures(operation: Operation, text: Seq<char>)
    requires
        loaded(text) is Ok,
    ensures
        ({
            let root = loaded(text)->Ok_0;
            let plan = planned(operation, text);
            &&& !root.contains_key("workspace"@) ==> plan == halted(Failure::NoWorkspace, None)
            &&& root.contains_key("workspace"@) ==> match root["workspace"@] {
                Tree::Table(workspace) => {
                    &&& !workspace.contains_key("members"@) ==> plan == halted(
                        Failure::NoMembers,
                        None,
                    )
                    &&& workspace.contains_key("members"@) ==> match workspace["members"@] {
                        Tree::List(items) => forall|k: int|
                            0 <= k < items.len() && !(items[k] is Text) && (forall|j: int|
                                0 <= j < k ==> items[j] is Text) ==> {
                                &&& plan.failure == Some(Failure::MemberNotString)
                                &&& plan.commands.len() == k
                                &&& forall|j: int|
                                    0 <= j < k ==> #[trigger] plan.commands[j] == invocation_for(
                                        operation,
                                        items[j]->Text_0,
                                    )
                            },
                        _ => plan == halted(Failure::MembersNotArray, None),
                    }
                },
                _ => plan == halted(Failure::NoMembers, None),
            }
            &&& plan.failure is Some ==> plan.status() == 1
        }),
{
    let root = loaded(text)->Ok_0;
    if root.contains_key("workspace"@) {
        if let Tree::Table(workspace) = root["workspace"@] {
            if workspace.contains_key("members"@) {
                if let Tree::List(items) = workspace["members"@] {
                    let names = names_of(items);
                    assert forall|k: int|
                        0 <= k < items.len() && !(items[k] is Text) && (forall|j: int|
                            0 <= j < k ==> items[j] is Text) implies leading(names) == k by {
                        assert forall|j: int| 0 <= j < k implies names[j] is Some by {
                            assert(items[j] is Text);
                        }
                        lemma_leading(names, k as nat);
                    }
                }
            }
        }
    }
}

/// A run keeps no state: two plans made for the same operation and the
/// same manifest text are equal, invocation for invocation.
pub proof fn lemma_plan_repeatable(
    operation: Operation,
    text: Seq<char>,
    first: Plan,
    second: Plan,
)
    requires
        first@ == planned(operation, text),
        second@ == planned(operation, text),
    ensures
        first@.commands == second@.commands,
        first@.status() == second@.status(),
        first@ == second@,
{
}

/// A failure that is not `Unreadable` has exit status 1; every plan made
/// from a manifest text therefore ends with status 0 or 1.
pub proof fn lemma_status_of_planned(operation: Operation, text: Seq<char>)
    ensures
        planned(operation, text).status() == 0 || planned(operation, text).status() == 1,
        planned(operation, text).status() == 0 <==> planned(operation, text).failure is None,
        loaded(text) is Err ==> planned(operation, text).commands.len() == 0 && planned(
            operation,
            text,
        ).status() == 1,
{
}

impl Plan {
    /// Makes the plan of a run that starts nothing and ends in `failure`.
    pub fn halted(failure: Failure, detail: Option<String>) -> (plan: Plan)
        ensures
            plan@ == halted(failure, detail.deep_view()),
    {
        let plan = Plan { commands: Vec::new(), failure: Some(failure), detail };
        assert(plan@.commands =~= Seq::empty());
        plan
    }

    /// Returns the exit status of the run: zero when nothing failed, else
    /// the failure's status.
    pub fn exit_code(&self) -> (code: i32)
        ensures
            code == self@.status(),
            code == 0 <==> self.failure is None,
    {
        match &self.failure {
            Some(failure) => failure.exit_code(),
            None => 0,
        }
    }
}

/// Plans the invocations for a member array whose elements were read as
/// `names`. Members are handled in order up to the first element that is
/// not a string; such an element ends the run with `MemberNotString`.
pub fn dispatch(operation: Operation, names: &Vec<Option<String>>) -> (plan: Plan)
    ensures
        plan@ == dispatched(operation, names.deep_view()),
{
    let mut commands: Vec<Invocation> = Vec::new();
    let mut i: usize = 0;
    while i < names.len()
        invariant
            i <= names.len(),
            commands.len() == i,
            forall|j: int| 0 <= j < i ==> (#[trigger] names@[j]) is Some,
            forall|j: int|
                0 <= j < i ==> (#[trigger] commands@[j])@ == invocation_for(
                    operation,
                    names@[j]->0@,
                ),
        decreases names.len() - i,
    {
        match &names[i] {
            Some(name) => {
                commands.push(operation.invocation(name.as_str()));
            },
            None => {
                let plan = Plan { commands, failure: Some(Failure::MemberNotString), detail: None };
                proof {
                    lemma_leading(names.deep_view(), i as nat);
                    assert(plan@.commands =~= dispatched(operation, names.deep_view()).commands);
                }
                return plan;
            },
        }
        i += 1;
    }
    let plan = Plan { commands, failure: None, detail: None };
    proof {
        lemma_leading(names.deep_view(), i as nat);
        assert(plan@.commands =~= dispatched(operation, names.deep_view()).commands);
    }
    plan
}

/// Plans the run for a parsed manifest: finds `workspace.members` and
/// dispatches over its elements.
pub fn plan_for_table(operation: Operation, table: &toml::Table) -> (plan: Plan)
    ensures
        plan@ == planned_for_entries(operation, table_entries(*table)),
{
    match member_values(table) {
        Ok(values) => {
            let names = member_names(values);
            dispatch(operation, &names)
        },
        Err(failure) => Plan::halted(failure, None),
    }
}

/// Plans the run for the text of a manifest.
pub fn plan(operation: Operation, text: &str) -> (plan: Plan)
    ensures
        plan@ == planned(operation, text@),
{
    match load(text) {
        Ok(table) => plan_for_table(operation, &table),
        Err((failure, complaint)) => Plan::halted(failure, Some(complaint)),
    }
}

/// Plans the run from the outcome of reading the manifest file. A file
/// that could not be read ends the run at once, with exit status 2 and no
/// invocation; `reason` is kept as the plan's detail.
pub fn plan_after_read(operation: Operation, read: Result<String, String>) -> (plan: Plan)
    ensures
        plan@ == planned_after_read(
            operation,
            match read {
                Ok(text) => Ok(text@),
                Err(reason) => Err(reason@),
            },
        ),
        read is Err ==> plan@.commands.len() == 0 && plan@.status() == 2,
{
    match read {
        Ok(text) => plan(operation, text.as_str()),
        Err(reason) => Plan::halted(Failure::Unreadable, Some(reason)),
    }
}

} // verus!
