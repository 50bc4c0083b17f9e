//! The synthesis plan: the exact ordered sequence of gadget invocations,
//! witness assignments and public-input exposures the circuit performs, with
//! cells named by the order they are produced in. An error in this ordering
//! or in the exposure rows silently changes the proved statement, so the plan
//! is pinned down completely and its wiring is checked: every step only
//! consumes cells produced before it, and the exposure rows are exactly
//! `0..=3` carrying `[signal_hash, external_nullifier, nullifier_hash, root]`.

use vstd::prelude::*;
use crate::circuit::{semaphore_statement, SemaphoreCircuit};
use crate::field::mul_of;
use crate::hash::poseidon2_of;
use crate::merkle::merkle_root_of;

verus! {

/// Which witness scalar a cell assignment carries.
#[derive(Clone, Copy, Debug, PartialEq, Eq)]
pub enum WitnessSource {
    IdentityNullifier,
    IdentityTrapdoor,
    ConstantOne,
    SignalHash,
    ExternalNullifier,
    Root,
}

/// One step of witness synthesis. Steps that produce a cell (every variant
/// but `AssertEqual` and `ExposePublic`) number their outputs consecutively
/// from zero, in plan order.
#[derive(Clone, Copy, Debug, PartialEq, Eq)]
pub enum SynthStep {
    /// Assign a witness scalar into an advice column at a row.
    AssignWitness { source: WitnessSource, column: usize, row: usize },
    /// Invoke the hash gadget on two previously produced cells.
    HashPair { left: usize, right: usize },
    /// Invoke the membership gadget with a root cell and a leaf cell; the
    /// produced cell holds one exactly when the leaf is under the root.
    CheckMembership { root: usize, leaf: usize },
    /// Invoke the multiplication gate on two previously produced cells.
    Multiply { a: usize, b: usize },
    /// Constrain two previously produced cells to be equal.
    AssertEqual { a: usize, b: usize },
    /// Bind a previously produced cell to a row of the instance column.
    ExposePublic { cell: usize, row: usize },
}

/// The plan of the Semaphore circuit. Cells, in production order:
/// 0 identity nullifier, 1 identity trapdoor, 2 the constant one,
/// 3 signal hash, 4 external nullifier, 5 root, 6 secret, 7 commitment,
/// 8 nullifier hash, 9 membership result, 10 the self-multiplied signal.
pub open spec fn spec_plan() -> Seq<SynthStep> {
    seq![
        SynthStep::AssignWitness { source: WitnessSource::IdentityNullifier, column: 0, row: 0 },
        SynthStep::AssignWitness { source: WitnessSource::IdentityTrapdoor, column: 0, row: 1 },
        SynthStep::AssignWitness { source: WitnessSource::ConstantOne, column: 0, row: 2 },
        SynthStep::AssignWitness { source: WitnessSource::SignalHash, column: 1, row: 0 },
        SynthStep::AssignWitness { source: WitnessSource::ExternalNullifier, column: 1, row: 1 },
        SynthStep::AssignWitness { source: WitnessSource::Root, column: 1, row: 2 },
        SynthStep::HashPair { left: 0, right: 1 },
        SynthStep::HashPair { left: 6, right: 6 },
        SynthStep::HashPair { left: 4, right: 0 },
        SynthStep::CheckMembership { root: 5, leaf: 7 },
        SynthStep::Multiply { a: 3, b: 3 },
        SynthStep::AssertEqual { a: 9, b: 2 },
        SynthStep::ExposePublic { cell: 3, row: 0 },
        SynthStep::ExposePublic { cell: 4, row: 1 },
        SynthStep::ExposePublic { cell: 8, row: 2 },
        SynthStep::ExposePublic { cell: 5, row: 3 },
    ]
}

/// How many cells a step produces.
pub open spec fn step_outputs(s: SynthStep) -> nat {
    match s {
        SynthStep::AssignWitness { .. } => 1,
        SynthStep::HashPair { .. } => 1,
        SynthStep::CheckMembership { .. } => 1,
        SynthStep::Multiply { .. } => 1,
        SynthStep::AssertEqual { .. } => 0,
        SynthStep::ExposePublic { .. } => 0,
    }
}

/// A step may only consume cells produced before it.
pub open spec fn step_ok(s: SynthStep, avail: nat) -> bool {
    match s {
        SynthStep::AssignWitness { .. } => true,
        SynthStep::HashPair { left, right } => left < avail && right < avail,
        SynthStep::CheckMembership { root, leaf } => root < avail && leaf < avail,
        SynthStep::Multiply { a, b } => a < avail && b < avail,
        SynthStep::AssertEqual { a, b } => a < avail && b < avail,
        SynthStep::ExposePublic { cell, .. } => cell < avail,
    }
}

/// Every step of the plan respects the data-dependency order, starting with
/// `avail` cells already produced.
pub open spec fn plan_wf_from(plan: Seq<SynthStep>, avail: nat) -> bool
    decreases plan.len(),
{
    plan.len() == 0 || {
        &&& step_ok(plan[0], avail)
        &&& plan_wf_from(plan.drop_first(), avail + step_outputs(plan[0]))
    }
}

pub open spec fn plan_wf(plan: Seq<SynthStep>) -> bool {
    plan_wf_from(plan, 0)
}

/// The cell-row pairs a plan exposes as public inputs, in plan order.
pub open spec fn exposed_publics(plan: Seq<SynthStep>) -> Seq<(usize, usize)>
    decreases plan.len(),
{
    if plan.len() == 0 {
        seq![]
    } else {
        let rest = exposed_publics(plan.drop_first());
        match plan[0] {
            SynthStep::ExposePublic { cell, row } => seq![(cell, row)] + rest,
            _ => rest,
        }
    }
}

/// Produces the synthesis plan.
pub fn synthesis_plan() -> (plan: Vec<SynthStep>)
    ensures
        plan@ == spec_plan(),
{
    let mut plan: Vec<SynthStep> = Vec::new();
    plan.push(SynthStep::AssignWitness { source: WitnessSource::IdentityNullifier, column: 0, row: 0 });
    plan.push(SynthStep::AssignWitness { source: WitnessSource::IdentityTrapdoor, column: 0, row: 1 });
    plan.push(SynthStep::AssignWitness { source: WitnessSource::ConstantOne, column: 0, row: 2 });
    plan.push(SynthStep::AssignWitness { source: WitnessSource::SignalHash, column: 1, row: 0 });
    plan.push(SynthStep::AssignWitness { source: WitnessSource::ExternalNullifier, column: 1, row: 1 });
    plan.push(SynthStep::AssignWitness { source: WitnessSource::Root, column: 1, row: 2 });
    plan.push(SynthStep::HashPair { left: 0, right: 1 });
    plan.push(SynthStep::HashPair { left: 6, right: 6 });
    plan.push(SynthStep::HashPair { left: 4, right: 0 });
    plan.push(SynthStep::CheckMembership { root: 5, leaf: 7 });
    plan.push(SynthStep::Multiply { a: 3, b: 3 });
    plan.push(SynthStep::AssertEqual { a: 9, b: 2 });
    plan.push(SynthStep::ExposePublic { cell: 3, row: 0 });
    plan.push(SynthStep::ExposePublic { cell: 4, row: 1 });
    plan.push(SynthStep::ExposePublic { cell: 8, row: 2 });
    plan.push(SynthStep::ExposePublic { cell: 5, row: 3 });
    proof {
        assert(plan@ =~= spec_plan());
    }
    plan
}

/// The plan respects the data-dependency order: each gadget invocation,
/// equality constraint and exposure consumes only cells already produced.
pub proof fn lemma_plan_wf()
    ensures
        plan_wf(spec_plan()),
{
    reveal_with_fuel(plan_wf_from, 18);
    assert(plan_wf_from(spec_plan(), 0));
}

/// The plan exposes exactly four public inputs, at instance rows zero to
/// three in order, carrying the signal hash (cell 3), the external nullifier
/// (cell 4), the in-circuit-derived nullifier hash (cell 8) and the root
/// (cell 5).
pub proof fn lemma_public_exposure_order()
    ensures
        exposed_publics(spec_plan()) == seq![
            (3usize, 0usize),
            (4usize, 1usize),
            (8usize, 2usize),
            (5usize, 3usize),
        ],
{
    reveal_with_fuel(exposed_publics, 18);
    assert(exposed_publics(spec_plan()) =~= seq![
        (3usize, 0usize),
        (4usize, 1usize),
        (8usize, 2usize),
        (5usize, 3usize),
    ]);
}

/// A sub-circuit the configuration phase sets up.
#[derive(Clone, Copy, Debug, PartialEq, Eq)]
pub enum GadgetKind {
    Membership,
    Hash,
    EqualityAssert,
    Multiplication,
}

/// One step of the configuration phase.
#[derive(Clone, Copy, Debug, PartialEq, Eq)]
pub enum ConfigStep {
    /// Declare an advice column and enable equality-copy on it.
    DeclareAdviceWithEquality { column: usize },
    /// Declare the instance column and enable equality-copy on it.
    DeclareInstanceWithEquality,
    /// Delegate configuration to a sub-gadget; `shares_advice` says whether
    /// it is handed the circuit's two advice columns. Column reuse is
    /// intentional: the sharing gadgets' gates stay disjoint by selector.
    ConfigureGadget { gadget: GadgetKind, shares_advice: bool },
}

/// The configuration plan: two advice columns and one instance column, each
/// with equality-copy enabled, then every sub-gadget configured in a fixed
/// order, the equality-assertion and multiplication gadgets on the circuit's
/// own advice pair.
pub open spec fn spec_config_plan() -> Seq<ConfigStep> {
    seq![
        ConfigStep::DeclareAdviceWithEquality { column: 0 },
        ConfigStep::DeclareAdviceWithEquality { column: 1 },
        ConfigStep::DeclareInstanceWithEquality,
        ConfigStep::ConfigureGadget { gadget: GadgetKind::Membership, shares_advice: false },
        ConfigStep::ConfigureGadget { gadget: GadgetKind::Hash, shares_advice: false },
        ConfigStep::ConfigureGadget { gadget: GadgetKind::EqualityAssert, shares_advice: true },
        ConfigStep::ConfigureGadget { gadget: GadgetKind::Multiplication, shares_advice: true },
    ]
}

/// Produces the configuration plan.
pub fn configure_plan() -> (plan: Vec<ConfigStep>)
    ensures
        plan@ == spec_config_plan(),
{
    let mut plan: Vec<ConfigStep> = Vec::new();
    plan.push(ConfigStep::DeclareAdviceWithEquality { column: 0 });
    plan.push(ConfigStep::DeclareAdviceWithEquality { column: 1 });
    plan.push(ConfigStep::DeclareInstanceWithEquality);
    plan.push(ConfigStep::ConfigureGadget { gadget: GadgetKind::Membership, shares_advice: false });
    plan.push(ConfigStep::ConfigureGadget { gadget: GadgetKind::Hash, shares_advice: false });
    plan.push(ConfigStep::ConfigureGadget { gadget: GadgetKind::EqualityAssert, shares_advice: true });
    plan.push(ConfigStep::ConfigureGadget { gadget: GadgetKind::Multiplication, shares_advice: true });
    proof {
        assert(plan@ =~= spec_config_plan());
    }
    plan
}

/// The witness scalar a cell assignment carries, as a value of the witness.
pub open spec fn source_value(c: SemaphoreCircuit, s: WitnessSource) -> nat {
    match s {
        WitnessSource::IdentityNullifier => c.identity_nullifier@,
        WitnessSource::IdentityTrapdoor => c.identity_trapdoor@,
        WitnessSource::ConstantOne => 1,
        WitnessSource::SignalHash => c.signal_hash@,
        WitnessSource::ExternalNullifier => c.external_nullifier@,
        WitnessSource::Root => c.root@,
    }
}

/// The cell values after one step: gadget invocations append the value their
/// contract forces on the produced cell. The membership gadget, instantiated
/// from the witnessed path, yields one exactly when recomputing the root from
/// the leaf cell along that path matches the root cell, and a value unequal
/// to one otherwise.
pub open spec fn step_cells(c: SemaphoreCircuit, cells: Seq<nat>, s: SynthStep) -> Seq<nat> {
    match s {
        SynthStep::AssignWitness { source, .. } => cells.push(source_value(c, source)),
        SynthStep::HashPair { left, right } => cells.push(
            poseidon2_of(cells[left as int], cells[right as int]),
        ),
        SynthStep::CheckMembership { root, leaf } => cells.push(
            if merkle_root_of(cells[leaf as int], c.path@) == cells[root as int] {
                1nat
            } else {
                0nat
            },
        ),
        SynthStep::Multiply { a, b } => cells.push(mul_of(cells[a as int], cells[b as int])),
        SynthStep::AssertEqual { .. } => cells,
        SynthStep::ExposePublic { .. } => cells,
    }
}

/// The constraint one step adds beyond producing cells: an equality
/// constraint forces two cells equal; an exposure forces a row of the
/// public-input vector equal to a cell.
pub open spec fn step_constraint(cells: Seq<nat>, s: SynthStep, publics: Seq<nat>) -> bool {
    match s {
        SynthStep::AssertEqual { a, b } => cells[a as int] == cells[b as int],
        SynthStep::ExposePublic { cell, row } => publics[row as int] == cells[cell as int],
        _ => true,
    }
}

/// Every constraint of the remaining plan holds, starting from the given
/// cell values.
pub open spec fn plan_holds_from(
    c: SemaphoreCircuit,
    cells: Seq<nat>,
    plan: Seq<SynthStep>,
    publics: Seq<nat>,
) -> bool
    decreases plan.len(),
{
    plan.len() == 0 || {
        &&& step_constraint(cells, plan[0], publics)
        &&& plan_holds_from(c, step_cells(c, cells, plan[0]), plan.drop_first(), publics)
    }
}

/// Satisfiability of the synthesis plan for a witness and a four-element
/// public-input vector: every equality constraint and every exposure holds
/// of the cell values the plan produces from that witness.
pub open spec fn plan_satisfied(c: SemaphoreCircuit, publics: Seq<nat>) -> bool {
    publics.len() == 4 && plan_holds_from(c, seq![], spec_plan(), publics)
}

/// The synthesis plan realises the Semaphore statement: for every witness and
/// every four-element public-input vector, the plan's constraints are
/// satisfiable exactly when the statement holds.
pub proof fn lemma_plan_realizes_statement(c: SemaphoreCircuit, publics: Seq<nat>)
    requires
        publics.len() == 4,
    ensures
        plan_satisfied(c, publics) <==> semaphore_statement(c, publics),
{
    reveal_with_fuel(plan_holds_from, 18);
}

} // verus!
