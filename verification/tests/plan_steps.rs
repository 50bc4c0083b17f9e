use semaphore::plan::{configure_plan, synthesis_plan, ConfigStep, GadgetKind, SynthStep, WitnessSource};

#[test]
fn plan_has_the_expected_steps_in_order() {
    let plan = synthesis_plan();
    let expected = vec![
        SynthStep::AssignWitness { source: WitnessSource::IdentityNullifier, column: 0, row: 0 },
        SynthStep::AssignWitness { source: WitnessSource::IdentityTrapdoor, column: 0, row: 1 },
        SynthStep::AssignWitness { source: WitnessSource::ConstantOne, column: 0, row: 2 },
        SynthStep::AssignWitness { source: WitnessSource::SignalHash, column: 1, row: 0 },
        SynthStep::AssignWitness { source: WitnessSource::ExternalNullifier, column: 1, row: 1 },
        SynthStep::AssignWitness { source: WitnessSource::Root, column: 1, row: 2 },
        SynthStep::HashPair { left: 0, right: 1 },
        SynthStep::HashPair { left: 6, right: 6 },
        SynthStep::HashPair { left: 4, right: 0 },
        SynthStep::CheckMembership { root: 5, leaf: 7 },
        SynthStep::Multiply { a: 3, b: 3 },
        SynthStep::AssertEqual { a: 9, b: 2 },
        SynthStep::ExposePublic { cell: 3, row: 0 },
        SynthStep::ExposePublic { cell: 4, row: 1 },
        SynthStep::ExposePublic { cell: 8, row: 2 },
        SynthStep::ExposePublic { cell: 5, row: 3 },
    ];
    assert_eq!(plan, expected);
}

#[test]
fn plan_exposes_four_publics_in_instance_row_order() {
    let plan = synthesis_plan();
    let exposures: Vec<(usize, usize)> = plan
        .iter()
        .filter_map(|s| match s {
            SynthStep::ExposePublic { cell, row } => Some((*cell, *row)),
            _ => None,
        })
        .collect();
    // signal hash (cell 3), external nullifier (cell 4), derived nullifier
    // hash (cell 8), root (cell 5), at instance rows 0 through 3
    assert_eq!(exposures, vec![(3, 0), (4, 1), (8, 2), (5, 3)]);
}

#[test]
fn plan_consumes_only_produced_cells() {
    let plan = synthesis_plan();
    let mut produced: usize = 0;
    for step in &plan {
        match step {
            SynthStep::AssignWitness { .. } => produced += 1,
            SynthStep::HashPair { left, right } => {
                assert!(*left < produced && *right < produced);
                produced += 1;
            }
            SynthStep::CheckMembership { root, leaf } => {
                assert!(*root < produced && *leaf < produced);
                produced += 1;
            }
            SynthStep::Multiply { a, b } => {
                assert!(*a < produced && *b < produced);
                produced += 1;
            }
            SynthStep::AssertEqual { a, b } => {
                assert!(*a < produced && *b < produced);
            }
            SynthStep::ExposePublic { cell, .. } => {
                assert!(*cell < produced);
            }
        }
    }
    assert_eq!(produced, 11);
}

#[test]
fn configure_plan_declares_columns_then_gadgets() {
    let plan = configure_plan();
    let expected = vec![
        ConfigStep::DeclareAdviceWithEquality { column: 0 },
        ConfigStep::DeclareAdviceWithEquality { column: 1 },
        ConfigStep::DeclareInstanceWithEquality,
        ConfigStep::ConfigureGadget { gadget: GadgetKind::Membership, shares_advice: false },
        ConfigStep::ConfigureGadget { gadget: GadgetKind::Hash, shares_advice: false },
        ConfigStep::ConfigureGadget { gadget: GadgetKind::EqualityAssert, shares_advice: true },
        ConfigStep::ConfigureGadget { gadget: GadgetKind::Multiplication, shares_advice: true },
    ];
    assert_eq!(plan, expected);
}
