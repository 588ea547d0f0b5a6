use universal_axiom::{ErdosProblem, MathSolutions, ProofStep};

fn sample_problem(identifier: &str, status: &str) -> ErdosProblem {
    ErdosProblem::new(
        identifier.to_string(),
        "A Title".to_string(),
        "A statement.".to_string(),
        status.to_string(),
        "An insight.".to_string(),
    )
}

#[test]
fn test_math_solutions_seed_contains_problem() {
    let solutions = MathSolutions::erdos_seed();
    let expected = vec![
        ("erdos-straus", "open"),
        ("erdos-distinct-distances", "solved"),
        ("erdos-moser", "partial"),
        ("erdos-ko-rado", "solved"),
        ("erdos-szekeres", "partial"),
        ("erdos-faber-lovasz", "solved"),
        ("erdos-ginzburg-ziv", "solved"),
        ("erdos-heilbronn", "solved"),
        ("erdos-discrepancy", "solved"),
    ];

    assert_eq!(solutions.list_problems().len(), expected.len());
    for (identifier, status) in expected {
        let problem = solutions.get_problem(identifier);
        assert!(problem.is_some());
        let problem = problem.unwrap();
        assert_eq!(problem.status, status);
        assert_eq!(problem.proof_steps.len(), 5);
    }
}

#[test]
fn test_math_solutions_add_proof_step() {
    let mut solutions = MathSolutions::erdos_seed();
    let result = solutions.add_proof_step(
        "erdos-straus",
        "Normalize the equation to isolate reciprocal structure.".to_string(),
        "Use the axiom's foundation layer (A·B·C) to align constraints.".to_string(),
    );
    assert!(result.is_ok());
    let problem = solutions.get_problem("erdos-straus").unwrap();
    assert_eq!(problem.proof_steps.len(), 6);
    let last_step = problem.proof_steps.last().unwrap();
    assert!(last_step.statement.contains("Normalize the equation"));
}

#[test]
fn test_proof_step_new_keeps_fields() {
    let step = ProofStep::new("Statement.".to_string(), "Insight.".to_string());
    assert_eq!(step.statement, "Statement.");
    assert_eq!(step.axiom_insight, "Insight.");
}

#[test]
fn test_problem_new_starts_without_steps() {
    let problem = sample_problem("p-1", "open");
    assert_eq!(problem.identifier, "p-1");
    assert_eq!(problem.title, "A Title");
    assert_eq!(problem.statement, "A statement.");
    assert_eq!(problem.status, "open");
    assert_eq!(problem.axiom_insight, "An insight.");
    assert!(problem.proof_steps.is_empty());
}

#[test]
fn test_problem_add_proof_steps_extends_in_order() {
    let mut problem = sample_problem("p-1", "open");
    problem.add_proof_step("first".to_string(), "one".to_string());
    problem.add_proof_steps(vec![
        ProofStep::new("second".to_string(), "two".to_string()),
        ProofStep::new("third".to_string(), "three".to_string()),
    ]);
    assert_eq!(problem.proof_steps.len(), 3);
    assert_eq!(problem.proof_steps[0].statement, "first");
    assert_eq!(problem.proof_steps[1].statement, "second");
    assert_eq!(problem.proof_steps[2].axiom_insight, "three");
}

#[test]
fn test_add_problem_appends_new_identifier() {
    let mut solutions = MathSolutions::new();
    assert!(solutions.list_problems().is_empty());
    solutions.add_problem(sample_problem("p-1", "open"));
    solutions.add_problem(sample_problem("p-2", "solved"));
    assert_eq!(solutions.list_problems().len(), 2);
    assert_eq!(solutions.list_problems()[0].identifier, "p-1");
    assert_eq!(solutions.list_problems()[1].identifier, "p-2");
}

#[test]
fn test_add_problem_replaces_matching_identifier() {
    let mut solutions = MathSolutions::new();
    solutions.add_problem(sample_problem("p-1", "open"));
    solutions.add_problem(sample_problem("p-2", "open"));
    solutions.add_problem(sample_problem("p-1", "solved"));
    assert_eq!(solutions.list_problems().len(), 2);
    assert_eq!(solutions.list_problems()[0].identifier, "p-1");
    assert_eq!(solutions.list_problems()[0].status, "solved");
    assert_eq!(solutions.list_problems()[1].status, "open");
}

#[test]
fn test_get_problem_unknown_identifier() {
    let solutions = MathSolutions::erdos_seed();
    assert!(solutions.get_problem("erdos-unknown").is_none());
}

#[test]
fn test_get_problem_mut_allows_update() {
    let mut solutions = MathSolutions::new();
    solutions.add_problem(sample_problem("p-1", "open"));
    {
        let problem = solutions.get_problem_mut("p-1").unwrap();
        problem.add_proof_step("a step".to_string(), "an insight".to_string());
    }
    assert_eq!(solutions.get_problem("p-1").unwrap().proof_steps.len(), 1);
    assert!(solutions.get_problem_mut("missing").is_none());
}

#[test]
fn test_summaries_reflect_problems() {
    let solutions = MathSolutions::erdos_seed();
    let summaries = solutions.summaries();
    assert_eq!(summaries.len(), 9);
    assert_eq!(summaries[0].identifier, "erdos-straus");
    assert_eq!(summaries[0].title, "Erdos–Straus Conjecture");
    assert_eq!(summaries[0].status, "open");
    assert_eq!(summaries[2].identifier, "erdos-moser");
    assert_eq!(summaries[2].status, "partial");
}

#[test]
fn test_add_proof_step_unknown_identifier_error() {
    let mut solutions = MathSolutions::erdos_seed();
    let result = solutions.add_proof_step(
        "erdos-unknown",
        "A step.".to_string(),
        "An insight.".to_string(),
    );
    assert_eq!(
        result.unwrap_err(),
        "Unknown problem identifier: erdos-unknown"
    );
}
