use bitwuzla::search::{SearchStep, SolutionSearch};
use bitwuzla::solution::BVSolution;

fn sol(s: &str) -> BVSolution {
    BVSolution::from_01x_str(s)
}

#[test]
fn search_starts_with_a_push() {
    let search = SolutionSearch::new(3);
    assert_eq!(search.next_step(), SearchStep::Push);
}

#[test]
fn zero_limit_pushes_and_pops_only() {
    let mut search = SolutionSearch::new(0);
    assert_eq!(search.next_step(), SearchStep::Push);
    search.on_pushed();
    assert_eq!(search.next_step(), SearchStep::Pop);
    search.on_popped();
    assert_eq!(search.next_step(), SearchStep::Done);
    assert!(search.into_solutions().is_empty());
}

#[test]
fn unsatisfiable_stops_the_search() {
    let mut search = SolutionSearch::new(3);
    search.on_pushed();
    assert_eq!(search.next_step(), SearchStep::CheckSat);
    search.on_sat_result(false);
    assert_eq!(search.next_step(), SearchStep::Pop);
    search.on_popped();
    assert_eq!(search.next_step(), SearchStep::Done);
    assert!(search.into_solutions().is_empty());
}

#[test]
fn collects_distinct_solutions_up_to_limit() {
    let mut search = SolutionSearch::new(2);
    search.on_pushed();
    search.on_sat_result(true);
    assert_eq!(search.next_step(), SearchStep::ReadSolution);
    let excl = search.on_solution(sol("0x1"));
    assert_eq!(excl.as_01x_str(), "001");
    assert_eq!(search.next_step(), SearchStep::CheckSat);
    search.on_sat_result(true);
    let excl = search.on_solution(sol("110"));
    assert_eq!(excl.as_01x_str(), "110");
    assert_eq!(search.next_step(), SearchStep::Pop);
    search.on_popped();
    let found = search.into_solutions();
    assert_eq!(found, vec![sol("0x1"), sol("110")]);
}

#[test]
fn repeated_solution_ends_search() {
    let mut search = SolutionSearch::new(5);
    search.on_pushed();
    search.on_sat_result(true);
    search.on_solution(sol("01"));
    search.on_sat_result(true);
    let excl = search.on_solution(sol("01"));
    assert_eq!(excl.as_01x_str(), "01");
    assert_eq!(search.next_step(), SearchStep::Pop);
    search.on_popped();
    assert_eq!(search.into_solutions(), vec![sol("01")]);
}
