use snippets::workers::run_workers;
use snippets::workers::Registry;

#[test]
fn five_workers_sum_to_five() {
    let reg = run_workers(5);
    assert_eq!(reg.total(), 5);
}

#[test]
fn zero_workers_sum_to_zero() {
    let reg = run_workers(0);
    assert_eq!(reg.total(), 0);
}

#[test]
fn cell_starts_at_zero() {
    let mut reg = Registry::new(3);
    assert_eq!(reg.get_or_init(1), 0);
    assert_eq!(reg.get_or_init(1), 0);
}

#[test]
fn increment_touches_only_its_own_cell() {
    let mut reg = Registry::new(2);
    reg.worker_step(0);
    assert_eq!(reg.get_or_init(0), 1);
    assert_eq!(reg.get_or_init(1), 0);
}

#[test]
fn repeated_steps_accumulate() {
    let mut reg = Registry::new(1);
    reg.worker_step(0);
    reg.worker_step(0);
    reg.worker_step(0);
    assert_eq!(reg.total(), 3);
}

#[test]
fn untouched_cells_count_as_zero() {
    let mut reg = Registry::new(4);
    reg.worker_step(2);
    assert_eq!(reg.total(), 1);
}
