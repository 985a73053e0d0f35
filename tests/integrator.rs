use gravity2d::integrator::step_batched;
use gravity2d::interaction::partners;

fn sum_of_others(pre: &Vec<i64>, i: usize) -> i64 {
    partners(i, pre.len()).into_iter().map(|j| pre[j]).sum()
}

#[test]
fn step_reads_only_the_pre_step_set() {
    let mut bodies: Vec<i64> = vec![1, 2, 3];
    step_batched(&mut bodies, |pre: &Vec<i64>, i: usize| sum_of_others(pre, i));
    // in-place updates would have given [5, 8, 13]
    assert_eq!(bodies, vec![5, 4, 3]);
}

#[test]
fn step_keeps_size_and_index() {
    let mut bodies: Vec<(usize, i64)> = vec![(0, 10), (1, 20), (2, 30), (3, 40)];
    step_batched(&mut bodies, |pre: &Vec<(usize, i64)>, i: usize| (pre[i].0, pre[i].1 + i as i64));
    assert_eq!(bodies, vec![(0, 10), (1, 21), (2, 32), (3, 43)]);
}

#[test]
fn empty_set_stays_empty() {
    let mut bodies: Vec<i64> = Vec::new();
    step_batched(&mut bodies, |pre: &Vec<i64>, i: usize| pre[i]);
    assert!(bodies.is_empty());
}

#[test]
fn repeated_runs_give_identical_states() {
    let start: Vec<i64> = vec![7, -3, 12, 0, 5];
    let mut first = start.clone();
    let mut second = start.clone();
    for _ in 0..10 {
        step_batched(&mut first, |pre: &Vec<i64>, i: usize| sum_of_others(pre, i) % 1000);
        step_batched(&mut second, |pre: &Vec<i64>, i: usize| sum_of_others(pre, i) % 1000);
    }
    assert_eq!(first, second);
}

#[test]
fn float_bodies_step_deterministically() {
    // two bodies attracting along y, accumulated with the self pair excluded
    let next = |pre: &Vec<(f32, f32)>, i: usize| {
        let (y, v) = pre[i];
        let mut a = 0.0f32;
        for j in partners(i, pre.len()) {
            let d = pre[j].0 - y;
            a += d.signum() * 1000.0 / d.abs();
        }
        (y + v / 120.0, v + a / (120.0 * 120.0))
    };
    let mut first = vec![(240.0f32, 0.0f32), (140.0, 0.0)];
    let mut second = first.clone();
    for _ in 0..50 {
        step_batched(&mut first, next);
        step_batched(&mut second, next);
    }
    assert_eq!(first, second);
}
