use gravity2d::interaction::partners;

#[test]
fn partners_skip_the_body_itself() {
    assert_eq!(partners(0, 3), vec![1, 2]);
    assert_eq!(partners(1, 3), vec![0, 2]);
    assert_eq!(partners(2, 3), vec![0, 1]);
}

#[test]
fn single_body_has_no_partner() {
    assert!(partners(0, 1).is_empty());
}

#[test]
fn two_bodies_act_on_each_other() {
    assert_eq!(partners(0, 2), vec![1]);
    assert_eq!(partners(1, 2), vec![0]);
}

#[test]
fn every_pair_is_visited_once_per_direction() {
    let count = 8;
    let mut seen = vec![vec![0u32; count]; count];
    for i in 0..count {
        for j in partners(i, count) {
            seen[i][j] += 1;
        }
    }
    for i in 0..count {
        for j in 0..count {
            assert_eq!(seen[i][j], if i == j { 0 } else { 1 });
        }
    }
}
