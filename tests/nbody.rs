use eris::nbody::{accelerations, accelerations_in_order, apply, step};

const G: f64 = 1.0e-7;
const MIN_DIST2: f64 = 1.0e-9;

#[derive(Clone, Copy, Debug, PartialEq)]
struct Body {
    mass: f64,
    position: [f64; 3],
    velocity: [f64; 3],
}

fn body(mass: f64, position: [f64; 3], velocity: [f64; 3]) -> Body {
    Body { mass, position, velocity }
}

fn gravity(b: &Body, other: &Body) -> [f64; 3] {
    let d = [
        other.position[0] - b.position[0],
        other.position[1] - b.position[1],
        other.position[2] - b.position[2],
    ];
    let dist2 = d[0] * d[0] + d[1] * d[1] + d[2] * d[2];
    if dist2 < MIN_DIST2 {
        return [0.0; 3];
    }
    let s = G * other.mass / (dist2 * dist2.sqrt());
    [d[0] * s, d[1] * s, d[2] * s]
}

fn add(a: [f64; 3], b: [f64; 3]) -> [f64; 3] {
    [a[0] + b[0], a[1] + b[1], a[2] + b[2]]
}

fn integrate(b: &Body, a: &[f64; 3], dt: f64) -> Body {
    let mut n = *b;
    for k in 0..3 {
        n.velocity[k] += a[k] * dt;
        n.position[k] += n.velocity[k] * dt;
    }
    n
}

fn three_bodies() -> Vec<Body> {
    vec![
        body(1.0e6, [0.0, 0.0, 0.0], [0.0, 0.0, 0.0]),
        body(1.0e4, [200.0, 0.0, 0.0], [0.0, 0.0, -0.0223]),
        body(0.1, [212.0, 3.0, -1.0], [0.0, 0.01, -0.03]),
    ]
}

#[test]
fn one_acceleration_per_body_from_all_others() {
    // pull: how far the other body is; the sum over the others
    let positions: Vec<i64> = vec![0, 1, 4];
    let acc = accelerations(&positions, 0i64, |x: &i64, y: &i64| *y - *x, |a: i64, b: i64| a + b);
    assert_eq!(acc, vec![5, 2, -7]);
}

#[test]
fn pulls_are_folded_in_ascending_order_without_self() {
    let ids: Vec<u64> = vec![0, 1, 2, 3];
    let acc = accelerations(&ids, 0u64, |_x: &u64, y: &u64| *y + 1, |a: u64, b: u64| a * 10 + b);
    assert_eq!(acc, vec![234, 134, 124, 123]);
}

#[test]
fn empty_body_set_has_no_accelerations() {
    let none: Vec<i64> = Vec::new();
    let acc = accelerations(&none, 0i64, |x: &i64, y: &i64| *y - *x, |a: i64, b: i64| a + b);
    assert!(acc.is_empty());
}

#[test]
fn visiting_order_does_not_change_accelerations() {
    let bodies = three_bodies();
    let base = accelerations(&bodies, [0.0; 3], gravity, add);
    for order in [vec![0usize, 1, 2], vec![2, 0, 1], vec![1, 2, 0], vec![2, 1, 0]] {
        let acc = accelerations_in_order(&bodies, &order, [0.0; 3], gravity, add);
        assert_eq!(acc, base);
    }
}

#[test]
fn accelerations_read_only_the_snapshot() {
    // a tick must not let a body see another body's position of this same tick
    let mut bodies = three_bodies();
    let before = bodies.clone();
    step(&mut bodies, 0.5, [0.0; 3], gravity, add, integrate);
    let acc = accelerations(&before, [0.0; 3], gravity, add);
    for i in 0..3 {
        assert_eq!(bodies[i], integrate(&before[i], &acc[i], 0.5));
    }
}

#[test]
fn single_body_feels_no_pull() {
    let mut bodies = vec![body(1.0e6, [1.0, 2.0, 3.0], [0.0, 0.0, 0.0])];
    let acc = accelerations(&bodies, [0.0; 3], gravity, add);
    assert_eq!(acc, vec![[0.0; 3]]);
    for _ in 0..100 {
        step(&mut bodies, 0.016, [0.0; 3], gravity, add, integrate);
    }
    assert_eq!(bodies[0].position, [1.0, 2.0, 3.0]);
    assert_eq!(bodies[0].velocity, [0.0, 0.0, 0.0]);
}

#[test]
fn replaying_time_steps_gives_the_same_trajectory() {
    let dts = [0.016, 0.020, 0.5, 0.001, 0.016, 1.0];
    let mut run1 = three_bodies();
    let mut run2 = three_bodies();
    for dt in dts {
        step(&mut run1, dt, [0.0; 3], gravity, add, integrate);
    }
    for dt in dts {
        step(&mut run2, dt, [0.0; 3], gravity, add, integrate);
    }
    assert_eq!(run1, run2);
    assert_ne!(run1, three_bodies());
}

#[test]
fn apply_advances_each_body_by_its_own_acceleration() {
    let mut xs: Vec<i64> = vec![10, 20, 30];
    let acc: Vec<i64> = vec![1, -2, 3];
    apply(&mut xs, &acc, 4i64, |x: &i64, a: &i64, dt: i64| *x + *a * dt);
    assert_eq!(xs, vec![14, 12, 42]);
}

#[test]
fn step_is_accumulate_then_apply() {
    // positions on a line; pull towards each other body by its offset
    let mut xs: Vec<i64> = vec![0, 1, 4];
    step(&mut xs, 2i64, 0i64, |x: &i64, y: &i64| *y - *x, |a: i64, b: i64| a + b,
        |x: &i64, a: &i64, dt: i64| *x + *a * dt);
    assert_eq!(xs, vec![10, 5, -10]);
}

#[test]
fn coincident_bodies_stay_finite_with_a_guarded_pull() {
    let mut bodies = vec![
        body(1.0e6, [5.0, 5.0, 5.0], [0.0, 0.0, 0.0]),
        body(1.0e4, [5.0, 5.0, 5.0], [0.0, 0.0, 0.0]),
    ];
    step(&mut bodies, 0.016, [0.0; 3], gravity, add, integrate);
    for b in &bodies {
        for k in 0..3 {
            assert!(b.position[k].is_finite());
            assert!(b.velocity[k].is_finite());
        }
    }
}
