//! End-to-end tests driving the verified control law with an IEEE-754
//! double-precision backend; nalgebra supplies the matrix exponential and the
//! matrix inverse.

use nalgebra::DMatrix;
use pfc::designer::{design, PFC};
use pfc::discretize::discretize;
use pfc::matrix::{Mat, MatV};
use pfc::model::StateSpace;
use pfc::scalar::Scalar;
use pfc::{DesignError, PreconditionError, ValidationError};

#[derive(Clone, Copy, Debug, PartialEq)]
struct F(f64);

impl Scalar for F {
    fn from_usize(v: usize) -> F {
        F(v as f64)
    }
    fn add(a: F, b: F) -> F {
        F(a.0 + b.0)
    }
    fn sub(a: F, b: F) -> F {
        F(a.0 - b.0)
    }
    fn mul(a: F, b: F) -> F {
        F(a.0 * b.0)
    }
    fn div(a: F, b: F) -> F {
        F(a.0 / b.0)
    }
    fn neg(a: F) -> F {
        F(-a.0)
    }
    fn exp(a: F) -> F {
        F(a.0.exp())
    }
    fn powi(a: F, k: u32) -> F {
        F(a.0.powi(k as i32))
    }
    fn lt(a: F, b: F) -> bool {
        a.0 < b.0
    }
    fn is_zero(a: F) -> bool {
        a.0 == 0.0
    }
    fn floor_u32(a: F) -> u32 {
        a.0.floor() as u32
    }
    fn mat_exp(m: &Mat<F>) -> Mat<F> {
        from_na(&to_na(m).exp())
    }
    fn mat_inverse(m: &Mat<F>) -> Option<Mat<F>> {
        to_na(m).try_inverse().map(|inv| from_na(&inv))
    }

    // The trait's specification functions are ghost: they are never called
    // at run time, but the compiled trait still lists them as items.
    fn from_usize_s(_: usize) -> F {
        panic!()
    }
    fn add_s(_: F, _: F) -> F {
        panic!()
    }
    fn sub_s(_: F, _: F) -> F {
        panic!()
    }
    fn mul_s(_: F, _: F) -> F {
        panic!()
    }
    fn div_s(_: F, _: F) -> F {
        panic!()
    }
    fn neg_s(_: F) -> F {
        panic!()
    }
    fn exp_s(_: F) -> F {
        panic!()
    }
    fn powi_s(_: F, _: u32) -> F {
        panic!()
    }
    fn lt_s(_: F, _: F) -> bool {
        panic!()
    }
    fn is_zero_s(_: F) -> bool {
        panic!()
    }
    fn floor_u32_s(_: F) -> u32 {
        panic!()
    }
    fn mat_exp_s(m: MatV<F>) -> MatV<F> {
        m
    }
    fn mat_invertible_s(_: MatV<F>) -> bool {
        panic!()
    }
    fn mat_inverse_s(m: MatV<F>) -> MatV<F> {
        m
    }
}

fn to_na(m: &Mat<F>) -> DMatrix<f64> {
    DMatrix::from_fn(m.nrows(), m.ncols(), |i, j| m.get(i, j).0)
}

fn from_na(m: &DMatrix<f64>) -> Mat<F> {
    let mut rows: Vec<Vec<F>> = Vec::new();
    for i in 0..m.nrows() {
        let mut row: Vec<F> = Vec::new();
        for j in 0..m.ncols() {
            row.push(F(m[(i, j)]));
        }
        rows.push(row);
    }
    Mat::from_rows(m.ncols(), rows).expect("rectangular by construction")
}

fn mat(cols: usize, entries: Vec<Vec<f64>>) -> Mat<F> {
    let rows: Vec<Vec<F>> = entries
        .into_iter()
        .map(|r| r.into_iter().map(F).collect())
        .collect();
    Mat::from_rows(cols, rows).expect("rectangular test data")
}

/// The mass-spring-damper example plant (mass 5, damping 5, stiffness 5),
/// continuous time.
fn example_plant() -> StateSpace<F> {
    let a = mat(2, vec![vec![0.0, 1.0], vec![-1.0, -1.0]]);
    let b = mat(1, vec![vec![0.0], vec![0.2]]);
    let c = mat(2, vec![vec![1.0, 0.0]]);
    let d = mat(1, vec![vec![0.0]]);
    StateSpace::new(a, b, c, d, F(0.0)).expect("consistent dimensions")
}

#[test]
fn from_rows_rejects_ragged_data() {
    let rows = vec![vec![F(1.0), F(2.0)], vec![F(3.0)]];
    assert!(Mat::from_rows(2, rows).is_none());
    assert!(Mat::<F>::from_rows(2, vec![vec![F(1.0), F(2.0)]]).is_some());
}

#[test]
fn validation_error_on_inconsistent_dimensions() {
    // A is 2×3: not square.
    let a = mat(3, vec![vec![0.0, 1.0, 0.0], vec![0.0, 0.0, 1.0]]);
    let b = mat(1, vec![vec![0.0], vec![1.0]]);
    let c = mat(3, vec![vec![1.0, 0.0, 0.0]]);
    let d = mat(1, vec![vec![0.0]]);
    let r = StateSpace::new(a, b, c, d, F(0.0));
    assert_eq!(r.err(), Some(ValidationError));

    // B has 2 columns but D has 1.
    let a = mat(2, vec![vec![0.0, 1.0], vec![0.0, 0.0]]);
    let b = mat(2, vec![vec![0.0, 1.0], vec![1.0, 0.0]]);
    let c = mat(2, vec![vec![1.0, 0.0]]);
    let d = mat(1, vec![vec![0.0]]);
    assert!(StateSpace::new(a, b, c, d, F(0.0)).is_err());
}

#[test]
fn discretize_rejects_bad_inputs() {
    // Discretizing an already-discrete model fails.
    let plant = example_plant();
    let discrete = discretize(&plant, F(0.05)).expect("valid discretization");
    assert!(discretize(&discrete, F(0.05)).is_err());

    // A non-positive step fails.
    let plant = example_plant();
    assert_eq!(discretize(&plant, F(0.0)).err(), Some(PreconditionError));
    assert_eq!(discretize(&plant, F(-0.1)).err(), Some(PreconditionError));
}

#[test]
fn discretize_pure_integrator_matches_closed_form() {
    // x' = u: A = [0], B = [1]. Zero-order hold gives A_d = [1], B_d = [dt].
    let a = mat(1, vec![vec![0.0]]);
    let b = mat(1, vec![vec![1.0]]);
    let c = mat(1, vec![vec![1.0]]);
    let d = mat(1, vec![vec![0.0]]);
    let sys = StateSpace::new(a, b, c, d, F(0.0)).unwrap();
    let dt = 0.05;
    let dsys = discretize(&sys, F(dt)).expect("integrator discretizes");
    assert!((dsys.a.get(0, 0).0 - 1.0).abs() < 1e-9);
    assert!((dsys.b.get(0, 0).0 - dt).abs() < 1e-9);
    // C, D pass through unchanged; the sample period is recorded.
    assert_eq!(dsys.c.get(0, 0).0, 1.0);
    assert_eq!(dsys.d.get(0, 0).0, 0.0);
    assert_eq!(dsys.sample_time.0, dt);
}

#[test]
fn discretize_double_integrator_matches_closed_form() {
    // x1' = x2, x2' = u: A_d = [[1, dt], [0, 1]], B_d = [[dt²/2], [dt]].
    let a = mat(2, vec![vec![0.0, 1.0], vec![0.0, 0.0]]);
    let b = mat(1, vec![vec![0.0], vec![1.0]]);
    let c = mat(2, vec![vec![1.0, 0.0]]);
    let d = mat(1, vec![vec![0.0]]);
    let sys = StateSpace::new(a, b, c, d, F(0.0)).unwrap();
    let dt = 0.1;
    let dsys = discretize(&sys, F(dt)).unwrap();
    assert!((dsys.a.get(0, 0).0 - 1.0).abs() < 1e-9);
    assert!((dsys.a.get(0, 1).0 - dt).abs() < 1e-9);
    assert!((dsys.a.get(1, 0).0 - 0.0).abs() < 1e-9);
    assert!((dsys.a.get(1, 1).0 - 1.0).abs() < 1e-9);
    assert!((dsys.b.get(0, 0).0 - dt * dt / 2.0).abs() < 1e-9);
    assert!((dsys.b.get(1, 0).0 - dt).abs() < 1e-9);
}

#[test]
fn design_rejects_bad_parameters() {
    let plant = discretize(&example_plant(), F(0.05)).unwrap();
    assert!(matches!(
        design(&plant, 0, 3, F(0.5)),
        Err(DesignError::Precondition(_))
    ));
    assert!(matches!(
        design(&plant, 2, 0, F(0.5)),
        Err(DesignError::Precondition(_))
    ));
    assert!(matches!(
        design(&plant, 2, 3, F(0.0)),
        Err(DesignError::Precondition(_))
    ));
    assert!(matches!(
        design(&plant, 2, 3, F(-0.5)),
        Err(DesignError::Precondition(_))
    ));
    // A continuous-time model (sample period zero) is rejected too.
    assert!(matches!(
        design(&example_plant(), 2, 3, F(0.5)),
        Err(DesignError::Precondition(_))
    ));
}

#[test]
fn design_reports_singular_gram_matrix() {
    // With a zero output matrix every basis response is zero, so the Gram
    // matrix is zero and cannot be inverted.
    let a = mat(1, vec![vec![0.5]]);
    let b = mat(1, vec![vec![1.0]]);
    let c = mat(1, vec![vec![0.0]]);
    let d = mat(1, vec![vec![0.0]]);
    let sys = StateSpace::new(a, b, c, d, F(0.05)).unwrap();
    assert!(matches!(
        design(&sys, 2, 3, F(0.5)),
        Err(DesignError::SingularMatrix(_))
    ));
}

#[test]
fn design_single_coincidence_point_succeeds() {
    // n_h = 1: the 1×1 (here n_b = 1) Gram matrix of a well-conditioned
    // model still inverts, and the result is finite.
    let plant = discretize(&example_plant(), F(0.05)).unwrap();
    let (k0, nu_x) = design(&plant, 1, 1, F(0.5)).expect("single coincidence point");
    assert!(k0.0.is_finite());
    for i in 0..nu_x.nrows() {
        assert!(nu_x.get(i, 0).0.is_finite());
    }
}

#[test]
fn design_is_idempotent_bit_for_bit() {
    let plant = discretize(&example_plant(), F(0.05)).unwrap();
    let (k0_a, nux_a) = design(&plant, 2, 3, F(0.5)).unwrap();
    let (k0_b, nux_b) = design(&plant, 2, 3, F(0.5)).unwrap();
    assert_eq!(k0_a.0.to_bits(), k0_b.0.to_bits());
    assert_eq!(nux_a.nrows(), nux_b.nrows());
    for i in 0..nux_a.nrows() {
        assert_eq!(nux_a.get(i, 0).0.to_bits(), nux_b.get(i, 0).0.to_bits());
    }
}

#[test]
fn controllers_from_identical_inputs_are_deterministic() {
    let plant = discretize(&example_plant(), F(0.05)).unwrap();
    let mut c1 = PFC::new(&plant, 2, 3, F(0.5), [F(-5.0), F(5.0)]).unwrap();
    let mut c2 = PFC::new(&plant, 2, 3, F(0.5), [F(-5.0), F(5.0)]).unwrap();
    let mut y = 0.3;
    for step in 0..50 {
        let r = if step < 25 { 0.0 } else { 0.1 };
        let u1 = c1.update(F(r), F(y));
        let u2 = c2.update(F(r), F(y));
        assert_eq!(u1.0.to_bits(), u2.0.to_bits());
        y = 0.9 * y + 0.01 * u1.0;
    }
}

#[test]
fn update_output_always_within_limits() {
    let plant = discretize(&example_plant(), F(0.05)).unwrap();
    let lo = -0.001;
    let hi = 0.001;
    let mut pfc = PFC::new(&plant, 2, 3, F(0.5), [F(lo), F(hi)]).unwrap();
    // Extreme references and measurements saturate the raw input; the
    // returned control input must stay inside the bounds.
    let drives = [
        (1000.0, -1000.0),
        (-1000.0, 1000.0),
        (5.0, 0.0),
        (0.0, 5.0),
        (0.1, 0.0),
        (0.0, 0.0),
    ];
    for &(r, y) in drives.iter() {
        for _ in 0..20 {
            let u = pfc.update(F(r), F(y)).0;
            assert!(u >= lo && u <= hi, "control input {u} escaped [{lo}, {hi}]");
        }
    }
}

#[test]
fn mass_spring_damper_scenario_converges() {
    // The end-to-end example: discretize at 50 ms, design with two basis
    // functions, three coincidence points and a 0.5 s response time, then
    // co-simulate the plant for 101 samples with the reference stepping from
    // 0 to 0.1 after sample 40.
    let plant = discretize(&example_plant(), F(0.05)).unwrap();
    let mut pfc = PFC::new(&plant, 2, 3, F(0.5), [F(-5.0), F(5.0)]).unwrap();

    let mut x = vec![F(0.0), F(0.0)];
    let mut first_u = None;
    let mut last_y = 0.0;
    for i in 0..=100 {
        let r = if i <= 40 { 0.0 } else { 0.1 };
        // y = C·x with C = [1, 0].
        let y = x[0].0;
        let u = pfc.update(F(r), F(y));
        if first_u.is_none() {
            first_u = Some(u.0);
        }
        assert!(u.0.abs() <= 5.0, "control input exceeded the limits");
        // x ← A·x + B·u, on the discrete plant.
        let x0 = plant.a.get(0, 0).0 * x[0].0 + plant.a.get(0, 1).0 * x[1].0
            + plant.b.get(0, 0).0 * u.0;
        let x1 = plant.a.get(1, 0).0 * x[0].0 + plant.a.get(1, 1).0 * x[1].0
            + plant.b.get(1, 0).0 * u.0;
        x = vec![F(x0), F(x1)];
        last_y = y;
    }
    // The control input starts at exactly zero (zero reference, zero state)
    // and the measurement converges toward the 0.1 reference.
    assert_eq!(first_u, Some(0.0));
    assert!(
        (last_y - 0.1).abs() < 0.02,
        "measurement {last_y} did not converge toward 0.1"
    );
}

#[test]
fn controller_reports_its_limits() {
    let plant = discretize(&example_plant(), F(0.05)).unwrap();
    let pfc = PFC::new(&plant, 2, 3, F(0.5), [F(-5.0), F(5.0)]).unwrap();
    let limit = pfc.limit();
    assert_eq!(limit[0].0, -5.0);
    assert_eq!(limit[1].0, 5.0);
}

#[test]
fn design_matches_hand_computed_law() {
    // Scalar plant x⁺ = 0.5·x + u, y = x, at dt = 0.25 with t_clrt = 1.0,
    // n_b = 1, n_h = 1. The single coincidence horizon is
    // ⌊1.0 / (0.25·1)⌋ = 4 samples, so the basis response is
    // y_b = Σ_{q<4} 0.5^{3−q} = 1.875, the Gram matrix is y_b², and
    //   ν   = y_b / y_b²,
    //   k_0 = ν · (1 − α⁴)  with α = exp(−3·0.25/1.0),
    //   ν_x = −(0.5⁴ − 1) · ν.
    let a = mat(1, vec![vec![0.5]]);
    let b = mat(1, vec![vec![1.0]]);
    let c = mat(1, vec![vec![1.0]]);
    let d = mat(1, vec![vec![0.0]]);
    let sys = StateSpace::new(a, b, c, d, F(0.25)).unwrap();
    let (k0, nu_x) = design(&sys, 1, 1, F(1.0)).expect("well-conditioned design");

    let alpha = (-3.0 * 0.25 / 1.0_f64).exp();
    let yb = 0.125 + 0.25 + 0.5 + 1.0;
    let nu = yb * (1.0 / (yb * yb));
    let k0_expected = nu * (1.0 - alpha.powi(4));
    let nux_expected = -(0.0625 - 1.0) * nu;
    assert!((k0.0 - k0_expected).abs() < 1e-9, "k_0 = {}", k0.0);
    assert_eq!(nu_x.nrows(), 1);
    assert!((nu_x.get(0, 0).0 - nux_expected).abs() < 1e-9);
    assert!((nu_x.get(0, 0).0 - 0.5).abs() < 1e-9);
}
