use factor_analysis::config::{ExtractionMethod, FactorRule, MatrixBasis, RotationFamily, ScoreMethod};
use factor_analysis::error::AnalysisError;
use factor_analysis::extraction::{build_extraction_result, canonical_signs, retained_factors, sort_eigenpairs};
use factor_analysis::grid::Grid;
use factor_analysis::ieee::Real;
use factor_analysis::labels::{component_label, factor_labels};
use factor_analysis::matrix::{assemble_correlation, calculate_correlation_matrix, check_data_matrix, mirror_upper};
use factor_analysis::ordering::descending_order;
use factor_analysis::plots::generate_loading_plots;
use factor_analysis::report::{
    calculate_communalities, calculate_scree_plot, calculate_total_variance_explained, labelled_rows, BlockLabel,
    TotalVarianceComponent,
};
use factor_analysis::rotation::{
    oblique_result, orthogonal_result, reflect_factors, reorder_factors, rotation_step, unrotated, RotationStep,
};
use factor_analysis::scores::{calculate_component_score_covariance_matrix, score_coefficient_route, CoefficientRoute};

fn r(x: f64) -> Real {
    Real::from_bits(x.to_bits())
}

fn f(x: Real) -> f64 {
    f64::from_bits(x.bits)
}

fn grid(rows: &[&[f64]]) -> Grid {
    let cols = if rows.is_empty() { 0 } else { rows[0].len() };
    Grid::new(rows.iter().map(|row| row.iter().map(|&x| r(x)).collect()).collect(), cols).unwrap()
}

fn values(g: &Grid) -> Vec<Vec<f64>> {
    g.rows.iter().map(|row| row.iter().map(|&x| f(x)).collect()).collect()
}

/// Pearson quotients and denominators of the columns of `data`, as the
/// caller computes them before assembly.
fn pearson_parts(data: &[Vec<f64>]) -> (Grid, Grid) {
    let n = data.len();
    let p = data[0].len();
    let means: Vec<f64> = (0..p).map(|j| data.iter().map(|row| row[j]).sum::<f64>() / n as f64).collect();
    let mut q = vec![vec![0.0; p]; p];
    let mut d = vec![vec![0.0; p]; p];
    for i in 0..p {
        for j in 0..p {
            let (mut sxy, mut sxx, mut syy) = (0.0, 0.0, 0.0);
            for row in data {
                let dx = row[i] - means[i];
                let dy = row[j] - means[j];
                sxy += dx * dy;
                sxx += dx * dx;
                syy += dy * dy;
            }
            let den = (sxx * syy).sqrt();
            d[i][j] = den;
            q[i][j] = if den > 0.0 { sxy / den } else { 0.0 };
        }
    }
    let to_grid = |m: Vec<Vec<f64>>| Grid::new(m.into_iter().map(|row| row.into_iter().map(r).collect()).collect(), p).unwrap();
    (to_grid(q), to_grid(d))
}

fn cube_sums(g: &Grid) -> Vec<Real> {
    (0..g.cols).map(|j| r(g.rows.iter().map(|row| f(row[j]).powi(3)).sum())).collect()
}

fn square_sums(g: &Grid) -> Vec<Real> {
    (0..g.cols).map(|j| r(g.rows.iter().map(|row| f(row[j]).powi(2)).sum())).collect()
}

#[test]
fn negation_and_sign_are_exact() {
    assert_eq!(f(r(2.5).neg()), -2.5);
    assert_eq!(f(r(-0.0).neg()).to_bits(), 0.0f64.to_bits());
    assert!(r(-1.0).is_negative());
    assert!(!r(-0.0).is_negative());
    assert!(!r(f64::NAN).is_negative());
    assert!(r(1e-300).is_positive());
    assert!(!r(0.0).is_positive());
    assert!(r(-3.0).lt(r(-2.0)));
    assert!(!r(-0.0).lt(r(0.0)));
    assert!(!r(f64::NAN).lt(r(1.0)));
    assert!(r(f64::NEG_INFINITY).lt(r(-1e308)));
    assert_eq!(f(Real::one()), 1.0);
    assert_eq!(f(Real::zero()), 0.0);
}

#[test]
fn descending_order_is_stable() {
    let keys = vec![r(1.0), r(3.0), r(-2.0), r(3.0), r(0.0)];
    assert_eq!(descending_order(&keys), vec![1, 3, 0, 4, 2]);
    assert_eq!(descending_order(&vec![]), Vec::<usize>::new());
}

#[test]
fn factors_above_the_cutoff_are_retained() {
    let eig = vec![r(2.5), r(1.2), r(1.0), r(0.3)];
    assert_eq!(retained_factors(&eig, FactorRule::EigenvalueAbove(r(1.0))), Ok(2));
    assert_eq!(retained_factors(&eig, FactorRule::EigenvalueAbove(r(5.0))), Ok(1));
    assert_eq!(retained_factors(&eig, FactorRule::Fixed(0)), Ok(1));
    assert_eq!(retained_factors(&eig, FactorRule::Fixed(3)), Ok(3));
    assert_eq!(retained_factors(&eig, FactorRule::Fixed(9)), Ok(4));
    assert_eq!(retained_factors(&vec![], FactorRule::Fixed(1)), Err(AnalysisError::DimensionMismatch));
}

#[test]
fn eigenpairs_sort_by_descending_eigenvalue() {
    let (vals, vecs) = sort_eigenpairs(&vec![r(0.5), r(2.0), r(1.5)], &grid(&[&[1.0, 2.0, 3.0], &[4.0, 5.0, 6.0]]));
    assert_eq!(vals.iter().map(|&x| f(x)).collect::<Vec<_>>(), vec![2.0, 1.5, 0.5]);
    assert_eq!(values(&vecs), vec![vec![2.0, 3.0, 1.0], vec![5.0, 6.0, 4.0]]);
}

#[test]
fn data_matrix_needs_two_observations() {
    assert_eq!(check_data_matrix(&vec![vec![r(1.0), r(2.0)]], 2), Err(AnalysisError::InsufficientData));
    assert_eq!(check_data_matrix(&vec![vec![r(1.0)], vec![r(1.0), r(2.0)]], 2), Err(AnalysisError::DimensionMismatch));
    assert_eq!(check_data_matrix(&vec![vec![r(1.0), r(2.0)], vec![r(3.0), r(4.0)]], 2), Ok(2));
}

#[test]
fn correlation_diagonal_is_one_and_symmetric() {
    let data = vec![vec![1.0, 2.0, 9.0], vec![2.0, 1.0, 7.0], vec![4.0, 5.0, 8.0], vec![3.0, 3.0, 1.0]];
    let (q, d) = pearson_parts(&data);
    let m = assemble_correlation(&q, &d).unwrap();
    for i in 0..3 {
        assert_eq!(f(m.rows[i][i]), 1.0);
        for j in 0..3 {
            assert_eq!(m.rows[i][j], m.rows[j][i]);
            assert!(f(m.rows[i][j]).abs() <= 1.0 + 1e-12);
        }
    }
    assert!((f(m.rows[0][1]) - 5.5 / 43.75f64.sqrt()).abs() < 1e-12);
}

#[test]
fn zero_variance_column_correlates_zero() {
    let data = vec![vec![1.0, 5.0, 2.0], vec![2.0, 5.0, 4.0], vec![4.0, 5.0, 5.0], vec![3.0, 5.0, 1.0]];
    let (q, d) = pearson_parts(&data);
    let m = assemble_correlation(&q, &d).unwrap();
    for j in 0..3 {
        let expect = if j == 1 { 1.0 } else { 0.0 };
        assert_eq!(f(m.rows[1][j]), expect);
        assert_eq!(f(m.rows[j][1]), expect);
    }
    assert!(values(&m).iter().flatten().all(|x| !x.is_nan()));
}

#[test]
fn correlation_shapes_must_agree() {
    let q = grid(&[&[1.0, 0.5]]);
    let d = grid(&[&[1.0, 1.0]]);
    assert_eq!(assemble_correlation(&q, &d).unwrap_err(), AnalysisError::DimensionMismatch);
}

#[test]
fn covariance_is_mirrored_from_upper_triangle() {
    let m = mirror_upper(&grid(&[&[2.0, 0.5], &[0.4999, 3.0]]));
    assert_eq!(values(&m), vec![vec![2.0, 0.5], vec![0.5, 3.0]]);
}

#[test]
fn significance_maps_empty_when_not_requested() {
    let names = vec!["a".to_string(), "b".to_string()];
    let corr = grid(&[&[1.0, 0.3], &[0.3, 1.0]]);
    let m = calculate_correlation_matrix(&names, corr, None).unwrap();
    assert_eq!(m.sig_values.len(), 2);
    assert!(m.sig_values.iter().all(|row| row.is_empty()));
    assert_eq!(m.variable_order, names);

    let corr = grid(&[&[1.0, 0.3], &[0.3, 1.0]]);
    let pv = grid(&[&[0.7, 0.01], &[0.01, 0.7]]);
    let m = calculate_correlation_matrix(&names, corr, Some(pv)).unwrap();
    assert_eq!(m.sig_values.iter().map(|row| row.iter().map(|&x| f(x)).collect()).collect::<Vec<Vec<f64>>>(),
        vec![vec![0.0, 0.01], vec![0.01, 0.0]]);

    let bad = grid(&[&[1.0, 0.3]]);
    assert_eq!(calculate_correlation_matrix(&names, bad, None).unwrap_err(), AnalysisError::DimensionMismatch);
}

#[test]
fn no_rotation_keeps_loadings_with_identity_transform() {
    let loadings = grid(&[&[0.8, 0.1], &[0.7, -0.2], &[0.2, 0.9]]);
    let res = unrotated(loadings.clone());
    assert_eq!(values(&res.rotated_loadings), values(&loadings));
    assert_eq!(values(&res.transformation_matrix), vec![vec![1.0, 0.0], vec![0.0, 1.0]]);
    assert!(res.factor_correlations.is_none());
}

#[test]
fn rotation_steps_per_family() {
    assert_eq!(rotation_step(RotationFamily::NoRotation, 6, 3), RotationStep::Keep);
    assert_eq!(rotation_step(RotationFamily::Varimax, 6, 3), RotationStep::Orthomax { gamma_num: 1, gamma_den: 1 });
    assert_eq!(rotation_step(RotationFamily::Quartimax, 6, 3), RotationStep::Orthomax { gamma_num: 0, gamma_den: 1 });
    assert_eq!(rotation_step(RotationFamily::Equamax, 6, 3), RotationStep::Orthomax { gamma_num: 6, gamma_den: 6 });
    assert_eq!(rotation_step(RotationFamily::Equamax, 9, 2), RotationStep::Orthomax { gamma_num: 1, gamma_den: 1 });
    assert_eq!(rotation_step(RotationFamily::Promax { kappa: r(4.0) }, 6, 3), RotationStep::Promax { kappa: r(4.0) });
    assert!(RotationFamily::Oblimin { delta: r(0.0) }.is_oblique());
    assert!(!RotationFamily::Equamax.is_oblique());
}

#[test]
fn reflection_makes_cube_sums_non_negative() {
    let loadings = grid(&[&[-0.8, 0.1], &[-0.7, -0.6], &[0.2, 0.3]]);
    let flipped = canonical_signs(&loadings, &cube_sums(&loadings));
    assert_eq!(values(&flipped), vec![vec![0.8, -0.1], vec![0.7, 0.6], vec![-0.2, -0.3]]);
    assert!(cube_sums(&flipped).iter().all(|&s| f(s) >= 0.0));

    let res = orthogonal_result(loadings.clone(), grid(&[&[0.6, -0.8], &[0.8, 0.6]]));
    let out = reflect_factors(&res, &cube_sums(&loadings));
    assert_eq!(values(&out.transformation_matrix), vec![vec![-0.6, 0.8], vec![-0.8, -0.6]]);
    assert!(cube_sums(&out.rotated_loadings).iter().all(|&s| f(s) >= 0.0));
}

#[test]
fn oblique_correlations_have_unit_diagonal() {
    let loadings = grid(&[&[0.8, 0.1], &[0.7, -0.2]]);
    let corr = grid(&[&[0.9999999999, 0.3], &[0.3, 1.0000000002]]);
    let res = oblique_result(loadings, grid(&[&[1.0, 0.0], &[0.0, 1.0]]), &corr);
    let c = res.factor_correlations.as_ref().unwrap();
    assert_eq!(values(c), vec![vec![1.0, 0.3], vec![0.3, 1.0]]);
    let (out, _) = reorder_factors(&res, &vec![r(0.5), r(1.1)]);
    assert_eq!(values(out.factor_correlations.as_ref().unwrap()), vec![vec![1.0, 0.3], vec![0.3, 1.0]]);
    let reflected = reflect_factors(&res, &vec![r(-1.0), r(1.0)]);
    assert_eq!(values(reflected.factor_correlations.as_ref().unwrap()), vec![vec![1.0, -0.3], vec![-0.3, 1.0]]);
}

#[test]
fn factors_reorder_by_descending_variance() {
    let loadings = grid(&[&[0.1, 0.8, 0.3], &[0.2, 0.7, 0.1]]);
    let res = oblique_result(
        loadings,
        grid(&[&[1.0, 2.0, 3.0], &[4.0, 5.0, 6.0], &[7.0, 8.0, 9.0]]),
        &grid(&[&[1.0, 0.1, 0.2], &[0.1, 1.0, 0.3], &[0.2, 0.3, 1.0]]),
    );
    let (out, order) = reorder_factors(&res, &square_sums(&res.rotated_loadings));
    assert_eq!(order, vec![1, 2, 0]);
    assert_eq!(values(&out.rotated_loadings), vec![vec![0.8, 0.3, 0.1], vec![0.7, 0.1, 0.2]]);
    assert_eq!(values(&out.transformation_matrix), vec![vec![2.0, 3.0, 1.0], vec![5.0, 6.0, 4.0], vec![8.0, 9.0, 7.0]]);
    assert_eq!(values(out.factor_correlations.as_ref().unwrap()),
        vec![vec![1.0, 0.3, 0.1], vec![0.3, 1.0, 0.2], vec![0.1, 0.2, 1.0]]);
    let v: Vec<f64> = square_sums(&out.rotated_loadings).into_iter().map(f).collect();
    assert!(v.windows(2).all(|w| w[0] >= w[1]));
}

#[test]
fn anderson_rubin_covariance_is_identity() {
    let cov = calculate_component_score_covariance_matrix(ScoreMethod::AndersonRubin, 3, None, None).unwrap();
    assert_eq!(values(&cov.components), vec![vec![1.0, 0.0, 0.0], vec![0.0, 1.0, 0.0], vec![0.0, 0.0, 1.0]]);
    let b = grid(&[&[2.0, 0.1], &[0.1, 3.0]]);
    let cov = calculate_component_score_covariance_matrix(ScoreMethod::Bartlett, 2, Some(b.clone()), None).unwrap();
    assert_eq!(values(&cov.components), values(&b));
    let cov = calculate_component_score_covariance_matrix(ScoreMethod::Regression, 2, Some(b), None).unwrap();
    assert_eq!(values(&cov.components), vec![vec![1.0, 0.0], vec![0.0, 1.0]]);
    assert!(calculate_component_score_covariance_matrix(ScoreMethod::NoScores, 2, None, None).is_none());
}

#[test]
fn regression_shortcut_only_for_unrotated_components() {
    assert_eq!(score_coefficient_route(ScoreMethod::Regression, ExtractionMethod::PrincipalComponents, false), CoefficientRoute::RegressionShortcut);
    assert_eq!(score_coefficient_route(ScoreMethod::Regression, ExtractionMethod::PrincipalComponents, true), CoefficientRoute::RegressionInverse);
    assert_eq!(score_coefficient_route(ScoreMethod::Regression, ExtractionMethod::PrincipalAxisFactoring, false), CoefficientRoute::RegressionInverse);
    assert_eq!(score_coefficient_route(ScoreMethod::Bartlett, ExtractionMethod::PrincipalComponents, false), CoefficientRoute::Bartlett);
    assert_eq!(score_coefficient_route(ScoreMethod::NoScores, ExtractionMethod::Image, true), CoefficientRoute::Skip);
}

#[test]
fn loading_plot_prefers_pattern_then_rotated() {
    let names = vec!["x".to_string(), "y".to_string(), "z".to_string()];
    let component = labelled_rows(&grid(&[&[0.1, 0.2], &[0.3, 0.4], &[0.5, 0.6]]), &names);
    let rotated = labelled_rows(&grid(&[&[0.9, 0.8], &[0.7, 0.6], &[0.5, 0.4]]), &names);
    let plot = generate_loading_plots(None, Some(&rotated), Some(&component)).unwrap();
    assert_eq!(plot.variables, names);
    assert_eq!(plot.x_loadings.iter().map(|&x| f(x)).collect::<Vec<_>>(), vec![0.9, 0.7, 0.5]);
    assert_eq!(plot.y_loadings.iter().map(|&x| f(x)).collect::<Vec<_>>(), vec![0.8, 0.6, 0.4]);
    assert_eq!(plot.component_x, "Component 1");
    assert_eq!(plot.component_y, "Component 2");
    let pattern = labelled_rows(&grid(&[&[1.0, 2.0], &[3.0, 4.0]]), &names);
    let plot = generate_loading_plots(Some(&pattern), Some(&rotated), None).unwrap();
    assert_eq!(plot.variables, vec!["x".to_string(), "y".to_string()]);
    assert_eq!(plot.x_loadings.iter().map(|&x| f(x)).collect::<Vec<_>>(), vec![1.0, 3.0]);
}

#[test]
fn loading_plot_needs_two_factors() {
    let names = vec!["x".to_string()];
    let single = labelled_rows(&grid(&[&[0.5]]), &names);
    assert_eq!(generate_loading_plots(None, None, Some(&single)).unwrap_err(), AnalysisError::MissingInput);
    assert_eq!(generate_loading_plots(None, None, None).unwrap_err(), AnalysisError::MissingInput);
}

#[test]
fn labels_are_numbered() {
    assert_eq!(factor_labels(3), vec!["Factor 1", "Factor 2", "Factor 3"]);
    assert_eq!(component_label(12), "Component 12");
    assert_eq!(component_label(0), "Component 0");
    assert_eq!(factor_labels(0), Vec::<String>::new());
}

#[test]
fn scree_plot_pads_to_variable_count() {
    let s = calculate_scree_plot(&vec![r(2.0), r(1.0)], 4);
    assert_eq!(s.eigenvalues.iter().map(|&x| f(x)).collect::<Vec<_>>(), vec![2.0, 1.0, 0.0, 0.0]);
    assert_eq!(s.component_numbers, vec![1, 2, 3, 4]);
    let s = calculate_scree_plot(&vec![r(2.0), r(1.0), r(0.5)], 2);
    assert_eq!(s.eigenvalues.iter().map(|&x| f(x)).collect::<Vec<_>>(), vec![2.0, 1.0]);
}

fn row(total: f64, pct: f64, cum: f64) -> TotalVarianceComponent {
    TotalVarianceComponent { total: r(total), percent_of_variance: r(pct), cumulative_percent: r(cum) }
}

#[test]
fn variance_table_blocks_follow_basis() {
    let rows = vec![row(2.0, 50.0, 50.0), row(1.2, 30.0, 80.0), row(0.8, 20.0, 100.0)];
    let t = calculate_total_variance_explained(&rows, 2, MatrixBasis::Correlation).unwrap();
    assert_eq!(t.blocks.len(), 1);
    assert_eq!(t.blocks[0].label, BlockLabel::Component);
    assert_eq!(t.blocks[0].initial, rows);
    assert_eq!(t.blocks[0].extraction, rows[..2].to_vec());
    assert_eq!(t.blocks[0].rotation, Some(rows[..2].to_vec()));
    let t = calculate_total_variance_explained(&rows, 1, MatrixBasis::Covariance).unwrap();
    assert_eq!(t.blocks.len(), 2);
    assert_eq!(t.blocks[0].label, BlockLabel::Raw);
    assert_eq!(t.blocks[1].label, BlockLabel::Rescaled);
    assert_eq!(t.blocks[1].initial, rows);
    assert_eq!(t.blocks[1].extraction, rows[..1].to_vec());
    assert!(t.blocks.iter().all(|b| b.rotation.is_none()));
    assert_eq!(calculate_total_variance_explained(&rows, 4, MatrixBasis::Correlation).unwrap_err(),
        AnalysisError::DimensionMismatch);
}

#[test]
fn communalities_rescaled_initial_by_method() {
    let names = vec!["a".to_string(), "b".to_string()];
    let raw = vec![r(4.0), r(9.0)];
    let smc = vec![r(0.4), r(0.5)];
    let ext = vec![r(0.7), r(0.6)];
    let c = calculate_communalities(ExtractionMethod::PrincipalComponents, MatrixBasis::Covariance, &names, &raw, &vec![], &ext).unwrap();
    assert_eq!(c.rescaled_initial, vec![r(1.0), r(1.0)]);
    assert_eq!(c.raw_initial, raw);
    assert_eq!(c.extraction, ext);
    assert_eq!(c.extraction_matrix_type, MatrixBasis::Covariance);
    let c = calculate_communalities(ExtractionMethod::PrincipalAxisFactoring, MatrixBasis::Correlation, &names, &raw, &smc, &ext).unwrap();
    assert_eq!(c.rescaled_initial, smc);
    assert_eq!(calculate_communalities(ExtractionMethod::Alpha, MatrixBasis::Correlation, &names, &raw, &vec![], &ext).unwrap_err(),
        AnalysisError::DimensionMismatch);
}

#[test]
fn extraction_result_keeps_retained_columns_in_canonical_sign() {
    let names = vec!["a".to_string(), "b".to_string()];
    let full = grid(&[&[-0.9, 0.1], &[-0.8, -0.2]]);
    let retained = grid(&[&[-0.9], &[-0.8]]);
    let e = build_extraction_result(&full, &cube_sums(&retained), &vec![r(1.7), r(0.3)], &vec![r(0.81), r(0.64)], 1, &names).unwrap();
    assert_eq!(e.n_factors, 1);
    assert_eq!(values(&e.loadings), vec![vec![0.9], vec![0.8]]);
    assert_eq!(build_extraction_result(&full, &vec![], &vec![r(1.7), r(0.3)], &vec![r(0.81), r(0.64)], 0, &names).unwrap_err(),
        AnalysisError::DimensionMismatch);
}
