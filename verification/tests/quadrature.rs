use dirst::quadrature::{simpson_panels, Panel};

#[test]
fn too_few_samples_have_no_panels() {
    assert!(simpson_panels(0).is_empty());
    assert!(simpson_panels(1).is_empty());
}

#[test]
fn odd_sample_counts_use_simpson_panels_only() {
    assert_eq!(simpson_panels(3), vec![Panel::Simpson(0)]);
    assert_eq!(
        simpson_panels(7),
        vec![Panel::Simpson(0), Panel::Simpson(2), Panel::Simpson(4)]
    );
}

#[test]
fn even_sample_counts_end_with_a_trapezoid() {
    assert_eq!(simpson_panels(2), vec![Panel::Trapezoid(0)]);
    assert_eq!(simpson_panels(4), vec![Panel::Simpson(0), Panel::Trapezoid(2)]);
}

#[test]
fn panels_cover_each_interval_once() {
    for n in 0..40usize {
        let mut covered = vec![0usize; n.saturating_sub(1)];
        for p in simpson_panels(n) {
            match p {
                Panel::Simpson(s) => {
                    covered[s] += 1;
                    covered[s + 1] += 1;
                }
                Panel::Trapezoid(s) => covered[s] += 1,
            }
        }
        assert!(covered.iter().all(|&c| c == 1));
    }
}

#[test]
fn composite_rule_over_the_panels() {
    // x^2 on [0, 1] with three samples: Simpson is exact.
    let t = [0.0, 0.5, 1.0];
    let f = [0.0, 0.25, 1.0];
    let mut acc = 0.0_f64;
    for p in simpson_panels(t.len()) {
        match p {
            Panel::Simpson(i) => {
                let h = t[i + 1] - t[i];
                acc += h / 3.0 * (f[i] + 4.0 * f[i + 1] + f[i + 2]);
            }
            Panel::Trapezoid(i) => acc += (t[i + 1] - t[i]) * (f[i] + f[i + 1]) / 2.0,
        }
    }
    assert!((acc - 1.0 / 3.0).abs() <= 1e-12);
}
