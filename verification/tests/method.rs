use dirst::method::{config_text, Computation, Config, Exponent, Method};

#[test]
fn method_display_covers_all_variants() {
    let labels = [
        Method::PNorm(2.0).name(),
        Method::<f64>::Manhattan.name(),
        Method::<f64>::CityBlock.name(),
        Method::<f64>::Cosine.name(),
        Method::<f64>::Canberra.name(),
        Method::<f64>::BrayCurtis.name(),
        Method::<f64>::Euclidean.name(),
        Method::<f64>::SqEuclidean.name(),
        Method::<f64>::Max.name(),
        Method::<f64>::Chebyshev.name(),
        Method::Sphere(1.0).name(),
        Method::Geographical(1.0).name(),
    ];
    assert_eq!(
        labels,
        [
            "pnorm",
            "manhattan",
            "cityblock",
            "cosine",
            "canberra",
            "braycurtis",
            "euclidean",
            "sqeuclidean",
            "max",
            "chebyshev",
            "sphere",
            "geographical",
        ]
    );
}

#[test]
fn method_name_ignores_the_parameter() {
    assert_eq!(Method::PNorm(3.5).name(), Method::PNorm(1.0).name());
    assert_eq!(Method::Sphere(6371.0).name(), "sphere");
    assert_eq!(Method::Geographical(0.0).name(), "geographical");
}

#[test]
fn method_clone_and_eq() {
    let m = Method::PNorm(4.0);
    assert_eq!(m.clone(), Method::PNorm(4.0));
    assert_ne!(Method::<f64>::Max, Method::<f64>::Chebyshev);
}

#[test]
fn named_methods_are_p_norm_distances() {
    let one = Computation::PNormDistance { exponent: Exponent::One, squared: false };
    let two = Computation::PNormDistance { exponent: Exponent::Two, squared: false };
    let inf = Computation::PNormDistance { exponent: Exponent::Infinite, squared: false };
    assert_eq!(Method::<f64>::Manhattan.computation(), one);
    assert_eq!(Method::<f64>::CityBlock.computation(), one);
    assert_eq!(Method::<f64>::Euclidean.computation(), two);
    assert_eq!(
        Method::<f64>::SqEuclidean.computation(),
        Computation::PNormDistance { exponent: Exponent::Two, squared: true }
    );
    assert_eq!(Method::<f64>::Max.computation(), inf);
    assert_eq!(Method::<f64>::Chebyshev.computation(), inf);
    assert_eq!(
        Method::PNorm(3.0).computation(),
        Computation::PNormDistance { exponent: Exponent::Given(3.0), squared: false }
    );
}

#[test]
fn other_methods_keep_their_computation() {
    assert_eq!(Method::<f64>::Cosine.computation(), Computation::CosineDistance);
    assert_eq!(Method::<f64>::Canberra.computation(), Computation::CanberraDistance);
    assert_eq!(Method::<f64>::BrayCurtis.computation(), Computation::BrayCurtisDistance);
    assert_eq!(Method::Sphere(6371.0).computation(), Computation::SphereDistance(6371.0));
    assert_eq!(
        Method::Geographical(1.0).computation(),
        Computation::GeographicalDistance(1.0)
    );
}

#[test]
fn method_configuration() {
    assert_eq!(Method::PNorm(4.0).config(), Config::Exponent(4.0));
    assert_eq!(Method::Sphere(1.0).config(), Config::Radius(1.0));
    assert_eq!(Method::Geographical(2.5).config(), Config::Radius(2.5));
    assert_eq!(Method::<f64>::Euclidean.config(), Config::Empty);
}

#[test]
fn configuration_text() {
    assert_eq!(config_text(&Config::Exponent("2".to_string())), "{\"exponent\": 2}");
    assert_eq!(config_text(&Config::Radius("6371".to_string())), "{\"radius\": 6371}");
    assert_eq!(config_text(&Config::Empty), "{}");
    let r = 6371.0_f64;
    assert_eq!(config_text(&Config::Radius(format!("{r}"))), format!("{{\"radius\": {r}}}"));
}
