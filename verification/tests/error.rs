use dirst::error::{
    check_cartesian_input, check_geographical, check_norms, check_spherical, exponent_plan, Culprit,
    DistanceError, NormEvaluation,
};

#[test]
fn geographical_messages_name_the_invalid_coordinates() {
    let both = check_geographical(false, false).unwrap_err();
    assert_eq!(both, DistanceError::NotGeographical(Culprit::Both));
    assert_eq!(both.message(), "Both provided coordinates are not geographical!");

    let first = check_geographical(false, true).unwrap_err();
    assert_eq!(first, DistanceError::NotGeographical(Culprit::First));
    assert_eq!(first.message(), "Provided coordinate 1 is not geographical!");

    let second = check_geographical(true, false).unwrap_err();
    assert_eq!(second, DistanceError::NotGeographical(Culprit::Second));
    assert_eq!(second.message(), "Provided coordinate 2 is not geographical!");
}

#[test]
fn geographical_check_accepts_valid_pairs() {
    assert_eq!(check_geographical(true, true), Ok(()));
}

#[test]
fn fixed_messages() {
    assert_eq!(
        DistanceError::ExponentBelowOne.message(),
        "The exponent n must be a number greater or equal to 1!"
    );
    assert_eq!(
        DistanceError::NullVector.message(),
        "Method 'cosine' does not support a null vector."
    );
    assert_eq!(
        DistanceError::NotSpherical.message(),
        "Provided coordinates are not spherical!"
    );
}

#[test]
fn spherical_criteria_message_lists_the_last_index() {
    let msg = DistanceError::SphericalCriteria { len: 2 }.message();
    assert!(msg.contains("criteria"));
    assert_eq!(
        msg,
        "These are criteria for input to be spherical: \n1. It is an array with more than two elements;\n 2. Elements between indexes 0 to 1 must be between -pi and pi;\n 3. Last element must be between 0 and 2*pi."
    );
    let wide = DistanceError::SphericalCriteria { len: 1025 }.message();
    assert!(wide.contains("indexes 0 to 1024 must"));
}

#[test]
fn spherical_criteria_message_of_a_single_element() {
    let msg = DistanceError::SphericalCriteria { len: 1 }.message();
    assert!(msg.contains("indexes 0 to 0 must"));
}

#[test]
fn spherical_check_fails_when_either_coordinate_is_invalid() {
    assert_eq!(check_spherical(true, true), Ok(()));
    assert_eq!(check_spherical(false, true), Err(DistanceError::NotSpherical));
    assert_eq!(check_spherical(true, false), Err(DistanceError::NotSpherical));
    assert_eq!(check_spherical(false, false), Err(DistanceError::NotSpherical));
    assert_eq!(
        check_spherical(true, false).unwrap_err().message(),
        "Provided coordinates are not spherical!"
    );
}

#[test]
fn exponent_plan_rejects_exponents_below_one() {
    let err = exponent_plan(true, false).unwrap_err();
    assert_eq!(err, DistanceError::ExponentBelowOne);
    assert_eq!(err.message(), "The exponent n must be a number greater or equal to 1!");
    assert_eq!(exponent_plan(false, false), Ok(NormEvaluation::PowerSum));
    assert_eq!(exponent_plan(false, true), Ok(NormEvaluation::LargestDifference));
}

#[test]
fn exponent_plan_on_float_outcomes() {
    for (p, expected) in [
        (0.5_f64, Err(DistanceError::ExponentBelowOne)),
        (1.0, Ok(NormEvaluation::PowerSum)),
        (3.0, Ok(NormEvaluation::PowerSum)),
        (f64::INFINITY, Ok(NormEvaluation::LargestDifference)),
    ] {
        assert_eq!(exponent_plan(p < 1.0, p == f64::INFINITY), expected);
    }
}

#[test]
fn norms_check_rejects_null_vectors() {
    assert_eq!(check_norms(false, false), Ok(()));
    assert_eq!(check_norms(true, false), Err(DistanceError::NullVector));
    assert_eq!(check_norms(false, true), Err(DistanceError::NullVector));
    assert_eq!(
        check_norms(true, true).unwrap_err().message(),
        "Method 'cosine' does not support a null vector."
    );
}

#[test]
fn cartesian_input_check_reports_the_criteria() {
    assert_eq!(check_cartesian_input(true, 2), Ok(()));
    let err = check_cartesian_input(false, 2).unwrap_err();
    assert_eq!(err, DistanceError::SphericalCriteria { len: 2 });
    assert!(err.message().contains("criteria"));
    assert!(err.message().contains("indexes 0 to 1 must"));
}
