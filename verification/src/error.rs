//! The validation decisions of the distance computations, the errors they
//! report, and the messages of those errors.
use vstd::prelude::*;
use crate::decimal::{decimal_string, spec_decimal};

verus! {

/// Which of the two coordinates handed to a geographical distance are invalid.
#[derive(Debug, Clone, Copy, PartialEq, Eq, Structural)]
pub enum Culprit {
    Both,
    First,
    Second,
}

/// An error of a distance computation.
#[derive(Debug, Clone, Copy, PartialEq, Eq, Structural)]
pub enum DistanceError {
    /// The exponent of a p-norm is below one.
    ExponentBelowOne,
    /// The cosine distance was asked of a vector of norm zero.
    NullVector,
    /// A coordinate handed to the sphere method is not spherical.
    NotSpherical,
    /// One or both coordinates handed to the geographical method are not geographical.
    NotGeographical(Culprit),
    /// A coordinate of `len` elements converted to Cartesian form is not spherical.
    SphericalCriteria { len: usize },
}

/// The subject of the sentence that reports invalid geographical coordinates.
pub open spec fn culprit_subject(c: Culprit) -> Seq<char> {
    match c {
        Culprit::Both => "Both provided coordinates"@,
        Culprit::First => "Provided coordinate 1"@,
        Culprit::Second => "Provided coordinate 2"@,
    }
}

/// The verb that agrees with `culprit_subject(c)`.
pub open spec fn culprit_verb(c: Culprit) -> Seq<char> {
    match c {
        Culprit::Both => "are"@,
        _ => "is"@,
    }
}

/// The first part of the message that lists the criteria of spherical coordinates.
pub open spec fn criteria_head() -> Seq<char> {
    "These are criteria for input to be spherical: \n\
     1. It is an array with more than two elements;\n \
     2. Elements between indexes 0 to "@
}

/// The last part of the message that lists the criteria of spherical coordinates.
pub open spec fn criteria_tail() -> Seq<char> {
    " must be between -pi and pi;\n \
     3. Last element must be between 0 and 2*pi."@
}

impl DistanceError {
    /// The message that reports the error to users.
    pub open spec fn spec_message(&self) -> Seq<char> {
        match self {
            DistanceError::ExponentBelowOne => "The exponent n must be a number greater or equal to 1!"@,
            DistanceError::NullVector => "Method 'cosine' does not support a null vector."@,
            DistanceError::NotSpherical => "Provided coordinates are not spherical!"@,
            DistanceError::NotGeographical(c) => culprit_subject(*c) + " "@ + culprit_verb(*c)
                + " not geographical!"@,
            DistanceError::SphericalCriteria { len } => criteria_head() + spec_decimal(
                (*len - 1) as nat,
            ) + criteria_tail(),
        }
    }

    /// The error has a message: the criteria message names the last index of
    /// the coordinate, so the coordinate must not be empty.
    pub open spec fn has_message(&self) -> bool {
        match self {
            DistanceError::SphericalCriteria { len } => *len >= 1,
            _ => true,
        }
    }

    /// Returns the message that reports the error to users.
    pub fn message(&self) -> (s: String)
        requires
            self.has_message(),
        ensures
            s@ == self.spec_message(),
            self is ExponentBelowOne ==> s@
                == "The exponent n must be a number greater or equal to 1!"@,
            self is NullVector ==> s@ == "Method 'cosine' does not support a null vector."@,
            self is NotSpherical ==> s@ == "Provided coordinates are not spherical!"@,
            *self == DistanceError::NotGeographical(Culprit::Both) ==> s@
                == "Both provided coordinates are not geographical!"@,
            *self == DistanceError::NotGeographical(Culprit::First) ==> s@
                == "Provided coordinate 1 is not geographical!"@,
            *self == DistanceError::NotGeographical(Culprit::Second) ==> s@
                == "Provided coordinate 2 is not geographical!"@,
            self matches DistanceError::SphericalCriteria { len } ==> s@
                == "These are criteria for input to be spherical: \n\
                    1. It is an array with more than two elements;\n \
                    2. Elements between indexes 0 to "@ + spec_decimal((len - 1) as nat)
                + " must be between -pi and pi;\n \
                    3. Last element must be between 0 and 2*pi."@,
    {
        proof {
            lemma_geographical_sentences();
        }
        match self {
            DistanceError::ExponentBelowOne => String::from_str(
                "The exponent n must be a number greater or equal to 1!",
            ),
            DistanceError::NullVector => String::from_str(
                "Method 'cosine' does not support a null vector.",
            ),
            DistanceError::NotSpherical => String::from_str("Provided coordinates are not spherical!"),
            DistanceError::NotGeographical(c) => {
                let subject: &str = match c {
                    Culprit::Both => "Both provided coordinates",
                    Culprit::First => "Provided coordinate 1",
                    Culprit::Second => "Provided coordinate 2",
                };
                let verb: &str = match c {
                    Culprit::Both => "are",
                    _ => "is",
                };
                let mut s = String::from_str(subject);
                s.append(" ");
                s.append(verb);
                s.append(" not geographical!");
                s
            },
            DistanceError::SphericalCriteria { len } => {
                let mut s = String::from_str(
                    "These are criteria for input to be spherical: \n\
                     1. It is an array with more than two elements;\n \
                     2. Elements between indexes 0 to ",
                );
                let digits = decimal_string(*len - 1);
                s.append(digits.as_str());
                s.append(
                    " must be between -pi and pi;\n \
                     3. Last element must be between 0 and 2*pi.",
                );
                s
            },
        }
    }
}

/// How the p-norm of a difference is evaluated once its exponent is accepted.
#[derive(Debug, Clone, Copy, PartialEq, Eq, Structural)]
pub enum NormEvaluation {
    /// An infinite exponent: the largest absolute difference.
    LargestDifference,
    /// A finite exponent: the root of the sum of powers.
    PowerSum,
}

/// The sentences that report invalid geographical coordinates.
pub proof fn lemma_geographical_sentences()
    ensures
        DistanceError::NotGeographical(Culprit::Both).spec_message()
            == "Both provided coordinates are not geographical!"@,
        DistanceError::NotGeographical(Culprit::First).spec_message()
            == "Provided coordinate 1 is not geographical!"@,
        DistanceError::NotGeographical(Culprit::Second).spec_message()
            == "Provided coordinate 2 is not geographical!"@,
{
    reveal_strlit("Both provided coordinates");
    reveal_strlit("Provided coordinate 1");
    reveal_strlit("Provided coordinate 2");
    reveal_strlit("are");
    reveal_strlit("is");
    reveal_strlit(" ");
    reveal_strlit(" not geographical!");
    reveal_strlit("Both provided coordinates are not geographical!");
    reveal_strlit("Provided coordinate 1 is not geographical!");
    reveal_strlit("Provided coordinate 2 is not geographical!");
    assert(DistanceError::NotGeographical(Culprit::Both).spec_message()
        =~= "Both provided coordinates are not geographical!"@);
    assert(DistanceError::NotGeographical(Culprit::First).spec_message()
        =~= "Provided coordinate 1 is not geographical!"@);
    assert(DistanceError::NotGeographical(Culprit::Second).spec_message()
        =~= "Provided coordinate 2 is not geographical!"@);
}

/// The outcome of checking the exponent of a p-norm distance, given whether
/// it is below one and whether it is infinite.
pub open spec fn spec_exponent_plan(below_one: bool, infinite: bool) -> Result<NormEvaluation, DistanceError> {
    if below_one {
        Err(DistanceError::ExponentBelowOne)
    } else if infinite {
        Ok(NormEvaluation::LargestDifference)
    } else {
        Ok(NormEvaluation::PowerSum)
    }
}

/// Rejects an exponent below one, and otherwise chooses how the p-norm is
/// evaluated: by the largest difference for an infinite exponent, by the
/// sum of powers for a finite one.
pub fn exponent_plan(below_one: bool, infinite: bool) -> (r: Result<NormEvaluation, DistanceError>)
    ensures
        r == spec_exponent_plan(below_one, infinite),
        r is Err <==> below_one,
        below_one ==> r == Err::<NormEvaluation, DistanceError>(DistanceError::ExponentBelowOne),
        !below_one && infinite ==> r == Ok::<NormEvaluation, DistanceError>(NormEvaluation::LargestDifference),
        !below_one && !infinite ==> r == Ok::<NormEvaluation, DistanceError>(NormEvaluation::PowerSum),
{
    if below_one {
        return Err(DistanceError::ExponentBelowOne);
    }
    if infinite {
        Ok(NormEvaluation::LargestDifference)
    } else {
        Ok(NormEvaluation::PowerSum)
    }
}

/// The outcome of checking the norms of the two vectors of a cosine distance.
pub open spec fn spec_check_norms(first_null: bool, second_null: bool) -> Result<(), DistanceError> {
    if first_null || second_null {
        Err(DistanceError::NullVector)
    } else {
        Ok(())
    }
}

/// Rejects a cosine distance when either vector has norm zero.
pub fn check_norms(first_null: bool, second_null: bool) -> (r: Result<(), DistanceError>)
    ensures
        r == spec_check_norms(first_null, second_null),
        r is Ok <==> (!first_null && !second_null),
        r is Err ==> r == Err::<(), DistanceError>(DistanceError::NullVector),
{
    if first_null || second_null {
        Err(DistanceError::NullVector)
    } else {
        Ok(())
    }
}

/// The outcome of checking a coordinate of `len` elements before it is
/// converted to Cartesian form, given whether it is spherical.
pub open spec fn spec_check_cartesian_input(spherical: bool, len: usize) -> Result<(), DistanceError> {
    if spherical {
        Ok(())
    } else {
        Err(DistanceError::SphericalCriteria { len })
    }
}

/// Accepts a spherical coordinate for conversion to Cartesian form, and
/// otherwise reports the criteria of spherical coordinates. A coordinate
/// that is not spherical must have an element, whose index the report names.
pub fn check_cartesian_input(spherical: bool, len: usize) -> (r: Result<(), DistanceError>)
    requires
        spherical || len >= 1,
    ensures
        r == spec_check_cartesian_input(spherical, len),
        r is Ok <==> spherical,
        !spherical ==> r == Err::<(), DistanceError>(DistanceError::SphericalCriteria { len }),
        r matches Err(e) ==> e.has_message(),
{
    if spherical {
        Ok(())
    } else {
        Err(DistanceError::SphericalCriteria { len })
    }
}

/// The outcome of validating the two coordinates of a sphere distance.
pub open spec fn spec_check_spherical(first_ok: bool, second_ok: bool) -> Result<(), DistanceError> {
    if first_ok && second_ok {
        Ok(())
    } else {
        Err(DistanceError::NotSpherical)
    }
}

/// Accepts a pair of coordinates when both are spherical.
pub fn check_spherical(first_ok: bool, second_ok: bool) -> (r: Result<(), DistanceError>)
    ensures
        r == spec_check_spherical(first_ok, second_ok),
        r is Ok <==> (first_ok && second_ok),
        r is Err ==> r == Err::<(), DistanceError>(DistanceError::NotSpherical),
{
    if !first_ok || !second_ok {
        Err(DistanceError::NotSpherical)
    } else {
        Ok(())
    }
}

/// The outcome of validating the two coordinates of a geographical distance.
pub open spec fn spec_check_geographical(first_ok: bool, second_ok: bool) -> Result<(), DistanceError> {
    if first_ok && second_ok {
        Ok(())
    } else if !first_ok && !second_ok {
        Err(DistanceError::NotGeographical(Culprit::Both))
    } else if !first_ok {
        Err(DistanceError::NotGeographical(Culprit::First))
    } else {
        Err(DistanceError::NotGeographical(Culprit::Second))
    }
}

/// Accepts a pair of coordinates when both are geographical, and otherwise
/// names the ones that are not.
pub fn check_geographical(first_ok: bool, second_ok: bool) -> (r: Result<(), DistanceError>)
    ensures
        r == spec_check_geographical(first_ok, second_ok),
        r is Ok <==> (first_ok && second_ok),
        !first_ok && !second_ok ==> r == Err::<(), DistanceError>(
            DistanceError::NotGeographical(Culprit::Both),
        ),
        !first_ok && second_ok ==> r == Err::<(), DistanceError>(
            DistanceError::NotGeographical(Culprit::First),
        ),
        first_ok && !second_ok ==> r == Err::<(), DistanceError>(
            DistanceError::NotGeographical(Culprit::Second),
        ),
{
    if !first_ok || !second_ok {
        let culprit = match (first_ok, second_ok) {
            (false, false) => Culprit::Both,
            (false, true) => Culprit::First,
            _ => Culprit::Second,
        };
        Err(DistanceError::NotGeographical(culprit))
    } else {
        Ok(())
    }
}

} // verus!
