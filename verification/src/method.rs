//! The distance methods the library offers, and their names.
use vstd::prelude::*;

verus! {

/// A distance method, carrying its configuration inline.
///
/// The parameter type `P` is the scalar type of the configuration: the
/// exponent of the p-norm, or the radius of the sphere.
#[derive(Debug, Clone, PartialEq)]
pub enum Method<P> {
    /// p-norm with the given exponent (an infinite exponent gives Chebyshev).
    PNorm(P),
    Manhattan,
    CityBlock,
    Cosine,
    Canberra,
    BrayCurtis,
    Euclidean,
    SqEuclidean,
    Max,
    Chebyshev,
    /// Great-circle distance on a sphere of the given radius.
    Sphere(P),
    /// Great-circle distance from geographical (lat/lng in degrees) coordinates.
    Geographical(P),
}

impl<P> Method<P> {
    /// The lower-case label of the method, as shown to users.
    pub open spec fn spec_name(&self) -> Seq<char> {
        match self {
            Method::PNorm(_) => "pnorm"@,
            Method::Manhattan => "manhattan"@,
            Method::CityBlock => "cityblock"@,
            Method::Cosine => "cosine"@,
            Method::Canberra => "canberra"@,
            Method::BrayCurtis => "braycurtis"@,
            Method::Euclidean => "euclidean"@,
            Method::SqEuclidean => "sqeuclidean"@,
            Method::Max => "max"@,
            Method::Chebyshev => "chebyshev"@,
            Method::Sphere(_) => "sphere"@,
            Method::Geographical(_) => "geographical"@,
        }
    }

    /// Returns the lower-case label of the method (`"pnorm"`, `"manhattan"`, ...).
    pub fn name(&self) -> (s: String)
        ensures
            s@ == self.spec_name(),
            self is PNorm ==> s@ == "pnorm"@,
            self is Manhattan ==> s@ == "manhattan"@,
            self is CityBlock ==> s@ == "cityblock"@,
            self is Cosine ==> s@ == "cosine"@,
            self is Canberra ==> s@ == "canberra"@,
            self is BrayCurtis ==> s@ == "braycurtis"@,
            self is Euclidean ==> s@ == "euclidean"@,
            self is SqEuclidean ==> s@ == "sqeuclidean"@,
            self is Max ==> s@ == "max"@,
            self is Chebyshev ==> s@ == "chebyshev"@,
            self is Sphere ==> s@ == "sphere"@,
            self is Geographical ==> s@ == "geographical"@,
    {
        let label: &str = match self {
            Method::PNorm(_) => "pnorm",
            Method::Manhattan => "manhattan",
            Method::CityBlock => "cityblock",
            Method::Cosine => "cosine",
            Method::Canberra => "canberra",
            Method::BrayCurtis => "braycurtis",
            Method::Euclidean => "euclidean",
            Method::SqEuclidean => "sqeuclidean",
            Method::Max => "max",
            Method::Chebyshev => "chebyshev",
            Method::Sphere(_) => "sphere",
            Method::Geographical(_) => "geographical",
        };
        String::from_str(label)
    }
}

/// The exponent of a p-norm distance: the one a method was configured with,
/// or one that a named method fixes.
#[derive(Debug, PartialEq)]
pub enum Exponent<P> {
    /// The configured exponent.
    Given(P),
    /// Exponent 1 (Manhattan, city-block).
    One,
    /// Exponent 2 (Euclidean).
    Two,
    /// Infinite exponent (maximum, Chebyshev).
    Infinite,
}

/// What a distance method computes.
#[derive(Debug, PartialEq)]
pub enum Computation<P> {
    /// The p-norm of the difference of the coordinates, squared when `squared` holds.
    PNormDistance { exponent: Exponent<P>, squared: bool },
    /// One minus the cosine of the angle between the coordinates.
    CosineDistance,
    /// The sum of `|a − b| / (|a| + |b|)` over the coordinates.
    CanberraDistance,
    /// `Σ|a − b| / Σ|a + b|` over the coordinates.
    BrayCurtisDistance,
    /// Great-circle distance between spherical coordinates on a sphere of this radius.
    SphereDistance(P),
    /// Great-circle distance between geographical coordinates on a sphere of this radius.
    GeographicalDistance(P),
}

/// The configuration a method carries, labelled by its meaning.
#[derive(Debug, PartialEq)]
pub enum Config<P> {
    /// The exponent of a p-norm.
    Exponent(P),
    /// The radius of a sphere.
    Radius(P),
    /// The method carries no configuration.
    Empty,
}

impl<P> Method<P> {
    /// The computation that the method stands for.
    pub open spec fn spec_computation(&self) -> Computation<P> {
        match self {
            Method::PNorm(p) => Computation::PNormDistance { exponent: Exponent::Given(*p), squared: false },
            Method::Manhattan => Computation::PNormDistance { exponent: Exponent::One, squared: false },
            Method::CityBlock => Computation::PNormDistance { exponent: Exponent::One, squared: false },
            Method::Cosine => Computation::CosineDistance,
            Method::Canberra => Computation::CanberraDistance,
            Method::BrayCurtis => Computation::BrayCurtisDistance,
            Method::Euclidean => Computation::PNormDistance { exponent: Exponent::Two, squared: false },
            Method::SqEuclidean => Computation::PNormDistance { exponent: Exponent::Two, squared: true },
            Method::Max => Computation::PNormDistance { exponent: Exponent::Infinite, squared: false },
            Method::Chebyshev => Computation::PNormDistance {
                exponent: Exponent::Infinite,
                squared: false,
            },
            Method::Sphere(r) => Computation::SphereDistance(*r),
            Method::Geographical(r) => Computation::GeographicalDistance(*r),
        }
    }

    /// The configuration the method carries.
    pub open spec fn spec_config(&self) -> Config<P> {
        match self {
            Method::PNorm(p) => Config::Exponent(*p),
            Method::Sphere(r) => Config::Radius(*r),
            Method::Geographical(r) => Config::Radius(*r),
            _ => Config::Empty,
        }
    }

    /// Returns the computation that the method stands for.
    pub fn computation(&self) -> (c: Computation<P>)
        where
            P: Copy,
        ensures
            c == self.spec_computation(),
            self matches Method::PNorm(p) ==> c == (Computation::PNormDistance {
                exponent: Exponent::Given(*p),
                squared: false,
            }),
            (self is Manhattan || self is CityBlock) ==> c == (Computation::<P>::PNormDistance {
                exponent: Exponent::One,
                squared: false,
            }),
            self is Euclidean ==> c == (Computation::<P>::PNormDistance {
                exponent: Exponent::Two,
                squared: false,
            }),
            self is SqEuclidean ==> c == (Computation::<P>::PNormDistance {
                exponent: Exponent::Two,
                squared: true,
            }),
            (self is Max || self is Chebyshev) ==> c == (Computation::<P>::PNormDistance {
                exponent: Exponent::Infinite,
                squared: false,
            }),
            self is Cosine ==> c == Computation::<P>::CosineDistance,
            self is Canberra ==> c == Computation::<P>::CanberraDistance,
            self is BrayCurtis ==> c == Computation::<P>::BrayCurtisDistance,
            self matches Method::Sphere(r) ==> c == Computation::SphereDistance(*r),
            self matches Method::Geographical(r) ==> c == Computation::GeographicalDistance(*r),
    {
        match self {
            Method::PNorm(p) => Computation::PNormDistance { exponent: Exponent::Given(*p), squared: false },
            Method::Manhattan | Method::CityBlock => Computation::PNormDistance {
                exponent: Exponent::One,
                squared: false,
            },
            Method::Cosine => Computation::CosineDistance,
            Method::Canberra => Computation::CanberraDistance,
            Method::BrayCurtis => Computation::BrayCurtisDistance,
            Method::Euclidean => Computation::PNormDistance { exponent: Exponent::Two, squared: false },
            Method::SqEuclidean => Computation::PNormDistance { exponent: Exponent::Two, squared: true },
            Method::Max | Method::Chebyshev => Computation::PNormDistance {
                exponent: Exponent::Infinite,
                squared: false,
            },
            Method::Sphere(r) => Computation::SphereDistance(*r),
            Method::Geographical(r) => Computation::GeographicalDistance(*r),
        }
    }

    /// Returns the configuration the method carries: the exponent of a
    /// p-norm, the radius of a sphere, or nothing.
    pub fn config(&self) -> (c: Config<P>)
        where
            P: Copy,
        ensures
            c == self.spec_config(),
            self matches Method::PNorm(p) ==> c == Config::Exponent(*p),
            self matches Method::Sphere(r) ==> c == Config::Radius(*r),
            self matches Method::Geographical(r) ==> c == Config::Radius(*r),
            !(self is PNorm || self is Sphere || self is Geographical) ==> c == Config::<P>::Empty,
    {
        match self {
            Method::PNorm(p) => Config::Exponent(*p),
            Method::Sphere(r) | Method::Geographical(r) => Config::Radius(*r),
            _ => Config::Empty,
        }
    }
}

/// The named methods are p-norm distances: Manhattan and city-block are the
/// p-norm with exponent 1, Euclidean with exponent 2, maximum and Chebyshev
/// with an infinite exponent, squared Euclidean is the Euclidean distance
/// squared, and `PNorm(p)` uses the exponent it carries. The aliases compute
/// the same thing.
pub proof fn lemma_method_aliases<P>(p: P)
    ensures
        Method::<P>::Manhattan.spec_computation() == Method::<P>::CityBlock.spec_computation(),
        Method::<P>::Manhattan.spec_computation() == (Computation::<P>::PNormDistance {
            exponent: Exponent::One,
            squared: false,
        }),
        Method::<P>::Max.spec_computation() == Method::<P>::Chebyshev.spec_computation(),
        Method::<P>::Max.spec_computation() == (Computation::<P>::PNormDistance {
            exponent: Exponent::Infinite,
            squared: false,
        }),
        Method::<P>::Euclidean.spec_computation() == (Computation::<P>::PNormDistance {
            exponent: Exponent::Two,
            squared: false,
        }),
        Method::<P>::SqEuclidean.spec_computation() == (Computation::<P>::PNormDistance {
            exponent: Exponent::Two,
            squared: true,
        }),
        Method::PNorm(p).spec_computation() == (Computation::<P>::PNormDistance {
            exponent: Exponent::Given(p),
            squared: false,
        }),
{
}

/// Exactly the p-norm carries an exponent, and exactly the sphere and
/// geographical methods carry a radius, which is the radius of the sphere
/// they measure on.
pub proof fn lemma_config_matches_computation<P>(m: Method<P>)
    ensures
        m.spec_config() is Exponent <==> m is PNorm,
        m.spec_config() is Radius <==> (m is Sphere || m is Geographical),
        m.spec_config() matches Config::Radius(r) ==> (m.spec_computation() == Computation::SphereDistance(r)
            || m.spec_computation() == Computation::GeographicalDistance(r)),
        m.spec_config() matches Config::Exponent(p) ==> m.spec_computation() == (Computation::PNormDistance {
            exponent: Exponent::Given(p),
            squared: false,
        }),
{
}

/// The text of a configuration whose value is already rendered:
/// `{"exponent": v}`, `{"radius": v}`, or `{}`.
pub open spec fn spec_config_text(c: &Config<String>) -> Seq<char> {
    match c {
        Config::Exponent(v) => "{\"exponent\": "@ + v@ + "}"@,
        Config::Radius(v) => "{\"radius\": "@ + v@ + "}"@,
        Config::Empty => "{}"@,
    }
}

/// The characters of `{"exponent": `.
pub open spec fn exponent_prefix() -> Seq<char> {
    seq!['{', '"', 'e', 'x', 'p', 'o', 'n', 'e', 'n', 't', '"', ':', ' ']
}

/// The characters of `{"radius": `.
pub open spec fn radius_prefix() -> Seq<char> {
    seq!['{', '"', 'r', 'a', 'd', 'i', 'u', 's', '"', ':', ' ']
}

/// The rendered configuration holds the whole rendered value between its
/// key and the closing brace: `{"exponent": ` (13 characters), the value,
/// and `}`; or `{"radius": ` (11 characters), the value, and `}`; or `{}`
/// when there is no configuration.
pub proof fn lemma_config_text_layout(c: &Config<String>)
    ensures
        c matches Config::Exponent(v) ==> {
            &&& spec_config_text(c) == exponent_prefix() + v@ + seq!['}']
            &&& spec_config_text(c).len() == 14 + v@.len()
            &&& spec_config_text(c).subrange(13, 13 + v@.len() as int) == v@
            &&& spec_config_text(c).last() == '}'
        },
        c matches Config::Radius(v) ==> {
            &&& spec_config_text(c) == radius_prefix() + v@ + seq!['}']
            &&& spec_config_text(c).len() == 12 + v@.len()
            &&& spec_config_text(c).subrange(11, 11 + v@.len() as int) == v@
            &&& spec_config_text(c).last() == '}'
        },
        c is Empty ==> spec_config_text(c) == seq!['{', '}'],
{
    reveal_strlit("{\"exponent\": ");
    reveal_strlit("{\"radius\": ");
    reveal_strlit("}");
    reveal_strlit("{}");
    match c {
        Config::Exponent(v) => {
            let t = spec_config_text(c);
            assert(t =~= exponent_prefix() + v@ + seq!['}']);
            assert(t.subrange(13, 13 + v@.len() as int) =~= v@);
        },
        Config::Radius(v) => {
            let t = spec_config_text(c);
            assert(t =~= radius_prefix() + v@ + seq!['}']);
            assert(t.subrange(11, 11 + v@.len() as int) =~= v@);
        },
        Config::Empty => {
            assert(spec_config_text(c) =~= seq!['{', '}']);
        },
    }
}

/// Renders a configuration whose value is already rendered as text.
pub fn config_text(c: &Config<String>) -> (s: String)
    ensures
        s@ == spec_config_text(c),
        c matches Config::Exponent(v) ==> s@ == exponent_prefix() + v@ + seq!['}'],
        c matches Config::Radius(v) ==> s@ == radius_prefix() + v@ + seq!['}'],
        c is Empty ==> s@ == seq!['{', '}'],
{
    proof {
        lemma_config_text_layout(c);
    }
    match c {
        Config::Exponent(v) => {
            let mut s = String::from_str("{\"exponent\": ");
            s.append(v.as_str());
            s.append("}");
            s
        },
        Config::Radius(v) => {
            let mut s = String::from_str("{\"radius\": ");
            s.append(v.as_str());
            s.append("}");
            s
        },
        Config::Empty => String::from_str("{}"),
    }
}

} // verus!
