//! The closed registry of algorithms the service can list and run.
//!
//! Each algorithm has a stable lowercase identifier (the wire tag), a display
//! name, and a category. The registry is fixed at compile time: adding an
//! algorithm means adding one variant and extending the match arms here.

use vstd::prelude::*;

use crate::text::str_eq;

verus! {

/// One of the algorithms the service knows. The set is closed: dispatch is
/// over this enum only, never over free-form strings.
#[derive(Clone, Copy, Debug, PartialEq, Eq, Structural)]
pub enum Algorithm {
    Dijkstra,
    Johnson,
    Prim,
    RucksackPTAS,
    RucksackFPTAS,
}

/// Category tag of an algorithm.
#[derive(Clone, Copy, Debug, PartialEq, Eq, Structural)]
pub enum AlgorithmType {
    Graph,
    Approximation,
}

impl Algorithm {
    /// Display name, as shown in listings.
    pub open spec fn spec_name(self) -> Seq<char> {
        match self {
            Algorithm::Dijkstra => "Dijkstra"@,
            Algorithm::Johnson => "Johnson"@,
            Algorithm::Prim => "Prim"@,
            Algorithm::RucksackPTAS => "Rucksack-PTAS"@,
            Algorithm::RucksackFPTAS => "Rucksack-FPTAS"@,
        }
    }

    /// Stable lowercase identifier, as carried in requests.
    pub open spec fn spec_identifier(self) -> Seq<char> {
        match self {
            Algorithm::Dijkstra => "dijkstra"@,
            Algorithm::Johnson => "johnson"@,
            Algorithm::Prim => "prim"@,
            Algorithm::RucksackPTAS => "rucksack-ptas"@,
            Algorithm::RucksackFPTAS => "rucksack-fptas"@,
        }
    }

    /// Whether the algorithm carries the given category tag.
    pub open spec fn spec_is_type(self, alg_type: AlgorithmType) -> bool {
        match alg_type {
            AlgorithmType::Graph => self is Dijkstra || self is Johnson || self is Prim,
            AlgorithmType::Approximation => self is RucksackPTAS || self is RucksackFPTAS,
        }
    }

    /// All algorithms, in registration order.
    pub open spec fn spec_values() -> Seq<Algorithm> {
        seq![
            Algorithm::Dijkstra,
            Algorithm::Johnson,
            Algorithm::Prim,
            Algorithm::RucksackPTAS,
            Algorithm::RucksackFPTAS,
        ]
    }

    /// The full registry, in registration order.
    pub fn values() -> (r: Vec<Algorithm>)
        ensures
            r@ == Algorithm::spec_values(),
    {
        let r = vec![
            Algorithm::Dijkstra,
            Algorithm::Johnson,
            Algorithm::Prim,
            Algorithm::RucksackPTAS,
            Algorithm::RucksackFPTAS,
        ];
        proof {
            assert(r@ =~= Algorithm::spec_values());
        }
        r
    }

    /// Display name of the algorithm.
    pub fn name(&self) -> (r: &'static str)
        ensures
            r@ == self.spec_name(),
    {
        match self {
            Algorithm::Dijkstra => "Dijkstra",
            Algorithm::Johnson => "Johnson",
            Algorithm::Prim => "Prim",
            Algorithm::RucksackPTAS => "Rucksack-PTAS",
            Algorithm::RucksackFPTAS => "Rucksack-FPTAS",
        }
    }

    /// Stable identifier of the algorithm.
    pub fn identifier(&self) -> (r: &'static str)
        ensures
            r@ == self.spec_identifier(),
    {
        match self {
            Algorithm::Dijkstra => "dijkstra",
            Algorithm::Johnson => "johnson",
            Algorithm::Prim => "prim",
            Algorithm::RucksackPTAS => "rucksack-ptas",
            Algorithm::RucksackFPTAS => "rucksack-fptas",
        }
    }

    /// The algorithm whose identifier is the given string, if any.
    pub open spec fn spec_from_identifier(s: Seq<char>) -> Option<Algorithm> {
        if s == "dijkstra"@ {
            Some(Algorithm::Dijkstra)
        } else if s == "johnson"@ {
            Some(Algorithm::Johnson)
        } else if s == "prim"@ {
            Some(Algorithm::Prim)
        } else if s == "rucksack-ptas"@ {
            Some(Algorithm::RucksackPTAS)
        } else if s == "rucksack-fptas"@ {
            Some(Algorithm::RucksackFPTAS)
        } else {
            None
        }
    }

    /// The ordered subsequence of the registry tagged with the given category.
    pub open spec fn spec_filter(alg_type: AlgorithmType) -> Seq<Algorithm> {
        match alg_type {
            AlgorithmType::Graph => seq![
                Algorithm::Dijkstra,
                Algorithm::Johnson,
                Algorithm::Prim,
            ],
            AlgorithmType::Approximation => seq![
                Algorithm::RucksackPTAS,
                Algorithm::RucksackFPTAS,
            ],
        }
    }

    /// Category tags of the algorithm.
    pub open spec fn spec_categories(self) -> Seq<AlgorithmType> {
        if self.spec_is_type(AlgorithmType::Graph) {
            seq![AlgorithmType::Graph]
        } else {
            seq![AlgorithmType::Approximation]
        }
    }

    /// Registry lookup of a request's algorithm identifier. Returns `None`
    /// exactly when the identifier names no registered algorithm.
    pub fn from_identifier(s: &str) -> (r: Option<Algorithm>)
        ensures
            r == Algorithm::spec_from_identifier(s@),
    {
        if str_eq(s, "dijkstra") {
            Some(Algorithm::Dijkstra)
        } else if str_eq(s, "johnson") {
            Some(Algorithm::Johnson)
        } else if str_eq(s, "prim") {
            Some(Algorithm::Prim)
        } else if str_eq(s, "rucksack-ptas") {
            Some(Algorithm::RucksackPTAS)
        } else if str_eq(s, "rucksack-fptas") {
            Some(Algorithm::RucksackFPTAS)
        } else {
            None
        }
    }

    /// All algorithm identifiers the registry knows, in registration order.
    pub fn all() -> (r: Vec<Algorithm>)
        ensures
            r@ == Algorithm::spec_values(),
    {
        Algorithm::values()
    }

    /// The algorithms tagged with the given category, in registration order.
    pub fn filter(alg_type: AlgorithmType) -> (r: Vec<Algorithm>)
        ensures
            r@ == Algorithm::spec_filter(alg_type),
    {
        let r = match alg_type {
            AlgorithmType::Graph => vec![
                Algorithm::Dijkstra,
                Algorithm::Johnson,
                Algorithm::Prim,
            ],
            AlgorithmType::Approximation => vec![
                Algorithm::RucksackPTAS,
                Algorithm::RucksackFPTAS,
            ],
        };
        proof {
            assert(r@ =~= Algorithm::spec_filter(alg_type));
        }
        r
    }

    /// The category tags of the algorithm.
    pub fn categories(&self) -> (r: Vec<AlgorithmType>)
        ensures
            r@ == self.spec_categories(),
    {
        let r = if self.is_type(AlgorithmType::Graph) {
            vec![AlgorithmType::Graph]
        } else {
            vec![AlgorithmType::Approximation]
        };
        proof {
            assert(r@ =~= self.spec_categories());
        }
        r
    }

    /// Whether the algorithm carries the given category tag.
    pub fn is_type(&self, alg_type: AlgorithmType) -> (r: bool)
        ensures
            r == self.spec_is_type(alg_type),
    {
        match alg_type {
            AlgorithmType::Graph => {
                match self {
                    Algorithm::Dijkstra => true,
                    Algorithm::Johnson => true,
                    Algorithm::Prim => true,
                    _ => false,
                }
            },
            AlgorithmType::Approximation => {
                match self {
                    Algorithm::RucksackPTAS => true,
                    Algorithm::RucksackFPTAS => true,
                    _ => false,
                }
            },
        }
    }
}

/// Law: `filter` returns exactly the subsequence of the registry carrying the
/// given tag, in registration order.
pub proof fn lemma_filter_is_registry_subsequence(alg_type: AlgorithmType)
    ensures
        Algorithm::spec_filter(alg_type) == Algorithm::spec_values().filter(
            |a: Algorithm| a.spec_is_type(alg_type),
        ),
{
    reveal_with_fuel(Seq::<_>::filter, 6);
    assert(Algorithm::spec_filter(alg_type) =~= Algorithm::spec_values().filter(
        |a: Algorithm| a.spec_is_type(alg_type),
    ));
}

/// Law: the full registry is the graph algorithms followed by the
/// approximation algorithms; the two filters partition `all()` in
/// registration order.
pub proof fn lemma_all_is_union_of_categories()
    ensures
        Algorithm::spec_values() == Algorithm::spec_filter(AlgorithmType::Graph)
            + Algorithm::spec_filter(AlgorithmType::Approximation),
{
    assert(Algorithm::spec_values() =~= Algorithm::spec_filter(AlgorithmType::Graph)
        + Algorithm::spec_filter(AlgorithmType::Approximation));
}

/// Law: looking up an algorithm's own identifier finds that algorithm; the
/// identifiers are pairwise distinct.
pub proof fn lemma_identifier_round_trip(a: Algorithm)
    ensures
        Algorithm::spec_from_identifier(a.spec_identifier()) == Some(a),
{
    reveal_strlit("dijkstra");
    reveal_strlit("johnson");
    reveal_strlit("prim");
    reveal_strlit("rucksack-ptas");
    reveal_strlit("rucksack-fptas");
    assert("dijkstra"@.len() == 8);
    assert("johnson"@.len() == 7);
    assert("prim"@.len() == 4);
    assert("rucksack-ptas"@.len() == 13);
    assert("rucksack-fptas"@.len() == 14);
}

/// Law: an algorithm's category tags are exactly the tags it carries.
pub proof fn lemma_categories_exact(a: Algorithm, alg_type: AlgorithmType)
    ensures
        a.spec_categories().contains(alg_type) == a.spec_is_type(alg_type),
{
    if a.spec_is_type(alg_type) {
        assert(a.spec_categories()[0] == alg_type);
    }
}

} // verus!
