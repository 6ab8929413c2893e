//! The closed family of routers, and the choice of one of them by name.

use crate::distance_strategy::DistanceStrategy;
use crate::error::ConstructionError;
use crate::pathfinding_strategy::PathfindingStrategy;
use crate::routing_flavor::RoutingFlavor;
use crate::text::str_equal;
use vstd::prelude::*;
use vstd::string::StringExecFns;

verus! {

/// The capabilities that a build of the search engine offers beyond the
/// ones that are always there.
#[derive(Clone, Copy, Debug, PartialEq, Eq, Structural)]
pub struct Features {
    /// Contacts carry the work area that the contact-graph search needs.
    pub contact_work_area: bool,
    /// Contacts can be suppressed, which the first-ending flavor needs.
    pub contact_suppression: bool,
    /// Routes are followed up to their first depleted contact.
    pub first_depleted: bool,
}

/// How a shortest-path router keeps its routes.
#[derive(Clone, Copy, Debug, PartialEq, Eq, Structural)]
pub struct SpsnOptions {
    /// A cached route is only served to bundles of a fitting priority.
    pub check_priority: bool,
    /// A cached route is only served to bundles of a fitting size.
    pub check_size: bool,
    /// The number of route trees that the cache retains.
    pub max_entries: usize,
}

/// Where a router keeps the routes it has found.
#[derive(Clone, Copy, Debug, PartialEq, Eq, Structural)]
pub enum RouteStorage {
    /// A bounded cache of route trees.
    TreeCache(SpsnOptions),
    /// A routing table that lasts from query to query.
    RoutingTable,
}

/// One router of the family: a flavor, a search and a distance.
#[derive(Clone, Copy, Debug, PartialEq, Eq, Structural)]
pub struct GenericRouter {
    pub flavor: RoutingFlavor,
    pub pathfinding: PathfindingStrategy,
    pub distance: DistanceStrategy,
}

/// The part of a router's name that tells its algorithm.
pub open spec fn algorithm_name(flavor: RoutingFlavor) -> Seq<char> {
    match flavor {
        RoutingFlavor::SPSN => "Spsn"@,
        RoutingFlavor::CGRFirstEnding => "Cgr"@,
        RoutingFlavor::CGRFirstDepleted => "Cgr"@,
    }
}

/// The part of a router's name that tells its distance.
pub open spec fn distance_name(distance: DistanceStrategy) -> Seq<char> {
    match distance {
        DistanceStrategy::Hop => "Hop"@,
        DistanceStrategy::SABR => Seq::empty(),
    }
}

/// The part of a router's name that tells when a route is given up.
pub open spec fn exhaustion_name(flavor: RoutingFlavor) -> Seq<char> {
    match flavor {
        RoutingFlavor::SPSN => Seq::empty(),
        RoutingFlavor::CGRFirstEnding => "FirstEnding"@,
        RoutingFlavor::CGRFirstDepleted => "FirstDepleted"@,
    }
}

/// The part of a router's name that tells its search.
pub open spec fn pathfinding_name(pathfinding: PathfindingStrategy) -> Seq<char> {
    match pathfinding {
        PathfindingStrategy::NodeGraph => "NodeGraph"@,
        PathfindingStrategy::ContactGraph => "ContactGraph"@,
        PathfindingStrategy::MultipathTracking => "Mpt"@,
    }
}

/// The name of the router of a flavor, a distance and a search: the four
/// parts in this order, with nothing between them.
pub open spec fn router_type_of(
    flavor: RoutingFlavor,
    distance: DistanceStrategy,
    pathfinding: PathfindingStrategy,
) -> Seq<char> {
    algorithm_name(flavor) + distance_name(distance) + exhaustion_name(flavor) + pathfinding_name(
        pathfinding,
    )
}

/// Whether a name is that of a router of the family.
pub open spec fn names_a_router(name: Seq<char>) -> bool {
    exists|router: GenericRouter| #[trigger] router.router_type() == name
}

/// Whether a name is that of a router that the engine offers with these
/// features.
pub open spec fn is_router_type(name: Seq<char>, features: Features) -> bool {
    exists|router: GenericRouter|
        router.is_offered(features) && #[trigger] router.router_type() == name
}

/// The name of each router as a single word.
spec fn written_name(
    flavor: RoutingFlavor,
    distance: DistanceStrategy,
    pathfinding: PathfindingStrategy,
) -> Seq<char> {
    match flavor {
        RoutingFlavor::SPSN => match (distance, pathfinding) {
            (DistanceStrategy::SABR, PathfindingStrategy::NodeGraph) => "SpsnNodeGraph"@,
            (DistanceStrategy::SABR, PathfindingStrategy::MultipathTracking) => "SpsnMpt"@,
            (DistanceStrategy::SABR, PathfindingStrategy::ContactGraph) => "SpsnContactGraph"@,
            (DistanceStrategy::Hop, PathfindingStrategy::NodeGraph) => "SpsnHopNodeGraph"@,
            (DistanceStrategy::Hop, PathfindingStrategy::MultipathTracking) => "SpsnHopMpt"@,
            (DistanceStrategy::Hop, PathfindingStrategy::ContactGraph) => "SpsnHopContactGraph"@,
        },
        RoutingFlavor::CGRFirstEnding => match (distance, pathfinding) {
            (DistanceStrategy::SABR, PathfindingStrategy::NodeGraph) => "CgrFirstEndingNodeGraph"@,
            (DistanceStrategy::SABR, PathfindingStrategy::MultipathTracking) =>
                "CgrFirstEndingMpt"@,
            (DistanceStrategy::SABR, PathfindingStrategy::ContactGraph) =>
                "CgrFirstEndingContactGraph"@,
            (DistanceStrategy::Hop, PathfindingStrategy::NodeGraph) =>
                "CgrHopFirstEndingNodeGraph"@,
            (DistanceStrategy::Hop, PathfindingStrategy::MultipathTracking) =>
                "CgrHopFirstEndingMpt"@,
            (DistanceStrategy::Hop, PathfindingStrategy::ContactGraph) =>
                "CgrHopFirstEndingContactGraph"@,
        },
        RoutingFlavor::CGRFirstDepleted => match (distance, pathfinding) {
            (DistanceStrategy::SABR, PathfindingStrategy::NodeGraph) =>
                "CgrFirstDepletedNodeGraph"@,
            (DistanceStrategy::SABR, PathfindingStrategy::MultipathTracking) =>
                "CgrFirstDepletedMpt"@,
            (DistanceStrategy::SABR, PathfindingStrategy::ContactGraph) =>
                "CgrFirstDepletedContactGraph"@,
            (DistanceStrategy::Hop, PathfindingStrategy::NodeGraph) =>
                "CgrHopFirstDepletedNodeGraph"@,
            (DistanceStrategy::Hop, PathfindingStrategy::MultipathTracking) =>
                "CgrHopFirstDepletedMpt"@,
            (DistanceStrategy::Hop, PathfindingStrategy::ContactGraph) =>
                "CgrHopFirstDepletedContactGraph"@,
        },
    }
}

/// The names of the six routers of one flavor, written out.
proof fn lemma_names_spsn()
    ensures
        forall|distance: DistanceStrategy, pathfinding: PathfindingStrategy|
            #![trigger router_type_of(RoutingFlavor::SPSN, distance, pathfinding)]
            router_type_of(RoutingFlavor::SPSN, distance, pathfinding)
                == written_name(RoutingFlavor::SPSN, distance, pathfinding),
{
    reveal_strlit("ContactGraph");
    reveal_strlit("Hop");
    reveal_strlit("Mpt");
    reveal_strlit("NodeGraph");
    reveal_strlit("Spsn");
    reveal_strlit("SpsnContactGraph");
    reveal_strlit("SpsnHopContactGraph");
    reveal_strlit("SpsnHopMpt");
    reveal_strlit("SpsnHopNodeGraph");
    reveal_strlit("SpsnMpt");
    reveal_strlit("SpsnNodeGraph");
    assert(router_type_of(
        RoutingFlavor::SPSN,
        DistanceStrategy::SABR,
        PathfindingStrategy::NodeGraph,
    ) =~= "SpsnNodeGraph"@);
    assert(router_type_of(
        RoutingFlavor::SPSN,
        DistanceStrategy::Hop,
        PathfindingStrategy::NodeGraph,
    ) =~= "SpsnHopNodeGraph"@);
    assert(router_type_of(
        RoutingFlavor::SPSN,
        DistanceStrategy::SABR,
        PathfindingStrategy::MultipathTracking,
    ) =~= "SpsnMpt"@);
    assert(router_type_of(
        RoutingFlavor::SPSN,
        DistanceStrategy::Hop,
        PathfindingStrategy::MultipathTracking,
    ) =~= "SpsnHopMpt"@);
    assert(router_type_of(
        RoutingFlavor::SPSN,
        DistanceStrategy::SABR,
        PathfindingStrategy::ContactGraph,
    ) =~= "SpsnContactGraph"@);
    assert(router_type_of(
        RoutingFlavor::SPSN,
        DistanceStrategy::Hop,
        PathfindingStrategy::ContactGraph,
    ) =~= "SpsnHopContactGraph"@);
}

/// The names of the six routers of one flavor, written out.
proof fn lemma_names_first_ending()
    ensures
        forall|distance: DistanceStrategy, pathfinding: PathfindingStrategy|
            #![trigger router_type_of(RoutingFlavor::CGRFirstEnding, distance, pathfinding)]
            router_type_of(RoutingFlavor::CGRFirstEnding, distance, pathfinding)
                == written_name(RoutingFlavor::CGRFirstEnding, distance, pathfinding),
{
    reveal_strlit("Cgr");
    reveal_strlit("CgrFirstEndingContactGraph");
    reveal_strlit("CgrFirstEndingMpt");
    reveal_strlit("CgrFirstEndingNodeGraph");
    reveal_strlit("CgrHopFirstEndingContactGraph");
    reveal_strlit("CgrHopFirstEndingMpt");
    reveal_strlit("CgrHopFirstEndingNodeGraph");
    reveal_strlit("ContactGraph");
    reveal_strlit("FirstEnding");
    reveal_strlit("Hop");
    reveal_strlit("Mpt");
    reveal_strlit("NodeGraph");
    assert(router_type_of(
        RoutingFlavor::CGRFirstEnding,
        DistanceStrategy::SABR,
        PathfindingStrategy::NodeGraph,
    ) =~= "CgrFirstEndingNodeGraph"@);
    assert(router_type_of(
        RoutingFlavor::CGRFirstEnding,
        DistanceStrategy::Hop,
        PathfindingStrategy::NodeGraph,
    ) =~= "CgrHopFirstEndingNodeGraph"@);
    assert(router_type_of(
        RoutingFlavor::CGRFirstEnding,
        DistanceStrategy::SABR,
        PathfindingStrategy::MultipathTracking,
    ) =~= "CgrFirstEndingMpt"@);
    assert(router_type_of(
        RoutingFlavor::CGRFirstEnding,
        DistanceStrategy::Hop,
        PathfindingStrategy::MultipathTracking,
    ) =~= "CgrHopFirstEndingMpt"@);
    assert(router_type_of(
        RoutingFlavor::CGRFirstEnding,
        DistanceStrategy::SABR,
        PathfindingStrategy::ContactGraph,
    ) =~= "CgrFirstEndingContactGraph"@);
    assert(router_type_of(
        RoutingFlavor::CGRFirstEnding,
        DistanceStrategy::Hop,
        PathfindingStrategy::ContactGraph,
    ) =~= "CgrHopFirstEndingContactGraph"@);
}

/// The names of the six routers of one flavor, written out.
proof fn lemma_names_first_depleted()
    ensures
        forall|distance: DistanceStrategy, pathfinding: PathfindingStrategy|
            #![trigger router_type_of(RoutingFlavor::CGRFirstDepleted, distance, pathfinding)]
            router_type_of(RoutingFlavor::CGRFirstDepleted, distance, pathfinding)
                == written_name(RoutingFlavor::CGRFirstDepleted, distance, pathfinding),
{
    reveal_strlit("Cgr");
    reveal_strlit("CgrFirstDepletedContactGraph");
    reveal_strlit("CgrFirstDepletedMpt");
    reveal_strlit("CgrFirstDepletedNodeGraph");
    reveal_strlit("CgrHopFirstDepletedContactGraph");
    reveal_strlit("CgrHopFirstDepletedMpt");
    reveal_strlit("CgrHopFirstDepletedNodeGraph");
    reveal_strlit("ContactGraph");
    reveal_strlit("FirstDepleted");
    reveal_strlit("Hop");
    reveal_strlit("Mpt");
    reveal_strlit("NodeGraph");
    assert(router_type_of(
        RoutingFlavor::CGRFirstDepleted,
        DistanceStrategy::SABR,
        PathfindingStrategy::NodeGraph,
    ) =~= "CgrFirstDepletedNodeGraph"@);
    assert(router_type_of(
        RoutingFlavor::CGRFirstDepleted,
        DistanceStrategy::Hop,
        PathfindingStrategy::NodeGraph,
    ) =~= "CgrHopFirstDepletedNodeGraph"@);
    assert(router_type_of(
        RoutingFlavor::CGRFirstDepleted,
        DistanceStrategy::SABR,
        PathfindingStrategy::MultipathTracking,
    ) =~= "CgrFirstDepletedMpt"@);
    assert(router_type_of(
        RoutingFlavor::CGRFirstDepleted,
        DistanceStrategy::Hop,
        PathfindingStrategy::MultipathTracking,
    ) =~= "CgrHopFirstDepletedMpt"@);
    assert(router_type_of(
        RoutingFlavor::CGRFirstDepleted,
        DistanceStrategy::SABR,
        PathfindingStrategy::ContactGraph,
    ) =~= "CgrFirstDepletedContactGraph"@);
    assert(router_type_of(
        RoutingFlavor::CGRFirstDepleted,
        DistanceStrategy::Hop,
        PathfindingStrategy::ContactGraph,
    ) =~= "CgrHopFirstDepletedContactGraph"@);
}

/// The name of every router is the word written for it.
proof fn lemma_names()
    ensures
        forall|flavor: RoutingFlavor, distance: DistanceStrategy, pathfinding: PathfindingStrategy|
            #[trigger] router_type_of(flavor, distance, pathfinding) == written_name(
                flavor,
                distance,
                pathfinding,
            ),
{
    lemma_names_spsn();
    lemma_names_first_ending();
    lemma_names_first_depleted();
}

/// What tells the written names apart: the length of a name and three of
/// its characters.
spec fn marks(name: Seq<char>) -> (nat, char, char, char) {
    (name.len(), name[0], name[3], name[4])
}

/// No two routers of the family share a name: a name that stands for a
/// router stands for that router alone.
pub proof fn lemma_router_type_names_one_router(first: GenericRouter, second: GenericRouter)
    requires
        first.router_type() == second.router_type(),
    ensures
        first == second,
{
    lemma_names();
    reveal_strlit("SpsnNodeGraph");
    assert(marks("SpsnNodeGraph"@) == (13nat, 'S', 'n', 'N'));
    reveal_strlit("SpsnMpt");
    assert(marks("SpsnMpt"@) == (7nat, 'S', 'n', 'M'));
    reveal_strlit("SpsnContactGraph");
    assert(marks("SpsnContactGraph"@) == (16nat, 'S', 'n', 'C'));
    reveal_strlit("SpsnHopNodeGraph");
    assert(marks("SpsnHopNodeGraph"@) == (16nat, 'S', 'n', 'H'));
    reveal_strlit("SpsnHopMpt");
    assert(marks("SpsnHopMpt"@) == (10nat, 'S', 'n', 'H'));
    reveal_strlit("SpsnHopContactGraph");
    assert(marks("SpsnHopContactGraph"@) == (19nat, 'S', 'n', 'H'));
    reveal_strlit("CgrFirstEndingNodeGraph");
    assert(marks("CgrFirstEndingNodeGraph"@) == (23nat, 'C', 'F', 'i'));
    reveal_strlit("CgrFirstEndingMpt");
    assert(marks("CgrFirstEndingMpt"@) == (17nat, 'C', 'F', 'i'));
    reveal_strlit("CgrFirstEndingContactGraph");
    assert(marks("CgrFirstEndingContactGraph"@) == (26nat, 'C', 'F', 'i'));
    reveal_strlit("CgrHopFirstEndingNodeGraph");
    assert(marks("CgrHopFirstEndingNodeGraph"@) == (26nat, 'C', 'H', 'o'));
    reveal_strlit("CgrHopFirstEndingMpt");
    assert(marks("CgrHopFirstEndingMpt"@) == (20nat, 'C', 'H', 'o'));
    reveal_strlit("CgrHopFirstEndingContactGraph");
    assert(marks("CgrHopFirstEndingContactGraph"@) == (29nat, 'C', 'H', 'o'));
    reveal_strlit("CgrFirstDepletedNodeGraph");
    assert(marks("CgrFirstDepletedNodeGraph"@) == (25nat, 'C', 'F', 'i'));
    reveal_strlit("CgrFirstDepletedMpt");
    assert(marks("CgrFirstDepletedMpt"@) == (19nat, 'C', 'F', 'i'));
    reveal_strlit("CgrFirstDepletedContactGraph");
    assert(marks("CgrFirstDepletedContactGraph"@) == (28nat, 'C', 'F', 'i'));
    reveal_strlit("CgrHopFirstDepletedNodeGraph");
    assert(marks("CgrHopFirstDepletedNodeGraph"@) == (28nat, 'C', 'H', 'o'));
    reveal_strlit("CgrHopFirstDepletedMpt");
    assert(marks("CgrHopFirstDepletedMpt"@) == (22nat, 'C', 'H', 'o'));
    reveal_strlit("CgrHopFirstDepletedContactGraph");
    assert(marks("CgrHopFirstDepletedContactGraph"@) == (31nat, 'C', 'H', 'o'));
}

impl GenericRouter {
    /// The name of this router.
    pub open spec fn router_type(self) -> Seq<char> {
        router_type_of(self.flavor, self.distance, self.pathfinding)
    }

    /// Whether the engine, with these features, offers this router: the
    /// contact-graph search needs the contact work area, the first-ending
    /// flavor contact suppression, the first-depleted flavor its own
    /// feature.
    pub open spec fn is_offered(self, features: Features) -> bool {
        &&& self.pathfinding == PathfindingStrategy::ContactGraph ==> features.contact_work_area
        &&& self.flavor == RoutingFlavor::CGRFirstEnding ==> features.contact_suppression
        &&& self.flavor == RoutingFlavor::CGRFirstDepleted ==> features.first_depleted
    }

    /// The options that go to the engine with every router, whatever its
    /// flavor: ten route trees, served whatever the bundle's size and
    /// priority. Only a shortest-path router reads them.
    pub open spec fn spsn_options_of() -> SpsnOptions {
        SpsnOptions { check_priority: false, check_size: false, max_entries: 10 }
    }

    /// Where this router keeps its routes: a shortest-path router in a
    /// cache of route trees, with the options above, a contact-graph
    /// router in a routing table.
    pub open spec fn storage_of(self) -> RouteStorage {
        match self.flavor {
            RoutingFlavor::SPSN => RouteStorage::TreeCache(Self::spsn_options_of()),
            _ => RouteStorage::RoutingTable,
        }
    }

    /// Reads a router from its name, matched exactly.
    pub fn from_router_type(router_type: &str) -> (read: Option<Self>)
        ensures
            read is Some <==> names_a_router(router_type@),
            read matches Some(router) ==> router.router_type() == router_type@,
    {
        let read = if str_equal(router_type, "SpsnNodeGraph") {
            Some(
                GenericRouter {
                    flavor: RoutingFlavor::SPSN,
                    pathfinding: PathfindingStrategy::NodeGraph,
                    distance: DistanceStrategy::SABR,
                },
            )
        } else if str_equal(router_type, "SpsnHopNodeGraph") {
            Some(
                GenericRouter {
                    flavor: RoutingFlavor::SPSN,
                    pathfinding: PathfindingStrategy::NodeGraph,
                    distance: DistanceStrategy::Hop,
                },
            )
        } else if str_equal(router_type, "SpsnMpt") {
            Some(
                GenericRouter {
                    flavor: RoutingFlavor::SPSN,
                    pathfinding: PathfindingStrategy::MultipathTracking,
                    distance: DistanceStrategy::SABR,
                },
            )
        } else if str_equal(router_type, "SpsnHopMpt") {
            Some(
                GenericRouter {
                    flavor: RoutingFlavor::SPSN,
                    pathfinding: PathfindingStrategy::MultipathTracking,
                    distance: DistanceStrategy::Hop,
                },
            )
        } else if str_equal(router_type, "SpsnContactGraph") {
            Some(
                GenericRouter {
                    flavor: RoutingFlavor::SPSN,
                    pathfinding: PathfindingStrategy::ContactGraph,
                    distance: DistanceStrategy::SABR,
                },
            )
        } else if str_equal(router_type, "SpsnHopContactGraph") {
            Some(
                GenericRouter {
                    flavor: RoutingFlavor::SPSN,
                    pathfinding: PathfindingStrategy::ContactGraph,
                    distance: DistanceStrategy::Hop,
                },
            )
        } else if str_equal(router_type, "CgrHopFirstEndingMpt") {
            Some(
                GenericRouter {
                    flavor: RoutingFlavor::CGRFirstEnding,
                    pathfinding: PathfindingStrategy::MultipathTracking,
                    distance: DistanceStrategy::Hop,
                },
            )
        } else if str_equal(router_type, "CgrFirstEndingMpt") {
            Some(
                GenericRouter {
                    flavor: RoutingFlavor::CGRFirstEnding,
                    pathfinding: PathfindingStrategy::MultipathTracking,
                    distance: DistanceStrategy::SABR,
                },
            )
        } else if str_equal(router_type, "CgrHopFirstEndingNodeGraph") {
            Some(
                GenericRouter {
                    flavor: RoutingFlavor::CGRFirstEnding,
                    pathfinding: PathfindingStrategy::NodeGraph,
                    distance: DistanceStrategy::Hop,
                },
            )
        } else if str_equal(router_type, "CgrFirstEndingNodeGraph") {
            Some(
                GenericRouter {
                    flavor: RoutingFlavor::CGRFirstEnding,
                    pathfinding: PathfindingStrategy::NodeGraph,
                    distance: DistanceStrategy::SABR,
                },
            )
        } else if str_equal(router_type, "CgrHopFirstEndingContactGraph") {
            Some(
                GenericRouter {
                    flavor: RoutingFlavor::CGRFirstEnding,
                    pathfinding: PathfindingStrategy::ContactGraph,
                    distance: DistanceStrategy::Hop,
                },
            )
        } else if str_equal(router_type, "CgrFirstEndingContactGraph") {
            Some(
                GenericRouter {
                    flavor: RoutingFlavor::CGRFirstEnding,
                    pathfinding: PathfindingStrategy::ContactGraph,
                    distance: DistanceStrategy::SABR,
                },
            )
        } else if str_equal(router_type, "CgrHopFirstDepletedMpt") {
            Some(
                GenericRouter {
                    flavor: RoutingFlavor::CGRFirstDepleted,
                    pathfinding: PathfindingStrategy::MultipathTracking,
                    distance: DistanceStrategy::Hop,
                },
            )
        } else if str_equal(router_type, "CgrFirstDepletedMpt") {
            Some(
                GenericRouter {
                    flavor: RoutingFlavor::CGRFirstDepleted,
                    pathfinding: PathfindingStrategy::MultipathTracking,
                    distance: DistanceStrategy::SABR,
                },
            )
        } else if str_equal(router_type, "CgrHopFirstDepletedNodeGraph") {
            Some(
                GenericRouter {
                    flavor: RoutingFlavor::CGRFirstDepleted,
                    pathfinding: PathfindingStrategy::NodeGraph,
                    distance: DistanceStrategy::Hop,
                },
            )
        } else if str_equal(router_type, "CgrFirstDepletedNodeGraph") {
            Some(
                GenericRouter {
                    flavor: RoutingFlavor::CGRFirstDepleted,
                    pathfinding: PathfindingStrategy::NodeGraph,
                    distance: DistanceStrategy::SABR,
                },
            )
        } else if str_equal(router_type, "CgrHopFirstDepletedContactGraph") {
            Some(
                GenericRouter {
                    flavor: RoutingFlavor::CGRFirstDepleted,
                    pathfinding: PathfindingStrategy::ContactGraph,
                    distance: DistanceStrategy::Hop,
                },
            )
        } else if str_equal(router_type, "CgrFirstDepletedContactGraph") {
            Some(
                GenericRouter {
                    flavor: RoutingFlavor::CGRFirstDepleted,
                    pathfinding: PathfindingStrategy::ContactGraph,
                    distance: DistanceStrategy::SABR,
                },
            )
        } else {
            None
        };
        proof {
            lemma_names();
            if let Some(router) = read {
                assert(router.router_type() == router_type@);
            }
        }
        read
    }

    /// Writes the name of this router.
    pub fn to_router_type(&self) -> (name: String)
        ensures
            name@ == self.router_type(),
    {
        let mut name = match self.flavor {
            RoutingFlavor::SPSN => String::from_str("Spsn"),
            _ => String::from_str("Cgr"),
        };
        match self.distance {
            DistanceStrategy::Hop => name.append("Hop"),
            DistanceStrategy::SABR => {},
        }
        match self.flavor {
            RoutingFlavor::SPSN => {},
            RoutingFlavor::CGRFirstEnding => name.append("FirstEnding"),
            RoutingFlavor::CGRFirstDepleted => name.append("FirstDepleted"),
        }
        match self.pathfinding {
            PathfindingStrategy::NodeGraph => name.append("NodeGraph"),
            PathfindingStrategy::ContactGraph => name.append("ContactGraph"),
            PathfindingStrategy::MultipathTracking => name.append("Mpt"),
        }
        assert(name@ =~= self.router_type());
        name
    }

    /// Tells whether the engine, with these features, offers this router.
    pub fn offered(&self, features: &Features) -> (offered: bool)
        ensures
            offered == self.is_offered(*features),
    {
        let search = match self.pathfinding {
            PathfindingStrategy::ContactGraph => features.contact_work_area,
            _ => true,
        };
        let flavor = match self.flavor {
            RoutingFlavor::SPSN => true,
            RoutingFlavor::CGRFirstEnding => features.contact_suppression,
            RoutingFlavor::CGRFirstDepleted => features.first_depleted,
        };
        search && flavor
    }

    /// The options that go to the engine with this router.
    pub fn spsn_options(&self) -> (options: SpsnOptions)
        ensures
            options == Self::spsn_options_of(),
    {
        SpsnOptions { check_priority: false, check_size: false, max_entries: 10 }
    }

    /// Tells where this router keeps its routes.
    pub fn storage(&self) -> (storage: RouteStorage)
        ensures
            storage == self.storage_of(),
    {
        match self.flavor {
            RoutingFlavor::SPSN => RouteStorage::TreeCache(self.spsn_options()),
            _ => RouteStorage::RoutingTable,
        }
    }
}

/// Chooses a router by its name.
///
/// The name is that of exactly one router of the family, or of none. The
/// router is made if the engine offers it with these features. Else the
/// name is invalid, be it for a typo or for a disabled feature, and is
/// handed back in the error.
pub fn make_generic_router(router_type: &str, features: &Features) -> (made: Result<
    GenericRouter,
    ConstructionError,
>)
    ensures
        made is Ok <==> is_router_type(router_type@, *features),
        match made {
            Ok(router) => router.router_type() == router_type@ && router.is_offered(*features),
            Err(error) => error matches ConstructionError::InvalidRouterType(name) && name@
                == router_type@,
        },
{
    if let Some(router) = GenericRouter::from_router_type(router_type) {
        if router.offered(features) {
            return Ok(router);
        }
        proof {
            assert forall|other: GenericRouter| #[trigger]
                other.router_type() == router_type@ implies !other.is_offered(*features) by {
                lemma_router_type_names_one_router(other, router);
            }
        }
    }
    Err(ConstructionError::InvalidRouterType(String::from_str(router_type)))
}

} // verus!
