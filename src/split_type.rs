use vstd::prelude::*;
use vstd::string::StringSliceAdditionalSpecFns;

use crate::splits::{door_route, door_splits, key_event_route, key_event_splits, Event};
use crate::text::bytes_equal;

verus! {

/// Which route, if any, decides when to split.
#[derive(Debug, Clone, Copy, PartialEq, Eq, PartialOrd, Ord, Hash, Structural)]
pub enum SplitType {
    /// Split on every door.
    AllDoors,
    /// Split on doors, but only on the next door of the route.
    RouteDoors,
    /// Split on key events: key items, bosses and hotel progress.
    KeyEvents,
    /// On a console: split on every door.
    AllDoorsConsole,
    /// On a console: split on doors, but only on the next door of the route.
    RouteDoorsConsole,
}

/// The route of a split type; none where it splits on every change of room.
pub open spec fn route_of(split_type: SplitType) -> Option<Seq<Event>> {
    match split_type {
        SplitType::AllDoors | SplitType::AllDoorsConsole => None,
        SplitType::RouteDoors | SplitType::RouteDoorsConsole => Some(door_route()),
        SplitType::KeyEvents => Some(key_event_route()),
    }
}

/// The route of the effective split type; none where there is none yet.
pub open spec fn route_of_effective(effective: Option<SplitType>) -> Option<Seq<Event>> {
    match effective {
        Some(t) => route_of(t),
        None => None,
    }
}

/// What an optional route holds.
pub open spec fn route_view(route: Option<Vec<Event>>) -> Option<Seq<Event>> {
    match route {
        Some(v) => Some(v@),
        None => None,
    }
}

/// The name under which a split type is shown.
pub open spec fn split_type_name(split_type: SplitType) -> Seq<char> {
    match split_type {
        SplitType::AllDoors => "all-doors"@,
        SplitType::RouteDoors => "route-doors"@,
        SplitType::KeyEvents => "key-events"@,
        SplitType::AllDoorsConsole => "all-doors-console"@,
        SplitType::RouteDoorsConsole => "route-doors-console"@,
    }
}

/// The split type that a text names, in either of its two spellings; none
/// where it names none.
pub open spec fn split_type_named(s: Seq<u8>) -> Option<SplitType> {
    if s == "AllDoors".spec_bytes() || s == "all-doors".spec_bytes() {
        Some(SplitType::AllDoors)
    } else if s == "RouteDoors".spec_bytes() || s == "route-doors".spec_bytes() {
        Some(SplitType::RouteDoors)
    } else if s == "KeyEvents".spec_bytes() || s == "key-events".spec_bytes() {
        Some(SplitType::KeyEvents)
    } else if s == "AllDoorsConsole".spec_bytes() || s == "all-doors-console".spec_bytes() {
        Some(SplitType::AllDoorsConsole)
    } else if s == "RouteDoorsConsole".spec_bytes() || s == "route-doors-console".spec_bytes() {
        Some(SplitType::RouteDoorsConsole)
    } else {
        None
    }
}

impl SplitType {
    /// The route to follow; none where every change of room splits.
    pub fn splits(&self) -> (r: Option<Vec<Event>>)
        ensures
            route_view(r) == route_of(*self),
    {
        match self {
            SplitType::AllDoors | SplitType::AllDoorsConsole => None,
            SplitType::RouteDoors | SplitType::RouteDoorsConsole => Some(door_splits()),
            SplitType::KeyEvents => Some(key_event_splits()),
        }
    }

    /// The name under which this split type is shown.
    pub fn as_str(&self) -> (r: &'static str)
        ensures
            r@ == split_type_name(*self),
    {
        match self {
            SplitType::AllDoors => "all-doors",
            SplitType::RouteDoors => "route-doors",
            SplitType::KeyEvents => "key-events",
            SplitType::AllDoorsConsole => "all-doors-console",
            SplitType::RouteDoorsConsole => "route-doors-console",
        }
    }

    /// Whether this split type is meant for a run on a console.
    pub fn is_console(&self) -> (r: bool)
        ensures
            r <==> (*self is AllDoorsConsole || *self is RouteDoorsConsole),
    {
        matches!(self, SplitType::AllDoorsConsole | SplitType::RouteDoorsConsole)
    }

    /// The split type that a text names; none where it names none.
    pub fn from_raw(s: &[u8]) -> (r: Option<SplitType>)
        ensures
            r == split_type_named(s@),
    {
        if bytes_equal(s, "AllDoors".as_bytes()) || bytes_equal(s, "all-doors".as_bytes()) {
            Some(SplitType::AllDoors)
        } else if bytes_equal(s, "RouteDoors".as_bytes()) || bytes_equal(s, "route-doors".as_bytes()) {
            Some(SplitType::RouteDoors)
        } else if bytes_equal(s, "KeyEvents".as_bytes()) || bytes_equal(s, "key-events".as_bytes()) {
            Some(SplitType::KeyEvents)
        } else if bytes_equal(s, "AllDoorsConsole".as_bytes()) || bytes_equal(
            s,
            "all-doors-console".as_bytes(),
        ) {
            Some(SplitType::AllDoorsConsole)
        } else if bytes_equal(s, "RouteDoorsConsole".as_bytes()) || bytes_equal(
            s,
            "route-doors-console".as_bytes(),
        ) {
            Some(SplitType::RouteDoorsConsole)
        } else {
            None
        }
    }
}


/// Why the split type was chosen as it was, where that is worth telling the
/// user.
#[derive(Debug, Clone, Copy, PartialEq, Eq)]
pub enum SplitTypeNotice {
    /// Neither the user nor the timer names a split type: every door splits.
    Defaulted,
    /// The timer names the split type, and it is taken.
    Detected(SplitType),
    /// The timer names another split type than before; it is taken and the
    /// run is reset.
    ChangedByTimer(SplitType),
    /// The timer named a split type before and names none now; the old one
    /// stays.
    PublishedLost(SplitType),
    /// The user asked for one split type and the timer names another; the
    /// user's is taken.
    UserOverridesTimer { requested: SplitType, reported: SplitType },
    /// The timer now names another split type than the one the user asked
    /// for; the user's stays.
    UserKept { requested: SplitType, reported: SplitType },
}

/// The outcome of one round of choosing the split type.
#[derive(Debug, Clone, Copy, PartialEq, Eq)]
pub struct Reconciliation {
    /// The split type in effect afterwards.
    pub effective: Option<SplitType>,
    /// Whether the run must be reset because its route changed.
    pub reset: bool,
    pub notice: Option<SplitTypeNotice>,
}

/// Chooses the split type in effect from the one the user asked for, the one
/// in effect so far, the one the timer names now and the one it named last
/// time. The user's choice wins; without one, the first that the timer names
/// is taken, and a later change of it is taken too, with a reset.
pub open spec fn reconciliation(
    requested: Option<SplitType>,
    effective: Option<SplitType>,
    published: Option<SplitType>,
    last_published: Option<SplitType>,
) -> Reconciliation {
    match (requested, effective, published) {
        (None, None, None) => Reconciliation {
            effective: Some(SplitType::AllDoors),
            reset: false,
            notice: Some(SplitTypeNotice::Defaulted),
        },
        (None, None, Some(p)) => Reconciliation {
            effective: Some(p),
            reset: false,
            notice: Some(SplitTypeNotice::Detected(p)),
        },
        (None, Some(old), Some(new)) => if old != new {
            Reconciliation {
                effective: Some(new),
                reset: true,
                notice: Some(SplitTypeNotice::ChangedByTimer(new)),
            }
        } else {
            Reconciliation { effective, reset: false, notice: None }
        },
        (_, Some(old), None) => Reconciliation {
            effective,
            reset: false,
            notice: if last_published is Some {
                Some(SplitTypeNotice::PublishedLost(old))
            } else {
                None
            },
        },
        (Some(req), None, None) => Reconciliation { effective: requested, reset: false, notice: None },
        (Some(req), None, Some(rep)) => Reconciliation {
            effective: requested,
            reset: false,
            notice: if req != rep {
                Some(SplitTypeNotice::UserOverridesTimer { requested: req, reported: rep })
            } else {
                None
            },
        },
        (Some(req), Some(_), Some(rep)) => Reconciliation {
            effective,
            reset: false,
            notice: if last_published != Some(rep) && req != rep {
                Some(SplitTypeNotice::UserKept { requested: req, reported: rep })
            } else {
                None
            },
        },
    }
}

/// Whether an optional split type is the given one.
fn is_split_type(o: Option<SplitType>, t: SplitType) -> (r: bool)
    ensures
        r == (o == Some(t)),
{
    match o {
        Some(x) => x == t,
        None => false,
    }
}

/// Chooses the split type in effect; see `reconciliation`.
pub fn reconcile(
    requested: Option<SplitType>,
    effective: Option<SplitType>,
    published: Option<SplitType>,
    last_published: Option<SplitType>,
) -> (r: Reconciliation)
    ensures
        r == reconciliation(requested, effective, published, last_published),
{
    match (requested, effective, published) {
        (None, None, None) => Reconciliation {
            effective: Some(SplitType::AllDoors),
            reset: false,
            notice: Some(SplitTypeNotice::Defaulted),
        },
        (None, None, Some(p)) => Reconciliation {
            effective: Some(p),
            reset: false,
            notice: Some(SplitTypeNotice::Detected(p)),
        },
        (None, Some(old), Some(new)) => {
            if old != new {
                Reconciliation {
                    effective: Some(new),
                    reset: true,
                    notice: Some(SplitTypeNotice::ChangedByTimer(new)),
                }
            } else {
                Reconciliation { effective, reset: false, notice: None }
            }
        },
        (_, Some(old), None) => {
            let notice = if last_published.is_some() {
                Some(SplitTypeNotice::PublishedLost(old))
            } else {
                None
            };
            Reconciliation { effective, reset: false, notice }
        },
        (Some(_), None, None) => Reconciliation { effective: requested, reset: false, notice: None },
        (Some(req), None, Some(rep)) => {
            let notice = if req != rep {
                Some(SplitTypeNotice::UserOverridesTimer { requested: req, reported: rep })
            } else {
                None
            };
            Reconciliation { effective: requested, reset: false, notice }
        },
        (Some(req), Some(_), Some(rep)) => {
            let notice = if !is_split_type(last_published, rep) && req != rep {
                Some(SplitTypeNotice::UserKept { requested: req, reported: rep })
            } else {
                None
            };
            Reconciliation { effective, reset: false, notice }
        },
    }
}

} // verus!
