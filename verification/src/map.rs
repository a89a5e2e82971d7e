use vstd::prelude::*;

verus! {

// ------------------------------------------------------------------ relations

/// How the player relates to the owner of a map object.
#[derive(Clone, Copy, Debug, PartialEq, Eq, Structural)]
pub enum RelationType {
    Enemy,
    Unfriendly,
    Neutral,
    Friendly,
    Ally,
    Player,
}

/// The fighter icon drawn for a relation; only enemies, allies and the player
/// have one, every other relation is drawn with none.
pub fn ship_icon_path(relation: RelationType) -> (path: Option<&'static str>)
    ensures
        relation is Enemy ==> (path matches Some(p) && p@ == "icons/fighter_enemy.png"@),
        relation is Ally ==> (path matches Some(p) && p@ == "icons/fighter_ally.png"@),
        relation is Player ==> (path matches Some(p) && p@ == "icons/fighter_player.png"@),
        path is None <==> (relation is Unfriendly || relation is Neutral || relation is Friendly),
{
    match relation {
        RelationType::Enemy => Some("icons/fighter_enemy.png"),
        RelationType::Ally => Some("icons/fighter_ally.png"),
        RelationType::Player => Some("icons/fighter_player.png"),
        _ => None,
    }
}

// ------------------------------------------------------------------ map state

/// What the map shows: the whole universe, or one sector by its id.
#[derive(Clone, Copy, Debug, PartialEq, Eq, Hash, Structural)]
pub enum MapState {
    Universe,
    Sector(u16),
}

impl Default for MapState {
    /// The map starts on the universe view.
    fn default() -> (state: Self)
        ensures
            state == MapState::Universe,
    {
        MapState::Universe
    }
}

/// An object that lies in sector `sector` is on the map in `state` exactly
/// when the map shows that very sector.
pub open spec fn shows_sector(state: MapState, sector: u16) -> bool {
    match state {
        MapState::Universe => false,
        MapState::Sector(id) => sector == id,
    }
}

/// Indices, in increasing order, of the first `n` objects (by the sector each
/// lies in) that are on the map in `state`.
pub open spec fn visible_prefix(state: MapState, sectors: Seq<u16>, n: nat) -> Seq<usize>
    decreases n,
{
    if n == 0 {
        Seq::empty()
    } else {
        let before = visible_prefix(state, sectors, (n - 1) as nat);
        if shows_sector(state, sectors[n - 1]) {
            before.push((n - 1) as usize)
        } else {
            before
        }
    }
}

/// Of objects lying in the sectors `sectors` (one entry per object), the
/// indices of those on the map in `state`, in the order they were given.
pub fn visible_object_indices(state: MapState, sectors: &Vec<u16>) -> (indices: Vec<usize>)
    ensures
        indices@ == visible_prefix(state, sectors@, sectors@.len()),
        state is Universe ==> indices@.len() == 0,
        forall|j: int|
            0 <= j < indices@.len() ==> {
                let k = #[trigger] indices@[j];
                &&& k < sectors@.len()
                &&& state == MapState::Sector(sectors@[k as int])
            },
        forall|k: int|
            0 <= k < sectors@.len() && state == MapState::Sector(#[trigger] sectors@[k])
                ==> indices@.contains(k as usize),
        forall|a: int, b: int| 0 <= a < b < indices@.len() ==> indices@[a] < indices@[b],
{
    let mut indices: Vec<usize> = Vec::new();
    let n = sectors.len();
    for i in 0..n
        invariant
            n == sectors@.len(),
            indices@ == visible_prefix(state, sectors@, i as nat),
    {
        let on_map = match state {
            MapState::Universe => false,
            MapState::Sector(id) => sectors[i] == id,
        };
        if on_map {
            indices.push(i);
        }
    }
    proof {
        lemma_visible_exactly_shown(state, sectors@, sectors@.len());
        lemma_universe_shows_nothing(sectors@, sectors@.len());
    }
    indices
}

/// The visible indices are exactly the objects in the shown sector: each lies
/// there, each object lying there is listed, and they come in increasing order.
pub proof fn lemma_visible_exactly_shown(state: MapState, sectors: Seq<u16>, n: nat)
    requires
        n <= sectors.len(),
        sectors.len() <= usize::MAX,
    ensures
        forall|j: int|
            0 <= j < visible_prefix(state, sectors, n).len() ==> {
                let k = #[trigger] visible_prefix(state, sectors, n)[j];
                &&& k < n
                &&& state == MapState::Sector(sectors[k as int])
            },
        forall|k: int|
            0 <= k < n && state == MapState::Sector(#[trigger] sectors[k]) ==> visible_prefix(
                state,
                sectors,
                n,
            ).contains(k as usize),
        forall|a: int, b: int|
            0 <= a < b < visible_prefix(state, sectors, n).len() ==> visible_prefix(
                state,
                sectors,
                n,
            )[a] < visible_prefix(state, sectors, n)[b],
    decreases n,
{
    if n > 0 {
        lemma_visible_exactly_shown(state, sectors, (n - 1) as nat);
        let before = visible_prefix(state, sectors, (n - 1) as nat);
        let now = visible_prefix(state, sectors, n);
        assert forall|k: int| 0 <= k < n && state == MapState::Sector(#[trigger] sectors[k]) implies now.contains(
            k as usize,
        ) by {
            if k < n - 1 {
                assert(before.contains(k as usize));
                let w = choose|w: int| 0 <= w < before.len() && before[w] == k as usize;
                assert(now[w] == k as usize);
            } else {
                assert(now[now.len() - 1] == k as usize);
            }
        }
    }
}

/// The universe view shows no object at all.
pub proof fn lemma_universe_shows_nothing(sectors: Seq<u16>, n: nat)
    ensures
        visible_prefix(MapState::Universe, sectors, n).len() == 0,
    decreases n,
{
    if n > 0 {
        lemma_universe_shows_nothing(sectors, (n - 1) as nat);
    }
}

// ------------------------------------------------------------------ level of detail

/// Where the camera zoom lies: not above zero, below one, below five, or at
/// five and beyond.
#[derive(Clone, Copy, Debug, PartialEq, Eq, Structural)]
pub enum ZoomBand {
    NotPositive,
    Close,
    Medium,
    Far,
}

/// Which kinds of things the map draws.
pub struct MapLoD {
    pub show_invidual_ships: bool,
    pub show_fleets: bool,
    pub show_station_labels: bool,
    pub show_ship_labels: bool,
    pub show_routes: bool,
}

/// The level of detail for a zoom band: close up, ships one by one with all
/// labels; further out, fleets with station labels; far out, fleets alone;
/// routes always; nothing else when the zoom is not positive.
pub open spec fn lod_for(band: ZoomBand) -> MapLoD {
    MapLoD {
        show_invidual_ships: band is Close,
        show_fleets: band is Medium || band is Far,
        show_station_labels: band is Close || band is Medium,
        show_ship_labels: band is Close,
        show_routes: true,
    }
}

pub fn calculate_lod(band: ZoomBand) -> (lod: MapLoD)
    ensures
        lod == lod_for(band),
{
    let mut show_invidual_ships = false;
    let mut show_fleets = false;
    let mut show_station_labels = false;
    let mut show_ship_labels = false;
    let show_routes = true;

    match band {
        ZoomBand::NotPositive => {},
        ZoomBand::Close => {
            show_invidual_ships = true;
            show_station_labels = true;
            show_ship_labels = true;
        },
        ZoomBand::Medium => {
            show_fleets = true;
            show_station_labels = true;
        },
        ZoomBand::Far => {
            show_fleets = true;
        },
    }
    MapLoD {
        show_invidual_ships,
        show_fleets,
        show_station_labels,
        show_ship_labels,
        show_routes,
    }
}

/// Routes are drawn at every zoom; single ships and fleets are never drawn
/// together; ship labels only come with single ships.
pub proof fn lemma_lod_consistent(band: ZoomBand)
    ensures
        lod_for(band).show_routes,
        !(lod_for(band).show_invidual_ships && lod_for(band).show_fleets),
        lod_for(band).show_ship_labels ==> lod_for(band).show_invidual_ships,
{
}

// ------------------------------------------------------------------ controls

/// Whether the game runs after a tick: pressing space flips between paused
/// and running; otherwise nothing changes.
pub open spec fn unpaused_after(is_unpaused: bool, space_just_pressed: bool) -> bool {
    if space_just_pressed {
        !is_unpaused
    } else {
        is_unpaused
    }
}

pub fn toggle_pause(is_unpaused: bool, space_just_pressed: bool) -> (unpaused: bool)
    ensures
        unpaused == unpaused_after(is_unpaused, space_just_pressed),
{
    if space_just_pressed {
        !is_unpaused
    } else {
        is_unpaused
    }
}

/// Two presses of space bring the game back to where it was, and a tick
/// without a press leaves it as it is.
pub proof fn lemma_double_toggle(is_unpaused: bool)
    ensures
        unpaused_after(unpaused_after(is_unpaused, true), true) == is_unpaused,
        unpaused_after(is_unpaused, false) == is_unpaused,
        unpaused_after(is_unpaused, true) != is_unpaused,
{
}

/// Where the camera zoom lies against its limits of 0.4 and 10: at or below
/// the lower one, strictly between them, above the upper one, or neither
/// (exactly at the upper limit, or not comparable).
#[derive(Clone, Copy, Debug, PartialEq, Eq, Structural)]
pub enum ZoomRange {
    AtOrBelowMin,
    Inside,
    AboveMax,
    Neither,
}

/// Whether a wheel scroll changes the zoom: always between the limits; at or
/// below the lower limit only a scroll that is not negative (zooming in);
/// above the upper limit only a scroll that is not positive (zooming out).
pub open spec fn scroll_applies(range: ZoomRange, scroll_not_negative: bool, scroll_not_positive: bool) -> bool {
    match range {
        ZoomRange::Inside => true,
        ZoomRange::AtOrBelowMin => scroll_not_negative,
        ZoomRange::AboveMax => scroll_not_positive,
        ZoomRange::Neither => false,
    }
}

pub fn zoom_follows_scroll(range: ZoomRange, scroll_not_negative: bool, scroll_not_positive: bool) -> (applies: bool)
    ensures
        applies == scroll_applies(range, scroll_not_negative, scroll_not_positive),
{
    match range {
        ZoomRange::Inside => true,
        ZoomRange::AtOrBelowMin => scroll_not_negative,
        ZoomRange::AboveMax => scroll_not_positive,
        ZoomRange::Neither => false,
    }
}

/// The zoom never moves further out of its limits: at or below the lower limit
/// a zoom-out scroll is ignored, above the upper one a zoom-in scroll is.
pub proof fn lemma_zoom_stays_toward_limits(scroll_not_negative: bool, scroll_not_positive: bool)
    ensures
        !scroll_not_negative ==> !scroll_applies(ZoomRange::AtOrBelowMin, scroll_not_negative, scroll_not_positive),
        !scroll_not_positive ==> !scroll_applies(ZoomRange::AboveMax, scroll_not_negative, scroll_not_positive),
        scroll_applies(ZoomRange::Inside, scroll_not_negative, scroll_not_positive),
{
}

// ------------------------------------------------------------------ flying orders

/// The sign of the angle between a ship's heading and its target direction;
/// `Level` when it is neither above nor below zero.
#[derive(Clone, Copy, Debug, PartialEq, Eq, Structural)]
pub enum Heading {
    Positive,
    Negative,
    Level,
}

/// What one tick of a flying order sees of a ship.
#[derive(Clone, Copy, Debug, PartialEq, Eq, Structural)]
pub struct OrderObservation {
    /// The route has an endpoint.
    pub has_endpoint: bool,
    /// The ship can still turn (it is not yet marked as rotated).
    pub can_turn: bool,
    /// Sign of the angle left to turn.
    pub heading: Heading,
    /// The angle left is within the snapping tolerance.
    pub heading_close: bool,
    /// The ship has a velocity to steer.
    pub can_move: bool,
    /// The ship is within arrival distance of the endpoint.
    pub arrived: bool,
    /// The ship is close enough to the endpoint to brake at its speed.
    pub braking_range: bool,
}

/// What the ship does in one tick of a flying order.
#[derive(Clone, Copy, Debug, PartialEq, Eq, Structural)]
pub enum OrderStep {
    /// Nothing happens.
    Wait,
    /// Turn by one step in the positive direction.
    TurnLeft,
    /// Turn by one step in the negative direction.
    TurnRight,
    /// Snap onto the target heading.
    FaceTarget,
    /// Mark the ship as rotated, ready to move.
    FinishTurning,
    /// Drift onto the endpoint and drop the order.
    Arrive,
    /// Slow down.
    Brake,
    /// Speed up towards the endpoint.
    Accelerate,
}

/// A ship first turns towards its endpoint and only then moves: it turns a
/// step at a time while far off the target heading, snaps onto it once close,
/// and is marked rotated when the angle is level; after that it arrives,
/// brakes or accelerates by its distance to the endpoint.
pub open spec fn order_step_for(obs: OrderObservation) -> OrderStep {
    if !obs.has_endpoint {
        OrderStep::Wait
    } else if obs.can_turn {
        match obs.heading {
            Heading::Positive => if obs.heading_close {
                OrderStep::FaceTarget
            } else {
                OrderStep::TurnLeft
            },
            Heading::Negative => if obs.heading_close {
                OrderStep::FaceTarget
            } else {
                OrderStep::TurnRight
            },
            Heading::Level => OrderStep::FinishTurning,
        }
    } else if !obs.can_move {
        OrderStep::Wait
    } else if obs.arrived {
        OrderStep::Arrive
    } else if obs.braking_range {
        OrderStep::Brake
    } else {
        OrderStep::Accelerate
    }
}

pub fn order_step(obs: &OrderObservation) -> (step: OrderStep)
    ensures
        step == order_step_for(*obs),
        !obs.has_endpoint ==> step is Wait,
        obs.has_endpoint && obs.can_turn && obs.heading is Level ==> step is FinishTurning,
        obs.has_endpoint && obs.can_turn && obs.heading is Positive && !obs.heading_close
            ==> step is TurnLeft,
        obs.has_endpoint && obs.can_turn && obs.heading is Negative && !obs.heading_close
            ==> step is TurnRight,
        obs.has_endpoint && obs.can_turn && !(obs.heading is Level) && obs.heading_close
            ==> step is FaceTarget,
        obs.has_endpoint && !obs.can_turn && !obs.can_move ==> step is Wait,
        obs.has_endpoint && !obs.can_turn && obs.can_move && obs.arrived ==> step is Arrive,
        obs.has_endpoint && !obs.can_turn && obs.can_move && !obs.arrived && obs.braking_range
            ==> step is Brake,
        obs.has_endpoint && !obs.can_turn && obs.can_move && !obs.arrived && !obs.braking_range
            ==> step is Accelerate,
{
    if !obs.has_endpoint {
        return OrderStep::Wait;
    }
    if obs.can_turn {
        return match obs.heading {
            Heading::Positive => {
                if !obs.heading_close {
                    OrderStep::TurnLeft
                } else {
                    OrderStep::FaceTarget
                }
            },
            Heading::Negative => {
                if !obs.heading_close {
                    OrderStep::TurnRight
                } else {
                    OrderStep::FaceTarget
                }
            },
            Heading::Level => OrderStep::FinishTurning,
        };
    }
    if !obs.can_move {
        OrderStep::Wait
    } else if obs.arrived {
        OrderStep::Arrive
    } else if obs.braking_range {
        OrderStep::Brake
    } else {
        OrderStep::Accelerate
    }
}

/// A ship that can still turn never moves in the same tick, and a moving ship
/// only arrives when it is within arrival distance.
pub proof fn lemma_turning_before_moving(obs: OrderObservation)
    ensures
        obs.can_turn ==> !(order_step_for(obs) is Arrive || order_step_for(obs) is Brake
            || order_step_for(obs) is Accelerate),
        order_step_for(obs) is Arrive ==> obs.arrived && !obs.can_turn,
        !obs.has_endpoint ==> order_step_for(obs) is Wait,
{
}

/// Each tick of a flying order, by what the ship sees: without an endpoint it
/// waits; while it can turn, a level heading finishes the turn whatever the
/// tolerance says, a heading within tolerance snaps onto the target, and a
/// heading outside it turns a step towards its sign; once turned, a ship
/// without velocity waits, and a moving one arrives within arrival distance
/// whatever its braking range, else brakes in braking range, else accelerates.
pub proof fn lemma_order_step_by_case(obs: OrderObservation)
    ensures
        !obs.has_endpoint ==> order_step_for(obs) is Wait,
        obs.has_endpoint && obs.can_turn && obs.heading is Level ==> order_step_for(obs) is FinishTurning,
        obs.has_endpoint && obs.can_turn && obs.heading is Positive && !obs.heading_close
            ==> order_step_for(obs) is TurnLeft,
        obs.has_endpoint && obs.can_turn && obs.heading is Negative && !obs.heading_close
            ==> order_step_for(obs) is TurnRight,
        obs.has_endpoint && obs.can_turn && !(obs.heading is Level) && obs.heading_close
            ==> order_step_for(obs) is FaceTarget,
        obs.has_endpoint && !obs.can_turn && !obs.can_move ==> order_step_for(obs) is Wait,
        obs.has_endpoint && !obs.can_turn && obs.can_move && obs.arrived ==> order_step_for(obs) is Arrive,
        obs.has_endpoint && !obs.can_turn && obs.can_move && !obs.arrived && obs.braking_range
            ==> order_step_for(obs) is Brake,
        obs.has_endpoint && !obs.can_turn && obs.can_move && !obs.arrived && !obs.braking_range
            ==> order_step_for(obs) is Accelerate,
{
}

} // verus!
