//! Game rules of the star map: ship damage, what the map shows at each zoom
//! level, which objects are visible, and the decisions taken each tick for
//! pausing, zooming and flying ordered routes.
pub mod map;
pub mod ships;
