//! Hit resolution for a small darts game: where a dart lands, which ring and
//! section it hits, and what that does to the players' totals.
pub mod board;
pub mod crosshair;
pub mod game;
pub mod geometry;
pub mod score;
