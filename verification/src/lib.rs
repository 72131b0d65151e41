//! Procedural ground scenery and avatar motion for a tile-based scene.
//!
//! The scenery is a square grid of tiles with decorations scattered over it
//! ([`scatter`]), figures and free-standing trees drawn around a center
//! ([`spawn`]), all with draws from a seedable source ([`random`]). The avatar
//! moves under four directional inputs, and a camera follows it at a fixed
//! offset ([`motion`]). What holds of every scatter and of every step is
//! proved in [`scatter_laws`] and [`motion_laws`].
//!
//! All lengths are fixed-point: integers that count a caller-chosen fraction
//! of a world unit ([`geometry`]). The avatar and the camera have wider
//! coordinates than the scenery, so that the avatar can walk far beyond it.
//! Elapsed time is an integer count of caller-chosen time units, and speed is
//! measured in position units per time unit. Probabilities are counted in
//! parts of [`config::PROBABILITY_SCALE`].

pub mod config;
pub mod geometry;
pub mod motion;
pub mod motion_laws;
pub mod random;
pub mod scatter;
pub mod scatter_laws;
pub mod spawn;
