//! Validated configuration of the ground grid and of the scenery scatter.

use vstd::prelude::*;

verus! {

/// Probabilities are counted in parts of this scale: `PROBABILITY_SCALE`
/// stands for certainty, `0` for impossibility.
pub const PROBABILITY_SCALE: u32 = 1_000_000;

/// The longest side, in position units, that a grid may have. It leaves room
/// in a coordinate for any jitter around the outermost cells.
pub const MAX_EXTENT: u64 = 0x4000_0000_0000_0000;

/// Why a configuration was refused.
#[derive(Clone, Copy, Debug, PartialEq, Eq, Structural)]
pub enum ConfigError {
    /// The tile size is zero.
    ZeroTileSize,
    /// `map_size * tile_size` exceeds `MAX_EXTENT`.
    ExtentTooLarge,
    /// The decoration probability exceeds `PROBABILITY_SCALE`.
    ProbabilityOutOfRange,
    /// A square to draw points from reaches zero to each side: it holds no
    /// point.
    EmptySquare,
}

/// What `ConfigError::message` says of each error.
pub open spec fn message_of(error: ConfigError) -> Seq<char> {
    match error {
        ConfigError::ZeroTileSize => "the tile size must be greater than zero"@,
        ConfigError::ExtentTooLarge => "the side of the grid, map size times tile size, is too long"@,
        ConfigError::ProbabilityOutOfRange => "the decoration probability must not exceed one"@,
        ConfigError::EmptySquare => "the square to draw points from must not be empty"@,
    }
}

impl ConfigError {
    /// A sentence that says what is wrong with the configuration.
    pub fn message(&self) -> (text: &'static str)
        ensures
            text@ == message_of(*self),
    {
        match self {
            ConfigError::ZeroTileSize => "the tile size must be greater than zero",
            ConfigError::ExtentTooLarge => "the side of the grid, map size times tile size, is too long",
            ConfigError::ProbabilityOutOfRange => "the decoration probability must not exceed one",
            ConfigError::EmptySquare => "the square to draw points from must not be empty",
        }
    }
}

/// What a `GridConfig` stands for: a square of `map_size` by `map_size`
/// cells, each `tile_size` position units wide.
pub struct GridModel {
    pub map_size: nat,
    pub tile_size: nat,
}

impl GridModel {
    /// Whether the grid is one that a `GridConfig` can hold: a tile size
    /// above zero, and a side that is at most `MAX_EXTENT` long.
    pub open spec fn wf(self) -> bool {
        &&& self.tile_size > 0
        &&& self.tile_size <= u32::MAX
        &&& self.map_size <= u32::MAX
        &&& self.map_size * self.tile_size <= MAX_EXTENT
    }

    /// The number of cells of the grid.
    pub open spec fn cell_count(self) -> nat {
        self.map_size * self.map_size
    }
}

/// What a `ScatterConfig` stands for: each cell is decorated with
/// probability `decoration_probability / PROBABILITY_SCALE`, and a decoration
/// lies at most `jitter_range` position units from the cell's center on each
/// axis.
pub struct ScatterModel {
    pub decoration_probability: nat,
    pub jitter_range: nat,
}

impl ScatterModel {
    /// Whether the scatter is one that a `ScatterConfig` can hold: a
    /// probability of at most one.
    pub open spec fn wf(self) -> bool {
        &&& self.decoration_probability <= PROBABILITY_SCALE
        &&& self.jitter_range <= u32::MAX
    }
}

/// The size of the ground grid. Every value of this type is valid.
#[derive(Clone, Copy, Debug, PartialEq, Eq)]
pub struct GridConfig {
    map_size: u32,
    tile_size: u32,
}

impl View for GridConfig {
    type V = GridModel;

    closed spec fn view(&self) -> GridModel {
        GridModel { map_size: self.map_size as nat, tile_size: self.tile_size as nat }
    }
}

impl GridConfig {
    /// What holds of every grid configuration.
    #[verifier::type_invariant]
    pub open spec fn valid(self) -> bool {
        self@.wf()
    }

    /// Validates a grid of `map_size` by `map_size` cells of width
    /// `tile_size`. A zero tile size is refused first, then a grid whose side
    /// is longer than `MAX_EXTENT`.
    pub fn new(map_size: u32, tile_size: u32) -> (made: Result<GridConfig, ConfigError>)
        ensures
            tile_size == 0 ==> made == Err::<GridConfig, ConfigError>(ConfigError::ZeroTileSize),
            tile_size > 0 && map_size * tile_size > MAX_EXTENT ==> made == Err::<
                GridConfig,
                ConfigError,
            >(ConfigError::ExtentTooLarge),
            tile_size > 0 && map_size * tile_size <= MAX_EXTENT ==> made is Ok,
            made matches Ok(grid) ==> grid@ == (GridModel {
                map_size: map_size as nat,
                tile_size: tile_size as nat,
            }) && grid@.wf(),
    {
        if tile_size == 0 {
            return Err(ConfigError::ZeroTileSize);
        }
        assert(map_size * tile_size <= u64::MAX) by (nonlinear_arith)
            requires
                map_size <= u32::MAX,
                tile_size <= u32::MAX,
        ;
        let side: u64 = (map_size as u64) * (tile_size as u64);
        if side > MAX_EXTENT {
            return Err(ConfigError::ExtentTooLarge);
        }
        Ok(GridConfig { map_size, tile_size })
    }

    /// The number of cells along each side.
    pub fn map_size(&self) -> (n: u32)
        ensures
            n == self@.map_size,
    {
        self.map_size
    }

    /// The width of a cell, in position units.
    pub fn tile_size(&self) -> (t: u32)
        ensures
            t == self@.tile_size,
            t > 0,
    {
        proof {
            use_type_invariant(self);
        }
        self.tile_size
    }
}

/// How decorations are scattered. Every value of this type is valid.
#[derive(Clone, Copy, Debug, PartialEq, Eq)]
pub struct ScatterConfig {
    decoration_probability: u32,
    jitter_range: u32,
}

impl View for ScatterConfig {
    type V = ScatterModel;

    closed spec fn view(&self) -> ScatterModel {
        ScatterModel {
            decoration_probability: self.decoration_probability as nat,
            jitter_range: self.jitter_range as nat,
        }
    }
}

impl ScatterConfig {
    /// What holds of every scatter configuration.
    #[verifier::type_invariant]
    pub open spec fn valid(self) -> bool {
        self@.wf()
    }

    /// Validates a scatter that decorates a cell with probability
    /// `decoration_probability / PROBABILITY_SCALE` and moves a decoration by
    /// at most `jitter_range` on each axis.
    pub fn new(decoration_probability: u32, jitter_range: u32) -> (made: Result<
        ScatterConfig,
        ConfigError,
    >)
        ensures
            decoration_probability > PROBABILITY_SCALE ==> made == Err::<
                ScatterConfig,
                ConfigError,
            >(ConfigError::ProbabilityOutOfRange),
            decoration_probability <= PROBABILITY_SCALE ==> made is Ok,
            made matches Ok(scatter) ==> scatter@ == (ScatterModel {
                decoration_probability: decoration_probability as nat,
                jitter_range: jitter_range as nat,
            }) && scatter@.wf(),
    {
        if decoration_probability > PROBABILITY_SCALE {
            return Err(ConfigError::ProbabilityOutOfRange);
        }
        Ok(ScatterConfig { decoration_probability, jitter_range })
    }

    /// The chance of a decoration in a cell, in parts of `PROBABILITY_SCALE`.
    pub fn decoration_probability(&self) -> (p: u32)
        ensures
            p == self@.decoration_probability,
            p <= PROBABILITY_SCALE,
    {
        proof {
            use_type_invariant(self);
        }
        self.decoration_probability
    }

    /// The largest distance of a decoration from its cell's center, on each
    /// axis.
    pub fn jitter_range(&self) -> (r: u32)
        ensures
            r == self@.jitter_range,
    {
        self.jitter_range
    }
}

} // verus!
