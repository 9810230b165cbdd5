//! The static configuration of a game: the size of the map and of one cell,
//! in pixels, from which the number of cells a side follows.

use vstd::prelude::*;

verus! {

/// The size of the map and of one cell, in pixels.
#[derive(Debug, PartialEq, Eq, Clone, Copy, Structural)]
pub struct Config {
    pub map_width_px: usize,
    pub map_height_px: usize,
    pub cell_width_px: usize,
    pub cell_height_px: usize,
}

/// Why a configuration gives no grid to play on.
#[derive(Debug, PartialEq, Eq, Clone, Copy, Structural)]
pub enum ConfigError {
    /// A cell is 0 pixels wide or high.
    EmptyCell,
    /// The map holds another number of cells across than down.
    NotSquare,
    /// The grid has fewer than two cells a side, too few for the snake that
    /// a game starts with.
    TooSmall,
    /// The number of cells a side does not fit a coordinate.
    TooLarge,
}

impl Config {
    /// A configuration of a map and of its cells, sizes in pixels. It is
    /// taken as given: `grid_size` says whether it gives a grid.
    pub fn new(
        map_width_px: usize,
        map_height_px: usize,
        cell_width_px: usize,
        cell_height_px: usize,
    ) -> (config: Config)
        ensures
            config == (Config { map_width_px, map_height_px, cell_width_px, cell_height_px }),
    {
        Config { map_width_px, map_height_px, cell_width_px, cell_height_px }
    }

    /// The number of whole cells that fit across the map.
    pub open spec fn columns(&self) -> int {
        self.map_width_px as int / self.cell_width_px as int
    }

    /// The number of whole cells that fit down the map.
    pub open spec fn rows(&self) -> int {
        self.map_height_px as int / self.cell_height_px as int
    }

    /// The number of cells a side of the grid, or why there is no grid.
    pub open spec fn checked_grid_size(&self) -> Result<int, ConfigError> {
        if self.cell_width_px == 0 || self.cell_height_px == 0 {
            Err(ConfigError::EmptyCell)
        } else if self.columns() != self.rows() {
            Err(ConfigError::NotSquare)
        } else if self.columns() < 2 {
            Err(ConfigError::TooSmall)
        } else if self.columns() > i32::MAX {
            Err(ConfigError::TooLarge)
        } else {
            Ok(self.columns())
        }
    }

    /// The number of cells a side of the grid that the configuration
    /// describes. A configuration without a square grid of at least two cells
    /// a side is turned down.
    pub fn grid_size(&self) -> (size: Result<i32, ConfigError>)
        ensures
            match size {
                Ok(n) => self.checked_grid_size() == Ok::<int, ConfigError>(n as int),
                Err(e) => self.checked_grid_size() == Err::<int, ConfigError>(e),
            },
    {
        if self.cell_width_px == 0 || self.cell_height_px == 0 {
            return Err(ConfigError::EmptyCell);
        }
        let columns = self.map_width_px / self.cell_width_px;
        let rows = self.map_height_px / self.cell_height_px;
        if columns != rows {
            Err(ConfigError::NotSquare)
        } else if columns < 2 {
            Err(ConfigError::TooSmall)
        } else if columns > i32::MAX as usize {
            Err(ConfigError::TooLarge)
        } else {
            Ok(columns as i32)
        }
    }
}

} // verus!
