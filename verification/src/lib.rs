//! The engine of a side-by-side hexadecimal file comparison: bytes become a
//! grid of hex cells, two grids are compared cell by cell, and a scroll
//! position chooses the rows that are shown.

pub mod diff;
pub mod grid;
pub mod hex;
pub mod scene;
pub mod scrollbar;
pub mod style;
pub mod viewport;
