//! Loading of per-artist streaming tables: the comma-separated rows are
//! parsed, the four stream columns are picked out of each row, and each cell
//! is cleaned of its thousands separators before it is read as a number.
//! Each sub-metric is then set against the total, and each relationship's
//! plot goes to a file named after its title.

mod metric;
mod naming;
mod table;

pub use metric::{relationships, Metric};
pub use naming::{image_file_name, output_file_name};
pub use table::{
    cell, cells_from_rows, load_table, row_cells, strip_commas, LoadError, StreamCells,
    FEATURE_COLUMN, LEAD_COLUMN, SOLO_COLUMN, TOTAL_COLUMN,
};
