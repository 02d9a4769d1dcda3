//! Column and row vocabulary of the process table widget.

use vstd::prelude::*;

verus! {

/// Which column of the process table a cell belongs to.
#[derive(Debug, Clone, Copy, PartialEq, Eq, Structural)]
pub enum TableColumnKind {
    Name,
    Cpu,
    Memory,
    DiskRead,
    DiskWritten,
    Action,
}

/// One generated table row stub.
#[derive(Debug)]
pub struct TableRow {
    pub notes: String,
    pub is_enabled: bool,
}

impl TableRow {
    /// Generates the row at `index`: every fifth row starts disabled.
    pub fn generate(index: usize) -> (r: Self)
        ensures
            r.is_enabled == (index % 5 < 4),
            r.notes@.len() == 0,
    {
        let is_enabled = index % 5 < 4;
        TableRow { notes: String::new(), is_enabled }
    }
}

} // verus!
