use vstd::prelude::*;

verus! {

/// Index reached by moving down from `i` among `n` rows, wrapping to the top.
pub open spec fn down_index(i: int, n: int) -> int {
    if i + 1 >= n {
        0
    } else {
        i + 1
    }
}

/// Index reached by moving up from `i` among `n` rows, wrapping to the bottom.
pub open spec fn up_index(i: int, n: int) -> int {
    if i == 0 {
        n - 1
    } else {
        i - 1
    }
}

/// The selection after moving down among `n` rows.
pub open spec fn select_down(sel: Option<usize>, n: usize) -> Option<usize> {
    if n == 0 {
        None
    } else {
        match sel {
            Some(i) => Some(down_index(i as int, n as int) as usize),
            None => Some(0),
        }
    }
}

/// The selection after moving up among `n` rows.
pub open spec fn select_up(sel: Option<usize>, n: usize) -> Option<usize> {
    if n == 0 {
        None
    } else {
        match sel {
            Some(i) => Some(up_index(i as int, n as int) as usize),
            None => Some(0),
        }
    }
}

/// The selection kept when the table now holds `n` rows: absent for an empty
/// table, clamped to the last row when it points past the end, the first row
/// when nothing was selected, and unchanged otherwise.
pub open spec fn clamp_selection(sel: Option<usize>, n: usize) -> Option<usize> {
    if n == 0 {
        None
    } else {
        match sel {
            Some(i) => if i >= n {
                Some((n - 1) as usize)
            } else {
                Some(i)
            },
            None => Some(0),
        }
    }
}

/// The highlighted row of a table, together with the number of rows it has.
pub struct Selection {
    selected: Option<usize>,
    row_count: usize,
}

impl Selection {
    /// A selection is present exactly when there are rows, and then lies
    /// among them.
    pub open spec fn wf(&self) -> bool {
        match self.spec_selected() {
            Some(i) => i < self.spec_row_count(),
            None => self.spec_row_count() == 0,
        }
    }

    pub closed spec fn spec_selected(&self) -> Option<usize> {
        self.selected
    }

    pub closed spec fn spec_row_count(&self) -> usize {
        self.row_count
    }

    /// The selection of an empty table.
    pub fn new() -> (r: Selection)
        ensures
            r.wf(),
            r.spec_selected() == None::<usize>,
            r.spec_row_count() == 0,
    {
        Selection { selected: None, row_count: 0 }
    }

    /// Moves the selection one row down, from the last row back to the first.
    /// Nothing changes on an empty table.
    pub fn next(&mut self)
        requires
            old(self).wf(),
        ensures
            final(self).wf(),
            final(self).spec_row_count() == old(self).spec_row_count(),
            final(self).spec_selected() == select_down(
                old(self).spec_selected(),
                old(self).spec_row_count(),
            ),
    {
        if self.row_count == 0 {
            return ;
        }
        let i: usize = match self.selected {
            Some(i) => {
                if i >= self.row_count - 1 {
                    0
                } else {
                    i + 1
                }
            },
            None => 0,
        };
        self.selected = Some(i);
    }

    /// Moves the selection one row up, from the first row round to the last.
    /// Nothing changes on an empty table.
    pub fn previous(&mut self)
        requires
            old(self).wf(),
        ensures
            final(self).wf(),
            final(self).spec_row_count() == old(self).spec_row_count(),
            final(self).spec_selected() == select_up(
                old(self).spec_selected(),
                old(self).spec_row_count(),
            ),
    {
        if self.row_count == 0 {
            return ;
        }
        let i: usize = match self.selected {
            Some(i) => {
                if i == 0 {
                    self.row_count - 1
                } else {
                    i - 1
                }
            },
            None => 0,
        };
        self.selected = Some(i);
    }

    /// Takes the new number of rows after a refresh and keeps the selection
    /// by position, clamped to the rows that remain.
    pub fn resize(&mut self, row_count: usize)
        requires
            old(self).wf(),
        ensures
            final(self).wf(),
            final(self).spec_row_count() == row_count,
            final(self).spec_selected() == clamp_selection(old(self).spec_selected(), row_count),
    {
        let selected = if row_count == 0 {
            None
        } else {
            match self.selected {
                Some(i) => if i >= row_count {
                    Some(row_count - 1)
                } else {
                    Some(i)
                },
                None => Some(0),
            }
        };
        self.selected = selected;
        self.row_count = row_count;
    }

    pub fn selected(&self) -> (r: Option<usize>)
        ensures
            r == self.spec_selected(),
    {
        self.selected
    }

    pub fn row_count(&self) -> (r: usize)
        ensures
            r == self.spec_row_count(),
    {
        self.row_count
    }
}

} // verus!
