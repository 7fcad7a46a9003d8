use vstd::prelude::*;

use crate::db::{PGStatActivity, PGSystemInfo};
use crate::text::{decimal, decimal_string, prefixed, string_views};

verus! {

/// How wide a column of a table is drawn.
#[derive(Clone, Copy, Debug, PartialEq, Eq, Structural)]
pub enum ColumnWidth {
    /// A share of the available width.
    Percentage(u16),
    /// At least this many cells.
    Min(u16),
    /// Exactly this many cells.
    Length(u16),
}

/// One table row ready to be drawn: its cells, whether the state cell is
/// emphasized, and whether the whole row is highlighted as the selection.
#[derive(Debug)]
pub struct RenderRow {
    pub cells: Vec<String>,
    pub state_emphasized: bool,
    pub highlighted: bool,
}

/// Everything a frame shows: the header summary row, the bold column names
/// of the activity table, and one row per activity in input order.
#[derive(Debug)]
pub struct FrameModel {
    pub system_row: Vec<String>,
    pub header: Vec<String>,
    pub rows: Vec<RenderRow>,
}

/// The mathematical content of a `RenderRow`.
pub struct RowView {
    pub cells: Seq<Seq<char>>,
    pub state_emphasized: bool,
    pub highlighted: bool,
}

/// The mathematical content of a `FrameModel`.
pub struct FrameView {
    pub system_row: Seq<Seq<char>>,
    pub header: Seq<Seq<char>>,
    pub rows: Seq<RowView>,
}

impl View for RenderRow {
    type V = RowView;

    open spec fn view(&self) -> RowView {
        RowView {
            cells: string_views(self.cells@),
            state_emphasized: self.state_emphasized,
            highlighted: self.highlighted,
        }
    }
}

impl View for FrameModel {
    type V = FrameView;

    open spec fn view(&self) -> FrameView {
        FrameView {
            system_row: string_views(self.system_row@),
            header: string_views(self.header@),
            rows: self.rows@.map_values(|r: RenderRow| r@),
        }
    }
}

/// The column names of the activity table.
pub open spec fn header_names() -> Seq<Seq<char>> {
    seq![
        "database"@,
        "pid"@,
        "user"@,
        "client_addr"@,
        "client_port"@,
        "backend duration"@,
        "query duration"@,
        "state"@,
        "query"@,
    ]
}

/// The three header fields that summarize the server.
pub open spec fn system_info_cells(info: PGSystemInfo) -> Seq<Seq<char>> {
    seq![
        "version: "@ + info.version@,
        "uptime: "@ + info.uptime@,
        "active connections: "@ + decimal(info.nb_of_conn as int),
    ]
}

/// The cells of one activity, in column order, with nothing truncated.
pub open spec fn activity_cells(a: PGStatActivity) -> Seq<Seq<char>> {
    seq![
        a.datname@,
        decimal(a.pid as int),
        a.usename@,
        a.client_addr@,
        decimal(a.client_port as int),
        a.backend_duration@,
        a.query_duration@,
        a.state@,
        a.query@,
    ]
}

/// An activity's state cell is emphasized exactly when the backend is active.
pub open spec fn is_active(a: PGStatActivity) -> bool {
    a.state@ == "active"@
}

/// The row drawn for an activity.
pub open spec fn activity_row_view(a: PGStatActivity, highlighted: bool) -> RowView {
    RowView { cells: activity_cells(a), state_emphasized: is_active(a), highlighted }
}

/// The widths of the activity table's columns, in column order.
pub open spec fn activity_width_seq() -> Seq<ColumnWidth> {
    seq![
        ColumnWidth::Min(10),
        ColumnWidth::Length(5),
        ColumnWidth::Min(10),
        ColumnWidth::Min(10),
        ColumnWidth::Length(11),
        ColumnWidth::Min(30),
        ColumnWidth::Min(30),
        ColumnWidth::Min(10),
        ColumnWidth::Min(50),
    ]
}

/// The frame drawn for a snapshot, its activities and the selected index.
pub open spec fn frame_of(
    info: PGSystemInfo,
    activities: Seq<PGStatActivity>,
    selected: Option<usize>,
) -> FrameView {
    FrameView {
        system_row: system_info_cells(info),
        header: header_names(),
        rows: Seq::new(
            activities.len(),
            |i: int| activity_row_view(activities[i], selected == Some(i as usize)),
        ),
    }
}

/// The column names of the activity table.
pub fn get_header_row() -> (r: Vec<String>)
    ensures
        string_views(r@) == header_names(),
{
    let mut r: Vec<String> = Vec::new();
    r.push(String::from_str("database"));
    r.push(String::from_str("pid"));
    r.push(String::from_str("user"));
    r.push(String::from_str("client_addr"));
    r.push(String::from_str("client_port"));
    r.push(String::from_str("backend duration"));
    r.push(String::from_str("query duration"));
    r.push(String::from_str("state"));
    r.push(String::from_str("query"));
    assert(string_views(r@) =~= header_names());
    r
}

/// The header row that summarizes the server.
pub fn system_info_row(info: &PGSystemInfo) -> (r: Vec<String>)
    ensures
        string_views(r@) == system_info_cells(*info),
{
    let mut r: Vec<String> = Vec::new();
    r.push(prefixed("version: ", info.version.as_str()));
    r.push(prefixed("uptime: ", info.uptime.as_str()));
    let conn = decimal_string(info.nb_of_conn);
    r.push(prefixed("active connections: ", conn.as_str()));
    assert(string_views(r@) =~= system_info_cells(*info));
    r
}

/// The row drawn for one activity.
pub fn activity_row(a: &PGStatActivity, highlighted: bool) -> (r: RenderRow)
    ensures
        r@ == activity_row_view(*a, highlighted),
{
    let mut cells: Vec<String> = Vec::new();
    cells.push(a.datname.clone());
    cells.push(decimal_string(a.pid as i64));
    cells.push(a.usename.clone());
    cells.push(a.client_addr.clone());
    cells.push(decimal_string(a.client_port as i64));
    cells.push(a.backend_duration.clone());
    cells.push(a.query_duration.clone());
    cells.push(a.state.clone());
    cells.push(a.query.clone());
    let active = String::from_str("active");
    let state_emphasized = a.state == active;
    assert(string_views(cells@) =~= activity_cells(*a));
    RenderRow { cells, state_emphasized, highlighted }
}

/// Renders a frame from a snapshot, its activities and the selected index.
/// The result depends on these alone: it reads them and changes nothing.
pub fn render_frame(
    info: &PGSystemInfo,
    activities: &Vec<PGStatActivity>,
    selected: Option<usize>,
) -> (r: FrameModel)
    ensures
        r@ == frame_of(*info, activities@, selected),
{
    let mut rows: Vec<RenderRow> = Vec::new();
    let mut i: usize = 0;
    while i < activities.len()
        invariant
            i <= activities@.len(),
            rows@.len() == i,
            forall|j: int|
                0 <= j < i ==> (#[trigger] rows@[j])@ == activity_row_view(
                    activities@[j],
                    selected == Some(j as usize),
                ),
        decreases activities@.len() - i,
    {
        let highlighted = match selected {
            Some(s) => s == i,
            None => false,
        };
        rows.push(activity_row(&activities[i], highlighted));
        i = i + 1;
    }
    let r = FrameModel { system_row: system_info_row(info), header: get_header_row(), rows };
    assert(r@.rows =~= frame_of(*info, activities@, selected).rows);
    r
}

/// Rendering is a function of the snapshot, the rows and the selection:
/// two frames rendered from the same three are identical.
pub proof fn lemma_render_idempotent(
    a: FrameModel,
    b: FrameModel,
    info: PGSystemInfo,
    activities: Seq<PGStatActivity>,
    selected: Option<usize>,
)
    requires
        a@ == frame_of(info, activities, selected),
        b@ == frame_of(info, activities, selected),
    ensures
        a@ == b@,
{
}

/// Column widths of the activity table; the query column claims the most.
pub fn activity_widths() -> (r: Vec<ColumnWidth>)
    ensures
        r@ == activity_width_seq(),
{
    let r = vec![
        ColumnWidth::Min(10),
        ColumnWidth::Length(5),
        ColumnWidth::Min(10),
        ColumnWidth::Min(10),
        ColumnWidth::Length(11),
        ColumnWidth::Min(30),
        ColumnWidth::Min(30),
        ColumnWidth::Min(10),
        ColumnWidth::Min(50),
    ];
    assert(r@ =~= activity_width_seq());
    r
}

/// Column widths of the header summary: 60, 20 and 20 percent.
pub fn system_info_widths() -> (r: Vec<ColumnWidth>)
    ensures
        r@ == seq![
            ColumnWidth::Percentage(60),
            ColumnWidth::Percentage(20),
            ColumnWidth::Percentage(20),
        ],
{
    let r = vec![
        ColumnWidth::Percentage(60),
        ColumnWidth::Percentage(20),
        ColumnWidth::Percentage(20),
    ];
    assert(r@ =~= seq![
        ColumnWidth::Percentage(60),
        ColumnWidth::Percentage(20),
        ColumnWidth::Percentage(20),
    ]);
    r
}

} // verus!
