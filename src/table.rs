//! The pod and node tables: header and rows as cell text, and their
//! rendering as fixed-width text.
use vstd::prelude::*;
use prettytable::{Cell, Row, Table};
use prettytable::format::{FormatBuilder, LinePosition, LineSeparator};
use crate::cells::{container_cells, format_container_and_env_vars, lemma_container_cells_aligned};
use crate::cli::OutputFormat;
use crate::filter::EnvVarsFilter;
use crate::metadata::{format_metadata, metadata_text, none_string, none_text};
use crate::resources::{FarosNode, FarosPod};
use crate::text::{line_count, newline_count};

verus! {

/// The text that this library's table layout gives for these rows of cell
/// strings: no borders, columns separated by one space and padded to the
/// widest cell, each cell split into lines as `Cell::new` splits it.
pub uninterp spec fn rendered_text(rows: Seq<Seq<Seq<char>>>) -> Seq<char>;

pub open spec fn cells_view(cells: Vec<String>) -> Seq<Seq<char>> {
    cells@.map_values(|c: String| c@)
}

pub open spec fn rows_view(rows: Seq<Vec<String>>) -> Seq<Seq<Seq<char>>> {
    rows.map_values(|r: Vec<String>| cells_view(r))
}

/// Relies on `prettytable::Table` (`init` with rows of `Cell::new` cells,
/// `set_format` with a fixed format, and `Display`): the rendered text is
/// determined by the cell strings alone.
#[verifier::external_body]
fn render_rows(rows: &Vec<Vec<String>>) -> (r: String)
    ensures
        r@ == rendered_text(rows_view(rows@)),
{
    let format = FormatBuilder::new().column_separator(' ').separator(
        LinePosition::Title,
        LineSeparator::new('-', '-', '-', '-'),
    ).padding(0, 1).build();
    let mut table = Table::init(
        rows.iter().map(|r| Row::new(r.iter().map(|c| Cell::new(c)).collect())).collect(),
    );
    table.set_format(format);
    table.to_string()
}

/// Why a table could not be displayed.
pub struct TableDisplayError {
    message: String,
}

impl TableDisplayError {
    pub closed spec fn message_view(&self) -> Seq<char> {
        self.message@
    }

    pub fn new(message: &str) -> (r: Self)
        ensures
            r.message_view() == message@,
    {
        TableDisplayError { message: String::from_str(message) }
    }

    /// The error as shown to a user.
    pub fn to_text(&self) -> (r: String)
        ensures
            r@ == "Table display error: "@ + self.message_view(),
    {
        String::from_str("Table display error: ").concat(self.message.as_str())
    }
}

/// `cols` when `shown`, else nothing.
pub open spec fn cols_if(shown: bool, cols: Seq<Seq<char>>) -> Seq<Seq<char>> {
    if shown {
        cols
    } else {
        Seq::empty()
    }
}

/// The header of the pod table: [NAMESPACE] POD [CONTAINERS ENV VARS]
/// [LABELS] [ANNOTATIONS] [NODE].
pub open spec fn pod_header(all_namespaces: bool, env_vars: bool, labels: bool, annotations: bool, wide: bool) -> Seq<Seq<char>> {
    cols_if(all_namespaces, seq!["NAMESPACE"@]) + seq!["POD"@] + cols_if(env_vars, seq!["CONTAINERS"@, "ENV VARS"@])
        + cols_if(labels, seq!["LABELS"@]) + cols_if(annotations, seq!["ANNOTATIONS"@]) + cols_if(wide, seq!["NODE"@])
}

/// The NODE cell: the node's name, or `<none>` for an unscheduled pod.
pub open spec fn node_cell(node: Option<String>) -> Seq<char> {
    match node {
        Some(n) => n@,
        None => none_text(),
    }
}

/// The pattern and invert flag of a filter, when one is given.
pub open spec fn filter_view(f: Option<&EnvVarsFilter>) -> Option<(Seq<char>, bool)> {
    match f {
        Some(f) => Some((f.pattern_view(), f.inverted())),
        None => None,
    }
}

/// The row of one pod, with the columns of `pod_header`.
pub open spec fn pod_row(
    p: FarosPod,
    all_namespaces: bool,
    filter: Option<(Seq<char>, bool)>,
    labels: bool,
    annotations: bool,
    wide: bool,
) -> Seq<Seq<char>> {
    cols_if(all_namespaces, seq![p.namespace@]) + seq![p.name@] + match filter {
        Some(f) => {
            let c = container_cells(p.container_env_vars@, f.0, f.1);
            seq![c.0, c.1]
        },
        None => Seq::empty(),
    } + cols_if(labels, seq![metadata_text(p.labels@)]) + cols_if(annotations, seq![metadata_text(p.annotations@)])
        + cols_if(wide, seq![node_cell(p.node)])
}

/// The pod table: the header, then one row per pod in order.
pub open spec fn pod_table_view(
    pods: Seq<FarosPod>,
    all_namespaces: bool,
    filter: Option<(Seq<char>, bool)>,
    labels: bool,
    annotations: bool,
    wide: bool,
) -> Seq<Seq<Seq<char>>> {
    seq![pod_header(all_namespaces, filter is Some, labels, annotations, wide)]
        + pods.map_values(|p: FarosPod| pod_row(p, all_namespaces, filter, labels, annotations, wide))
}

/// The header of the node table: NAME STATUS [LABELS] [ANNOTATIONS].
pub open spec fn node_header(labels: bool, annotations: bool) -> Seq<Seq<char>> {
    seq!["NAME"@, "STATUS"@] + cols_if(labels, seq!["LABELS"@]) + cols_if(annotations, seq!["ANNOTATIONS"@])
}

/// The row of one node, with the columns of `node_header`.
pub open spec fn node_row(n: FarosNode, labels: bool, annotations: bool) -> Seq<Seq<char>> {
    seq![n.name@, n.status.text()] + cols_if(labels, seq![metadata_text(n.labels@)])
        + cols_if(annotations, seq![metadata_text(n.annotations@)])
}

/// The node table: the header, then one row per node in order.
pub open spec fn node_table_view(nodes: Seq<FarosNode>, labels: bool, annotations: bool) -> Seq<Seq<Seq<char>>> {
    seq![node_header(labels, annotations)] + nodes.map_values(|n: FarosNode| node_row(n, labels, annotations))
}

fn push_cell(cells: &mut Vec<String>, cell: String)
    ensures
        cells_view(*final(cells)) == cells_view(*old(cells)).push(cell@),
{
    cells.push(cell);
    assert(cells_view(*cells) =~= cells_view(*old(cells)).push(cell@));
}

fn push_cell_if(cells: &mut Vec<String>, shown: bool, text: &str)
    ensures
        cells_view(*final(cells)) == cells_view(*old(cells)) + cols_if(shown, seq![text@]),
{
    if shown {
        push_cell(cells, String::from_str(text));
    }
    assert(cells_view(*cells) =~= cells_view(*old(cells)) + cols_if(shown, seq![text@]));
}

/// The header cells of the pod table.
pub fn pod_header_cells(all_namespaces: bool, env_vars: bool, labels: bool, annotations: bool, wide: bool) -> (r: Vec<String>)
    ensures
        cells_view(r) == pod_header(all_namespaces, env_vars, labels, annotations, wide),
{
    let mut h: Vec<String> = Vec::new();
    push_cell_if(&mut h, all_namespaces, "NAMESPACE");
    push_cell_if(&mut h, true, "POD");
    if env_vars {
        push_cell(&mut h, String::from_str("CONTAINERS"));
        push_cell(&mut h, String::from_str("ENV VARS"));
    }
    let ghost mid = cells_view(h);
    push_cell_if(&mut h, labels, "LABELS");
    push_cell_if(&mut h, annotations, "ANNOTATIONS");
    push_cell_if(&mut h, wide, "NODE");
    assert(mid =~= cols_if(all_namespaces, seq!["NAMESPACE"@]) + seq!["POD"@] + cols_if(env_vars, seq!["CONTAINERS"@, "ENV VARS"@]));
    h
}

/// The row cells of one pod.
pub fn pod_row_cells(
    pod: &FarosPod,
    all_namespaces: bool,
    env_vars_filter: Option<&EnvVarsFilter>,
    labels: bool,
    annotations: bool,
    wide: bool,
) -> (r: Vec<String>)
    ensures
        cells_view(r) == pod_row(*pod, all_namespaces, filter_view(env_vars_filter), labels, annotations, wide),
{
    let mut row: Vec<String> = Vec::new();
    push_cell_if(&mut row, all_namespaces, pod.namespace.as_str());
    push_cell(&mut row, pod.name.clone());
    let ghost before = cells_view(row);
    if let Some(filter) = env_vars_filter {
        let (containers, env_vars) = format_container_and_env_vars(&pod.container_env_vars, filter);
        push_cell(&mut row, containers);
        push_cell(&mut row, env_vars);
    }
    let ghost mid = cells_view(row);
    assert(mid =~= before + match filter_view(env_vars_filter) {
        Some(f) => {
            let c = container_cells(pod.container_env_vars@, f.0, f.1);
            seq![c.0, c.1]
        },
        None => Seq::<Seq<char>>::empty(),
    });
    if labels {
        push_cell(&mut row, format_metadata(&pod.labels));
    }
    let ghost l = cells_view(row);
    assert(l =~= mid + cols_if(labels, seq![metadata_text(pod.labels@)]));
    if annotations {
        push_cell(&mut row, format_metadata(&pod.annotations));
    }
    let ghost a = cells_view(row);
    assert(a =~= l + cols_if(annotations, seq![metadata_text(pod.annotations@)]));
    if wide {
        let node = match &pod.node {
            Some(n) => n.clone(),
            None => none_string(),
        };
        push_cell(&mut row, node);
    }
    assert(cells_view(row) =~= a + cols_if(wide, seq![node_cell(pod.node)]));
    row
}

/// The pod table as cells: the header row, then one row per pod.
pub fn pod_table(
    pods: &[FarosPod],
    output_format: &OutputFormat,
    show_labels: bool,
    show_annotations: bool,
    all_namespaces: bool,
    env_vars_filter: Option<&EnvVarsFilter>,
) -> (r: Vec<Vec<String>>)
    ensures
        rows_view(r@) == pod_table_view(pods@, all_namespaces, filter_view(env_vars_filter), show_labels,
            show_annotations, *output_format == OutputFormat::Wide),
{
    let wide = *output_format == OutputFormat::Wide;
    let ghost f = filter_view(env_vars_filter);
    let mut rows: Vec<Vec<String>> = Vec::new();
    rows.push(pod_header_cells(all_namespaces, env_vars_filter.is_some(), show_labels, show_annotations, wide));
    for i in 0..pods.len()
        invariant
            f == filter_view(env_vars_filter),
            wide == (*output_format == OutputFormat::Wide),
            rows_view(rows@) == seq![pod_header(all_namespaces, f is Some, show_labels, show_annotations, wide)]
                + pods@.take(i as int).map_values(|p: FarosPod| pod_row(p, all_namespaces, f, show_labels, show_annotations, wide)),
    {
        let row = pod_row_cells(&pods[i], all_namespaces, env_vars_filter, show_labels, show_annotations, wide);
        let ghost old_rows = rows@;
        rows.push(row);
        assert(pods@.take(i + 1).map_values(|p: FarosPod| pod_row(p, all_namespaces, f, show_labels, show_annotations, wide))
            =~= pods@.take(i as int).map_values(|p: FarosPod| pod_row(p, all_namespaces, f, show_labels, show_annotations, wide))
                .push(pod_row(pods@[i as int], all_namespaces, f, show_labels, show_annotations, wide)));
        assert(rows_view(rows@) =~= rows_view(old_rows).push(cells_view(row)));
    }
    assert(pods@.take(pods.len() as int) =~= pods@);
    rows
}

/// Renders pods as a table. With no pods there is nothing to show and the
/// result is `None`, for the caller to report that nothing matched;
/// otherwise it is the table text, header first, one row per pod.
pub fn display_pods(
    pods: &[FarosPod],
    output_format: &OutputFormat,
    show_labels: bool,
    show_annotations: bool,
    all_namespaces: bool,
    env_vars_filter: Option<&EnvVarsFilter>,
) -> (r: Result<Option<String>, TableDisplayError>)
    ensures
        pods@.len() == 0 ==> r matches Ok(None),
        pods@.len() > 0 ==> (r matches Ok(Some(t)) && t@ == rendered_text(pod_table_view(pods@, all_namespaces,
            filter_view(env_vars_filter), show_labels, show_annotations, *output_format == OutputFormat::Wide))),
{
    if pods.len() == 0 {
        return Ok(None);
    }
    let rows = pod_table(pods, output_format, show_labels, show_annotations, all_namespaces, env_vars_filter);
    Ok(Some(render_rows(&rows)))
}

/// The header cells of the node table.
pub fn node_header_cells(labels: bool, annotations: bool) -> (r: Vec<String>)
    ensures
        cells_view(r) == node_header(labels, annotations),
{
    let mut h: Vec<String> = Vec::new();
    push_cell(&mut h, String::from_str("NAME"));
    push_cell(&mut h, String::from_str("STATUS"));
    let ghost mid = cells_view(h);
    push_cell_if(&mut h, labels, "LABELS");
    push_cell_if(&mut h, annotations, "ANNOTATIONS");
    assert(mid =~= seq!["NAME"@, "STATUS"@]);
    h
}

/// The row cells of one node.
pub fn node_row_cells(node: &FarosNode, labels: bool, annotations: bool) -> (r: Vec<String>)
    ensures
        cells_view(r) == node_row(*node, labels, annotations),
{
    let mut row: Vec<String> = Vec::new();
    push_cell(&mut row, node.name.clone());
    push_cell(&mut row, node.status.to_text());
    let ghost mid = cells_view(row);
    assert(mid =~= seq![node.name@, node.status.text()]);
    if labels {
        push_cell(&mut row, format_metadata(&node.labels));
    }
    let ghost l = cells_view(row);
    assert(l =~= mid + cols_if(labels, seq![metadata_text(node.labels@)]));
    if annotations {
        push_cell(&mut row, format_metadata(&node.annotations));
    }
    assert(cells_view(row) =~= l + cols_if(annotations, seq![metadata_text(node.annotations@)]));
    row
}

/// The node table as cells: the header row, then one row per node.
pub fn node_table(nodes: &[FarosNode], show_labels: bool, show_annotations: bool) -> (r: Vec<Vec<String>>)
    ensures
        rows_view(r@) == node_table_view(nodes@, show_labels, show_annotations),
{
    let mut rows: Vec<Vec<String>> = Vec::new();
    rows.push(node_header_cells(show_labels, show_annotations));
    for i in 0..nodes.len()
        invariant
            rows_view(rows@) == seq![node_header(show_labels, show_annotations)]
                + nodes@.take(i as int).map_values(|n: FarosNode| node_row(n, show_labels, show_annotations)),
    {
        let row = node_row_cells(&nodes[i], show_labels, show_annotations);
        let ghost old_rows = rows@;
        rows.push(row);
        assert(nodes@.take(i + 1).map_values(|n: FarosNode| node_row(n, show_labels, show_annotations))
            =~= nodes@.take(i as int).map_values(|n: FarosNode| node_row(n, show_labels, show_annotations))
                .push(node_row(nodes@[i as int], show_labels, show_annotations)));
        assert(rows_view(rows@) =~= rows_view(old_rows).push(cells_view(row)));
    }
    assert(nodes@.take(nodes.len() as int) =~= nodes@);
    rows
}

/// Renders nodes as a table; `None` when there are no nodes. The output
/// format adds no column for nodes.
pub fn display_nodes(
    nodes: &[FarosNode],
    output_format: &OutputFormat,
    show_labels: bool,
    show_annotations: bool,
) -> (r: Result<Option<String>, TableDisplayError>)
    ensures
        nodes@.len() == 0 ==> r matches Ok(None),
        nodes@.len() > 0 ==> (r matches Ok(Some(t)) && t@ == rendered_text(node_table_view(nodes@, show_labels, show_annotations))),
{
    if nodes.len() == 0 {
        return Ok(None);
    }
    let rows = node_table(nodes, show_labels, show_annotations);
    Ok(Some(render_rows(&rows)))
}

/// In every pod row of a table with the environment columns, the
/// CONTAINERS cell and the ENV VARS cell take the same number of lines,
/// whatever the filter, provided no container name holds a line break.
pub proof fn lemma_pod_row_env_cells_aligned(
    p: FarosPod,
    all_namespaces: bool,
    filter: (Seq<char>, bool),
    labels: bool,
    annotations: bool,
    wide: bool,
)
    requires
        forall|i: int| 0 <= i < p.container_env_vars@.len() ==> newline_count(#[trigger] p.container_env_vars@[i].0) == 0,
    ensures
        ({
            let k = if all_namespaces { 2int } else { 1int };
            let header = pod_header(all_namespaces, true, labels, annotations, wide);
            let row = pod_row(p, all_namespaces, Some(filter), labels, annotations, wide);
            &&& header[k] == "CONTAINERS"@
            &&& header[k + 1] == "ENV VARS"@
            &&& row.len() == header.len()
            &&& line_count(row[k]) == line_count(row[k + 1])
        }),
{
    lemma_container_cells_aligned(p.container_env_vars@, filter.0, filter.1);
    let c = container_cells(p.container_env_vars@, filter.0, filter.1);
    let k = if all_namespaces { 2int } else { 1int };
    let header = pod_header(all_namespaces, true, labels, annotations, wide);
    let row = pod_row(p, all_namespaces, Some(filter), labels, annotations, wide);
    let hp = cols_if(all_namespaces, seq!["NAMESPACE"@]) + seq!["POD"@] + seq!["CONTAINERS"@, "ENV VARS"@];
    let rp = cols_if(all_namespaces, seq![p.namespace@]) + seq![p.name@] + seq![c.0, c.1];
    assert(hp[k] == "CONTAINERS"@ && hp[k + 1] == "ENV VARS"@);
    assert(rp[k] == c.0 && rp[k + 1] == c.1);
    assert(header =~= hp + cols_if(labels, seq!["LABELS"@]) + cols_if(annotations, seq!["ANNOTATIONS"@]) + cols_if(wide, seq!["NODE"@]));
    assert(row =~= rp + cols_if(labels, seq![metadata_text(p.labels@)]) + cols_if(annotations, seq![metadata_text(p.annotations@)])
        + cols_if(wide, seq![node_cell(p.node)]));
}

} // verus!
