//! The operator's requests, what each asks of the runtime, and how the
//! runtime's answer becomes a table or a report.
use vstd::prelude::*;
use vstd::string::StringExecFns;

use crate::records::{
    InspectRow, container_row_of, display_name, image_fault, image_row_of, kilobytes, normalize_containers,
    normalize_images, short_id_len, short_image_id, text_or_empty, ContainerRecord, ContainerRow,
    ImageRecord, ImageRow, RecordError,
};
use crate::text::{decimal, leading, texts};

verus! {

/// The image command.
pub struct Img {
    pub command: ImgOptions,
}

/// What the image command does.
pub enum ImgOptions {
    /// List every stored image.
    List,
}

/// The container command.
pub struct Ps {
    pub command: PsOptions,
}

/// What the container command does.
pub enum PsOptions {
    /// List the running containers.
    Info,
    /// Stop the named container.
    Kill(ContainerInfo),
}

/// The container a lifecycle command is aimed at.
pub struct ContainerInfo {
    pub container_name: String,
}

/// A resolved request of the operator.
pub enum Commands {
    Img(Img),
    Ps(Ps),
}

/// Options of the image listing call.
pub struct ImageQuery {
    /// Include images that no container uses.
    pub all: bool,
}

/// One listing filter: a key and the values it accepts.
pub struct Filter {
    pub key: String,
    pub values: Vec<String>,
}

/// Options of the container listing call.
pub struct ContainerQuery {
    pub all: bool,
    pub filters: Vec<Filter>,
}

/// A request to send a signal to a named container.
pub struct KillRequest {
    pub container_name: String,
    pub signal: String,
}

/// The single runtime call a request needs.
pub enum Action {
    ListImages(ImageQuery),
    ListContainers(ContainerQuery),
    Kill(KillRequest),
}

/// Why a command did not complete.
pub enum CommandError {
    /// The kill command was given an empty container name.
    EmptyContainerName,
    /// The runtime call failed; the transport's message.
    Transport(String),
    /// A returned record could not be turned into a row.
    Malformed(RecordError),
}

/// A table of text cells: a header row, then one row per record.
pub struct TextTable {
    pub header: Vec<String>,
    pub rows: Vec<Vec<String>>,
}

/// What is reported after a kill request was sent.
pub struct KillReport {
    /// The confirmation line, printed whatever the runtime answered.
    pub confirmation: String,
    /// The runtime's refusal or the transport failure, if any.
    pub failure: Option<String>,
}

pub open spec fn status_key() -> Seq<char> {
    "status"@
}

pub open spec fn running_state() -> Seq<char> {
    "running"@
}

pub open spec fn terminate_signal() -> Seq<char> {
    "SIGTERM"@
}

/// The filter list narrows to the `running` status alone.
pub open spec fn is_running_filter(filters: Seq<Filter>) -> bool {
    &&& filters.len() == 1
    &&& filters[0].key@ == status_key()
    &&& texts(filters[0].values@) == seq![running_state()]
}

pub open spec fn image_header() -> Seq<Seq<char>> {
    seq!["ID"@, "Image Tag"@, "Size(KB)"@]
}

pub open spec fn container_header() -> Seq<Seq<char>> {
    seq!["ID"@, "Container Name"@, "Image"@, "State"@]
}

/// The cells that a well-formed image record shows.
pub open spec fn image_cells_of(rec: ImageRecord) -> Seq<Seq<char>> {
    seq![short_image_id(rec.id@), rec.repo_tags@[0]@, decimal(kilobytes(rec.size as int))]
}

/// The cells that a container record shows.
pub open spec fn container_cells_of(rec: ContainerRecord) -> Seq<Seq<char>> {
    seq![
        leading(text_or_empty(rec.id), short_id_len()),
        display_name(rec.names),
        text_or_empty(rec.image),
        text_or_empty(rec.state),
    ]
}

pub open spec fn inspection_header() -> Seq<Seq<char>> {
    seq!["ID"@, "Container Name"@, "Image ID"@, "Container Size"@, "State"@]
}

pub open spec fn inspection_cells(row: InspectRow) -> Seq<Seq<char>> {
    seq![row.id@, row.name@, row.image@, row.size@, row.status@]
}

pub open spec fn image_cells(row: ImageRow) -> Seq<Seq<char>> {
    seq![row.id@, row.tag@, row.size_kb@]
}

pub open spec fn container_cells(row: ContainerRow) -> Seq<Seq<char>> {
    seq![row.id@, row.name@, row.image@, row.state@]
}

/// The line that confirms a kill request for `name`: the name in double quotes.
pub open spec fn kill_confirmation(name: Seq<char>) -> Seq<char> {
    "Kills Container ID: \""@ + name + "\""@
}

/// The cells of a table, as texts.
pub open spec fn table_cells(rows: Seq<Vec<String>>) -> Seq<Seq<Seq<char>>> {
    rows.map_values(|r: Vec<String>| texts(r@))
}

/// `r` is what the container command `ps` asks of the runtime: a listing
/// narrowed to running containers, or one graceful kill request.
pub open spec fn ps_action(ps: Ps, r: Result<Action, CommandError>) -> bool {
    match ps.command {
        PsOptions::Info => r matches Ok(Action::ListContainers(q)) && q.all && is_running_filter(
            q.filters@,
        ),
        PsOptions::Kill(c) => {
            &&& r is Err <==> c.container_name@.len() == 0
            &&& r matches Err(e) ==> e is EmptyContainerName
            &&& r matches Ok(a) ==> a matches Action::Kill(k) && k.container_name@
                == c.container_name@ && k.signal@ == terminate_signal()
        },
    }
}

/// Options that list every image, dangling ones included.
pub fn image_query() -> (q: ImageQuery)
    ensures
        q.all,
{
    ImageQuery { all: true }
}

/// Options that list all containers narrowed to those in the `running` state.
pub fn running_containers_query() -> (q: ContainerQuery)
    ensures
        q.all,
        is_running_filter(q.filters@),
{
    let mut values: Vec<String> = Vec::new();
    values.push("running".to_owned());
    let mut filters: Vec<Filter> = Vec::new();
    filters.push(Filter { key: "status".to_owned(), values });
    assert(texts(filters@[0].values@) =~= seq![running_state()]);
    ContainerQuery { all: true, filters }
}

/// The request that asks the runtime to terminate `name` gracefully.
/// Fails exactly when the name is empty.
pub fn kill_request(name: &String) -> (r: Result<KillRequest, CommandError>)
    ensures
        r is Err <==> name@.len() == 0,
        r matches Err(e) ==> e is EmptyContainerName,
        r matches Ok(k) ==> k.container_name@ == name@ && k.signal@ == terminate_signal(),
{
    if name.as_str().unicode_len() == 0 {
        return Err(CommandError::EmptyContainerName);
    }
    Ok(KillRequest { container_name: name.clone(), signal: "SIGTERM".to_owned() })
}

impl Img {
    /// The runtime call that the image command needs.
    pub fn action(&self) -> (a: Action)
        ensures
            a matches Action::ListImages(q) && q.all,
    {
        match self.command {
            ImgOptions::List => Action::ListImages(image_query()),
        }
    }
}

impl Ps {
    /// The runtime call that the container command needs: a listing
    /// narrowed to running containers, or one graceful kill request.
    pub fn action(&self) -> (r: Result<Action, CommandError>)
        ensures
            ps_action(*self, r),
    {
        match &self.command {
            PsOptions::Info => Ok(Action::ListContainers(running_containers_query())),
            PsOptions::Kill(c) => match kill_request(&c.container_name) {
                Ok(k) => Ok(Action::Kill(k)),
                Err(e) => Err(e),
            },
        }
    }
}

impl Commands {
    /// The runtime call that the request needs.
    pub fn action(&self) -> (r: Result<Action, CommandError>)
        ensures
            self matches Commands::Img(i) ==> r matches Ok(a) && a matches Action::ListImages(
                q,
            ) && q.all,
            self matches Commands::Ps(p) ==> ps_action(*p, r),
    {
        match self {
            Commands::Img(i) => Ok(i.action()),
            Commands::Ps(p) => p.action(),
        }
    }
}


impl ImageRow {
    /// The row's cells, in column order.
    pub fn cells(&self) -> (r: Vec<String>)
        ensures
            texts(r@) == image_cells(*self),
    {
        let mut r: Vec<String> = Vec::new();
        r.push(self.id.clone());
        r.push(self.tag.clone());
        r.push(self.size_kb.clone());
        assert(texts(r@) =~= image_cells(*self));
        r
    }
}

impl ContainerRow {
    /// The row's cells, in column order.
    pub fn cells(&self) -> (r: Vec<String>)
        ensures
            texts(r@) == container_cells(*self),
    {
        let mut r: Vec<String> = Vec::new();
        r.push(self.id.clone());
        r.push(self.name.clone());
        r.push(self.image.clone());
        r.push(self.state.clone());
        assert(texts(r@) =~= container_cells(*self));
        r
    }
}

/// The detail table of one inspected container: its header, then its row.
pub fn inspection_table(row: &InspectRow) -> (t: TextTable)
    ensures
        texts(t.header@) == inspection_header(),
        t.rows@.len() == 1,
        texts(t.rows@[0]@) == inspection_cells(*row),
{
    let mut header: Vec<String> = Vec::new();
    header.push("ID".to_owned());
    header.push("Container Name".to_owned());
    header.push("Image ID".to_owned());
    header.push("Container Size".to_owned());
    header.push("State".to_owned());
    assert(texts(header@) =~= inspection_header());
    let mut cells: Vec<String> = Vec::new();
    cells.push(row.id.clone());
    cells.push(row.name.clone());
    cells.push(row.image.clone());
    cells.push(row.size.clone());
    cells.push(row.status.clone());
    assert(texts(cells@) =~= inspection_cells(*row));
    let mut rows: Vec<Vec<String>> = Vec::new();
    rows.push(cells);
    TextTable { header, rows }
}

/// The image table: its header, then one row per image, in order.
pub fn image_table(rows: &Vec<ImageRow>) -> (t: TextTable)
    ensures
        texts(t.header@) == image_header(),
        t.rows@.len() == rows@.len(),
        forall|i: int| 0 <= i < rows@.len() ==> texts(#[trigger] t.rows@[i]@) == image_cells(
            rows@[i],
        ),
{
    let mut header: Vec<String> = Vec::new();
    header.push("ID".to_owned());
    header.push("Image Tag".to_owned());
    header.push("Size(KB)".to_owned());
    assert(texts(header@) =~= image_header());
    let mut body: Vec<Vec<String>> = Vec::new();
    let mut i: usize = 0;
    while i < rows.len()
        invariant
            i <= rows@.len(),
            body@.len() == i,
            forall|j: int| 0 <= j < i ==> texts(#[trigger] body@[j]@) == image_cells(rows@[j]),
        decreases rows@.len() - i,
    {
        body.push(rows[i].cells());
        i = i + 1;
    }
    TextTable { header, rows: body }
}

/// The running-container table: its header, then one row per container, in order.
pub fn container_table(rows: &Vec<ContainerRow>) -> (t: TextTable)
    ensures
        texts(t.header@) == container_header(),
        t.rows@.len() == rows@.len(),
        forall|i: int| 0 <= i < rows@.len() ==> texts(#[trigger] t.rows@[i]@) == container_cells(
            rows@[i],
        ),
{
    let mut header: Vec<String> = Vec::new();
    header.push("ID".to_owned());
    header.push("Container Name".to_owned());
    header.push("Image".to_owned());
    header.push("State".to_owned());
    assert(texts(header@) =~= container_header());
    let mut body: Vec<Vec<String>> = Vec::new();
    let mut i: usize = 0;
    while i < rows.len()
        invariant
            i <= rows@.len(),
            body@.len() == i,
            forall|j: int| 0 <= j < i ==> texts(#[trigger] body@[j]@) == container_cells(
                rows@[j],
            ),
        decreases rows@.len() - i,
    {
        body.push(rows[i].cells());
        i = i + 1;
    }
    TextTable { header, rows: body }
}

/// The outcome of listing images, from the runtime's answer: the whole
/// table, or an error and no table. A transport failure is passed on; a
/// malformed record fails the command with the first such record's fault.
pub fn list_images_outcome(response: Result<Vec<ImageRecord>, String>) -> (r: Result<
    TextTable,
    CommandError,
>)
    ensures
        response matches Err(m) ==> r matches Err(CommandError::Transport(m2)) && m2 == m,
        response matches Ok(recs) ==> {
            &&& r is Ok <==> forall|i: int|
                0 <= i < recs@.len() ==> image_fault(#[trigger] recs@[i]) is None
            &&& r matches Ok(t) ==> {
                &&& texts(t.header@) == image_header()
                &&& t.rows@.len() == recs@.len()
                &&& forall|i: int|
                    0 <= i < recs@.len() ==> texts(#[trigger] t.rows@[i]@) == image_cells_of(
                        recs@[i],
                    )
            }
            &&& r is Err ==> (r matches Err(CommandError::Malformed(e)) && exists|i: int|
                0 <= i < recs@.len() && image_fault(#[trigger] recs@[i]) == Some(e) && forall|
                    j: int,
                | 0 <= j < i ==> image_fault(#[trigger] recs@[j]) is None)
        },
{
    match response {
        Err(m) => Err(CommandError::Transport(m)),
        Ok(recs) => match normalize_images(&recs) {
            Ok(rows) => {
                let t = image_table(&rows);
                assert forall|i: int| 0 <= i < recs@.len() implies texts(
                    #[trigger] t.rows@[i]@,
                ) == image_cells_of(recs@[i]) by {
                    assert(image_row_of(recs@[i], rows@[i]));
                    assert(image_cells(rows@[i]) =~= image_cells_of(recs@[i]));
                }
                Ok(t)
            },
            Err(e) => Err(CommandError::Malformed(e)),
        },
    }
}

/// The outcome of listing running containers, from the runtime's answer:
/// the whole table, one row per returned container, or the transport failure.
pub fn list_containers_outcome(response: Result<Vec<ContainerRecord>, String>) -> (r: Result<
    TextTable,
    CommandError,
>)
    ensures
        response matches Err(m) ==> r matches Err(CommandError::Transport(m2)) && m2 == m,
        response matches Ok(recs) ==> r matches Ok(t) && {
            &&& texts(t.header@) == container_header()
            &&& t.rows@.len() == recs@.len()
            &&& forall|i: int|
                0 <= i < recs@.len() ==> texts(#[trigger] t.rows@[i]@) == container_cells_of(
                    recs@[i],
                )
        },
{
    match response {
        Err(m) => Err(CommandError::Transport(m)),
        Ok(recs) => {
            let rows = normalize_containers(&recs);
            let t = container_table(&rows);
            assert forall|i: int| 0 <= i < recs@.len() implies texts(#[trigger] t.rows@[i]@)
                == container_cells_of(recs@[i]) by {
                assert(container_row_of(recs@[i], rows@[i]));
                assert(container_cells(rows@[i]) =~= container_cells_of(recs@[i]));
            }
            Ok(t)
        },
    }
}

/// The report on a sent kill request: the confirmation line naming the
/// container, whatever the runtime answered, and the failure if there was one.
pub fn kill_report(request: &KillRequest, response: Result<(), String>) -> (r: KillReport)
    ensures
        r.confirmation@ == kill_confirmation(request.container_name@),
        response is Ok ==> r.failure is None,
        response matches Err(m) ==> r.failure == Some(m),
{
    let confirmation = "Kills Container ID: \"".to_owned().concat(
        request.container_name.as_str(),
    ).concat("\"");
    let failure = match response {
        Ok(()) => None,
        Err(m) => Some(m),
    };
    KillReport { confirmation, failure }
}

/// Listing keeps each container's state as the runtime reported it: when
/// every returned container is running, no row shows a container as exited.
pub proof fn running_listing_shows_no_exited(recs: Seq<ContainerRecord>, t: TextTable)
    requires
        forall|i: int|
            0 <= i < recs.len() ==> text_or_empty(#[trigger] recs[i].state) == running_state(),
        t.rows@.len() == recs.len(),
        forall|i: int|
            0 <= i < recs.len() ==> texts(#[trigger] t.rows@[i]@) == container_cells_of(recs[i]),
    ensures
        forall|i: int| 0 <= i < recs.len() ==> texts(#[trigger] t.rows@[i]@)[3] != "exited"@,
{
    reveal_strlit("running");
    reveal_strlit("exited");
    assert forall|i: int| 0 <= i < recs.len() implies texts(#[trigger] t.rows@[i]@)[3]
        != "exited"@ by {
        assert(texts(t.rows@[i]@)[3] == text_or_empty(recs[i].state));
        assert(text_or_empty(recs[i].state).len() != "exited"@.len());
    }
}

} // verus!
