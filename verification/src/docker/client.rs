//! Records the tools hand back, and the folding of the daemon's output streams
//! into text.

use vstd::prelude::*;
use vstd::string::*;

use crate::text::{decimal, decimal_text, decode_lossy, join_strings, joined, utf8_lossy};

verus! {

/// A container as the `list_containers` tool reports it: its name, image, ID
/// and status, as the tool's description promises.
#[derive(Debug, Clone, PartialEq, Eq)]
pub struct Container {
    pub id: String,
    pub name: String,
    pub status: String,
    pub image: String,
}

/// An image as the `list_images` tool reports it.
#[derive(Debug, Clone, PartialEq, Eq)]
pub struct Image {
    pub id: String,
    pub tags: Vec<String>,
    pub size: i64,
}

/// The fields of an image summary from the daemon that an [`Image`] is made of.
#[derive(Debug, Clone, PartialEq, Eq)]
pub struct ImageSummary {
    pub id: String,
    pub repo_tags: Vec<String>,
    pub size: i64,
}

impl Image {
    /// Builds the reported image: its id, its repository tags and its size.
    pub fn from_summary(s: &ImageSummary) -> (res: Image)
        ensures
            res.id@ == s.id@,
            res.tags.deep_view() == s.repo_tags.deep_view(),
            res.size == s.size,
    {
        let tags = s.repo_tags.clone();
        assert(tags.deep_view() =~= s.repo_tags.deep_view());
        Image { id: s.id.clone(), tags, size: s.size }
    }
}

/// Builds the reported images, one for each summary, in order.
pub fn images_from_summaries(summaries: &Vec<ImageSummary>) -> (res: Vec<Image>)
    ensures
        res.len() == summaries.len(),
        forall|i: int|
            0 <= i < summaries.len() ==> {
                &&& (#[trigger] res[i]).id@ == summaries[i].id@
                &&& res[i].tags.deep_view() == summaries[i].repo_tags.deep_view()
                &&& res[i].size == summaries[i].size
            },
{
    let mut res: Vec<Image> = Vec::new();
    let n = summaries.len();
    let mut i: usize = 0;
    while i < n
        invariant
            n == summaries.len(),
            i <= n,
            res.len() == i,
            forall|j: int|
                0 <= j < i ==> {
                    &&& (#[trigger] res[j]).id@ == summaries[j].id@
                    &&& res[j].tags.deep_view() == summaries[j].repo_tags.deep_view()
                    &&& res[j].size == summaries[j].size
                },
        decreases n - i,
    {
        res.push(Image::from_summary(&summaries[i]));
        i += 1;
    }
    res
}

/// A volume as the `list_volumes` tool reports it.
#[derive(Debug, Clone, PartialEq, Eq)]
pub struct VolumeInfo {
    pub name: String,
    pub driver: String,
    pub mountpoint: String,
}

/// The volumes that a volume listing reports: all of them, in order, and none
/// where the daemon's reply carries no volume list.
pub fn volumes_from_response(volumes: Option<Vec<VolumeInfo>>) -> (res: Vec<VolumeInfo>)
    ensures
        res@ == (match volumes {
            Some(v) => v@,
            None => Seq::<VolumeInfo>::empty(),
        }),
{
    match volumes {
        Some(v) => v,
        None => Vec::new(),
    }
}

/// The fields of a container summary from the daemon that a [`Container`] is made of.
#[derive(Debug, Clone, PartialEq, Eq)]
pub struct ContainerSummary {
    pub id: Option<String>,
    pub names: Option<Vec<String>>,
    pub status: Option<String>,
    pub image: Option<String>,
}

/// The separator between the names of one container.
pub open spec fn name_separator() -> Seq<char> {
    ", "@
}

/// The status reported for a container whose summary carries none.
pub open spec fn unknown_status() -> Seq<char> {
    "Unknown"@
}

/// The text of an optional string, empty where there is none.
pub open spec fn or_empty(s: Option<Seq<char>>) -> Seq<char> {
    match s {
        Some(v) => v,
        None => Seq::empty(),
    }
}

impl Container {
    /// The name of the reported container: all names of the summary, joined.
    pub open spec fn spec_name(s: ContainerSummary) -> Seq<char> {
        match s.names {
            Some(names) => joined(names.deep_view(), name_separator()),
            None => Seq::empty(),
        }
    }

    /// The status of the reported container.
    pub open spec fn spec_status(s: ContainerSummary) -> Seq<char> {
        match s.status {
            Some(st) => st@,
            None => unknown_status(),
        }
    }

    /// Builds the reported container from the daemon's summary: the ID or
    /// empty, the names joined by `", "`, the status or `"Unknown"`, the image
    /// or empty.
    pub fn from_summary(s: &ContainerSummary) -> (res: Container)
        ensures
            res.id@ == or_empty(s.id.deep_view()),
            res.name@ == Container::spec_name(*s),
            res.status@ == Container::spec_status(*s),
            res.image@ == or_empty(s.image.deep_view()),
    {
        let name = match &s.names {
            Some(names) => join_strings(names, ", "),
            None => String::new(),
        };
        let status = match &s.status {
            Some(st) => st.clone(),
            None => String::from_str("Unknown"),
        };
        let image = match &s.image {
            Some(im) => im.clone(),
            None => String::new(),
        };
        let id = match &s.id {
            Some(i) => i.clone(),
            None => String::new(),
        };
        Container { id, name, status, image }
    }
}

/// Builds the reported containers, one for each summary, in order.
pub fn containers_from_summaries(summaries: &Vec<ContainerSummary>) -> (res: Vec<Container>)
    ensures
        res.len() == summaries.len(),
        forall|i: int|
            0 <= i < summaries.len() ==> {
                &&& (#[trigger] res[i]).id@ == or_empty(summaries[i].id.deep_view())
                &&& res[i].name@ == Container::spec_name(summaries[i])
                &&& res[i].status@ == Container::spec_status(summaries[i])
                &&& res[i].image@ == or_empty(summaries[i].image.deep_view())
            },
{
    let mut res: Vec<Container> = Vec::new();
    let n = summaries.len();
    let mut i: usize = 0;
    while i < n
        invariant
            n == summaries.len(),
            i <= n,
            res.len() == i,
            forall|j: int|
                0 <= j < i ==> {
                    &&& (#[trigger] res[j]).id@ == or_empty(summaries[j].id.deep_view())
                    &&& res[j].name@ == Container::spec_name(summaries[j])
                    &&& res[j].status@ == Container::spec_status(summaries[j])
                    &&& res[j].image@ == or_empty(summaries[j].image.deep_view())
                },
        decreases n - i,
    {
        let c = Container::from_summary(&summaries[i]);
        res.push(c);
        i += 1;
    }
    res
}

/// A network as the `list_networks` tool reports it.
#[derive(Debug, Clone, PartialEq, Eq)]
pub struct NetworkInfo {
    pub name: String,
    pub id: String,
    pub driver: String,
    pub scope: String,
    pub containers: Vec<String>,
}

/// The fields of a network from the daemon that a [`NetworkInfo`] is made of;
/// `containers` holds the ids of the attached containers.
#[derive(Debug, Clone, PartialEq, Eq)]
pub struct NetworkSummary {
    pub name: Option<String>,
    pub id: Option<String>,
    pub driver: Option<String>,
    pub scope: Option<String>,
    pub containers: Option<Vec<String>>,
}

fn string_or_empty(s: &Option<String>) -> (res: String)
    ensures
        res@ == or_empty(s.deep_view()),
{
    match s {
        Some(v) => v.clone(),
        None => String::new(),
    }
}

/// Whether a reported network is the one built from a summary: each missing
/// field empty, and no attached containers where the summary lists none.
pub open spec fn reports_network(info: NetworkInfo, s: NetworkSummary) -> bool {
    &&& info.name@ == or_empty(s.name.deep_view())
    &&& info.id@ == or_empty(s.id.deep_view())
    &&& info.driver@ == or_empty(s.driver.deep_view())
    &&& info.scope@ == or_empty(s.scope.deep_view())
    &&& info.containers.deep_view() == (match s.containers {
        Some(c) => c.deep_view(),
        None => Seq::<Seq<char>>::empty(),
    })
}

impl NetworkInfo {
    /// Builds the reported network: each missing field becomes empty.
    pub fn from_summary(s: &NetworkSummary) -> (res: NetworkInfo)
        ensures
            reports_network(res, *s),
    {
        let containers = match &s.containers {
            Some(c) => c.clone(),
            None => Vec::new(),
        };
        assert(containers.deep_view() =~= match s.containers {
            Some(c) => c.deep_view(),
            None => Seq::<Seq<char>>::empty(),
        });
        NetworkInfo {
            name: string_or_empty(&s.name),
            id: string_or_empty(&s.id),
            driver: string_or_empty(&s.driver),
            scope: string_or_empty(&s.scope),
            containers,
        }
    }
}

/// Builds the reported networks, one for each summary, in order.
pub fn networks_from_summaries(summaries: &Vec<NetworkSummary>) -> (res: Vec<NetworkInfo>)
    ensures
        res.len() == summaries.len(),
        forall|i: int| 0 <= i < summaries.len() ==> reports_network(#[trigger] res[i], summaries[i]),
{
    let mut res: Vec<NetworkInfo> = Vec::new();
    let n = summaries.len();
    let mut i: usize = 0;
    while i < n
        invariant
            n == summaries.len(),
            i <= n,
            res.len() == i,
            forall|j: int| 0 <= j < i ==> reports_network(#[trigger] res[j], summaries[j]),
        decreases n - i,
    {
        res.push(NetworkInfo::from_summary(&summaries[i]));
        i += 1;
    }
    res
}

/// The stream a chunk of container output came on.
#[derive(PartialEq, Eq, Structural, Clone, Copy, Debug)]
pub enum OutputStream {
    StdErr,
    StdOut,
    StdIn,
    Console,
}

/// One chunk of output of a container or of a command run in it.
#[derive(Debug, Clone, PartialEq, Eq)]
pub struct OutputChunk {
    pub stream: OutputStream,
    pub message: Vec<u8>,
}

/// Whether the container logs keep a chunk: those of standard output and error.
pub open spec fn kept_in_logs(stream: OutputStream) -> bool {
    stream == OutputStream::StdOut || stream == OutputStream::StdErr
}

/// What the log request asks of the daemon: both output streams, and the
/// last `tail` lines of them, `tail` being the number written in decimal.
#[derive(Debug, Clone, PartialEq, Eq)]
pub struct LogsQuery {
    pub stdout: bool,
    pub stderr: bool,
    pub tail: String,
}

/// The log request for the last `lines` lines of both output streams.
pub fn logs_query(lines: usize) -> (res: LogsQuery)
    ensures
        res.stdout,
        res.stderr,
        res.tail@ == decimal_text(lines as nat),
{
    LogsQuery { stdout: true, stderr: true, tail: decimal(lines) }
}

/// The text of the container logs: each kept chunk decoded on its own, in order.
pub open spec fn log_text(chunks: Seq<OutputChunk>) -> Seq<char>
    decreases chunks.len(),
{
    if chunks.len() == 0 {
        Seq::empty()
    } else {
        let last = chunks.last();
        log_text(chunks.drop_last()) + if kept_in_logs(last.stream) {
            utf8_lossy(last.message@)
        } else {
            Seq::empty()
        }
    }
}

/// The text of a command's output: every chunk decoded on its own, in order.
pub open spec fn exec_text(chunks: Seq<OutputChunk>) -> Seq<char>
    decreases chunks.len(),
{
    if chunks.len() == 0 {
        Seq::empty()
    } else {
        exec_text(chunks.drop_last()) + utf8_lossy(chunks.last().message@)
    }
}

/// Folds the chunks of a container's log stream into the text of the logs.
pub fn collect_log_text(chunks: &Vec<OutputChunk>) -> (res: String)
    ensures
        res@ == log_text(chunks@),
{
    let mut res = String::new();
    let n = chunks.len();
    let mut i: usize = 0;
    while i < n
        invariant
            n == chunks.len(),
            i <= n,
            res@ == log_text(chunks@.take(i as int)),
        decreases n - i,
    {
        let chunk = &chunks[i];
        if chunk.stream == OutputStream::StdOut || chunk.stream == OutputStream::StdErr {
            let piece = decode_lossy(&chunk.message);
            res.append(piece.as_str());
        }
        assert(chunks@.take(i + 1).drop_last() =~= chunks@.take(i as int));
        i += 1;
    }
    assert(chunks@.take(n as int) =~= chunks@);
    res
}

/// Folds the chunks of a command's output into its text.
pub fn collect_exec_output(chunks: &Vec<OutputChunk>) -> (res: String)
    ensures
        res@ == exec_text(chunks@),
{
    let mut res = String::new();
    let n = chunks.len();
    let mut i: usize = 0;
    while i < n
        invariant
            n == chunks.len(),
            i <= n,
            res@ == exec_text(chunks@.take(i as int)),
        decreases n - i,
    {
        let piece = decode_lossy(&chunks[i].message);
        res.append(piece.as_str());
        assert(chunks@.take(i + 1).drop_last() =~= chunks@.take(i as int));
        i += 1;
    }
    assert(chunks@.take(n as int) =~= chunks@);
    res
}

/// Whether an image reference names a tag or a digest: it holds an `@`, or a
/// `:` after its last `/` (a `:` before a `/` separates a registry's port).
pub open spec fn names_tag_or_digest(image: Seq<char>) -> bool {
    ||| exists|i: int| 0 <= i < image.len() && image[i] == '@'
    ||| exists|i: int|
        0 <= i < image.len() && image[i] == ':' && (forall|j: int|
            i < j < image.len() ==> #[trigger] image[j] != '/')
}

/// The tag that a pull of an image reference asks for: none where the
/// reference names a tag or digest, `latest` otherwise.
pub open spec fn pull_tag(image: Seq<char>) -> Seq<char> {
    if names_tag_or_digest(image) {
        Seq::empty()
    } else {
        "latest"@
    }
}

/// What a pull asks of the daemon: the image, and the tag to pull.
#[derive(Debug, Clone, PartialEq, Eq)]
pub struct PullQuery {
    pub from_image: String,
    pub tag: String,
}

/// The pull request for an image reference, as `docker pull` makes it: a
/// reference without tag or digest pulls the `latest` tag; one with either is
/// pulled as given, with no separate tag.
pub fn pull_query(image: &str) -> (res: PullQuery)
    ensures
        res.from_image@ == image@,
        res.tag@ == pull_tag(image@),
{
    let n = image.unicode_len();
    let mut at = false;
    let mut colon = false;
    let mut i: usize = 0;
    while i < n
        invariant
            n == image@.len(),
            i <= n,
            at == exists|k: int| 0 <= k < i && image@[k] == '@',
            colon == exists|k: int|
                0 <= k < i && image@[k] == ':' && (forall|j: int|
                    k < j < i ==> #[trigger] image@[j] != '/'),
        decreases n - i,
    {
        let c = image.get_char(i);
        if c == '@' {
            at = true;
        }
        if c == '/' {
            colon = false;
        } else if c == ':' {
            colon = true;
        }
        i += 1;
    }
    proof {
        reveal_strlit("");
    }
    let tag = if at || colon {
        String::new()
    } else {
        String::from_str("latest")
    };
    PullQuery { from_image: String::from_str(image), tag }
}

/// The text of an image pull: each status line that the daemon sent,
/// followed by a newline; progress records without a status add nothing.
pub open spec fn pull_text(statuses: Seq<Option<Seq<char>>>) -> Seq<char>
    decreases statuses.len(),
{
    if statuses.len() == 0 {
        Seq::empty()
    } else {
        pull_text(statuses.drop_last()) + match statuses.last() {
            Some(s) => s + seq!['\n'],
            None => Seq::empty(),
        }
    }
}

/// Folds the status fields of an image pull's progress records into its text.
pub fn collect_pull_status(statuses: &Vec<Option<String>>) -> (res: String)
    ensures
        res@ == pull_text(statuses.deep_view()),
{
    let mut res = String::new();
    let ghost views = statuses.deep_view();
    let n = statuses.len();
    let mut i: usize = 0;
    proof {
        reveal_strlit("\n");
    }
    while i < n
        invariant
            n == statuses.len(),
            views == statuses.deep_view(),
            views.len() == n,
            i <= n,
            res@ == pull_text(views.take(i as int)),
            "\n"@ == seq!['\n'],
        decreases n - i,
    {
        match &statuses[i] {
            Some(s) => {
                res.append(s.as_str());
                res.append("\n");
            },
            None => {},
        }
        assert(views.take(i + 1).drop_last() =~= views.take(i as int));
        i += 1;
    }
    assert(views.take(n as int) =~= views);
    res
}

} // verus!
