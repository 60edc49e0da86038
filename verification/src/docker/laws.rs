//! Laws on the folding of the daemon's output and on pull requests.

use vstd::prelude::*;

use crate::docker::client::{exec_text, log_text, pull_tag, pull_text, OutputChunk, OutputStream};
use crate::docker::stats::{counters_of, total_rx, total_tx, NetworkCounters, StatsCounters, StatsSample};
use crate::docker::client::{or_empty, reports_network, Container, ContainerSummary, NetworkInfo, NetworkSummary};
use crate::text::joined;
use crate::text::utf8_lossy;

verus! {

/// The log text of one chunk: its decoded message for standard output and
/// error, nothing for standard input and the console.
pub proof fn log_text_of_one_chunk(c: OutputChunk)
    ensures
        (c.stream == OutputStream::StdOut || c.stream == OutputStream::StdErr) ==> log_text(
            seq![c],
        ) == utf8_lossy(c.message@),
        (c.stream == OutputStream::StdIn || c.stream == OutputStream::Console) ==> log_text(
            seq![c],
        ) == Seq::<char>::empty(),
{
    reveal_with_fuel(log_text, 2);
    assert(seq![c].drop_last() =~= Seq::<OutputChunk>::empty());
    assert(Seq::<char>::empty() + utf8_lossy(c.message@) =~= utf8_lossy(c.message@));
    assert(Seq::<char>::empty() + Seq::<char>::empty() =~= Seq::<char>::empty());
}

/// The log text of a stream is the log text of its first part followed by that
/// of the rest: no chunk is dropped, merged or reordered, whatever came before it.
pub proof fn log_text_splits(a: Seq<OutputChunk>, b: Seq<OutputChunk>)
    ensures
        log_text(a + b) == log_text(a) + log_text(b),
    decreases b.len(),
{
    if b.len() == 0 {
        assert(a + b =~= a);
    } else {
        log_text_splits(a, b.drop_last());
        assert((a + b).drop_last() =~= a + b.drop_last());
        assert((a + b).last() == b.last());
    }
}

/// Appending one chunk of standard output or error to a stream appends its
/// decoded message to the log text, whatever the chunks before it were;
/// appending a chunk of another stream changes nothing.
pub proof fn log_text_appends_each_kept_chunk(chunks: Seq<OutputChunk>, c: OutputChunk)
    ensures
        (c.stream == OutputStream::StdOut || c.stream == OutputStream::StdErr) ==> log_text(
            chunks.push(c),
        ) == log_text(chunks) + utf8_lossy(c.message@),
        (c.stream == OutputStream::StdIn || c.stream == OutputStream::Console) ==> log_text(
            chunks.push(c),
        ) == log_text(chunks),
{
    log_text_splits(chunks, seq![c]);
    log_text_of_one_chunk(c);
    assert(chunks + seq![c] =~= chunks.push(c));
    assert(log_text(chunks) + Seq::<char>::empty() =~= log_text(chunks));
}

/// The output text of one chunk of a command's output: its decoded message,
/// whatever stream it came on.
pub proof fn exec_text_of_one_chunk(c: OutputChunk)
    ensures
        exec_text(seq![c]) == utf8_lossy(c.message@),
{
    reveal_with_fuel(exec_text, 2);
    assert(seq![c].drop_last() =~= Seq::<OutputChunk>::empty());
    assert(Seq::<char>::empty() + utf8_lossy(c.message@) =~= utf8_lossy(c.message@));
}

/// The output text of a command is that of its first part followed by that of
/// the rest: no chunk is dropped, merged or reordered.
pub proof fn exec_text_splits(a: Seq<OutputChunk>, b: Seq<OutputChunk>)
    ensures
        exec_text(a + b) == exec_text(a) + exec_text(b),
    decreases b.len(),
{
    if b.len() == 0 {
        assert(a + b =~= a);
    } else {
        exec_text_splits(a, b.drop_last());
        assert((a + b).drop_last() =~= a + b.drop_last());
        assert((a + b).last() == b.last());
    }
}

/// One progress record of a pull adds its status and a newline, or nothing
/// when it carries no status.
pub proof fn pull_text_of_one_record(status: Option<Seq<char>>)
    ensures
        status matches Some(s) ==> pull_text(seq![status]) == s.push('\n'),
        status is None ==> pull_text(seq![status]) == Seq::<char>::empty(),
{
    reveal_with_fuel(pull_text, 2);
    assert(seq![status].drop_last() =~= Seq::<Option<Seq<char>>>::empty());
    assert(Seq::<char>::empty() + Seq::<char>::empty() =~= Seq::<char>::empty());
    if let Some(s) = status {
        assert(Seq::<char>::empty() + (s + seq!['\n']) =~= s.push('\n'));
    }
}

/// The text of a pull is that of its first records followed by that of the
/// rest: every status line is kept, in order.
pub proof fn pull_text_splits(a: Seq<Option<Seq<char>>>, b: Seq<Option<Seq<char>>>)
    ensures
        pull_text(a + b) == pull_text(a) + pull_text(b),
    decreases b.len(),
{
    if b.len() == 0 {
        assert(a + b =~= a);
    } else {
        pull_text_splits(a, b.drop_last());
        assert((a + b).drop_last() =~= a + b.drop_last());
        assert((a + b).last() == b.last());
    }
}

/// The network totals add up over the interfaces: each interface's bytes count once.
pub proof fn network_totals_add_up(a: Seq<NetworkCounters>, b: Seq<NetworkCounters>)
    ensures
        total_rx(a + b) == total_rx(a) + total_rx(b),
        total_tx(a + b) == total_tx(a) + total_tx(b),
    decreases b.len(),
{
    if b.len() == 0 {
        assert(a + b =~= a);
    } else {
        network_totals_add_up(a, b.drop_last());
        assert((a + b).drop_last() =~= a + b.drop_last());
        assert((a + b).last() == b.last());
    }
}

/// The totals of a single interface are its own byte counters.
pub proof fn network_totals_of_one(n: NetworkCounters)
    ensures
        total_rx(seq![n]) == n.rx_bytes,
        total_tx(seq![n]) == n.tx_bytes,
{
    reveal_with_fuel(total_rx, 2);
    reveal_with_fuel(total_tx, 2);
    assert(seq![n].drop_last() =~= Seq::<NetworkCounters>::empty());
}

/// A reference with a `:` after its last `/` names a tag, whatever follows
/// the `:`, and is pulled as given, with no tag added.
pub proof fn tagged_references_are_pulled_as_given(image: Seq<char>, i: int)
    requires
        0 <= i < image.len(),
        image[i] == ':',
        forall|j: int| i < j < image.len() ==> image[j] != '/',
    ensures
        pull_tag(image) == Seq::<char>::empty(),
{
    assert(forall|j: int| i < j < image.len() ==> #[trigger] image[j] != '/');
}

/// A reference holding a digest (`@`) is pulled as given, with no tag added.
pub proof fn digest_references_are_pulled_as_given(image: Seq<char>, i: int)
    requires
        0 <= i < image.len(),
        image[i] == '@',
    ensures
        pull_tag(image) == Seq::<char>::empty(),
{
}

/// A reference without digest, and whose every `:` comes before a `/` (a
/// registry's port), names no tag: its pull asks for `latest`.
pub proof fn bare_references_pull_latest(image: Seq<char>)
    requires
        forall|i: int| 0 <= i < image.len() ==> image[i] != '@',
        forall|i: int|
            0 <= i < image.len() && image[i] == ':' ==> exists|j: int|
                i < j < image.len() && image[j] == '/',
    ensures
        pull_tag(image) == "latest"@,
{
    assert forall|i: int|
        0 <= i < image.len() && image[i] == ':' implies !(forall|j: int|
            i < j < image.len() ==> #[trigger] image[j] != '/') by {
        let j = choose|j: int| i < j < image.len() && image[j] == '/';
        assert(image[j] == '/');
    }
}

/// Each counter the daemon reports is kept as reported; a missing one reads as
/// its neutral default: no CPU or memory use, one CPU, a memory limit of one
/// byte; without a network section no bytes were sent or received.
pub proof fn stats_keep_reported_counters(sample: StatsSample, c: StatsCounters)
    requires
        counters_of(sample, c),
    ensures
        c.cpu_total == sample.cpu_total,
        c.precpu_total == sample.precpu_total,
        sample.system_cpu matches Some(v) ==> c.system_cpu == v,
        sample.system_cpu is None ==> c.system_cpu == 0,
        sample.presystem_cpu matches Some(v) ==> c.presystem_cpu == v,
        sample.presystem_cpu is None ==> c.presystem_cpu == 0,
        sample.online_cpus matches Some(v) ==> c.num_cpus == v,
        sample.online_cpus is None ==> c.num_cpus == 1,
        sample.memory_usage matches Some(v) ==> c.memory_usage == v,
        sample.memory_usage is None ==> c.memory_usage == 0,
        sample.memory_limit matches Some(v) ==> c.memory_limit == v,
        sample.memory_limit is None ==> c.memory_limit == 1,
        sample.networks is None ==> c.rx_bytes == 0 && c.tx_bytes == 0,
        sample.networks matches Some(nets) ==> (nets@.len() == 1 ==> c.rx_bytes
            == nets@[0].rx_bytes && c.tx_bytes == nets@[0].tx_bytes),
{
    if let Some(nets) = sample.networks {
        if nets@.len() == 1 {
            network_totals_of_one(nets@[0]);
            assert(seq![nets@[0]] =~= nets@);
        }
    }
}

/// A listed container carries the daemon's fields: its ID and image as
/// reported or empty, its status as reported or `Unknown`, and its name the
/// reported names in order, separated by `, `.
pub proof fn containers_keep_reported_fields(s: ContainerSummary)
    ensures
        s.status matches Some(st) ==> Container::spec_status(s) == st@,
        s.status is None ==> Container::spec_status(s) == "Unknown"@,
        s.names is None ==> Container::spec_name(s) == Seq::<char>::empty(),
        s.names matches Some(ns) ==> (ns@.len() == 1 ==> Container::spec_name(s) == ns@[0]@),
        s.names matches Some(ns) ==> (ns@.len() == 2 ==> Container::spec_name(s) == ns@[0]@
            + ", "@ + ns@[1]@),
        s.image matches Some(im) ==> or_empty(s.image.deep_view()) == im@,
        s.image is None ==> or_empty(s.image.deep_view()) == Seq::<char>::empty(),
{
    if let Some(ns) = s.names {
        let v = ns.deep_view();
        if ns@.len() == 1 {
            assert(v =~= seq![ns@[0]@]);
        }
        if ns@.len() == 2 {
            assert(v.drop_last() =~= seq![ns@[0]@]);
            assert(joined(v.drop_last(), ", "@) == ns@[0]@);
        }
    }
}

/// A listed network carries the daemon's fields, each missing one empty, and
/// exactly the attached containers the daemon reported.
pub proof fn networks_keep_reported_fields(info: NetworkInfo, s: NetworkSummary)
    requires
        reports_network(info, s),
    ensures
        s.name matches Some(x) ==> info.name@ == x@,
        s.name is None ==> info.name@ == Seq::<char>::empty(),
        s.id matches Some(x) ==> info.id@ == x@,
        s.id is None ==> info.id@ == Seq::<char>::empty(),
        s.driver matches Some(x) ==> info.driver@ == x@,
        s.driver is None ==> info.driver@ == Seq::<char>::empty(),
        s.scope matches Some(x) ==> info.scope@ == x@,
        s.scope is None ==> info.scope@ == Seq::<char>::empty(),
        s.containers matches Some(c) ==> info.containers.deep_view() == c.deep_view(),
        s.containers is None ==> info.containers@.len() == 0,
{
    assert(info.containers.deep_view().len() == info.containers@.len());
}

} // verus!
