//! The integer counters of a container's resource statistics.

use vstd::prelude::*;

verus! {

/// The byte counters of one network interface of a container.
#[derive(Debug, Clone, PartialEq, Eq)]
pub struct NetworkCounters {
    pub rx_bytes: u64,
    pub tx_bytes: u64,
}

/// The fields of one statistics record from the daemon that the `get_stats`
/// tool reads; `None` stands for a field the daemon left out.
#[derive(Debug, Clone, PartialEq, Eq)]
pub struct StatsSample {
    pub cpu_total: u64,
    pub precpu_total: u64,
    pub system_cpu: Option<u64>,
    pub presystem_cpu: Option<u64>,
    pub online_cpus: Option<u64>,
    pub memory_usage: Option<u64>,
    pub memory_limit: Option<u64>,
    pub networks: Option<Vec<NetworkCounters>>,
}

/// The counters that the `get_stats` figures are computed from, with each
/// missing field replaced by its default.
#[derive(Debug, Clone, PartialEq, Eq)]
pub struct StatsCounters {
    pub cpu_total: u64,
    pub precpu_total: u64,
    pub system_cpu: u64,
    pub presystem_cpu: u64,
    pub num_cpus: u64,
    pub memory_usage: u64,
    pub memory_limit: u64,
    pub rx_bytes: u64,
    pub tx_bytes: u64,
}

/// Total bytes received over the interfaces.
pub open spec fn total_rx(nets: Seq<NetworkCounters>) -> int
    decreases nets.len(),
{
    if nets.len() == 0 {
        0
    } else {
        total_rx(nets.drop_last()) + nets.last().rx_bytes
    }
}

/// Total bytes sent over the interfaces.
pub open spec fn total_tx(nets: Seq<NetworkCounters>) -> int
    decreases nets.len(),
{
    if nets.len() == 0 {
        0
    } else {
        total_tx(nets.drop_last()) + nets.last().tx_bytes
    }
}

/// The interfaces of a sample; none where the daemon sent no network section.
pub open spec fn sample_networks(s: StatsSample) -> Seq<NetworkCounters> {
    match s.networks {
        Some(n) => n@,
        None => Seq::empty(),
    }
}

/// Whether `c` holds the counters of `sample`: the system CPU times default
/// to 0, the CPU count and the memory limit to 1, the memory usage to 0, and
/// the network bytes are summed over all interfaces.
pub open spec fn counters_of(sample: StatsSample, c: StatsCounters) -> bool {
    &&& c.cpu_total == sample.cpu_total
    &&& c.precpu_total == sample.precpu_total
    &&& c.system_cpu == sample.system_cpu.unwrap_or(0)
    &&& c.presystem_cpu == sample.presystem_cpu.unwrap_or(0)
    &&& c.num_cpus == sample.online_cpus.unwrap_or(1)
    &&& c.memory_usage == sample.memory_usage.unwrap_or(0)
    &&& c.memory_limit == sample.memory_limit.unwrap_or(1)
    &&& c.rx_bytes == total_rx(sample_networks(sample))
    &&& c.tx_bytes == total_tx(sample_networks(sample))
}

/// A total over a prefix of the interfaces is at most the total over all of them.
proof fn lemma_prefix_totals(nets: Seq<NetworkCounters>, i: int)
    requires
        0 <= i <= nets.len(),
    ensures
        0 <= total_rx(nets.take(i)) <= total_rx(nets),
        0 <= total_tx(nets.take(i)) <= total_tx(nets),
    decreases nets.len() - i,
{
    if i < nets.len() {
        lemma_prefix_totals(nets, i + 1);
        assert(nets.take(i + 1).drop_last() =~= nets.take(i));
        assert(nets.take(i + 1).last() == nets[i]);
        lemma_totals_nonnegative(nets.take(i));
    } else {
        assert(nets.take(i) =~= nets);
        lemma_totals_nonnegative(nets);
    }
}

proof fn lemma_totals_nonnegative(nets: Seq<NetworkCounters>)
    ensures
        total_rx(nets) >= 0,
        total_tx(nets) >= 0,
    decreases nets.len(),
{
    if nets.len() > 0 {
        lemma_totals_nonnegative(nets.drop_last());
    }
}

/// The counters of a sample: the system CPU times default to 0, the CPU count
/// and the memory limit to 1, the memory usage to 0, and the network bytes are
/// summed over all interfaces. `None` when a network total does not fit in a
/// `u64`, where the sum would overflow.
pub fn stats_counters(sample: &StatsSample) -> (res: Option<StatsCounters>)
    ensures
        res is None <==> (total_rx(sample_networks(*sample)) > u64::MAX
            || total_tx(sample_networks(*sample)) > u64::MAX),
        res matches Some(c) ==> counters_of(*sample, c),
{
    let mut rx: u64 = 0;
    let mut tx: u64 = 0;
    if let Some(nets) = &sample.networks {
        let n = nets.len();
        let mut i: usize = 0;
        while i < n
            invariant
                n == nets.len(),
                sample_networks(*sample) == nets@,
                i <= n,
                rx == total_rx(nets@.take(i as int)),
                tx == total_tx(nets@.take(i as int)),
            decreases n - i,
        {
            proof {
                assert(nets@.take(i + 1).drop_last() =~= nets@.take(i as int));
                assert(nets@.take(i + 1).last() == nets@[i as int]);
                lemma_prefix_totals(nets@, i + 1);
            }
            match (rx.checked_add(nets[i].rx_bytes), tx.checked_add(nets[i].tx_bytes)) {
                (Some(r), Some(t)) => {
                    rx = r;
                    tx = t;
                },
                _ => {
                    return None;
                },
            }
            i += 1;
        }
        assert(nets@.take(n as int) =~= nets@);
    }
    Some(
        StatsCounters {
            cpu_total: sample.cpu_total,
            precpu_total: sample.precpu_total,
            system_cpu: match sample.system_cpu {
                Some(v) => v,
                None => 0,
            },
            presystem_cpu: match sample.presystem_cpu {
                Some(v) => v,
                None => 0,
            },
            num_cpus: match sample.online_cpus {
                Some(v) => v,
                None => 1,
            },
            memory_usage: match sample.memory_usage {
                Some(v) => v,
                None => 0,
            },
            memory_limit: match sample.memory_limit {
                Some(v) => v,
                None => 1,
            },
            rx_bytes: rx,
            tx_bytes: tx,
        },
    )
}

} // verus!
