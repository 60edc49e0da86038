use mcp_docker_sentinel::docker::client::{
    collect_exec_output, collect_log_text, collect_pull_status, containers_from_summaries, logs_query,
    images_from_summaries, networks_from_summaries, pull_query, volumes_from_response, Container, ContainerSummary, Image, ImageSummary,
    NetworkInfo, VolumeInfo, NetworkSummary, OutputChunk, OutputStream,
};
use mcp_docker_sentinel::docker::stats::{stats_counters, NetworkCounters, StatsSample};
use mcp_docker_sentinel::text::{decimal, decode_lossy, join_strings, str_eq, trim};

fn s(x: &str) -> String {
    x.to_string()
}

fn chunk(stream: OutputStream, bytes: &[u8]) -> OutputChunk {
    OutputChunk { stream, message: bytes.to_vec() }
}

#[test]
fn str_eq_compares_characters() {
    assert!(str_eq("get_logs", "get_logs"));
    assert!(!str_eq("get_logs", "get_log"));
    assert!(!str_eq("abc", "abd"));
    assert!(str_eq("", ""));
    assert!(str_eq("héllo", "héllo"));
}

#[test]
fn join_strings_puts_separator_between_parts() {
    assert_eq!(join_strings(&vec![], ", "), "");
    assert_eq!(join_strings(&vec![s("/web")], ", "), "/web");
    assert_eq!(join_strings(&vec![s("/web"), s("/alias"), s("/x")], ", "), "/web, /alias, /x");
}

#[test]
fn decode_lossy_replaces_invalid_bytes() {
    assert_eq!(decode_lossy(&b"plain".to_vec()), "plain");
    assert_eq!(decode_lossy(&vec![0x61, 0xff, 0x62]), "a\u{FFFD}b");
    assert_eq!(decode_lossy(&"é".as_bytes().to_vec()), "é");
}

#[test]
fn container_from_summary_fills_defaults() {
    let full = ContainerSummary {
        id: Some(s("4f1c")),
        names: Some(vec![s("/db"), s("/db-alias")]),
        status: Some(s("Up 2 hours")),
        image: Some(s("postgres:16")),
    };
    let c = Container::from_summary(&full);
    assert_eq!(c.id, "4f1c");
    assert_eq!(c.name, "/db, /db-alias");
    assert_eq!(c.status, "Up 2 hours");
    assert_eq!(c.image, "postgres:16");

    let empty = ContainerSummary { id: None, names: None, status: None, image: None };
    let c = Container::from_summary(&empty);
    assert_eq!(c.id, "");
    assert_eq!(c.name, "");
    assert_eq!(c.status, "Unknown");
    assert_eq!(c.image, "");
}

#[test]
fn containers_from_summaries_keeps_order() {
    let list = vec![
        ContainerSummary { id: Some(s("a1")), names: Some(vec![s("/a")]), status: None, image: Some(s("alpine")) },
        ContainerSummary { id: None, names: Some(vec![]), status: Some(s("Exited (0)")), image: None },
    ];
    let out = containers_from_summaries(&list);
    assert_eq!(out.len(), 2);
    assert_eq!(out[0].id, "a1");
    assert_eq!(out[1].id, "");
    assert_eq!(out[0].name, "/a");
    assert_eq!(out[0].status, "Unknown");
    assert_eq!(out[0].image, "alpine");
    assert_eq!(out[1].name, "");
    assert_eq!(out[1].status, "Exited (0)");
    assert_eq!(out[1].image, "");
    assert!(containers_from_summaries(&vec![]).is_empty());
}

#[test]
fn image_holds_its_fields() {
    let image = Image { id: s("sha256:abc"), tags: vec![s("nginx:latest")], size: 187_000_000 };
    assert_eq!(image.id, "sha256:abc");
    assert_eq!(image.tags, vec![s("nginx:latest")]);
    assert_eq!(image.size, 187_000_000);
}

#[test]
fn network_info_fills_defaults() {
    let full = NetworkSummary {
        name: Some(s("bridge")),
        id: Some(s("f00d")),
        driver: Some(s("bridge")),
        scope: Some(s("local")),
        containers: Some(vec![s("c1"), s("c2")]),
    };
    let n = NetworkInfo::from_summary(&full);
    assert_eq!(n.name, "bridge");
    assert_eq!(n.id, "f00d");
    assert_eq!(n.driver, "bridge");
    assert_eq!(n.scope, "local");
    assert_eq!(n.containers, vec![s("c1"), s("c2")]);

    let bare = NetworkSummary { name: None, id: None, driver: None, scope: None, containers: None };
    let n = NetworkInfo::from_summary(&bare);
    assert_eq!(n.name, "");
    assert_eq!(n.id, "");
    assert_eq!(n.driver, "");
    assert_eq!(n.scope, "");
    assert!(n.containers.is_empty());
}

#[test]
fn log_text_keeps_stdout_and_stderr_only() {
    let chunks = vec![
        chunk(OutputStream::StdOut, b"line 1\n"),
        chunk(OutputStream::StdIn, b"typed\n"),
        chunk(OutputStream::StdErr, b"oops\n"),
        chunk(OutputStream::Console, b"tty\n"),
        chunk(OutputStream::StdOut, &[0xff, b'\n']),
    ];
    assert_eq!(collect_log_text(&chunks), "line 1\noops\n\u{FFFD}\n");
    assert_eq!(collect_log_text(&vec![]), "");
}

#[test]
fn log_chunks_are_decoded_one_by_one() {
    // "é" split across two chunks is not rejoined: each half is invalid on its own.
    let bytes = "é".as_bytes();
    let chunks = vec![chunk(OutputStream::StdOut, &bytes[..1]), chunk(OutputStream::StdOut, &bytes[1..])];
    assert_eq!(collect_log_text(&chunks), "\u{FFFD}\u{FFFD}");
}

#[test]
fn exec_output_keeps_every_stream() {
    let chunks = vec![
        chunk(OutputStream::StdOut, b"total 0\n"),
        chunk(OutputStream::StdErr, b"warn\n"),
        chunk(OutputStream::Console, b"c"),
        chunk(OutputStream::StdIn, b"i"),
    ];
    assert_eq!(collect_exec_output(&chunks), "total 0\nwarn\nci");
    assert_eq!(collect_exec_output(&vec![]), "");
}

#[test]
fn pull_status_lines_end_with_newline() {
    let statuses = vec![
        Some(s("Pulling from library/nginx")),
        None,
        Some(s("Download complete")),
        Some(s("")),
    ];
    assert_eq!(
        collect_pull_status(&statuses),
        "Pulling from library/nginx\nDownload complete\n\n"
    );
    assert_eq!(collect_pull_status(&vec![None, None]), "");
}

fn sample(networks: Option<Vec<NetworkCounters>>) -> StatsSample {
    StatsSample {
        cpu_total: 500,
        precpu_total: 300,
        system_cpu: Some(10_000),
        presystem_cpu: Some(9_000),
        online_cpus: Some(4),
        memory_usage: Some(2_097_152),
        memory_limit: Some(8_388_608),
        networks,
    }
}

#[test]
fn stats_counters_sum_networks() {
    let nets = vec![
        NetworkCounters { rx_bytes: 100, tx_bytes: 7 },
        NetworkCounters { rx_bytes: 23, tx_bytes: 3 },
    ];
    let c = stats_counters(&sample(Some(nets))).unwrap();
    assert_eq!(c.cpu_total, 500);
    assert_eq!(c.precpu_total, 300);
    assert_eq!(c.system_cpu, 10_000);
    assert_eq!(c.presystem_cpu, 9_000);
    assert_eq!(c.num_cpus, 4);
    assert_eq!(c.memory_usage, 2_097_152);
    assert_eq!(c.memory_limit, 8_388_608);
    assert_eq!(c.rx_bytes, 123);
    assert_eq!(c.tx_bytes, 10);
}

#[test]
fn stats_counters_fill_defaults() {
    let bare = StatsSample {
        cpu_total: 1,
        precpu_total: 0,
        system_cpu: None,
        presystem_cpu: None,
        online_cpus: None,
        memory_usage: None,
        memory_limit: None,
        networks: None,
    };
    let c = stats_counters(&bare).unwrap();
    assert_eq!(c.system_cpu, 0);
    assert_eq!(c.presystem_cpu, 0);
    assert_eq!(c.num_cpus, 1);
    assert_eq!(c.memory_usage, 0);
    assert_eq!(c.memory_limit, 1);
    assert_eq!(c.rx_bytes, 0);
    assert_eq!(c.tx_bytes, 0);
}

#[test]
fn stats_counters_refuse_overflowing_totals() {
    let nets = vec![
        NetworkCounters { rx_bytes: u64::MAX, tx_bytes: 0 },
        NetworkCounters { rx_bytes: 1, tx_bytes: 0 },
    ];
    assert!(stats_counters(&sample(Some(nets))).is_none());
    let nets = vec![
        NetworkCounters { rx_bytes: 0, tx_bytes: u64::MAX - 1 },
        NetworkCounters { rx_bytes: 0, tx_bytes: 1 },
    ];
    let c = stats_counters(&sample(Some(nets))).unwrap();
    assert_eq!(c.tx_bytes, u64::MAX);
}

#[test]
fn decimal_writes_numbers() {
    assert_eq!(decimal(0), "0");
    assert_eq!(decimal(7), "7");
    assert_eq!(decimal(50), "50");
    assert_eq!(decimal(1200), "1200");
    assert_eq!(decimal(usize::MAX), usize::MAX.to_string());
}

#[test]
fn logs_query_asks_for_both_streams() {
    let q = logs_query(50);
    assert!(q.stdout);
    assert!(q.stderr);
    assert_eq!(q.tail, "50");
    assert_eq!(logs_query(0).tail, "0");
}

#[test]
fn images_are_built_from_summaries() {
    let list = vec![
        ImageSummary { id: s("sha256:1"), repo_tags: vec![s("nginx:latest"), s("nginx:1")], size: 10 },
        ImageSummary { id: s("sha256:2"), repo_tags: vec![], size: -1 },
    ];
    let out = images_from_summaries(&list);
    assert_eq!(out.len(), 2);
    assert_eq!(out[0], Image { id: s("sha256:1"), tags: vec![s("nginx:latest"), s("nginx:1")], size: 10 });
    assert_eq!(out[1], Image { id: s("sha256:2"), tags: vec![], size: -1 });
    assert_eq!(Image::from_summary(&list[1]).id, "sha256:2");
}

#[test]
fn missing_volume_list_reads_as_empty() {
    let v = VolumeInfo { name: s("data"), driver: s("local"), mountpoint: s("/var/lib/docker/volumes/data") };
    assert_eq!(volumes_from_response(Some(vec![v.clone()])), vec![v]);
    assert!(volumes_from_response(None).is_empty());
    assert!(volumes_from_response(Some(vec![])).is_empty());
}

#[test]
fn trim_removes_unicode_whitespace_at_both_ends() {
    assert_eq!(trim("  {\"a\":1}\r\n"), "{\"a\":1}");
    assert_eq!(trim("\u{a0}\u{3000}x y\u{2028}"), "x y");
    assert_eq!(trim("   "), "");
    assert_eq!(trim(""), "");
    assert_eq!(trim("abc"), "abc");
    for t in ["\t a \u{85}", " \u{200a}b\u{205f}", "c\u{1680}"] {
        assert_eq!(trim(t), t.trim());
    }
}

#[test]
fn pulls_default_to_the_latest_tag() {
    let q = pull_query("nginx");
    assert_eq!(q.from_image, "nginx");
    assert_eq!(q.tag, "latest");
    assert_eq!(pull_query("nginx:1.27").tag, "");
    assert_eq!(pull_query("postgres:16").from_image, "postgres:16");
    assert_eq!(pull_query("localhost:5000/app").tag, "latest");
    assert_eq!(pull_query("localhost:5000/app:v2").tag, "");
    assert_eq!(pull_query("alpine@sha256:abcd").tag, "");
    assert_eq!(pull_query("").tag, "latest");
}

#[test]
fn networks_are_built_in_order() {
    let list = vec![
        NetworkSummary { name: Some(s("bridge")), id: None, driver: Some(s("bridge")), scope: None, containers: None },
        NetworkSummary { name: None, id: Some(s("n2")), driver: None, scope: Some(s("swarm")), containers: Some(vec![s("c")]) },
    ];
    let out = networks_from_summaries(&list);
    assert_eq!(out.len(), 2);
    assert_eq!(out[0].name, "bridge");
    assert_eq!(out[0].id, "");
    assert!(out[0].containers.is_empty());
    assert_eq!(out[1].id, "n2");
    assert_eq!(out[1].scope, "swarm");
    assert_eq!(out[1].containers, vec![s("c")]);
    assert!(networks_from_summaries(&vec![]).is_empty());
}
