use opcache_exporter::render::{render_opcache_stats, render_scrape_failure};
use opcache_exporter::snapshot::{
    InternedStringsUsage, MemoryUsage, Opcache, OpcacheStatistics,
};

fn sample_snapshot() -> Opcache {
    Opcache {
        opcache_enabled: true,
        cache_full: false,
        restart_pending: false,
        restart_in_progress: false,
        memory_usage: MemoryUsage {
            used_memory: 1000,
            free_memory: 500,
            wasted_memory: 0,
            current_wasted_percentage: "0.0".to_string(),
        },
        interned_strings_usage: InternedStringsUsage {
            buffer_size: 8388608,
            used_memory: 352712,
            free_memory: 8035896,
            number_of_strings: 7149,
        },
        opcache_statistics: OpcacheStatistics {
            num_cached_scripts: 38,
            num_cached_keys: 52,
            max_cached_keys: 16229,
            hits: 1244,
            start_time: 1593000000,
            last_restart_time: 0,
            oom_restarts: 0,
            hash_restarts: 0,
            manual_restarts: 0,
            misses: 38,
            blacklist_misses: 0,
            blacklist_miss_ratio: "0.0".to_string(),
            opcache_hit_rate: "97.03588143525741".to_string(),
        },
        scripts: Vec::new(),
    }
}

#[test]
fn failure_text_is_liveness_only() {
    let text = render_scrape_failure();
    assert_eq!(
        text,
        "# HELP opcache_up Opcache Scrape Successful\n# TYPE opcache_up gauge\nopcache_up 0"
    );
}

#[test]
fn success_render_has_all_blocks() {
    let text = render_opcache_stats(&sample_snapshot());
    let lines: Vec<&str> = text.split('\n').collect();
    assert_eq!(lines.len(), 26 * 3);
    assert_eq!(lines[0], "# HELP opcache_up Opcache Scrape Successful");
    assert_eq!(lines[1], "# TYPE opcache_up gauge");
    assert_eq!(lines[2], "opcache_up 1");
    assert_eq!(lines[3], "# HELP opcache_opcache_enabled Opcache Enabled");
    assert_eq!(lines[4], "# TYPE opcache_opcache_enabled gauge");
    assert_eq!(lines[5], "opcache_opcache_enabled 1");
    assert!(!text.ends_with('\n'));
}

// The renderer emits the snapshot fields in the fixed relative order, each
// sample preceded by its own HELP/TYPE pair.
#[test]
fn success_render_fixed_relative_order() {
    let text = render_opcache_stats(&sample_snapshot());
    let lines: Vec<&str> = text.split('\n').collect();
    let pos = |sample: &str| lines.iter().position(|l| *l == sample).unwrap();
    let up = pos("opcache_up 1");
    let enabled = pos("opcache_opcache_enabled 1");
    let full = pos("opcache_cache_full 0");
    let used = pos("opcache_memory_usage_used_memory 1000");
    let free = pos("opcache_memory_usage_free_memory 500");
    assert!(up < enabled && enabled < full && full < used && used < free);
    assert_eq!(lines[enabled - 2], "# HELP opcache_opcache_enabled Opcache Enabled");
    assert_eq!(lines[enabled - 1], "# TYPE opcache_opcache_enabled gauge");
    assert_eq!(lines[used - 2], "# HELP opcache_memory_usage_used_memory Opcache Used Memory");
    assert_eq!(lines[used - 1], "# TYPE opcache_memory_usage_used_memory gauge");
    assert_eq!(lines[full - 1], "# TYPE opcache_cache_full gauge");
    assert_eq!(lines[free - 1], "# TYPE opcache_memory_usage_free_memory gauge");
}

// Re-parsing the rendered text yields exactly the fixed set of metric names
// with their declared types, whatever the snapshot holds.
#[test]
fn rendered_metric_names_are_fixed() {
    let expected: Vec<(&str, &str)> = vec![
        ("opcache_up", "gauge"),
        ("opcache_opcache_enabled", "gauge"),
        ("opcache_cache_full", "gauge"),
        ("opcache_restart_pending", "gauge"),
        ("opcache_restart_in_progress", "gauge"),
        ("opcache_memory_usage_used_memory", "gauge"),
        ("opcache_memory_usage_free_memory", "gauge"),
        ("opcache_memory_usage_wasted_memory", "gauge"),
        ("opcache_memory_usage_current_wasted_percentage", "gauge"),
        ("opcache_interned_strings_usage_buffer_size", "gauge"),
        ("opcache_interned_strings_usage_used_memory", "gauge"),
        ("opcache_interned_strings_usage_free_memory", "gauge"),
        ("opcache_interned_strings_usage_number_of_strings", "gauge"),
        ("opcache_opcache_statistics_num_cached_scripts", "gauge"),
        ("opcache_opcache_statistics_num_cached_keys", "gauge"),
        ("opcache_opcache_statistics_max_cached_keys", "gauge"),
        ("opcache_opcache_statistics_hits", "counter"),
        ("opcache_opcache_statistics_start_time", "gauge"),
        ("opcache_opcache_statistics_last_restart_time", "gauge"),
        ("opcache_opcache_statistics_oom_restarts", "counter"),
        ("opcache_opcache_statistics_hash_restarts", "counter"),
        ("opcache_opcache_statistics_manual_restarts", "counter"),
        ("opcache_opcache_statistics_misses", "counter"),
        ("opcache_opcache_statistics_blacklist_misses", "counter"),
        ("opcache_opcache_statistics_blacklist_miss_ratio", "gauge"),
        ("opcache_opcache_statistics_opcache_hit_rate", "gauge"),
    ];
    for snapshot in [sample_snapshot(), {
        let mut other = sample_snapshot();
        other.opcache_enabled = false;
        other.opcache_statistics.hits = 0;
        other
    }] {
        let text = render_opcache_stats(&snapshot);
        let mut heads: Vec<(String, String)> = Vec::new();
        for line in text.split('\n') {
            if let Some(rest) = line.strip_prefix("# TYPE ") {
                let mut it = rest.split(' ');
                let name = it.next().unwrap().to_string();
                let ty = it.next().unwrap().to_string();
                heads.push((name, ty));
            }
        }
        assert_eq!(heads.len(), expected.len());
        for (got, want) in heads.iter().zip(expected.iter()) {
            assert_eq!(got.0, want.0);
            assert_eq!(got.1, want.1);
        }
    }
}

#[test]
fn negative_and_float_values_render_verbatim() {
    let mut snapshot = sample_snapshot();
    snapshot.opcache_statistics.last_restart_time = -5;
    snapshot.memory_usage.current_wasted_percentage = "1.25e-3".to_string();
    let text = render_opcache_stats(&snapshot);
    assert!(text.contains("\nopcache_opcache_statistics_last_restart_time -5"));
    assert!(text.contains("\nopcache_memory_usage_current_wasted_percentage 1.25e-3"));
}
