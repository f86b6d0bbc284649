use dtop::stats::{byte_rate, cpu_usage, memory_usage, stats_from, CounterDeltas};
use dtop::types::ContainerStats;

#[test]
fn cpu_usage_is_the_share_of_system_time_times_the_processors() {
    // a quarter of one of four processors
    assert_eq!(cpu_usage(250, 4000, 4), 2500);
    assert_eq!(cpu_usage(1000, 1000, 1), 10000);
    assert_eq!(cpu_usage(1000, 1000, 8), 80000);
    assert_eq!(cpu_usage(1, 3, 1), 3333);
    assert_eq!(cpu_usage(0, 1000, 4), 0);
    assert_eq!(cpu_usage(1000, 0, 4), 0);
    assert_eq!(cpu_usage(u64::MAX, 1, u32::MAX), u32::MAX);
}

#[test]
fn memory_usage_is_the_share_of_the_limit() {
    assert_eq!(memory_usage(512, 1024), 5000);
    assert_eq!(memory_usage(1, 3), 3333);
    assert_eq!(memory_usage(0, 1024), 0);
    assert_eq!(memory_usage(1024, 0), 0);
    assert_eq!(memory_usage(2048, 1024), 20000);
    assert_eq!(memory_usage(u64::MAX, 1), u32::MAX);
}

#[test]
fn byte_rates_are_per_second() {
    assert_eq!(byte_rate(1000, 1000), 1000);
    assert_eq!(byte_rate(1000, 500), 2000);
    assert_eq!(byte_rate(1000, 3000), 333);
    assert_eq!(byte_rate(1000, 0), 0);
    assert_eq!(byte_rate(u64::MAX, 1), u64::MAX);
}

#[test]
fn statistics_from_two_readings() {
    let deltas = CounterDeltas {
        cpu: 250,
        system: 4000,
        online_cpus: 4,
        memory_used: 512,
        memory_limit: 2048,
        tx_bytes: 4096,
        rx_bytes: 1024,
        elapsed_millis: 2000,
    };
    assert_eq!(
        stats_from(&deltas),
        ContainerStats {
            cpu: 2500,
            memory: 2500,
            network_tx_bytes_per_sec: 2048,
            network_rx_bytes_per_sec: 512,
        }
    );
}

#[test]
fn traffic_is_summed_over_the_networks() {
    let networks = vec![
        dtop::stats::Traffic { tx: 10, rx: 1 },
        dtop::stats::Traffic { tx: 20, rx: 2 },
        dtop::stats::Traffic { tx: 30, rx: 3 },
    ];
    assert_eq!(
        dtop::stats::total_traffic(&networks),
        dtop::stats::Traffic { tx: 60, rx: 6 }
    );
    assert_eq!(
        dtop::stats::total_traffic(&vec![]),
        dtop::stats::Traffic { tx: 0, rx: 0 }
    );
    let huge = vec![
        dtop::stats::Traffic { tx: u64::MAX, rx: 1 },
        dtop::stats::Traffic { tx: 5, rx: u64::MAX - 1 },
        dtop::stats::Traffic { tx: 5, rx: 7 },
    ];
    assert_eq!(
        dtop::stats::total_traffic(&huge),
        dtop::stats::Traffic { tx: u64::MAX, rx: u64::MAX }
    );
}

#[test]
fn deltas_between_readings() {
    let reading = dtop::stats::Reading {
        cpu_total: 1_500,
        system_total: 10_000,
        cpu_total_before: 1_000,
        system_total_before: 8_000,
        online_cpus: None,
        memory_used: 64,
        memory_limit: 128,
        traffic: dtop::stats::Traffic { tx: 5_000, rx: 700 },
    };
    // the first reading moves no bytes
    let first = dtop::stats::deltas(&reading, &None, 999);
    assert_eq!(
        first,
        CounterDeltas {
            cpu: 500,
            system: 2_000,
            online_cpus: 1,
            memory_used: 64,
            memory_limit: 128,
            tx_bytes: 0,
            rx_bytes: 0,
            elapsed_millis: 0,
        }
    );
    let before = Some(dtop::stats::Traffic { tx: 4_000, rx: 900 });
    let next = dtop::stats::deltas(&reading, &before, 1_000);
    assert_eq!(next.tx_bytes, 1_000);
    // a counter that went backwards counts as unchanged
    assert_eq!(next.rx_bytes, 0);
    assert_eq!(next.elapsed_millis, 1_000);
    let backwards = dtop::stats::Reading { cpu_total: 10, cpu_total_before: 20, online_cpus: Some(8), ..reading };
    let d = dtop::stats::deltas(&backwards, &before, 1);
    assert_eq!(d.cpu, 0);
    assert_eq!(d.online_cpus, 8);
    assert_eq!(stats_from(&next).network_tx_bytes_per_sec, 1_000);
}
