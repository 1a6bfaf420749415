use camscan::get_service_hint;
use camscan::scan::{camera_url, run_scan, scan_targets, ScanConfig, ScanTally, ScanTarget};
use camscan::service::is_camera_port;

fn small_config() -> ScanConfig {
    ScanConfig {
        subnet_prefix: "10.0.0.".to_string(),
        first_host: 7,
        last_host: 9,
        ports: vec![22, 80, 8443],
    }
}

#[test]
fn service_hints_of_known_and_unknown_ports() {
    assert_eq!(get_service_hint(20), "FTP Data");
    assert_eq!(get_service_hint(22), "SSH");
    assert_eq!(get_service_hint(80), "HTTP");
    assert_eq!(get_service_hint(554), "RTSP");
    assert_eq!(get_service_hint(4747), "IP Camera");
    assert_eq!(get_service_hint(8081), "HTTP Alt/Camera");
    assert_eq!(get_service_hint(8443), "HTTPS Alt");
    assert_eq!(get_service_hint(9999), "Unknown");
    assert_eq!(get_service_hint(0), "Unknown");
}

#[test]
fn camera_ports_are_the_curated_subset() {
    for p in [80u16, 8080, 8081, 8082, 4747, 554] {
        assert!(is_camera_port(p));
    }
    for p in [20u16, 22, 443, 8443, 3306, 1] {
        assert!(!is_camera_port(p));
    }
}

#[test]
fn home_network_has_254_hosts_by_21_ports() {
    let cfg = ScanConfig::home_network();
    assert_eq!(cfg.total_to_scan(), 254 * 21);
    let targets = scan_targets(&cfg);
    assert_eq!(targets.len(), 5334);
    assert_eq!(targets[0].ip, "192.168.1.1");
    assert_eq!(targets[0].port, 20);
    assert_eq!(targets[20].port, 8443);
    assert_eq!(targets[21].ip, "192.168.1.2");
    assert_eq!(targets[5333].ip, "192.168.1.254");
    assert_eq!(targets[5333].port, 8443);
}

#[test]
fn targets_cross_hosts_with_ports() {
    let targets = scan_targets(&small_config());
    let pairs: Vec<(String, u16)> = targets.iter().map(|t| (t.ip.clone(), t.port)).collect();
    assert_eq!(
        pairs,
        vec![
            ("10.0.0.7".to_string(), 22),
            ("10.0.0.7".to_string(), 80),
            ("10.0.0.7".to_string(), 8443),
            ("10.0.0.8".to_string(), 22),
            ("10.0.0.8".to_string(), 80),
            ("10.0.0.8".to_string(), 8443),
            ("10.0.0.9".to_string(), 22),
            ("10.0.0.9".to_string(), 80),
            ("10.0.0.9".to_string(), 8443),
        ]
    );
}

#[test]
fn empty_host_range_gives_no_targets() {
    let cfg = ScanConfig { subnet_prefix: "10.0.0.".to_string(), first_host: 9, last_host: 3, ports: vec![80] };
    assert_eq!(cfg.total_to_scan(), 0);
    assert!(scan_targets(&cfg).is_empty());
}

#[test]
fn final_progress_equals_total_and_counts_rise() {
    let targets = scan_targets(&small_config());
    let accepts = vec![false; targets.len()];
    let report = run_scan(&targets, &accepts);
    assert_eq!(report.progress.len(), 9);
    for (i, p) in report.progress.iter().enumerate() {
        assert_eq!(p.total_scanned, i + 1);
        assert_eq!(p.total_to_scan, 9);
        assert_eq!(p.ip, targets[i].ip);
        assert_eq!(p.port, targets[i].port);
    }
    let last = report.progress.last().unwrap();
    assert_eq!(last.total_scanned, last.total_to_scan);
    assert!(report.found.is_empty());
    assert!(report.cameras.is_empty());
}

#[test]
fn open_camera_ports_become_candidates_and_others_only_discoveries() {
    let targets = scan_targets(&small_config());
    // 10.0.0.7:22 open, 10.0.0.8:80 open, 10.0.0.9:8443 open
    let accepts = vec![true, false, false, false, true, false, false, false, true];
    let report = run_scan(&targets, &accepts);
    assert_eq!(report.cameras, vec!["http://10.0.0.8:80".to_string()]);
    let found: Vec<(String, u16, String)> = report
        .found
        .iter()
        .map(|f| (f.ip.clone(), f.port, f.service_hint.clone()))
        .collect();
    assert_eq!(
        found,
        vec![
            ("10.0.0.7".to_string(), 22, "SSH".to_string()),
            ("10.0.0.8".to_string(), 80, "HTTP".to_string()),
            ("10.0.0.9".to_string(), 8443, "HTTPS Alt".to_string()),
        ]
    );
}

#[test]
fn tally_counts_and_collects() {
    let t80 = ScanTarget { ip: "192.168.1.5".to_string(), port: 8080 };
    let t22 = ScanTarget { ip: "192.168.1.6".to_string(), port: 22 };
    let mut tally = ScanTally::new(2);
    let p = tally.begin_probe(&t80);
    assert_eq!((p.total_scanned, p.total_to_scan), (1, 2));
    let f = tally.record_open(&t80);
    assert_eq!(f.service_hint, "HTTP Alt/Camera");
    let p = tally.begin_probe(&t22);
    assert_eq!((p.total_scanned, p.total_to_scan), (2, 2));
    let f = tally.record_open(&t22);
    assert_eq!(f.service_hint, "SSH");
    assert_eq!(tally.cameras, vec!["http://192.168.1.5:8080".to_string()]);
}

#[test]
fn camera_url_format() {
    assert_eq!(camera_url(&"192.168.1.20".to_string(), 4747), "http://192.168.1.20:4747");
    assert_eq!(camera_url(&"10.1.2.3".to_string(), 554), "http://10.1.2.3:554");
}
