use ghostwire::web::diagnostics::{
    analyze_communications, security_audit, security_scan, threat_hunt,
};

fn strings(items: &[&str]) -> Vec<String> {
    items.iter().map(|item| item.to_string()).collect()
}

#[test]
fn clean_scan_scores_high() {
    let found = security_scan(Some("init\nsshd\n"), Some("127.0.0.1:22 LISTEN"), Some(0o100644));
    assert!(found.threats.is_empty());
    assert!(found.vulnerabilities.is_empty());
    assert_eq!(found.security_score, 95);
    let nothing = security_scan(None, None, None);
    assert!(nothing.threats.is_empty());
    assert!(nothing.vulnerabilities.is_empty());
    assert_eq!(nothing.security_score, 95);
}

#[test]
fn scan_reports_what_it_finds() {
    let found = security_scan(Some("1 root malware-daemon"), Some("0.0.0.0:22 LISTEN"), Some(0o100666));
    assert_eq!(found.threats, strings(&["Suspicious process detected"]));
    assert_eq!(
        found.vulnerabilities,
        strings(&["SSH exposed to external network", "Insecure file permissions detected"])
    );
    assert_eq!(found.security_score, 75);
    let only_mode = security_scan(None, None, Some(0o600));
    assert_eq!(only_mode.vulnerabilities, strings(&["Insecure file permissions detected"]));
    assert_eq!(only_mode.security_score, 75);
    let suspicious = security_scan(Some("a suspicious thing"), None, Some(0o644));
    assert_eq!(suspicious.threats, strings(&["Suspicious process detected"]));
    assert!(suspicious.vulnerabilities.is_empty());
}

#[test]
fn hunt_levels() {
    let calm = threat_hunt(Some("all quiet"), Some(":443"), Some("bash"));
    assert!(calm.threats.is_empty());
    assert!(calm.indicators.is_empty());
    assert!(calm.suspicious_ips.is_empty());
    assert_eq!(calm.threat_level, "LOW");
    let busy = threat_hunt(
        Some("failed login for root; malware found"),
        Some("0.0.0.0:31337"),
        Some("xmrig mining"),
    );
    assert_eq!(
        busy.threats,
        strings(&["Suspicious activity in system logs", "Cryptocurrency mining activity detected"])
    );
    assert_eq!(busy.indicators, strings(&["Multiple failed login attempts detected"]));
    assert_eq!(busy.suspicious_ips, strings(&["Unusual port activity detected"]));
    assert_eq!(busy.threat_level, "HIGH");
    let indicator_only = threat_hunt(Some("authentication failure"), Some(":6667"), None);
    assert_eq!(indicator_only.threat_level, "LOW");
    assert_eq!(indicator_only.indicators.len(), 1);
    assert_eq!(indicator_only.suspicious_ips.len(), 1);
}

#[test]
fn audit_grades() {
    let good = security_audit(Some("firewalld: active (running)"), Some("Listing..."), Some("root LK"));
    assert_eq!(
        good.findings,
        strings(&[
            "Firewall is active and protecting the system",
            "System is up to date with security patches",
            "User account security is properly configured",
        ])
    );
    assert!(good.recommendations.is_empty());
    assert!(good.compliance_issues.is_empty());
    assert_eq!(good.overall_score, 95);
    assert_eq!(good.grade, "A");
    assert_eq!(good.risk_level, "LOW");

    let bad = security_audit(Some("dead"), Some("openssl/security 3.0"), Some("root P"));
    assert!(bad.findings.is_empty());
    assert_eq!(
        bad.compliance_issues,
        strings(&[
            "Firewall is not active",
            "Security updates available",
            "User account security needs review",
        ])
    );
    assert_eq!(
        bad.recommendations,
        strings(&["Enable and configure firewall", "Install available security updates"])
    );
    assert_eq!(bad.overall_score, 85);
    assert_eq!(bad.grade, "B");
    assert_eq!(bad.risk_level, "MEDIUM");

    let blind = security_audit(None, None, None);
    assert!(blind.findings.is_empty());
    assert!(blind.compliance_issues.is_empty());
    assert_eq!(blind.overall_score, 95);
}

#[test]
fn communications_are_counted() {
    let sockets = "tcp 0.0.0.0:80\ntcp 0.0.0.0:22\nudp 0.0.0.0:53\n";
    let services = "one\ntwo";
    let found = analyze_communications(Some(sockets), true, Some(services));
    assert_eq!(
        found.patterns,
        strings(&[
            "Active network connections: 3",
            "Web traffic detected",
            "SSH connections active",
            "Active network services: 2",
        ])
    );
    assert!(found.anomalies.is_empty());
    assert_eq!(found.insights, strings(&["Network interface statistics available"]));
    assert_eq!(found.network_health_score, 98);
}

#[test]
fn many_connections_are_an_anomaly() {
    let sockets: String = (0..101).map(|i| format!("tcp 10.0.0.1:{}\n", 5000 + i)).collect();
    let services: String = (0..21).map(|i| format!("svc{}\n", i)).collect();
    let found = analyze_communications(Some(&sockets), false, Some(&services));
    assert_eq!(
        found.patterns,
        strings(&["Active network connections: 101", "Active network services: 21"])
    );
    assert_eq!(found.anomalies, strings(&["Unusually high number of network connections"]));
    assert_eq!(found.insights, strings(&["Multiple network services running"]));
    assert_eq!(found.network_health_score, 85);
    let exactly: String = (0..100).map(|i| format!("x{}\n", i)).collect();
    let calm = analyze_communications(Some(&exactly), false, None);
    assert!(calm.anomalies.is_empty());
    assert_eq!(calm.patterns, strings(&["Active network connections: 100"]));
    let nothing = analyze_communications(None, false, None);
    assert!(nothing.patterns.is_empty());
    assert_eq!(nothing.network_health_score, 98);
}
