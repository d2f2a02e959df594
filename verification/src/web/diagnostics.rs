//! What the diagnostics make of what the tools of the system print. Each
//! takes the output of a tool where the tool could be run, and none where
//! it could not.

use vstd::prelude::*;
use vstd::string::StringExecFns;
use crate::keyed::names;
use crate::text::{
    contains_text, count_lines, decimal_text, is_substring, line_count, number_text,
};

verus! {

/// Whether a tool printed `needle` somewhere.
pub open spec fn printed(output: Option<Seq<char>>, needle: Seq<char>) -> bool {
    output.is_some() && is_substring(needle, output.unwrap())
}

/// The text of the output of a tool.
pub open spec fn output_text(output: Option<&str>) -> Option<Seq<char>> {
    match output {
        Some(text) => Some(text@),
        None => None,
    }
}

/// Whether the tool printed `needle` somewhere.
fn mentions(output: Option<&str>, needle: &str) -> (found: bool)
    ensures
        found == printed(output_text(output), needle@),
{
    match output {
        Some(text) => contains_text(text, needle),
        None => false,
    }
}

/// `items` with `item` at the end if `add` holds.
pub open spec fn with_if(items: Seq<Seq<char>>, add: bool, item: Seq<char>) -> Seq<Seq<char>> {
    if add {
        items.push(item)
    } else {
        items
    }
}

/// Appends `item` to `items` if `add` holds.
fn push_if(items: &mut Vec<String>, add: bool, item: &str)
    ensures
        names(final(items)@) == with_if(names(old(items)@), add, item@),
{
    if add {
        let ghost before = names(items@);
        items.push(item.to_owned());
        proof {
            assert(names(items@) =~= before.push(item@));
        }
    }
}

/// The result of a security scan.
#[derive(Debug, Clone)]
pub struct ScanFindings {
    pub threats: Vec<String>,
    pub vulnerabilities: Vec<String>,
    pub security_score: u8,
}

/// The threats that a scan finds in the list of processes.
pub open spec fn scan_threats(processes: Option<Seq<char>>) -> Seq<Seq<char>> {
    with_if(
        Seq::empty(),
        printed(processes, "suspicious"@) || printed(processes, "malware"@),
        "Suspicious process detected"@,
    )
}

/// Whether the permission bits of a file mode differ from `rw-r--r--`.
pub open spec fn insecure_mode(mode: Option<u32>) -> bool {
    mode.is_some() && mode.unwrap() & 0o777 != 0o644
}

/// The vulnerabilities that a scan finds: a secure shell that listens on
/// other than the local address, and a password file with other
/// permissions than `rw-r--r--`.
pub open spec fn scan_vulnerabilities(connections: Option<Seq<char>>, passwd_mode: Option<u32>) -> Seq<
    Seq<char>,
> {
    with_if(
        with_if(
            Seq::empty(),
            printed(connections, ":22"@) && !printed(connections, "127.0.0.1"@),
            "SSH exposed to external network"@,
        ),
        insecure_mode(passwd_mode),
        "Insecure file permissions detected"@,
    )
}

/// The security scan: the threats in the list of processes, the
/// vulnerabilities in the listening sockets and in the mode of the
/// password file, and a score of 95 where nothing was found, else of 75.
pub fn security_scan(
    processes: Option<&str>,
    connections: Option<&str>,
    passwd_mode: Option<u32>,
) -> (found: ScanFindings)
    ensures
        names(found.threats@) == scan_threats(output_text(processes)),
        names(found.vulnerabilities@) == scan_vulnerabilities(
            output_text(connections),
            passwd_mode,
        ),
        found.security_score == if found.threats@.len() == 0 && found.vulnerabilities@.len() == 0 {
            95u8
        } else {
            75u8
        },
{
    let mut threats: Vec<String> = Vec::new();
    let mut vulnerabilities: Vec<String> = Vec::new();
    proof {
        assert(names(threats@) =~= Seq::<Seq<char>>::empty());
        assert(names(vulnerabilities@) =~= Seq::<Seq<char>>::empty());
    }
    push_if(
        &mut threats,
        mentions(processes, "suspicious") || mentions(processes, "malware"),
        "Suspicious process detected",
    );
    push_if(
        &mut vulnerabilities,
        mentions(connections, ":22") && !mentions(connections, "127.0.0.1"),
        "SSH exposed to external network",
    );
    let insecure = match passwd_mode {
        Some(mode) => mode & 0o777 != 0o644,
        None => false,
    };
    push_if(&mut vulnerabilities, insecure, "Insecure file permissions detected");
    let security_score: u8 = if threats.len() == 0 && vulnerabilities.len() == 0 {
        95
    } else {
        75
    };
    ScanFindings { threats, vulnerabilities, security_score }
}

/// The result of a hunt for threats.
#[derive(Debug, Clone)]
pub struct HuntFindings {
    pub threats: Vec<String>,
    pub indicators: Vec<String>,
    pub suspicious_ips: Vec<String>,
    /// `LOW` or `HIGH`.
    pub threat_level: String,
}

/// The threats that a hunt finds in the logs and in the list of processes.
pub open spec fn hunt_threats(logs: Option<Seq<char>>, processes: Option<Seq<char>>) -> Seq<
    Seq<char>,
> {
    with_if(
        with_if(
            Seq::empty(),
            printed(logs, "suspicious"@) || printed(logs, "malware"@),
            "Suspicious activity in system logs"@,
        ),
        printed(processes, "cryptominer"@) || printed(processes, "mining"@),
        "Cryptocurrency mining activity detected"@,
    )
}

/// The hunt for threats: failed logins in the logs are an indicator;
/// unusual ports among the sockets are suspicious; suspicious logs and
/// mining processes are threats. The level is `HIGH` iff there is a threat.
pub fn threat_hunt(logs: Option<&str>, connections: Option<&str>, processes: Option<&str>) -> (found:
    HuntFindings)
    ensures
        names(found.threats@) == hunt_threats(output_text(logs), output_text(processes)),
        names(found.indicators@) == with_if(
            Seq::empty(),
            printed(output_text(logs), "failed login"@) || printed(
                output_text(logs),
                "authentication failure"@,
            ),
            "Multiple failed login attempts detected"@,
        ),
        names(found.suspicious_ips@) == with_if(
            Seq::empty(),
            printed(output_text(connections), ":6667"@) || printed(
                output_text(connections),
                ":31337"@,
            ),
            "Unusual port activity detected"@,
        ),
        found.threat_level@ == if found.threats@.len() == 0 {
            "LOW"@
        } else {
            "HIGH"@
        },
{
    let mut threats: Vec<String> = Vec::new();
    let mut indicators: Vec<String> = Vec::new();
    let mut suspicious_ips: Vec<String> = Vec::new();
    proof {
        assert(names(threats@) =~= Seq::<Seq<char>>::empty());
        assert(names(indicators@) =~= Seq::<Seq<char>>::empty());
        assert(names(suspicious_ips@) =~= Seq::<Seq<char>>::empty());
    }
    push_if(
        &mut indicators,
        mentions(logs, "failed login") || mentions(logs, "authentication failure"),
        "Multiple failed login attempts detected",
    );
    push_if(
        &mut threats,
        mentions(logs, "suspicious") || mentions(logs, "malware"),
        "Suspicious activity in system logs",
    );
    push_if(
        &mut suspicious_ips,
        mentions(connections, ":6667") || mentions(connections, ":31337"),
        "Unusual port activity detected",
    );
    push_if(
        &mut threats,
        mentions(processes, "cryptominer") || mentions(processes, "mining"),
        "Cryptocurrency mining activity detected",
    );
    let threat_level = if threats.len() == 0 {
        "LOW".to_owned()
    } else {
        "HIGH".to_owned()
    };
    HuntFindings { threats, indicators, suspicious_ips, threat_level }
}

/// The result of a security audit.
#[derive(Debug, Clone)]
pub struct AuditFindings {
    pub findings: Vec<String>,
    pub recommendations: Vec<String>,
    pub compliance_issues: Vec<String>,
    pub overall_score: u8,
    pub grade: String,
    pub risk_level: String,
}

/// What an audit finds in order: the good findings.
pub open spec fn audit_findings(
    firewall: Option<Seq<char>>,
    updates: Option<Seq<char>>,
    accounts: Option<Seq<char>>,
) -> Seq<Seq<char>> {
    with_if(
        with_if(
            with_if(
                Seq::empty(),
                printed(firewall, "active"@),
                "Firewall is active and protecting the system"@,
            ),
            updates.is_some() && !printed(updates, "security"@),
            "System is up to date with security patches"@,
        ),
        printed(accounts, "NP"@) || printed(accounts, "LK"@),
        "User account security is properly configured"@,
    )
}

/// What an audit finds amiss, in order.
pub open spec fn audit_issues(
    firewall: Option<Seq<char>>,
    updates: Option<Seq<char>>,
    accounts: Option<Seq<char>>,
) -> Seq<Seq<char>> {
    with_if(
        with_if(
            with_if(
                Seq::empty(),
                firewall.is_some() && !printed(firewall, "active"@),
                "Firewall is not active"@,
            ),
            printed(updates, "security"@),
            "Security updates available"@,
        ),
        accounts.is_some() && !(printed(accounts, "NP"@) || printed(accounts, "LK"@)),
        "User account security needs review"@,
    )
}

/// What an audit recommends, in order.
pub open spec fn audit_recommendations(firewall: Option<Seq<char>>, updates: Option<Seq<char>>) -> Seq<
    Seq<char>,
> {
    with_if(
        with_if(
            Seq::empty(),
            firewall.is_some() && !printed(firewall, "active"@),
            "Enable and configure firewall"@,
        ),
        printed(updates, "security"@),
        "Install available security updates"@,
    )
}

/// The grade of a score: `A` from 90, `B` from 80, else `C`.
pub open spec fn grade_of(score: u8) -> Seq<char> {
    if score >= 90 {
        "A"@
    } else if score >= 80 {
        "B"@
    } else {
        "C"@
    }
}

/// The risk of a score: `LOW` from 90, `MEDIUM` from 80, else `HIGH`.
pub open spec fn risk_of(score: u8) -> Seq<char> {
    if score >= 90 {
        "LOW"@
    } else if score >= 80 {
        "MEDIUM"@
    } else {
        "HIGH"@
    }
}

/// The security audit: what the states of the firewall, of the updates
/// and of the accounts show as good, what as amiss, and what to do about
/// it. The score is 95 where nothing is amiss, else 85.
pub fn security_audit(firewall: Option<&str>, updates: Option<&str>, accounts: Option<&str>) -> (found:
    AuditFindings)
    ensures
        names(found.findings@) == audit_findings(
            output_text(firewall),
            output_text(updates),
            output_text(accounts),
        ),
        names(found.compliance_issues@) == audit_issues(
            output_text(firewall),
            output_text(updates),
            output_text(accounts),
        ),
        names(found.recommendations@) == audit_recommendations(
            output_text(firewall),
            output_text(updates),
        ),
        found.overall_score == if found.compliance_issues@.len() == 0 {
            95u8
        } else {
            85u8
        },
        found.grade@ == grade_of(found.overall_score),
        found.risk_level@ == risk_of(found.overall_score),
{
    let mut findings: Vec<String> = Vec::new();
    let mut recommendations: Vec<String> = Vec::new();
    let mut compliance_issues: Vec<String> = Vec::new();
    proof {
        assert(names(findings@) =~= Seq::<Seq<char>>::empty());
        assert(names(recommendations@) =~= Seq::<Seq<char>>::empty());
        assert(names(compliance_issues@) =~= Seq::<Seq<char>>::empty());
    }
    let firewall_active = mentions(firewall, "active");
    push_if(&mut findings, firewall_active, "Firewall is active and protecting the system");
    push_if(&mut compliance_issues, firewall.is_some() && !firewall_active, "Firewall is not active");
    push_if(
        &mut recommendations,
        firewall.is_some() && !firewall_active,
        "Enable and configure firewall",
    );
    let updates_due = mentions(updates, "security");
    push_if(&mut compliance_issues, updates_due, "Security updates available");
    push_if(&mut recommendations, updates_due, "Install available security updates");
    push_if(
        &mut findings,
        updates.is_some() && !updates_due,
        "System is up to date with security patches",
    );
    let accounts_safe = mentions(accounts, "NP") || mentions(accounts, "LK");
    push_if(&mut findings, accounts_safe, "User account security is properly configured");
    push_if(
        &mut compliance_issues,
        accounts.is_some() && !accounts_safe,
        "User account security needs review",
    );
    let overall_score: u8 = if compliance_issues.len() == 0 {
        95
    } else {
        85
    };
    let grade = if overall_score >= 90 {
        "A"
    } else if overall_score >= 80 {
        "B"
    } else {
        "C"
    };
    let risk_level = if overall_score >= 90 {
        "LOW"
    } else if overall_score >= 80 {
        "MEDIUM"
    } else {
        "HIGH"
    };
    AuditFindings {
        findings,
        recommendations,
        compliance_issues,
        overall_score,
        grade: grade.to_owned(),
        risk_level: risk_level.to_owned(),
    }
}

/// The result of an analysis of the communications.
#[derive(Debug, Clone)]
pub struct CommunicationFindings {
    pub patterns: Vec<String>,
    pub anomalies: Vec<String>,
    pub insights: Vec<String>,
    pub network_health_score: u8,
}

/// The patterns that the sockets show: their count, web traffic, and
/// secure shells.
pub open spec fn socket_patterns(connections: Option<Seq<char>>) -> Seq<Seq<char>> {
    match connections {
        Some(text) => with_if(
            with_if(
                seq!["Active network connections: "@ + decimal_text(line_count(text))],
                is_substring(":80"@, text) || is_substring(":443"@, text),
                "Web traffic detected"@,
            ),
            is_substring(":22"@, text),
            "SSH connections active"@,
        ),
        None => Seq::empty(),
    }
}

/// The patterns of the communications: those of the sockets, then the
/// count of the services.
pub open spec fn communication_patterns(
    connections: Option<Seq<char>>,
    services: Option<Seq<char>>,
) -> Seq<Seq<char>> {
    match services {
        Some(text) => socket_patterns(connections).push(
            "Active network services: "@ + decimal_text(line_count(text)),
        ),
        None => socket_patterns(connections),
    }
}

/// The analysis of the communications: the patterns in the sockets and
/// services; more than 100 sockets as an anomaly; and as insights that
/// interface statistics are at hand and that more than 20 services run.
/// The score is 98 without anomaly, else 85.
pub fn analyze_communications(
    connections: Option<&str>,
    interface_statistics: bool,
    services: Option<&str>,
) -> (found: CommunicationFindings)
    ensures
        names(found.patterns@) == communication_patterns(
            output_text(connections),
            output_text(services),
        ),
        names(found.anomalies@) == with_if(
            Seq::empty(),
            connections.is_some() && line_count(connections.unwrap()@) > 100,
            "Unusually high number of network connections"@,
        ),
        names(found.insights@) == with_if(
            with_if(Seq::empty(), interface_statistics, "Network interface statistics available"@),
            services.is_some() && line_count(services.unwrap()@) > 20,
            "Multiple network services running"@,
        ),
        found.network_health_score == if found.anomalies@.len() == 0 {
            98u8
        } else {
            85u8
        },
{
    let mut patterns: Vec<String> = Vec::new();
    let mut anomalies: Vec<String> = Vec::new();
    let mut insights: Vec<String> = Vec::new();
    proof {
        assert(names(patterns@) =~= Seq::<Seq<char>>::empty());
        assert(names(anomalies@) =~= Seq::<Seq<char>>::empty());
        assert(names(insights@) =~= Seq::<Seq<char>>::empty());
    }
    match connections {
        Some(text) => {
            let count = count_lines(text);
            let mut line = "Active network connections: ".to_owned();
            line.append(number_text(count).as_str());
            patterns.push(line);
            proof {
                assert(names(patterns@) =~= seq![
                    "Active network connections: "@ + decimal_text(line_count(text@)),
                ]);
            }
            push_if(
                &mut anomalies,
                count > 100,
                "Unusually high number of network connections",
            );
            push_if(
                &mut patterns,
                contains_text(text, ":80") || contains_text(text, ":443"),
                "Web traffic detected",
            );
            push_if(&mut patterns, contains_text(text, ":22"), "SSH connections active");
        },
        None => {},
    }
    push_if(&mut insights, interface_statistics, "Network interface statistics available");
    match services {
        Some(text) => {
            let count = count_lines(text);
            let mut line = "Active network services: ".to_owned();
            line.append(number_text(count).as_str());
            let ghost before = names(patterns@);
            patterns.push(line);
            proof {
                assert(names(patterns@) =~= before.push(line@));
            }
            push_if(&mut insights, count > 20, "Multiple network services running");
        },
        None => {},
    }
    let network_health_score: u8 = if anomalies.len() == 0 {
        98
    } else {
        85
    };
    CommunicationFindings { patterns, anomalies, insights, network_health_score }
}

} // verus!
