use compose_checks::model::{
    Alert, AlertLocation, ComposeDocument, ComposeFile, RuleID, Service, ServiceEntry, Severity,
};
use compose_checks::rules::{
    checks, ComposeVersion, ContainerImages, DockerSocket, EnvironmentVariables, KernalParameters,
    SecurityOpts,
};

const PATH: &str = "docker-compose.yml";

fn empty_service() -> Service {
    Service {
        image: None,
        volumes: None,
        security_opt: None,
        sysctls: None,
        cap_add: None,
        environment: None,
    }
}

fn file(version: &str, services: Vec<(&str, Service)>) -> ComposeFile {
    let services = services
        .into_iter()
        .map(|(name, service)| ServiceEntry { name: name.to_string(), service })
        .collect();
    ComposeFile {
        path: PATH.to_string(),
        compose: ComposeDocument { version: version.to_string(), services },
    }
}

fn alert(id: RuleID, severity: Severity, details: &str) -> Alert {
    Alert {
        id,
        severity,
        details: details.to_string(),
        location: AlertLocation { path: PATH.to_string(), line: None, column: None },
    }
}

fn strings(items: &[&str]) -> Vec<String> {
    items.iter().map(|s| s.to_string()).collect()
}

#[test]
fn version_one_no_services() {
    let f = file("1", vec![]);
    let alerts = checks(&f);
    assert_eq!(alerts, vec![alert(RuleID::NoId, Severity::Medium, "Compose v1")]);
}

#[test]
fn version_two_and_old_three() {
    for v in ["2", "2.0", "2.1", "2.2", "2.3", "2.4"] {
        let f = file(v, vec![]);
        assert_eq!(checks(&f), vec![alert(RuleID::NoId, Severity::Low, "Compose v2 used")]);
    }
    for v in ["3", "3.0", "3.1", "3.2", "3.3", "3.4", "3.5"] {
        let f = file(v, vec![]);
        assert_eq!(
            checks(&f),
            vec![alert(
                RuleID::NoId,
                Severity::Low,
                "Using old Compose v3 spec, consider upgrading"
            )]
        );
    }
}

#[test]
fn recent_or_absent_version_emits_nothing() {
    for v in ["3.6", "3.8", "4", "", "latest"] {
        let f = file(v, vec![]);
        assert_eq!(checks(&f), vec![]);
    }
}

#[test]
fn zero_services_only_version_rule_emits() {
    let f = file("3.9", vec![]);
    assert_eq!(checks(&f), vec![]);
}

#[test]
fn ghcr_latest_image_two_alerts() {
    let mut s = empty_service();
    s.image = Some("ghcr.io/org/app:latest".to_string());
    let f = file("3.8", vec![("s", s)]);
    let mut alerts = Vec::new();
    ContainerImages::check(&mut alerts, &f);
    assert_eq!(
        alerts,
        vec![
            alert(RuleID::NoId, Severity::Low, "Container Image: ghcr.io/org/app:latest"),
            alert(RuleID::NoId, Severity::Low, "Container using latest / rolling release tag"),
        ]
    );
}

#[test]
fn unknown_registry_alert() {
    let mut s = empty_service();
    s.image = Some("quay.io/org/app:1.0".to_string());
    let f = file("3.8", vec![("s", s)]);
    let mut alerts = Vec::new();
    ContainerImages::check(&mut alerts, &f);
    assert_eq!(
        alerts,
        vec![
            alert(RuleID::NoId, Severity::Low, "Container Image: quay.io/org/app:1.0"),
            alert(RuleID::NoId, Severity::Low, "Container from unknown registry: quay.io"),
        ]
    );
}

#[test]
fn variable_image_triggers_variable_alert_only() {
    let mut s = empty_service();
    s.image = Some("${IMG}".to_string());
    let f = file("3.8", vec![("s", s)]);
    let mut alerts = Vec::new();
    ContainerImages::check(&mut alerts, &f);
    assert_eq!(
        alerts,
        vec![alert(
            RuleID::NoId,
            Severity::Low,
            "Container Image using Environment Variable: ${IMG}"
        )]
    );
}

#[test]
fn bare_nginx_resolves_and_flags_latest() {
    let mut s = empty_service();
    s.image = Some("nginx".to_string());
    let f = file("3.8", vec![("s", s)]);
    let mut alerts = Vec::new();
    ContainerImages::check(&mut alerts, &f);
    assert_eq!(
        alerts,
        vec![
            alert(RuleID::NoId, Severity::Low, "Container Image: docker.io/nginx:latest"),
            alert(RuleID::NoId, Severity::Low, "Container using latest / rolling release tag"),
        ]
    );
}

#[test]
fn docker_socket_and_missing_security_opt() {
    let mut s = empty_service();
    s.volumes = Some(strings(&["/var/run/docker.sock:/var/run/docker.sock"]));
    let f = file("3.8", vec![("web", s)]);
    let alerts = checks(&f);
    assert_eq!(
        alerts,
        vec![
            alert(
                RuleID::Owasp("D04".to_string()),
                Severity::High,
                "Docker Socket being passed into container"
            ),
            alert(
                RuleID::Owasp("D04".to_string()),
                Severity::High,
                "Security Opts `no-new-privileges` not set"
            ),
        ]
    );
}

#[test]
fn docker_socket_one_alert_per_service() {
    let mut s = empty_service();
    s.volumes = Some(strings(&[
        "/var/run/docker.sock:/var/run/docker.sock",
        "/var/run/docker.sock:/sock:ro",
    ]));
    s.security_opt = Some(strings(&["no-new-privileges:true"]));
    let f = file("3.8", vec![("web", s)]);
    let alerts = checks(&f);
    assert_eq!(
        alerts,
        vec![alert(
            RuleID::Owasp("D04".to_string()),
            Severity::High,
            "Docker Socket being passed into container"
        )]
    );
}

#[test]
fn security_opt_false_value() {
    let mut s = empty_service();
    s.security_opt = Some(strings(&["no-new-privileges:false"]));
    let f = file("3.8", vec![("x", s)]);
    let alerts = checks(&f);
    assert_eq!(
        alerts,
        vec![alert(
            RuleID::Owasp("D04".to_string()),
            Severity::High,
            "Security Opts `no-new-privileges` set to `false`"
        )]
    );
}

#[test]
fn empty_security_opt_counts_as_present() {
    let mut s = empty_service();
    s.security_opt = Some(vec![]);
    let f = file("3.8", vec![("s", s)]);
    assert_eq!(checks(&f), vec![]);
}

#[test]
fn cap_add_alerts() {
    let mut s = empty_service();
    s.cap_add = Some(strings(&["NET_ADMIN", "SYS_ADMIN", "ALL"]));
    let f = file("3.8", vec![("y", s)]);
    let mut alerts = Vec::new();
    KernalParameters::check(&mut alerts, &f);
    assert_eq!(
        alerts,
        vec![
            alert(RuleID::NoId, Severity::Low, "Using extra Kernel Parameters"),
            alert(RuleID::NoId, Severity::Medium, "Container with high networking privileges"),
            alert(RuleID::NoId, Severity::Medium, "Container with high system privileges"),
            alert(RuleID::NoId, Severity::High, "All capabilities are enabled"),
        ]
    );
}

#[test]
fn sysctls_alerts() {
    let mut s = empty_service();
    s.sysctls = Some(strings(&["net.ipv4.conf.all.rp_filter=1", "kernel.shm_rmid_forced=1"]));
    let f = file("3.8", vec![("y", s)]);
    let mut alerts = Vec::new();
    KernalParameters::check(&mut alerts, &f);
    assert_eq!(
        alerts,
        vec![
            alert(RuleID::NoId, Severity::Low, "Enabling extra syscalls"),
            alert(
                RuleID::NoId,
                Severity::Information,
                "IPv4 Kernel Parameters modified: net.ipv4.conf.all.rp_filter=1"
            ),
        ]
    );
}

#[test]
fn environment_alerts() {
    let mut s = empty_service();
    s.environment = Some(strings(&["API_KEY=abc", "DEBUG=1"]));
    let f = file("3.8", vec![("z", s)]);
    let mut alerts = Vec::new();
    EnvironmentVariables::check(&mut alerts, &f);
    assert_eq!(
        alerts,
        vec![
            alert(
                RuleID::Cwe("215".to_string()),
                Severity::High,
                "Possible Hardcoded password: API_KEY=abc"
            ),
            alert(RuleID::Cwe("1244".to_string()), Severity::Medium, "Debugging enabled in the container"),
        ]
    );
}

fn busy_file() -> ComposeFile {
    let mut a = empty_service();
    a.image = Some("nginx".to_string());
    a.volumes = Some(strings(&["/var/run/docker.sock:/var/run/docker.sock"]));
    a.environment = Some(strings(&["DEBUG=1"]));
    let mut b = empty_service();
    b.image = Some("${IMG}".to_string());
    b.security_opt = Some(strings(&["no-new-privileges:false"]));
    b.cap_add = Some(strings(&["ALL"]));
    file("2.4", vec![("a", a), ("b", b)])
}

#[test]
fn checks_is_deterministic() {
    let f = busy_file();
    let first = checks(&f);
    let second = checks(&f);
    assert_eq!(first, second);
    assert!(!first.is_empty());
}

#[test]
fn every_alert_points_at_the_document_path() {
    let f = busy_file();
    for a in checks(&f) {
        assert_eq!(a.location.path, PATH);
        assert_eq!(a.location.line, None);
        assert_eq!(a.location.column, None);
    }
}

#[test]
fn run_is_concatenation_of_rule_contributions() {
    let f = busy_file();
    let mut expected = Vec::new();
    ComposeVersion::check(&mut expected, &f);
    ContainerImages::check(&mut expected, &f);
    DockerSocket::check(&mut expected, &f);
    SecurityOpts::check(&mut expected, &f);
    KernalParameters::check(&mut expected, &f);
    EnvironmentVariables::check(&mut expected, &f);
    assert_eq!(checks(&f), expected);
}

#[test]
fn adding_a_service_appends_to_each_rule_contribution() {
    let base = busy_file();
    let mut grown = base.clone();
    let mut extra = empty_service();
    extra.environment = Some(strings(&["PASSWORD=hunter2"]));
    grown.compose.services.push(ServiceEntry { name: "extra".to_string(), service: extra });

    let mut env_base = Vec::new();
    EnvironmentVariables::check(&mut env_base, &base);
    let mut env_grown = Vec::new();
    EnvironmentVariables::check(&mut env_grown, &grown);
    assert_eq!(env_grown[..env_base.len()], env_base[..]);
    assert_eq!(
        env_grown[env_base.len()..],
        vec![alert(
            RuleID::Cwe("215".to_string()),
            Severity::High,
            "Possible Hardcoded password: PASSWORD=hunter2"
        )][..]
    );

    let mut ver_base = Vec::new();
    ComposeVersion::check(&mut ver_base, &base);
    let mut ver_grown = Vec::new();
    ComposeVersion::check(&mut ver_grown, &grown);
    assert_eq!(ver_base, ver_grown);
}

#[test]
fn security_opt_equals_spelling_also_matches() {
    let mut s = empty_service();
    s.security_opt = Some(strings(&["no-new-privileges=false"]));
    let f = file("3.8", vec![("x", s)]);
    let mut alerts = Vec::new();
    SecurityOpts::check(&mut alerts, &f);
    assert_eq!(
        alerts,
        vec![alert(
            RuleID::Owasp("D04".to_string()),
            Severity::High,
            "Security Opts `no-new-privileges` set to `false`"
        )]
    );
}

#[test]
fn one_cap_entry_can_emit_several_alerts() {
    let mut s = empty_service();
    s.cap_add = Some(strings(&["ALL_NET_ADMIN"]));
    let f = file("3.8", vec![("y", s)]);
    let mut alerts = Vec::new();
    KernalParameters::check(&mut alerts, &f);
    assert_eq!(
        alerts,
        vec![
            alert(RuleID::NoId, Severity::Low, "Using extra Kernel Parameters"),
            alert(RuleID::NoId, Severity::Medium, "Container with high networking privileges"),
            alert(RuleID::NoId, Severity::High, "All capabilities are enabled"),
        ]
    );
}

#[test]
fn key_heuristic_is_loose_by_design() {
    let mut s = empty_service();
    s.environment = Some(strings(&["MONKEY=1"]));
    let f = file("3.8", vec![("z", s)]);
    let mut alerts = Vec::new();
    EnvironmentVariables::check(&mut alerts, &f);
    assert_eq!(
        alerts,
        vec![alert(
            RuleID::Cwe("215".to_string()),
            Severity::High,
            "Possible Hardcoded password: MONKEY=1"
        )]
    );
}

#[test]
fn severities_are_ordered() {
    assert!(Severity::Information < Severity::Low);
    assert!(Severity::Low < Severity::Medium);
    assert!(Severity::Medium < Severity::High);
    assert!(Severity::High < Severity::Critical);
}
