//! The concrete rules and the rule runner.
//!
//! Every rule has the same shape: given an immutable compose file and a
//! mutable alert sink, append zero or more alerts, and nothing else.  The
//! contract of each `check` pins the appended alerts to a spec function,
//! and [`checks`] runs the rules in a fixed published order, so the whole
//! alert list of a run is the value of [`spec_checks`] on the document.

use vstd::prelude::*;
use vstd::string::*;
use crate::model::{
    Alert, AlertV, Severity, RuleID, RuleIDV, mk_alert, alert_views, push_alert, Service,
    ServiceV, ServiceEntryV, ComposeFile, FileV,
};
use crate::strutil::{
    has_prefix, has_suffix, has_substring, str_has_prefix, str_has_suffix, str_contains, str_eq,
};
use crate::image::{spec_parse_image, parse_image, spec_image_str};

verus! {

// ---------------------------------------------------------------------------
// ComposeVersion
// ---------------------------------------------------------------------------

/// Flags compose files that declare a legacy format version.
pub struct ComposeVersion;

/// The alerts of the [`ComposeVersion`] rule: one alert for a v1, v2 or
/// old v3 version string, none for any other value (including absent,
/// which the model holds as the empty string).
pub open spec fn compose_version_alerts(f: FileV) -> Seq<AlertV> {
    let v = f.compose.version;
    if v == "1"@ {
        seq![mk_alert(RuleIDV::NoId, Severity::Medium, "Compose v1"@, f.path)]
    } else if v == "2"@ || v == "2.0"@ || v == "2.1"@ || v == "2.2"@ || v == "2.3"@ || v
        == "2.4"@ {
        seq![mk_alert(RuleIDV::NoId, Severity::Low, "Compose v2 used"@, f.path)]
    } else if v == "3"@ || v == "3.0"@ || v == "3.1"@ || v == "3.2"@ || v == "3.3"@ || v
        == "3.4"@ || v == "3.5"@ {
        seq![
            mk_alert(
                RuleIDV::NoId,
                Severity::Low,
                "Using old Compose v3 spec, consider upgrading"@,
                f.path,
            ),
        ]
    } else {
        Seq::<AlertV>::empty()
    }
}

impl ComposeVersion {
    pub fn check(alerts: &mut Vec<Alert>, compose_file: &ComposeFile)
        ensures
            alert_views(final(alerts)@) == alert_views(old(alerts)@) + compose_version_alerts(
                compose_file@,
            ),
    {
        let v = compose_file.compose.version.as_str();
        if str_eq(v, "1") {
            push_alert(
                alerts,
                RuleID::NoId,
                Severity::Medium,
                String::from_str("Compose v1"),
                &compose_file.path,
            );
        } else if str_eq(v, "2") || str_eq(v, "2.0") || str_eq(v, "2.1") || str_eq(v, "2.2")
            || str_eq(v, "2.3") || str_eq(v, "2.4") {
            push_alert(
                alerts,
                RuleID::NoId,
                Severity::Low,
                String::from_str("Compose v2 used"),
                &compose_file.path,
            );
        } else if str_eq(v, "3") || str_eq(v, "3.0") || str_eq(v, "3.1") || str_eq(v, "3.2")
            || str_eq(v, "3.3") || str_eq(v, "3.4") || str_eq(v, "3.5") {
            push_alert(
                alerts,
                RuleID::NoId,
                Severity::Low,
                String::from_str("Using old Compose v3 spec, consider upgrading"),
                &compose_file.path,
            );
        }
        proof {
            assert(alert_views(alerts@) =~= alert_views(old(alerts)@) + compose_version_alerts(
                compose_file@,
            ));
        }
    }
}

// ---------------------------------------------------------------------------
// ContainerImages
// ---------------------------------------------------------------------------

/// Flags image references that use unexpanded variables, rolling tags, or
/// registries outside the fixed allowed set (`docker.io`, `ghcr.io`).
pub struct ContainerImages;

/// The alerts of the [`ContainerImages`] rule for one service.
pub open spec fn container_images_service(path: Seq<char>, s: ServiceV) -> Seq<AlertV> {
    match s.image {
        Some(img) => {
            if has_substring(img, "${"@) {
                seq![
                    mk_alert(
                        RuleIDV::NoId,
                        Severity::Low,
                        "Container Image using Environment Variable: "@ + img,
                        path,
                    ),
                ]
            } else {
                match spec_parse_image(img) {
                    Some(r) => seq![
                        mk_alert(
                            RuleIDV::NoId,
                            Severity::Low,
                            "Container Image: "@ + spec_image_str(r),
                            path,
                        ),
                    ] + (if r.tag == "latest"@ {
                        seq![
                            mk_alert(
                                RuleIDV::NoId,
                                Severity::Low,
                                "Container using latest / rolling release tag"@,
                                path,
                            ),
                        ]
                    } else {
                        Seq::<AlertV>::empty()
                    }) + (if r.instance != "docker.io"@ && r.instance != "ghcr.io"@ {
                        seq![
                            mk_alert(
                                RuleIDV::NoId,
                                Severity::Low,
                                "Container from unknown registry: "@ + r.instance,
                                path,
                            ),
                        ]
                    } else {
                        Seq::<AlertV>::empty()
                    }),
                    None => Seq::<AlertV>::empty(),
                }
            }
        },
        None => Seq::<AlertV>::empty(),
    }
}

/// The alerts of the [`ContainerImages`] rule over a prefix of the services.
pub open spec fn container_images_all(path: Seq<char>, svcs: Seq<ServiceEntryV>) -> Seq<AlertV>
    decreases svcs.len(),
{
    if svcs.len() == 0 {
        Seq::<AlertV>::empty()
    } else {
        container_images_all(path, svcs.drop_last()) + container_images_service(
            path,
            svcs.last().service,
        )
    }
}

/// The alerts of the [`ContainerImages`] rule.
pub open spec fn container_images_alerts(f: FileV) -> Seq<AlertV> {
    container_images_all(f.path, f.compose.services)
}

pub proof fn lemma_container_images_extend(path: Seq<char>, svcs: Seq<ServiceEntryV>, i: int)
    requires
        0 <= i < svcs.len(),
    ensures
        container_images_all(path, svcs.subrange(0, i + 1)) == container_images_all(
            path,
            svcs.subrange(0, i),
        ) + container_images_service(path, svcs[i].service),
{
    let a = svcs.subrange(0, i + 1);
    assert(a.drop_last() =~= svcs.subrange(0, i));
    assert(a.last() == svcs[i]);
}

fn container_images_for_service(alerts: &mut Vec<Alert>, path: &String, service: &Service)
    ensures
        alert_views(final(alerts)@) == alert_views(old(alerts)@) + container_images_service(
            path@,
            service@,
        ),
{
    match &service.image {
        Some(image) => {
            if str_contains(image.as_str(), "${") {
                let details = String::from_str("Container Image using Environment Variable: ")
                    .concat(image.as_str());
                push_alert(alerts, RuleID::NoId, Severity::Low, details, path);
            } else {
                match parse_image(image.as_str()) {
                    Ok(img) => {
                        let rendered = img.to_text();
                        let details = String::from_str("Container Image: ").concat(
                            rendered.as_str(),
                        );
                        push_alert(alerts, RuleID::NoId, Severity::Low, details, path);
                        if str_eq(img.tag.as_str(), "latest") {
                            push_alert(
                                alerts,
                                RuleID::NoId,
                                Severity::Low,
                                String::from_str("Container using latest / rolling release tag"),
                                path,
                            );
                        }
                        if !(str_eq(img.instance.as_str(), "docker.io") || str_eq(
                            img.instance.as_str(),
                            "ghcr.io",
                        )) {
                            let details = String::from_str("Container from unknown registry: ")
                                .concat(img.instance.as_str());
                            push_alert(alerts, RuleID::NoId, Severity::Low, details, path);
                        }
                    },
                    Err(_) => {},
                }
            }
        },
        None => {},
    }
    proof {
        assert(alert_views(alerts@) =~= alert_views(old(alerts)@) + container_images_service(
            path@,
            service@,
        ));
    }
}

impl ContainerImages {
    pub fn check(alerts: &mut Vec<Alert>, compose_file: &ComposeFile)
        ensures
            alert_views(final(alerts)@) == alert_views(old(alerts)@) + container_images_alerts(
                compose_file@,
            ),
    {
        let services = &compose_file.compose.services;
        let ghost svcs = compose_file@.compose.services;
        let mut i: usize = 0;
        while i < services.len()
            invariant
                i <= services.len(),
                svcs == services.deep_view(),
                svcs.len() == services@.len(),
                alert_views(alerts@) == alert_views(old(alerts)@) + container_images_all(
                    compose_file@.path,
                    svcs.subrange(0, i as int),
                ),
            decreases services.len() - i,
        {
            container_images_for_service(alerts, &compose_file.path, &services[i].service);
            proof {
                lemma_container_images_extend(compose_file@.path, svcs, i as int);
            }
            i = i + 1;
        }
        proof {
            assert(svcs.subrange(0, svcs.len() as int) =~= svcs);
        }
    }
}

// ---------------------------------------------------------------------------
// DockerSocket
// ---------------------------------------------------------------------------

/// Flags services that bind the container runtime's control socket into
/// the container.
pub struct DockerSocket;

/// The alerts of the [`DockerSocket`] rule for one service: one alert per
/// service when any volume entry starts with the socket path.
pub open spec fn docker_socket_service(path: Seq<char>, s: ServiceV) -> Seq<AlertV> {
    match s.volumes {
        Some(vols) => {
            if exists|i: int|
                0 <= i < vols.len() && has_prefix(#[trigger] vols[i], "/var/run/docker.sock"@) {
                seq![
                    mk_alert(
                        RuleIDV::Owasp("D04"@),
                        Severity::High,
                        "Docker Socket being passed into container"@,
                        path,
                    ),
                ]
            } else {
                Seq::<AlertV>::empty()
            }
        },
        None => Seq::<AlertV>::empty(),
    }
}

/// The alerts of the [`DockerSocket`] rule over a prefix of the services.
pub open spec fn docker_socket_all(path: Seq<char>, svcs: Seq<ServiceEntryV>) -> Seq<AlertV>
    decreases svcs.len(),
{
    if svcs.len() == 0 {
        Seq::<AlertV>::empty()
    } else {
        docker_socket_all(path, svcs.drop_last()) + docker_socket_service(
            path,
            svcs.last().service,
        )
    }
}

/// The alerts of the [`DockerSocket`] rule.
pub open spec fn docker_socket_alerts(f: FileV) -> Seq<AlertV> {
    docker_socket_all(f.path, f.compose.services)
}

pub proof fn lemma_docker_socket_extend(path: Seq<char>, svcs: Seq<ServiceEntryV>, i: int)
    requires
        0 <= i < svcs.len(),
    ensures
        docker_socket_all(path, svcs.subrange(0, i + 1)) == docker_socket_all(
            path,
            svcs.subrange(0, i),
        ) + docker_socket_service(path, svcs[i].service),
{
    let a = svcs.subrange(0, i + 1);
    assert(a.drop_last() =~= svcs.subrange(0, i));
    assert(a.last() == svcs[i]);
}

fn docker_socket_for_service(alerts: &mut Vec<Alert>, path: &String, service: &Service)
    ensures
        alert_views(final(alerts)@) == alert_views(old(alerts)@) + docker_socket_service(
            path@,
            service@,
        ),
{
    match &service.volumes {
        Some(vols) => {
            let mut found = false;
            let mut i: usize = 0;
            while i < vols.len()
                invariant
                    i <= vols.len(),
                    found == exists|j: int|
                        0 <= j < i && has_prefix(
                            #[trigger] vols.deep_view()[j],
                            "/var/run/docker.sock"@,
                        ),
                decreases vols.len() - i,
            {
                proof {
                    assert(vols.deep_view()[i as int] == vols@[i as int]@);
                }
                if str_has_prefix(vols[i].as_str(), "/var/run/docker.sock") {
                    found = true;
                }
                i = i + 1;
            }
            if found {
                push_alert(
                    alerts,
                    RuleID::Owasp(String::from_str("D04")),
                    Severity::High,
                    String::from_str("Docker Socket being passed into container"),
                    path,
                );
            }
        },
        None => {},
    }
    proof {
        assert(alert_views(alerts@) =~= alert_views(old(alerts)@) + docker_socket_service(
            path@,
            service@,
        ));
    }
}

impl DockerSocket {
    pub fn check(alerts: &mut Vec<Alert>, compose_file: &ComposeFile)
        ensures
            alert_views(final(alerts)@) == alert_views(old(alerts)@) + docker_socket_alerts(
                compose_file@,
            ),
    {
        let services = &compose_file.compose.services;
        let ghost svcs = compose_file@.compose.services;
        let mut i: usize = 0;
        while i < services.len()
            invariant
                i <= services.len(),
                svcs == services.deep_view(),
                svcs.len() == services@.len(),
                alert_views(alerts@) == alert_views(old(alerts)@) + docker_socket_all(
                    compose_file@.path,
                    svcs.subrange(0, i as int),
                ),
            decreases services.len() - i,
        {
            docker_socket_for_service(alerts, &compose_file.path, &services[i].service);
            proof {
                lemma_docker_socket_extend(compose_file@.path, svcs, i as int);
            }
            i = i + 1;
        }
        proof {
            assert(svcs.subrange(0, svcs.len() as int) =~= svcs);
        }
    }
}

// ---------------------------------------------------------------------------
// SecurityOpts
// ---------------------------------------------------------------------------

/// Flags services that leave `no-new-privileges` unset or set it to false.
pub struct SecurityOpts;

/// The alerts of the [`SecurityOpts`] rule for one option entry.
pub open spec fn security_opt_entry(path: Seq<char>, e: Seq<char>) -> Seq<AlertV> {
    if has_prefix(e, "no-new-privileges"@) && has_suffix(e, "false"@) {
        seq![
            mk_alert(
                RuleIDV::Owasp("D04"@),
                Severity::High,
                "Security Opts `no-new-privileges` set to `false`"@,
                path,
            ),
        ]
    } else {
        Seq::<AlertV>::empty()
    }
}

pub open spec fn security_opt_entries(path: Seq<char>, es: Seq<Seq<char>>) -> Seq<AlertV>
    decreases es.len(),
{
    if es.len() == 0 {
        Seq::<AlertV>::empty()
    } else {
        security_opt_entries(path, es.drop_last()) + security_opt_entry(path, es.last())
    }
}

/// The alerts of the [`SecurityOpts`] rule for one service: a present
/// `security_opt` list (even an empty one) suppresses the "not set"
/// alert; each entry is then checked on its own.
pub open spec fn security_opts_service(path: Seq<char>, s: ServiceV) -> Seq<AlertV> {
    match s.security_opt {
        Some(opts) => security_opt_entries(path, opts),
        None => seq![
            mk_alert(
                RuleIDV::Owasp("D04"@),
                Severity::High,
                "Security Opts `no-new-privileges` not set"@,
                path,
            ),
        ],
    }
}

/// The alerts of the [`SecurityOpts`] rule over a prefix of the services.
pub open spec fn security_opts_all(path: Seq<char>, svcs: Seq<ServiceEntryV>) -> Seq<AlertV>
    decreases svcs.len(),
{
    if svcs.len() == 0 {
        Seq::<AlertV>::empty()
    } else {
        security_opts_all(path, svcs.drop_last()) + security_opts_service(
            path,
            svcs.last().service,
        )
    }
}

/// The alerts of the [`SecurityOpts`] rule.
pub open spec fn security_opts_alerts(f: FileV) -> Seq<AlertV> {
    security_opts_all(f.path, f.compose.services)
}

pub proof fn lemma_security_opt_entries_extend(path: Seq<char>, es: Seq<Seq<char>>, i: int)
    requires
        0 <= i < es.len(),
    ensures
        security_opt_entries(path, es.subrange(0, i + 1)) == security_opt_entries(
            path,
            es.subrange(0, i),
        ) + security_opt_entry(path, es[i]),
{
    let a = es.subrange(0, i + 1);
    assert(a.drop_last() =~= es.subrange(0, i));
    assert(a.last() == es[i]);
}

pub proof fn lemma_security_opts_extend(path: Seq<char>, svcs: Seq<ServiceEntryV>, i: int)
    requires
        0 <= i < svcs.len(),
    ensures
        security_opts_all(path, svcs.subrange(0, i + 1)) == security_opts_all(
            path,
            svcs.subrange(0, i),
        ) + security_opts_service(path, svcs[i].service),
{
    let a = svcs.subrange(0, i + 1);
    assert(a.drop_last() =~= svcs.subrange(0, i));
    assert(a.last() == svcs[i]);
}

fn security_opts_for_service(alerts: &mut Vec<Alert>, path: &String, service: &Service)
    ensures
        alert_views(final(alerts)@) == alert_views(old(alerts)@) + security_opts_service(
            path@,
            service@,
        ),
{
    match &service.security_opt {
        Some(opts) => {
            let ghost es = opts.deep_view();
            let mut i: usize = 0;
            while i < opts.len()
                invariant
                    i <= opts.len(),
                    es == opts.deep_view(),
                    es.len() == opts@.len(),
                    alert_views(alerts@) == alert_views(old(alerts)@) + security_opt_entries(
                        path@,
                        es.subrange(0, i as int),
                    ),
                decreases opts.len() - i,
            {
                if str_has_prefix(opts[i].as_str(), "no-new-privileges") && str_has_suffix(
                    opts[i].as_str(),
                    "false",
                ) {
                    push_alert(
                        alerts,
                        RuleID::Owasp(String::from_str("D04")),
                        Severity::High,
                        String::from_str("Security Opts `no-new-privileges` set to `false`"),
                        path,
                    );
                }
                proof {
                    lemma_security_opt_entries_extend(path@, es, i as int);
                    assert(alert_views(alerts@) =~= alert_views(old(alerts)@)
                        + security_opt_entries(path@, es.subrange(0, i + 1 as int)));
                }
                i = i + 1;
            }
            proof {
                assert(es.subrange(0, es.len() as int) =~= es);
            }
        },
        None => {
            push_alert(
                alerts,
                RuleID::Owasp(String::from_str("D04")),
                Severity::High,
                String::from_str("Security Opts `no-new-privileges` not set"),
                path,
            );
            proof {
                assert(alert_views(alerts@) =~= alert_views(old(alerts)@) + security_opts_service(
                    path@,
                    service@,
                ));
            }
        },
    }
}

impl SecurityOpts {
    pub fn check(alerts: &mut Vec<Alert>, compose_file: &ComposeFile)
        ensures
            alert_views(final(alerts)@) == alert_views(old(alerts)@) + security_opts_alerts(
                compose_file@,
            ),
    {
        let services = &compose_file.compose.services;
        let ghost svcs = compose_file@.compose.services;
        let mut i: usize = 0;
        while i < services.len()
            invariant
                i <= services.len(),
                svcs == services.deep_view(),
                svcs.len() == services@.len(),
                alert_views(alerts@) == alert_views(old(alerts)@) + security_opts_all(
                    compose_file@.path,
                    svcs.subrange(0, i as int),
                ),
            decreases services.len() - i,
        {
            security_opts_for_service(alerts, &compose_file.path, &services[i].service);
            proof {
                lemma_security_opts_extend(compose_file@.path, svcs, i as int);
            }
            i = i + 1;
        }
        proof {
            assert(svcs.subrange(0, svcs.len() as int) =~= svcs);
        }
    }
}

// ---------------------------------------------------------------------------
// KernalParameters
// ---------------------------------------------------------------------------

/// Flags services that widen kernel parameters or kernel capabilities.
pub struct KernalParameters;

/// The alerts of the [`KernalParameters`] rule for one sysctl entry.
pub open spec fn sysctl_entry(path: Seq<char>, e: Seq<char>) -> Seq<AlertV> {
    if has_prefix(e, "net.ipv4.conf.all"@) {
        seq![
            mk_alert(
                RuleIDV::NoId,
                Severity::Information,
                "IPv4 Kernel Parameters modified: "@ + e,
                path,
            ),
        ]
    } else {
        Seq::<AlertV>::empty()
    }
}

pub open spec fn sysctl_entries(path: Seq<char>, es: Seq<Seq<char>>) -> Seq<AlertV>
    decreases es.len(),
{
    if es.len() == 0 {
        Seq::<AlertV>::empty()
    } else {
        sysctl_entries(path, es.drop_last()) + sysctl_entry(path, es.last())
    }
}

/// The alerts of the [`KernalParameters`] rule for one added capability:
/// one alert per matching substring, so a single entry can emit several.
pub open spec fn cap_add_entry(path: Seq<char>, e: Seq<char>) -> Seq<AlertV> {
    (if has_substring(e, "NET_ADMIN"@) {
        seq![
            mk_alert(
                RuleIDV::NoId,
                Severity::Medium,
                "Container with high networking privileges"@,
                path,
            ),
        ]
    } else {
        Seq::<AlertV>::empty()
    }) + (if has_substring(e, "SYS_ADMIN"@) {
        seq![
            mk_alert(
                RuleIDV::NoId,
                Severity::Medium,
                "Container with high system privileges"@,
                path,
            ),
        ]
    } else {
        Seq::<AlertV>::empty()
    }) + (if has_substring(e, "ALL"@) {
        seq![mk_alert(RuleIDV::NoId, Severity::High, "All capabilities are enabled"@, path)]
    } else {
        Seq::<AlertV>::empty()
    })
}

pub open spec fn cap_add_entries(path: Seq<char>, es: Seq<Seq<char>>) -> Seq<AlertV>
    decreases es.len(),
{
    if es.len() == 0 {
        Seq::<AlertV>::empty()
    } else {
        cap_add_entries(path, es.drop_last()) + cap_add_entry(path, es.last())
    }
}

/// The alerts of the [`KernalParameters`] rule for one service: a header
/// alert for a present `sysctls` list followed by its per-entry alerts,
/// then the same for a present `cap_add` list.  Each list is walked once.
pub open spec fn kernal_parameters_service(path: Seq<char>, s: ServiceV) -> Seq<AlertV> {
    (match s.sysctls {
        Some(es) => seq![mk_alert(RuleIDV::NoId, Severity::Low, "Enabling extra syscalls"@, path)]
            + sysctl_entries(path, es),
        None => Seq::<AlertV>::empty(),
    }) + (match s.cap_add {
        Some(es) => seq![
            mk_alert(RuleIDV::NoId, Severity::Low, "Using extra Kernel Parameters"@, path),
        ] + cap_add_entries(path, es),
        None => Seq::<AlertV>::empty(),
    })
}

/// The alerts of the [`KernalParameters`] rule over a prefix of the services.
pub open spec fn kernal_parameters_all(path: Seq<char>, svcs: Seq<ServiceEntryV>) -> Seq<AlertV>
    decreases svcs.len(),
{
    if svcs.len() == 0 {
        Seq::<AlertV>::empty()
    } else {
        kernal_parameters_all(path, svcs.drop_last()) + kernal_parameters_service(
            path,
            svcs.last().service,
        )
    }
}

/// The alerts of the [`KernalParameters`] rule.
pub open spec fn kernal_parameters_alerts(f: FileV) -> Seq<AlertV> {
    kernal_parameters_all(f.path, f.compose.services)
}

pub proof fn lemma_sysctl_entries_extend(path: Seq<char>, es: Seq<Seq<char>>, i: int)
    requires
        0 <= i < es.len(),
    ensures
        sysctl_entries(path, es.subrange(0, i + 1)) == sysctl_entries(path, es.subrange(0, i))
            + sysctl_entry(path, es[i]),
{
    let a = es.subrange(0, i + 1);
    assert(a.drop_last() =~= es.subrange(0, i));
    assert(a.last() == es[i]);
}

pub proof fn lemma_cap_add_entries_extend(path: Seq<char>, es: Seq<Seq<char>>, i: int)
    requires
        0 <= i < es.len(),
    ensures
        cap_add_entries(path, es.subrange(0, i + 1)) == cap_add_entries(path, es.subrange(0, i))
            + cap_add_entry(path, es[i]),
{
    let a = es.subrange(0, i + 1);
    assert(a.drop_last() =~= es.subrange(0, i));
    assert(a.last() == es[i]);
}

pub proof fn lemma_kernal_parameters_extend(path: Seq<char>, svcs: Seq<ServiceEntryV>, i: int)
    requires
        0 <= i < svcs.len(),
    ensures
        kernal_parameters_all(path, svcs.subrange(0, i + 1)) == kernal_parameters_all(
            path,
            svcs.subrange(0, i),
        ) + kernal_parameters_service(path, svcs[i].service),
{
    let a = svcs.subrange(0, i + 1);
    assert(a.drop_last() =~= svcs.subrange(0, i));
    assert(a.last() == svcs[i]);
}

fn sysctls_for_service(alerts: &mut Vec<Alert>, path: &String, entries: &Vec<String>)
    ensures
        alert_views(final(alerts)@) == alert_views(old(alerts)@) + sysctl_entries(
            path@,
            entries.deep_view(),
        ),
{
    let ghost es = entries.deep_view();
    let mut i: usize = 0;
    while i < entries.len()
        invariant
            i <= entries.len(),
            es == entries.deep_view(),
            es.len() == entries@.len(),
            alert_views(alerts@) == alert_views(old(alerts)@) + sysctl_entries(
                path@,
                es.subrange(0, i as int),
            ),
        decreases entries.len() - i,
    {
        if str_has_prefix(entries[i].as_str(), "net.ipv4.conf.all") {
            let details = String::from_str("IPv4 Kernel Parameters modified: ").concat(
                entries[i].as_str(),
            );
            push_alert(alerts, RuleID::NoId, Severity::Information, details, path);
        }
        proof {
            lemma_sysctl_entries_extend(path@, es, i as int);
            assert(alert_views(alerts@) =~= alert_views(old(alerts)@) + sysctl_entries(
                path@,
                es.subrange(0, i + 1 as int),
            ));
        }
        i = i + 1;
    }
    proof {
        assert(es.subrange(0, es.len() as int) =~= es);
    }
}

fn cap_add_for_service(alerts: &mut Vec<Alert>, path: &String, entries: &Vec<String>)
    ensures
        alert_views(final(alerts)@) == alert_views(old(alerts)@) + cap_add_entries(
            path@,
            entries.deep_view(),
        ),
{
    let ghost es = entries.deep_view();
    let mut i: usize = 0;
    while i < entries.len()
        invariant
            i <= entries.len(),
            es == entries.deep_view(),
            es.len() == entries@.len(),
            alert_views(alerts@) == alert_views(old(alerts)@) + cap_add_entries(
                path@,
                es.subrange(0, i as int),
            ),
        decreases entries.len() - i,
    {
        if str_contains(entries[i].as_str(), "NET_ADMIN") {
            push_alert(
                alerts,
                RuleID::NoId,
                Severity::Medium,
                String::from_str("Container with high networking privileges"),
                path,
            );
        }
        if str_contains(entries[i].as_str(), "SYS_ADMIN") {
            push_alert(
                alerts,
                RuleID::NoId,
                Severity::Medium,
                String::from_str("Container with high system privileges"),
                path,
            );
        }
        if str_contains(entries[i].as_str(), "ALL") {
            push_alert(
                alerts,
                RuleID::NoId,
                Severity::High,
                String::from_str("All capabilities are enabled"),
                path,
            );
        }
        proof {
            lemma_cap_add_entries_extend(path@, es, i as int);
            assert(alert_views(alerts@) =~= alert_views(old(alerts)@) + cap_add_entries(
                path@,
                es.subrange(0, i + 1 as int),
            ));
        }
        i = i + 1;
    }
    proof {
        assert(es.subrange(0, es.len() as int) =~= es);
    }
}

fn kernal_parameters_for_service(alerts: &mut Vec<Alert>, path: &String, service: &Service)
    ensures
        alert_views(final(alerts)@) == alert_views(old(alerts)@) + kernal_parameters_service(
            path@,
            service@,
        ),
{
    match &service.sysctls {
        Some(entries) => {
            push_alert(
                alerts,
                RuleID::NoId,
                Severity::Low,
                String::from_str("Enabling extra syscalls"),
                path,
            );
            sysctls_for_service(alerts, path, entries);
        },
        None => {},
    }
    match &service.cap_add {
        Some(entries) => {
            push_alert(
                alerts,
                RuleID::NoId,
                Severity::Low,
                String::from_str("Using extra Kernel Parameters"),
                path,
            );
            cap_add_for_service(alerts, path, entries);
        },
        None => {},
    }
    proof {
        assert(alert_views(alerts@) =~= alert_views(old(alerts)@) + kernal_parameters_service(
            path@,
            service@,
        ));
    }
}

impl KernalParameters {
    pub fn check(alerts: &mut Vec<Alert>, compose_file: &ComposeFile)
        ensures
            alert_views(final(alerts)@) == alert_views(old(alerts)@) + kernal_parameters_alerts(
                compose_file@,
            ),
    {
        let services = &compose_file.compose.services;
        let ghost svcs = compose_file@.compose.services;
        let mut i: usize = 0;
        while i < services.len()
            invariant
                i <= services.len(),
                svcs == services.deep_view(),
                svcs.len() == services@.len(),
                alert_views(alerts@) == alert_views(old(alerts)@) + kernal_parameters_all(
                    compose_file@.path,
                    svcs.subrange(0, i as int),
                ),
            decreases services.len() - i,
        {
            kernal_parameters_for_service(alerts, &compose_file.path, &services[i].service);
            proof {
                lemma_kernal_parameters_extend(compose_file@.path, svcs, i as int);
            }
            i = i + 1;
        }
        proof {
            assert(svcs.subrange(0, svcs.len() as int) =~= svcs);
        }
    }
}

// ---------------------------------------------------------------------------
// EnvironmentVariables
// ---------------------------------------------------------------------------

/// Flags environment entries that enable debugging or look like
/// hardcoded secrets.  The substring heuristic is deliberately loose and
/// can flag harmless entries.
pub struct EnvironmentVariables;

/// The alerts of the [`EnvironmentVariables`] rule for one entry; both
/// alerts can fire for a single entry.
pub open spec fn environment_entry(path: Seq<char>, e: Seq<char>) -> Seq<AlertV> {
    (if has_substring(e, "DEBUG"@) {
        seq![
            mk_alert(
                RuleIDV::Cwe("1244"@),
                Severity::Medium,
                "Debugging enabled in the container"@,
                path,
            ),
        ]
    } else {
        Seq::<AlertV>::empty()
    }) + (if has_substring(e, "PASSWORD"@) || has_substring(e, "KEY"@) {
        seq![
            mk_alert(
                RuleIDV::Cwe("215"@),
                Severity::High,
                "Possible Hardcoded password: "@ + e,
                path,
            ),
        ]
    } else {
        Seq::<AlertV>::empty()
    })
}

pub open spec fn environment_entries(path: Seq<char>, es: Seq<Seq<char>>) -> Seq<AlertV>
    decreases es.len(),
{
    if es.len() == 0 {
        Seq::<AlertV>::empty()
    } else {
        environment_entries(path, es.drop_last()) + environment_entry(path, es.last())
    }
}

/// The alerts of the [`EnvironmentVariables`] rule for one service.
pub open spec fn environment_variables_service(path: Seq<char>, s: ServiceV) -> Seq<AlertV> {
    match s.environment {
        Some(es) => environment_entries(path, es),
        None => Seq::<AlertV>::empty(),
    }
}

/// The alerts of the [`EnvironmentVariables`] rule over a prefix of the services.
pub open spec fn environment_variables_all(path: Seq<char>, svcs: Seq<ServiceEntryV>) -> Seq<
    AlertV,
>
    decreases svcs.len(),
{
    if svcs.len() == 0 {
        Seq::<AlertV>::empty()
    } else {
        environment_variables_all(path, svcs.drop_last()) + environment_variables_service(
            path,
            svcs.last().service,
        )
    }
}

/// The alerts of the [`EnvironmentVariables`] rule.
pub open spec fn environment_variables_alerts(f: FileV) -> Seq<AlertV> {
    environment_variables_all(f.path, f.compose.services)
}

pub proof fn lemma_environment_entries_extend(path: Seq<char>, es: Seq<Seq<char>>, i: int)
    requires
        0 <= i < es.len(),
    ensures
        environment_entries(path, es.subrange(0, i + 1)) == environment_entries(
            path,
            es.subrange(0, i),
        ) + environment_entry(path, es[i]),
{
    let a = es.subrange(0, i + 1);
    assert(a.drop_last() =~= es.subrange(0, i));
    assert(a.last() == es[i]);
}

pub proof fn lemma_environment_variables_extend(path: Seq<char>, svcs: Seq<ServiceEntryV>, i: int)
    requires
        0 <= i < svcs.len(),
    ensures
        environment_variables_all(path, svcs.subrange(0, i + 1)) == environment_variables_all(
            path,
            svcs.subrange(0, i),
        ) + environment_variables_service(path, svcs[i].service),
{
    let a = svcs.subrange(0, i + 1);
    assert(a.drop_last() =~= svcs.subrange(0, i));
    assert(a.last() == svcs[i]);
}

fn environment_variables_for_service(alerts: &mut Vec<Alert>, path: &String, service: &Service)
    ensures
        alert_views(final(alerts)@) == alert_views(old(alerts)@)
            + environment_variables_service(path@, service@),
{
    match &service.environment {
        Some(entries) => {
            let ghost es = entries.deep_view();
            let mut i: usize = 0;
            while i < entries.len()
                invariant
                    i <= entries.len(),
                    es == entries.deep_view(),
                    es.len() == entries@.len(),
                    alert_views(alerts@) == alert_views(old(alerts)@) + environment_entries(
                        path@,
                        es.subrange(0, i as int),
                    ),
                decreases entries.len() - i,
            {
                if str_contains(entries[i].as_str(), "DEBUG") {
                    push_alert(
                        alerts,
                        RuleID::Cwe(String::from_str("1244")),
                        Severity::Medium,
                        String::from_str("Debugging enabled in the container"),
                        path,
                    );
                }
                if str_contains(entries[i].as_str(), "PASSWORD") || str_contains(
                    entries[i].as_str(),
                    "KEY",
                ) {
                    let details = String::from_str("Possible Hardcoded password: ").concat(
                        entries[i].as_str(),
                    );
                    push_alert(alerts, RuleID::Cwe(String::from_str("215")), Severity::High, details, path);
                }
                proof {
                    lemma_environment_entries_extend(path@, es, i as int);
                    assert(alert_views(alerts@) =~= alert_views(old(alerts)@)
                        + environment_entries(path@, es.subrange(0, i + 1 as int)));
                }
                i = i + 1;
            }
            proof {
                assert(es.subrange(0, es.len() as int) =~= es);
            }
        },
        None => {},
    }
}

impl EnvironmentVariables {
    pub fn check(alerts: &mut Vec<Alert>, compose_file: &ComposeFile)
        ensures
            alert_views(final(alerts)@) == alert_views(old(alerts)@)
                + environment_variables_alerts(compose_file@),
    {
        let services = &compose_file.compose.services;
        let ghost svcs = compose_file@.compose.services;
        let mut i: usize = 0;
        while i < services.len()
            invariant
                i <= services.len(),
                svcs == services.deep_view(),
                svcs.len() == services@.len(),
                alert_views(alerts@) == alert_views(old(alerts)@) + environment_variables_all(
                    compose_file@.path,
                    svcs.subrange(0, i as int),
                ),
            decreases services.len() - i,
        {
            environment_variables_for_service(alerts, &compose_file.path, &services[i].service);
            proof {
                lemma_environment_variables_extend(compose_file@.path, svcs, i as int);
            }
            i = i + 1;
        }
        proof {
            assert(svcs.subrange(0, svcs.len() as int) =~= svcs);
        }
    }
}

// ---------------------------------------------------------------------------
// The runner
// ---------------------------------------------------------------------------

/// The whole alert list of a run: the rules' contributions in the fixed
/// published order.
pub open spec fn spec_checks(f: FileV) -> Seq<AlertV> {
    compose_version_alerts(f) + container_images_alerts(f) + docker_socket_alerts(f)
        + security_opts_alerts(f) + kernal_parameters_alerts(f) + environment_variables_alerts(f)
}

/// Runs every rule on the document, in the fixed order ComposeVersion,
/// ContainerImages, DockerSocket, SecurityOpts, KernalParameters,
/// EnvironmentVariables, and returns the accumulated alerts.
pub fn checks(compose_file: &ComposeFile) -> (alerts: Vec<Alert>)
    ensures
        alert_views(alerts@) == spec_checks(compose_file@),
{
    let mut alerts: Vec<Alert> = Vec::new();
    proof {
        assert(alert_views(alerts@) =~= Seq::<AlertV>::empty());
    }
    ComposeVersion::check(&mut alerts, compose_file);
    ContainerImages::check(&mut alerts, compose_file);
    DockerSocket::check(&mut alerts, compose_file);
    SecurityOpts::check(&mut alerts, compose_file);
    KernalParameters::check(&mut alerts, compose_file);
    EnvironmentVariables::check(&mut alerts, compose_file);
    proof {
        assert(alert_views(alerts@) =~= spec_checks(compose_file@));
    }
    alerts
}

} // verus!
