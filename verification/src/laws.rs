//! Properties of the rule engine that hold of every document: purity and
//! determinism of a run, path consistency of every alert, independence of
//! the rules, monotonicity under adding a service, and the boundary
//! behaviour of an empty service map and of an empty `security_opt` list.

use vstd::prelude::*;
use crate::model::{mk_alert, AlertV, RuleIDV, Severity, ServiceV, ServiceEntryV, DocumentV, FileV};
use crate::rules::{
    spec_checks, compose_version_alerts, container_images_alerts, container_images_all,
    container_images_service, docker_socket_alerts, docker_socket_all, docker_socket_service,
    security_opts_alerts, security_opts_all, security_opts_service, security_opt_entry,
    security_opt_entries, kernal_parameters_alerts, kernal_parameters_all,
    kernal_parameters_service, sysctl_entry, sysctl_entries, cap_add_entry, cap_add_entries,
    environment_variables_alerts, environment_variables_all, environment_variables_service,
    environment_entry, environment_entries,
};

verus! {

/// Purity and determinism: the alert list of a run is a function of the
/// document alone, so two runs on the same document yield the same list,
/// byte for byte.  (That a run does not mutate the document is already
/// in the type of `checks`, which borrows the file immutably.)
pub proof fn lemma_checks_deterministic(f: FileV, r1: Seq<AlertV>, r2: Seq<AlertV>)
    requires
        r1 == spec_checks(f),
        r2 == spec_checks(f),
    ensures
        r1 == r2,
{
}

/// Every alert of `s` points at `path`.
pub open spec fn all_at_path(s: Seq<AlertV>, path: Seq<char>) -> bool {
    forall|i: int| 0 <= i < s.len() ==> (#[trigger] s[i]).location.path == path
}

proof fn lemma_all_at_path_concat(a: Seq<AlertV>, b: Seq<AlertV>, path: Seq<char>)
    requires
        all_at_path(a, path),
        all_at_path(b, path),
    ensures
        all_at_path(a + b, path),
{
    assert forall|i: int| 0 <= i < (a + b).len() implies (#[trigger] (a + b)[i]).location.path
        == path by {
        if i < a.len() {
            assert((a + b)[i] == a[i]);
        } else {
            assert((a + b)[i] == b[i - a.len()]);
        }
    }
}

proof fn lemma_container_images_service_path(path: Seq<char>, s: ServiceV)
    ensures
        all_at_path(container_images_service(path, s), path),
{
    let rec = container_images_service(path, s);
    assert forall|i: int| 0 <= i < rec.len() implies (#[trigger] rec[i]).location.path
        == path by {}
}

proof fn lemma_container_images_all_path(path: Seq<char>, svcs: Seq<ServiceEntryV>)
    ensures
        all_at_path(container_images_all(path, svcs), path),
    decreases svcs.len(),
{
    if svcs.len() > 0 {
        lemma_container_images_all_path(path, svcs.drop_last());
        lemma_container_images_service_path(path, svcs.last().service);
        lemma_all_at_path_concat(
            container_images_all(path, svcs.drop_last()),
            container_images_service(path, svcs.last().service),
            path,
        );
    }
}

proof fn lemma_docker_socket_all_path(path: Seq<char>, svcs: Seq<ServiceEntryV>)
    ensures
        all_at_path(docker_socket_all(path, svcs), path),
    decreases svcs.len(),
{
    if svcs.len() > 0 {
        lemma_docker_socket_all_path(path, svcs.drop_last());
        lemma_all_at_path_concat(
            docker_socket_all(path, svcs.drop_last()),
            docker_socket_service(path, svcs.last().service),
            path,
        );
    }
}

proof fn lemma_security_opt_entries_path(path: Seq<char>, es: Seq<Seq<char>>)
    ensures
        all_at_path(security_opt_entries(path, es), path),
    decreases es.len(),
{
    if es.len() > 0 {
        lemma_security_opt_entries_path(path, es.drop_last());
        lemma_all_at_path_concat(
            security_opt_entries(path, es.drop_last()),
            security_opt_entry(path, es.last()),
            path,
        );
    }
}

proof fn lemma_security_opts_all_path(path: Seq<char>, svcs: Seq<ServiceEntryV>)
    ensures
        all_at_path(security_opts_all(path, svcs), path),
    decreases svcs.len(),
{
    if svcs.len() > 0 {
        lemma_security_opts_all_path(path, svcs.drop_last());
        match svcs.last().service.security_opt {
            Some(opts) => lemma_security_opt_entries_path(path, opts),
            None => {},
        }
        lemma_all_at_path_concat(
            security_opts_all(path, svcs.drop_last()),
            security_opts_service(path, svcs.last().service),
            path,
        );
    }
}

proof fn lemma_sysctl_entries_path(path: Seq<char>, es: Seq<Seq<char>>)
    ensures
        all_at_path(sysctl_entries(path, es), path),
    decreases es.len(),
{
    if es.len() > 0 {
        lemma_sysctl_entries_path(path, es.drop_last());
        lemma_all_at_path_concat(
            sysctl_entries(path, es.drop_last()),
            sysctl_entry(path, es.last()),
            path,
        );
    }
}

proof fn lemma_cap_add_entries_path(path: Seq<char>, es: Seq<Seq<char>>)
    ensures
        all_at_path(cap_add_entries(path, es), path),
    decreases es.len(),
{
    if es.len() > 0 {
        lemma_cap_add_entries_path(path, es.drop_last());
        let e = es.last();
        lemma_all_at_path_concat(
            cap_add_entries(path, es.drop_last()),
            cap_add_entry(path, e),
            path,
        );
    }
}

proof fn lemma_kernal_parameters_service_path(path: Seq<char>, s: ServiceV)
    ensures
        all_at_path(kernal_parameters_service(path, s), path),
{
    let sys_header = mk_alert(RuleIDV::NoId, Severity::Low, "Enabling extra syscalls"@, path);
    let cap_header = mk_alert(
        RuleIDV::NoId,
        Severity::Low,
        "Using extra Kernel Parameters"@,
        path,
    );
    let sys_part = match s.sysctls {
        Some(es) => seq![sys_header] + sysctl_entries(path, es),
        None => Seq::<AlertV>::empty(),
    };
    let cap_part = match s.cap_add {
        Some(es) => seq![cap_header] + cap_add_entries(path, es),
        None => Seq::<AlertV>::empty(),
    };
    match s.sysctls {
        Some(es) => {
            lemma_sysctl_entries_path(path, es);
            lemma_all_at_path_concat(seq![sys_header], sysctl_entries(path, es), path);
        },
        None => {},
    }
    match s.cap_add {
        Some(es) => {
            lemma_cap_add_entries_path(path, es);
            lemma_all_at_path_concat(seq![cap_header], cap_add_entries(path, es), path);
        },
        None => {},
    }
    lemma_all_at_path_concat(sys_part, cap_part, path);
}

proof fn lemma_kernal_parameters_all_path(path: Seq<char>, svcs: Seq<ServiceEntryV>)
    ensures
        all_at_path(kernal_parameters_all(path, svcs), path),
    decreases svcs.len(),
{
    if svcs.len() > 0 {
        lemma_kernal_parameters_all_path(path, svcs.drop_last());
        lemma_kernal_parameters_service_path(path, svcs.last().service);
        lemma_all_at_path_concat(
            kernal_parameters_all(path, svcs.drop_last()),
            kernal_parameters_service(path, svcs.last().service),
            path,
        );
    }
}

proof fn lemma_environment_entries_path(path: Seq<char>, es: Seq<Seq<char>>)
    ensures
        all_at_path(environment_entries(path, es), path),
    decreases es.len(),
{
    if es.len() > 0 {
        lemma_environment_entries_path(path, es.drop_last());
        lemma_all_at_path_concat(
            environment_entries(path, es.drop_last()),
            environment_entry(path, es.last()),
            path,
        );
    }
}

proof fn lemma_environment_variables_all_path(path: Seq<char>, svcs: Seq<ServiceEntryV>)
    ensures
        all_at_path(environment_variables_all(path, svcs), path),
    decreases svcs.len(),
{
    if svcs.len() > 0 {
        lemma_environment_variables_all_path(path, svcs.drop_last());
        match svcs.last().service.environment {
            Some(es) => lemma_environment_entries_path(path, es),
            None => {},
        }
        lemma_all_at_path_concat(
            environment_variables_all(path, svcs.drop_last()),
            environment_variables_service(path, svcs.last().service),
            path,
        );
    }
}

/// Path consistency: every alert of a run points at the path of the
/// document it was produced from.
pub proof fn lemma_path_consistency(f: FileV)
    ensures
        all_at_path(spec_checks(f), f.path),
{
    lemma_container_images_all_path(f.path, f.compose.services);
    lemma_docker_socket_all_path(f.path, f.compose.services);
    lemma_security_opts_all_path(f.path, f.compose.services);
    lemma_kernal_parameters_all_path(f.path, f.compose.services);
    lemma_environment_variables_all_path(f.path, f.compose.services);
    lemma_all_at_path_concat(compose_version_alerts(f), container_images_alerts(f), f.path);
    lemma_all_at_path_concat(
        compose_version_alerts(f) + container_images_alerts(f),
        docker_socket_alerts(f),
        f.path,
    );
    lemma_all_at_path_concat(
        compose_version_alerts(f) + container_images_alerts(f) + docker_socket_alerts(f),
        security_opts_alerts(f),
        f.path,
    );
    lemma_all_at_path_concat(
        compose_version_alerts(f) + container_images_alerts(f) + docker_socket_alerts(f)
            + security_opts_alerts(f),
        kernal_parameters_alerts(f),
        f.path,
    );
    lemma_all_at_path_concat(
        compose_version_alerts(f) + container_images_alerts(f) + docker_socket_alerts(f)
            + security_opts_alerts(f) + kernal_parameters_alerts(f),
        environment_variables_alerts(f),
        f.path,
    );
}

/// Rule independence: the alert list of a run is the concatenation of the
/// rules' own contributions, each standing unchanged as a contiguous
/// block, so running one rule alone yields exactly its block.
pub proof fn lemma_rule_independence(f: FileV)
    ensures
        spec_checks(f) == compose_version_alerts(f) + container_images_alerts(f)
            + docker_socket_alerts(f) + security_opts_alerts(f) + kernal_parameters_alerts(f)
            + environment_variables_alerts(f),
        ({
            let n1 = compose_version_alerts(f).len() as int;
            let n2 = n1 + container_images_alerts(f).len();
            let n3 = n2 + docker_socket_alerts(f).len();
            let n4 = n3 + security_opts_alerts(f).len();
            let n5 = n4 + kernal_parameters_alerts(f).len();
            let n6 = n5 + environment_variables_alerts(f).len();
            &&& spec_checks(f).subrange(0, n1) == compose_version_alerts(f)
            &&& spec_checks(f).subrange(n1, n2) == container_images_alerts(f)
            &&& spec_checks(f).subrange(n2, n3) == docker_socket_alerts(f)
            &&& spec_checks(f).subrange(n3, n4) == security_opts_alerts(f)
            &&& spec_checks(f).subrange(n4, n5) == kernal_parameters_alerts(f)
            &&& spec_checks(f).subrange(n5, n6) == environment_variables_alerts(f)
            &&& spec_checks(f).len() == n6
        }),
{
    let n1 = compose_version_alerts(f).len() as int;
    let n2 = n1 + container_images_alerts(f).len();
    let n3 = n2 + docker_socket_alerts(f).len();
    let n4 = n3 + security_opts_alerts(f).len();
    let n5 = n4 + kernal_parameters_alerts(f).len();
    let n6 = n5 + environment_variables_alerts(f).len();
    assert(spec_checks(f).subrange(0, n1) =~= compose_version_alerts(f));
    assert(spec_checks(f).subrange(n1, n2) =~= container_images_alerts(f));
    assert(spec_checks(f).subrange(n2, n3) =~= docker_socket_alerts(f));
    assert(spec_checks(f).subrange(n3, n4) =~= security_opts_alerts(f));
    assert(spec_checks(f).subrange(n4, n5) =~= kernal_parameters_alerts(f));
    assert(spec_checks(f).subrange(n5, n6) =~= environment_variables_alerts(f));
}

/// Monotonicity under addition: appending a service to a document leaves
/// every rule's existing alerts in place and appends exactly that
/// service's contribution to each per-service rule, while the version
/// rule is untouched.
pub proof fn lemma_monotonic_under_addition(f: FileV, e: ServiceEntryV)
    ensures
        ({
            let g = FileV {
                path: f.path,
                compose: DocumentV {
                    version: f.compose.version,
                    services: f.compose.services.push(e),
                },
            };
            &&& compose_version_alerts(g) == compose_version_alerts(f)
            &&& container_images_alerts(g) == container_images_alerts(f)
                + container_images_service(f.path, e.service)
            &&& docker_socket_alerts(g) == docker_socket_alerts(f) + docker_socket_service(
                f.path,
                e.service,
            )
            &&& security_opts_alerts(g) == security_opts_alerts(f) + security_opts_service(
                f.path,
                e.service,
            )
            &&& kernal_parameters_alerts(g) == kernal_parameters_alerts(f)
                + kernal_parameters_service(f.path, e.service)
            &&& environment_variables_alerts(g) == environment_variables_alerts(f)
                + environment_variables_service(f.path, e.service)
        }),
{
    let svcs = f.compose.services;
    assert(svcs.push(e).drop_last() =~= svcs);
    assert(svcs.push(e).last() == e);
}

/// A document with no services gets alerts from the version rule alone.
pub proof fn lemma_zero_services(f: FileV)
    requires
        f.compose.services.len() == 0,
    ensures
        spec_checks(f) == compose_version_alerts(f),
{
    assert(spec_checks(f) =~= compose_version_alerts(f));
}

/// A `security_opt` list that is present but empty counts as present: it
/// suppresses the "not set" alert and contributes nothing else.
pub proof fn lemma_security_opt_present_empty(path: Seq<char>, s: ServiceV)
    requires
        s.security_opt == Some(Seq::<Seq<char>>::empty()),
    ensures
        security_opts_service(path, s) == Seq::<AlertV>::empty(),
{
}

} // verus!
