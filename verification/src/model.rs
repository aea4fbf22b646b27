//! The alert model and the compose document model.
//!
//! Alerts are the uniform output currency of every rule.  The document
//! model is populated by an external parser and read, never written, by
//! the rules.  Each executable type has a mathematical view (`...V`) that
//! the contracts speak of.

use vstd::prelude::*;

verus! {

/// Severity of a finding, ordered from least to most severe.
#[derive(Debug, Clone, Copy, PartialEq, Eq, PartialOrd, Ord)]
pub enum Severity {
    Information,
    Low,
    Medium,
    High,
    Critical,
}

/// Taxonomy identifier attached to an alert: no taxonomy, a
/// weakness-catalogue numeric code, an industry best-practice code, or a
/// freeform label.
#[derive(Debug, Clone, PartialEq, Eq)]
pub enum RuleID {
    NoId,
    Cwe(String),
    Owasp(String),
    Other(String),
}

/// Mathematical model of a [`RuleID`]: code payloads as character sequences.
pub ghost enum RuleIDV {
    NoId,
    Cwe(Seq<char>),
    Owasp(Seq<char>),
    Other(Seq<char>),
}

impl View for RuleID {
    type V = RuleIDV;

    open spec fn view(&self) -> RuleIDV {
        match self {
            RuleID::NoId => RuleIDV::NoId,
            RuleID::Cwe(s) => RuleIDV::Cwe(s@),
            RuleID::Owasp(s) => RuleIDV::Owasp(s@),
            RuleID::Other(s) => RuleIDV::Other(s@),
        }
    }
}

/// Where a finding points: the source file, and optionally a position in it.
#[derive(Debug, Clone, PartialEq, Eq)]
pub struct AlertLocation {
    pub path: String,
    pub line: Option<usize>,
    pub column: Option<usize>,
}

/// Mathematical model of an [`AlertLocation`].
pub ghost struct LocationV {
    pub path: Seq<char>,
    pub line: Option<usize>,
    pub column: Option<usize>,
}

impl View for AlertLocation {
    type V = LocationV;

    open spec fn view(&self) -> LocationV {
        LocationV { path: self.path@, line: self.line, column: self.column }
    }
}

/// A structured finding produced by a rule.
#[derive(Debug, Clone, PartialEq, Eq)]
pub struct Alert {
    pub id: RuleID,
    pub severity: Severity,
    pub details: String,
    pub location: AlertLocation,
}

/// Mathematical model of an [`Alert`].
pub ghost struct AlertV {
    pub id: RuleIDV,
    pub severity: Severity,
    pub details: Seq<char>,
    pub location: LocationV,
}

impl View for Alert {
    type V = AlertV;

    open spec fn view(&self) -> AlertV {
        AlertV {
            id: self.id@,
            severity: self.severity,
            details: self.details@,
            location: self.location@,
        }
    }
}

/// The alert the rules emit: line and column are never supplied by the
/// parser boundary modelled here, so they are unset.
pub open spec fn mk_alert(id: RuleIDV, severity: Severity, details: Seq<char>, path: Seq<char>) -> AlertV {
    AlertV {
        id,
        severity,
        details,
        location: LocationV { path, line: None, column: None },
    }
}

/// The views of a sequence of alerts.
pub open spec fn alert_views(s: Seq<Alert>) -> Seq<AlertV> {
    s.map(|i: int, a: Alert| a@)
}

pub broadcast proof fn lemma_alert_views_push(s: Seq<Alert>, a: Alert)
    ensures
        #[trigger] alert_views(s.push(a)) == alert_views(s).push(a@),
{
    assert(alert_views(s.push(a)) =~= alert_views(s).push(a@));
}

/// Appends one alert, with unset line and column, to the sink.
pub fn push_alert(alerts: &mut Vec<Alert>, id: RuleID, severity: Severity, details: String, path: &String)
    ensures
        alert_views(final(alerts)@) == alert_views(old(alerts)@).push(
            mk_alert(id@, severity, details@, path@),
        ),
{
    proof {
        broadcast use lemma_alert_views_push;
    }
    let location = AlertLocation { path: path.clone(), line: None, column: None };
    alerts.push(Alert { id, severity, details, location });
}

/// One service of a compose document.  Every field is optional: an absent
/// field means the compose file does not mention it.
#[derive(Debug, Clone, PartialEq, Eq)]
pub struct Service {
    pub image: Option<String>,
    pub volumes: Option<Vec<String>>,
    pub security_opt: Option<Vec<String>>,
    pub sysctls: Option<Vec<String>>,
    pub cap_add: Option<Vec<String>>,
    pub environment: Option<Vec<String>>,
}

/// Mathematical model of a [`Service`].
pub ghost struct ServiceV {
    pub image: Option<Seq<char>>,
    pub volumes: Option<Seq<Seq<char>>>,
    pub security_opt: Option<Seq<Seq<char>>>,
    pub sysctls: Option<Seq<Seq<char>>>,
    pub cap_add: Option<Seq<Seq<char>>>,
    pub environment: Option<Seq<Seq<char>>>,
}

impl View for Service {
    type V = ServiceV;

    open spec fn view(&self) -> ServiceV {
        ServiceV {
            image: self.image.deep_view(),
            volumes: self.volumes.deep_view(),
            security_opt: self.security_opt.deep_view(),
            sysctls: self.sysctls.deep_view(),
            cap_add: self.cap_add.deep_view(),
            environment: self.environment.deep_view(),
        }
    }
}

impl DeepView for Service {
    type V = ServiceV;

    open spec fn deep_view(&self) -> ServiceV {
        self.view()
    }
}

/// One named service.  The document keeps services as a sequence of such
/// entries with unique names; the entry order is the iteration order of
/// every rule, so a run is deterministic given the input.
#[derive(Debug, Clone, PartialEq, Eq)]
pub struct ServiceEntry {
    pub name: String,
    pub service: Service,
}

/// Mathematical model of a [`ServiceEntry`].
pub ghost struct ServiceEntryV {
    pub name: Seq<char>,
    pub service: ServiceV,
}

impl View for ServiceEntry {
    type V = ServiceEntryV;

    open spec fn view(&self) -> ServiceEntryV {
        ServiceEntryV { name: self.name@, service: self.service@ }
    }
}

impl DeepView for ServiceEntry {
    type V = ServiceEntryV;

    open spec fn deep_view(&self) -> ServiceEntryV {
        self.view()
    }
}

/// A parsed compose document: the declared version string (empty when the
/// file declares none) and the services.
#[derive(Debug, Clone, PartialEq, Eq)]
pub struct ComposeDocument {
    pub version: String,
    pub services: Vec<ServiceEntry>,
}

/// Mathematical model of a [`ComposeDocument`].
pub ghost struct DocumentV {
    pub version: Seq<char>,
    pub services: Seq<ServiceEntryV>,
}

impl View for ComposeDocument {
    type V = DocumentV;

    open spec fn view(&self) -> DocumentV {
        DocumentV { version: self.version@, services: self.services.deep_view() }
    }
}

/// A compose document together with the path it came from; the path is
/// used only as the location of every alert.
#[derive(Debug, Clone, PartialEq, Eq)]
pub struct ComposeFile {
    pub path: String,
    pub compose: ComposeDocument,
}

/// Mathematical model of a [`ComposeFile`].
pub ghost struct FileV {
    pub path: Seq<char>,
    pub compose: DocumentV,
}

impl View for ComposeFile {
    type V = FileV;

    open spec fn view(&self) -> FileV {
        FileV { path: self.path@, compose: self.compose@ }
    }
}

} // verus!
