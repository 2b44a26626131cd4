//! Read-only configuration of a harvest run: which label groups to collect,
//! and the credentials of the remote bastion host and of the log store.
//!
//! Loading this data from a structured file is the caller's concern; the
//! library receives it as plain typed values.

use vstd::prelude::*;
use vstd::string::*;

use crate::time::Timestamp;

verus! {

/// Service and unit names sharing one harvesting strategy.
#[derive(Debug)]
pub struct Labels {
    pub app: Vec<String>,
    pub unit: Option<Vec<String>>,
}

impl Labels {
    /// All names of the group: the service names followed by the unit names,
    /// if any.
    pub open spec fn names(self) -> Seq<Seq<char>> {
        self.app.deep_view() + if self.unit is Some {
            self.unit->0.deep_view()
        } else {
            Seq::empty()
        }
    }

    /// Whether `other` carries the same service and unit names as `self`.
    pub open spec fn same_names(self, other: Labels) -> bool {
        &&& self.app.deep_view() == other.app.deep_view()
        &&& self.unit is Some <==> other.unit is Some
        &&& self.unit is Some ==> self.unit->0.deep_view() == other.unit->0.deep_view()
    }

    /// The service names followed by the unit names, if any.
    pub fn get_svc_names(&self) -> (r: Vec<&String>)
        ensures
            r.deep_view() == self.names(),
    {
        let mut result: Vec<&String> = Vec::new();
        let mut i: usize = 0;
        while i < self.app.len()
            invariant
                i <= self.app.len(),
                result.deep_view() == self.app.deep_view().take(i as int),
            decreases self.app.len() - i,
        {
            let ghost prev = result.deep_view();
            result.push(&self.app[i]);
            proof {
                assert(result.deep_view() =~= prev.push(self.app@[i as int]@));
                assert(result.deep_view() =~= self.app.deep_view().take(i as int + 1));
            }
            i += 1;
        }
        assert(result.deep_view() =~= self.app.deep_view());
        if let Some(u) = &self.unit {
            let mut j: usize = 0;
            while j < u.len()
                invariant
                    j <= u.len(),
                    self.unit matches Some(uu) && uu == *u,
                    result.deep_view() == self.app.deep_view() + u.deep_view().take(j as int),
                decreases u.len() - j,
            {
                let ghost prev = result.deep_view();
                result.push(&u[j]);
                proof {
                    assert(result.deep_view() =~= prev.push(u@[j as int]@));
                    assert(result.deep_view() =~= self.app.deep_view() + u.deep_view().take(
                        j as int + 1,
                    ));
                }
                j += 1;
            }
            assert(result.deep_view() =~= self.names());
        } else {
            assert(result.deep_view() =~= self.names());
        }
        result
    }
}

impl Clone for Labels {
    fn clone(&self) -> (r: Self)
        ensures
            r.same_names(*self),
    {
        let app = self.app.clone();
        let unit = self.unit.clone();
        proof {
            assert(app.deep_view() =~= self.app.deep_view());
            if self.unit is Some {
                assert(unit->0.deep_view() =~= self.unit->0.deep_view());
            }
        }
        Labels { app, unit }
    }
}

/// Service names, as listed in configuration.
#[derive(Debug)]
pub struct App {
    pub items: Vec<String>,
}

/// Unit names, as listed in configuration.
#[derive(Debug)]
pub struct Unit {
    pub items: Vec<String>,
}

/// A label group tagged with its harvesting strategy: core and backend groups
/// are harvested per live pod, infrastructure groups per service name.
#[derive(Debug, Clone)]
pub enum LabelType {
    CoreLabel(Labels),
    InfraLabel(Labels),
    BackendLabel(Labels),
}

impl LabelType {
    /// Whether pod-level attribution applies to this group.
    pub fn pod_aware(&self) -> (r: bool)
        ensures
            r == self.spec_pod_aware(),
    {
        match self {
            LabelType::CoreLabel(_) => true,
            LabelType::BackendLabel(_) => true,
            LabelType::InfraLabel(_) => false,
        }
    }

    pub open spec fn spec_pod_aware(self) -> bool {
        self is CoreLabel || self is BackendLabel
    }
}

/// Which label groups a run collects.
#[derive(Debug, Clone)]
pub struct Artifacts {
    pub cores: bool,
    pub backend: bool,
    pub core_labels: Labels,
    pub infra_labels: Labels,
    pub backend_labels: Labels,
}

impl Artifacts {
    /// The enabled label groups, each under its strategy tag: backend and
    /// infrastructure groups when `backend` is set, then the core group when
    /// `cores` is set.
    pub fn get_labels(&self) -> (r: Vec<LabelType>)
        ensures
            r@.len() == (if self.backend {
                2int
            } else {
                0int
            }) + (if self.cores {
                1int
            } else {
                0int
            }),
            self.backend ==> (r@[0] matches LabelType::BackendLabel(l) && l.same_names(
                self.backend_labels,
            )),
            self.backend ==> (r@[1] matches LabelType::InfraLabel(l) && l.same_names(
                self.infra_labels,
            )),
            self.cores ==> (r@[if self.backend {
                2int
            } else {
                0int
            }] matches LabelType::CoreLabel(l) && l.same_names(self.core_labels)),
    {
        let mut result: Vec<LabelType> = Vec::new();
        if self.backend {
            result.push(LabelType::BackendLabel(self.backend_labels.clone()));
            result.push(LabelType::InfraLabel(self.infra_labels.clone()));
        }
        if self.cores {
            result.push(LabelType::CoreLabel(self.core_labels.clone()));
        }
        result
    }

    /// The names of every enabled group, in group order.
    pub fn get_svc_names(&self) -> (r: Vec<&String>)
        ensures
            r.deep_view() == (if self.backend {
                self.backend_labels.names() + self.infra_labels.names()
            } else {
                Seq::empty()
            }) + (if self.cores {
                self.core_labels.names()
            } else {
                Seq::empty()
            }),
    {
        let mut result: Vec<&String> = Vec::new();
        if self.backend {
            let mut b = self.backend_labels.get_svc_names();
            result.append(&mut b);
            let mut inf = self.infra_labels.get_svc_names();
            result.append(&mut inf);
        }
        if self.cores {
            let mut c = self.core_labels.get_svc_names();
            result.append(&mut c);
        }
        proof {
            assert(result.deep_view() =~= (if self.backend {
                self.backend_labels.names() + self.infra_labels.names()
            } else {
                Seq::empty()
            }) + (if self.cores {
                self.core_labels.names()
            } else {
                Seq::empty()
            }));
        }
        result
    }
}

/// Credentials of the remote bastion host.
#[derive(Debug, Clone)]
pub struct SshConfig {
    pub addr: String,
    pub login: String,
    pub password: Option<String>,
}

/// The fixed path of the private key used when no password is configured.
pub open spec fn key_path_text() -> Seq<char> {
    "/home/pt/.ssh/id_rsa.ptaf"@
}

impl SshConfig {
    /// Path of the private key file used for key-based authentication.
    pub fn key_path(&self) -> (r: String)
        ensures
            r@ == key_path_text(),
    {
        "/home/pt/.ssh/id_rsa.ptaf".to_owned()
    }
}

/// Credentials and time window of the log store.
#[derive(Debug, Clone)]
pub struct LokiConfig {
    pub login: String,
    pub password: String,
    pub log_from: Option<Timestamp>,
    pub log_to: Option<Timestamp>,
    pub since: String,
    pub time_zone: String,
    pub tenant_id: String,
}

/// The fixed in-cluster address of the log store.
pub open spec fn address_text() -> Seq<char> {
    "http://loki.ptaf-infra.svc.cluster.local:3100"@
}

/// The fixed tenant identifier sent with every query.
pub open spec fn org_id_text() -> Seq<char> {
    "3jqM2DLOMbbQzdodO3cO"@
}

impl LokiConfig {
    /// The address the query tool is pointed at.
    pub fn full_address(&self) -> (r: String)
        ensures
            r@ == address_text(),
    {
        "http://loki.ptaf-infra.svc.cluster.local:3100".to_owned()
    }

    /// The tenant identifier of the log store.
    pub fn org_id(&self) -> (r: String)
        ensures
            r@ == org_id_text(),
    {
        "3jqM2DLOMbbQzdodO3cO".to_owned()
    }
}

/// Connection parameters of both remote endpoints.
#[derive(Debug, Clone)]
pub struct Param {
    pub ssh: SshConfig,
    pub loki: LokiConfig,
}

/// The whole run configuration.
#[derive(Debug, Clone)]
pub struct Config {
    pub artifacts: Artifacts,
    pub param: Param,
}

impl Config {
    /// Environment assignments inlined before every remote command; none are
    /// currently configured.
    pub fn get_envs(&self) -> (r: String)
        ensures
            r@ == Seq::<char>::empty(),
    {
        proof {
            reveal_strlit("");
        }
        "".to_owned()
    }
}

} // verus!
