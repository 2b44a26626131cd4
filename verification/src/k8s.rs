//! The cluster side of harvesting: the credentials bundle, the material of
//! the mutual-TLS pod-list request, and the verified reading of the pod-list
//! response body.
//!
//! Issuing the HTTPS request itself is the caller's concern; everything
//! computable around it — base64 decoding of the certificate material, the
//! request URL, and the parsing of the JSON body — is decided here.

use vstd::prelude::*;
use vstd::string::*;

use base64::Engine;

use crate::errors::HarvestError;
use crate::json::{json_as_array, json_as_str, json_get, json_model, json_of, parse_json,
    JsonModel};
use crate::text::{has_prefix, str_starts_with};

verus! {

/// A live pod as reported by the cluster API at a single point in time.
#[derive(Debug, Clone)]
pub struct PodRecord {
    pub name: String,
    pub namespace: String,
}

/// The mathematical content of a pod record.
pub struct PodView {
    pub name: Seq<char>,
    pub namespace: Seq<char>,
}

impl View for PodRecord {
    type V = PodView;

    open spec fn view(&self) -> PodView {
        PodView { name: self.name@, namespace: self.namespace@ }
    }
}

impl DeepView for PodRecord {
    type V = PodView;

    open spec fn deep_view(&self) -> PodView {
        self.view()
    }
}

/// Whether the model is one pod item of the list body: an object whose
/// `metadata` member holds string `name` and `namespace` members.
pub open spec fn pod_wf(m: JsonModel) -> bool {
    &&& m matches JsonModel::Obj(f)
    &&& f.contains_key("metadata"@)
    &&& f["metadata"@] matches JsonModel::Obj(meta)
    &&& meta.contains_key("name"@)
    &&& meta["name"@] is Str
    &&& meta.contains_key("namespace"@)
    &&& meta["namespace"@] is Str
}

/// The pod a well-formed item denotes.
pub open spec fn pod_of(m: JsonModel) -> PodView
    recommends
        pod_wf(m),
{
    PodView {
        name: m->Obj_0["metadata"@]->Obj_0["name"@]->Str_0,
        namespace: m->Obj_0["metadata"@]->Obj_0["namespace"@]->Str_0,
    }
}

/// Whether the model is a pod-list body: an object whose `items` member is
/// an array of well-formed pod items. All other members are ignored.
pub open spec fn pod_list_wf(m: JsonModel) -> bool {
    &&& m matches JsonModel::Obj(f)
    &&& f.contains_key("items"@)
    &&& f["items"@] matches JsonModel::Arr(items)
    &&& forall|i: int| 0 <= i < items.len() ==> pod_wf(#[trigger] items[i])
}

/// The pods a well-formed list body denotes, in body order.
pub open spec fn pods_of(m: JsonModel) -> Seq<PodView>
    recommends
        pod_list_wf(m),
{
    m->Obj_0["items"@]->Arr_0.map_values(|p: JsonModel| pod_of(p))
}

/// Reads the pod list out of a parsed response body: succeeds exactly on a
/// well-formed pod-list value, returning its pods in order.
pub fn extract_pods(v: &serde_json::Value) -> (r: Result<Vec<PodRecord>, HarvestError>)
    ensures
        r is Ok <==> pod_list_wf(json_model(*v)),
        r matches Ok(pods) ==> pods.deep_view() == pods_of(json_model(*v)),
        r matches Err(e) ==> e == HarvestError::Api,
{
    let items_val = match json_get(v, "items") {
        Some(x) => x,
        None => {
            return Err(HarvestError::Api);
        },
    };
    let items = match json_as_array(items_val) {
        Some(x) => x,
        None => {
            return Err(HarvestError::Api);
        },
    };
    let ghost arr = json_model(*v)->Obj_0["items"@]->Arr_0;
    let mut pods: Vec<PodRecord> = Vec::new();
    let mut i: usize = 0;
    while i < items.len()
        invariant
            i <= items.len(),
            ({
                &&& json_model(*v) matches JsonModel::Obj(f)
                &&& f.contains_key("items"@)
                &&& f["items"@] matches JsonModel::Arr(a)
                &&& a == arr
            }),
            items@.len() == arr.len(),
            forall|k: int|
                0 <= k < items@.len() ==> #[trigger] json_model(items@[k]) == arr[k],
            forall|k: int| 0 <= k < i ==> pod_wf(#[trigger] arr[k]),
            pods.deep_view().len() == i,
            forall|k: int| 0 <= k < i ==> pods.deep_view()[k] == pod_of(#[trigger] arr[k]),
        decreases items.len() - i,
    {
        let item = &items[i];
        let meta = match json_get(item, "metadata") {
            Some(m) => m,
            None => {
                proof {
                    assert(!pod_wf(arr[i as int]));
                    assert(!pod_list_wf(json_model(*v)));
                }
                return Err(HarvestError::Api);
            },
        };
        let name_val = match json_get(meta, "name") {
            Some(x) => x,
            None => {
                proof {
                    assert(!pod_wf(arr[i as int]));
                    assert(!pod_list_wf(json_model(*v)));
                }
                return Err(HarvestError::Api);
            },
        };
        let name = match json_as_str(name_val) {
            Some(s) => s,
            None => {
                proof {
                    assert(!pod_wf(arr[i as int]));
                    assert(!pod_list_wf(json_model(*v)));
                }
                return Err(HarvestError::Api);
            },
        };
        let ns_val = match json_get(meta, "namespace") {
            Some(x) => x,
            None => {
                proof {
                    assert(!pod_wf(arr[i as int]));
                    assert(!pod_list_wf(json_model(*v)));
                }
                return Err(HarvestError::Api);
            },
        };
        let ns = match json_as_str(ns_val) {
            Some(s) => s,
            None => {
                proof {
                    assert(!pod_wf(arr[i as int]));
                    assert(!pod_list_wf(json_model(*v)));
                }
                return Err(HarvestError::Api);
            },
        };
        let ghost prev = pods.deep_view();
        pods.push(PodRecord { name: name.to_owned(), namespace: ns.to_owned() });
        proof {
            assert(pod_wf(arr[i as int]));
            assert(pods.deep_view() =~= prev.push(pod_of(arr[i as int])));
        }
        i += 1;
    }
    proof {
        assert(pod_list_wf(json_model(*v)));
        assert(pods.deep_view() =~= pods_of(json_model(*v)));
    }
    Ok(pods)
}

/// Parses a pod-list response body: succeeds exactly on valid JSON text
/// denoting a well-formed pod list, and returns its pods in body order.
pub fn parse_pod_list(body: &str) -> (r: Result<Vec<PodRecord>, HarvestError>)
    ensures
        r is Ok <==> (json_of(body@) matches Some(m) && pod_list_wf(m)),
        r matches Ok(pods) ==> pods.deep_view() == pods_of(json_of(body@)->0),
        r matches Err(e) ==> e == HarvestError::Api,
{
    let v = match parse_json(body) {
        Ok(v) => v,
        Err(_) => {
            return Err(HarvestError::Api);
        },
    };
    extract_pods(&v)
}

/// The names of the listed pods, in list order.
pub open spec fn pod_names(pods: Seq<PodView>) -> Seq<Seq<char>> {
    pods.map_values(|p: PodView| p.name)
}

/// The names of the pods whose name starts with `prefix`, in list order.
pub open spec fn pod_names_with_prefix(pods: Seq<PodView>, prefix: Seq<char>) -> Seq<Seq<char>> {
    pod_names(pods).filter(has_prefix(prefix))
}

/// Selects, in order, the names of the listed pods that match the prefix.
pub fn filter_pod_names(pods: &Vec<PodRecord>, prefix: &str) -> (r: Vec<String>)
    ensures
        r.deep_view() == pod_names_with_prefix(pods.deep_view(), prefix@),
{
    let ghost names = pod_names(pods.deep_view());
    let mut result: Vec<String> = Vec::new();
    proof {
        reveal(Seq::filter);
        assert(names.take(0) =~= Seq::<Seq<char>>::empty());
        assert(result.deep_view() =~= names.take(0).filter(has_prefix(prefix@)));
    }
    let mut i: usize = 0;
    while i < pods.len()
        invariant
            i <= pods.len(),
            names == pod_names(pods.deep_view()),
            names.len() == pods@.len(),
            result.deep_view() == names.take(i as int).filter(has_prefix(prefix@)),
        decreases pods.len() - i,
    {
        let ghost prev = result.deep_view();
        let p = &pods[i];
        let matched = str_starts_with(p.name.as_str(), prefix);
        if matched {
            result.push(p.name.clone());
            proof {
                assert(result.deep_view() =~= prev.push(p.name@));
            }
        }
        proof {
            reveal(Seq::filter);
            assert(names.take(i as int + 1).drop_last() =~= names.take(i as int));
            assert(names.take(i as int + 1).last() == names[i as int]);
            assert(names[i as int] == p.name@);
            assert(has_prefix(prefix@)(names[i as int]) == matched);
            assert(result.deep_view() =~= names.take(i as int + 1).filter(has_prefix(prefix@)));
        }
        i += 1;
    }
    proof {
        assert(names.take(pods@.len() as int) =~= names);
    }
    result
}

/// One cluster entry of the credentials bundle: a base64-encoded certificate
/// authority and the API server URL.
#[derive(Debug, Clone)]
pub struct ClusterEntry {
    pub ca_cert: String,
    pub server: String,
}

/// One user entry of the credentials bundle: base64-encoded client
/// certificate and private key.
#[derive(Debug, Clone)]
pub struct UserEntry {
    pub certificate: String,
    pub key: String,
}

/// The cluster credentials bundle; only the first cluster and first user
/// entries are consulted.
#[derive(Debug, Clone)]
pub struct KubeBundle {
    pub clusters: Vec<ClusterEntry>,
    pub users: Vec<UserEntry>,
}

/// Everything a mutual-TLS pod-list request needs: the URL and the decoded
/// certificate material.
#[derive(Debug, Clone)]
pub struct PodRequest {
    pub url: String,
    pub ca_cert: Vec<u8>,
    pub client_cert: Vec<u8>,
    pub client_key: Vec<u8>,
}

#[verifier::external_type_specification]
#[verifier::external_body]
pub struct ExBase64DecodeError(base64::DecodeError);

/// What base64 standard decoding yields on the given text: the decoded
/// bytes, or nothing when the text is not valid standard base64; a function
/// of the text alone.
pub uninterp spec fn base64_of(s: Seq<char>) -> Option<Seq<u8>>;

/// Relies on base64's `STANDARD` engine `decode`: fails exactly on text that
/// is not valid padded standard base64, and is deterministic in the text.
#[verifier::external_body]
fn base64_decode(s: &str) -> (r: Result<Vec<u8>, base64::DecodeError>)
    ensures
        r is Ok <==> base64_of(s@) is Some,
        r matches Ok(b) ==> b@ == base64_of(s@)->0,
{
    base64::engine::general_purpose::STANDARD.decode(s)
}

/// Answers which pods matching a name prefix are alive right now, from a
/// one-shot mutual-TLS snapshot of the cluster's pod list.
pub struct K8SManager {
    kube_config: KubeBundle,
}

impl K8SManager {
    /// The bundle the manager authenticates with.
    pub closed spec fn bundle(self) -> KubeBundle {
        self.kube_config
    }

    /// A manager over the given credentials bundle.
    pub fn new(kube_config: KubeBundle) -> (r: Self)
        ensures
            r.bundle() == kube_config,
    {
        K8SManager { kube_config }
    }

    /// Decodes the certificate material of the first cluster and user
    /// entries and names the pod-list endpoint: everything the snapshot
    /// request needs. Fails exactly when one of the three base64 blobs is
    /// malformed.
    pub fn get_pods_request(&self) -> (r: Result<PodRequest, HarvestError>)
        requires
            self.bundle().clusters@.len() > 0,
            self.bundle().users@.len() > 0,
        ensures
            ({
                let c = self.bundle().clusters@[0];
                let u = self.bundle().users@[0];
                &&& (r is Ok <==> base64_of(c.ca_cert@) is Some && base64_of(u.certificate@)
                    is Some && base64_of(u.key@) is Some)
                &&& (r matches Ok(req) ==> {
                    &&& req.url@ == c.server@ + "/api/v1/pods"@
                    &&& req.ca_cert@ == base64_of(c.ca_cert@)->0
                    &&& req.client_cert@ == base64_of(u.certificate@)->0
                    &&& req.client_key@ == base64_of(u.key@)->0
                })
                &&& (r matches Err(e) ==> e == HarvestError::Decode)
            }),
    {
        let c = &self.kube_config.clusters[0];
        let u = &self.kube_config.users[0];
        let ca_cert = match base64_decode(c.ca_cert.as_str()) {
            Ok(b) => b,
            Err(_) => {
                return Err(HarvestError::Decode);
            },
        };
        let client_cert = match base64_decode(u.certificate.as_str()) {
            Ok(b) => b,
            Err(_) => {
                return Err(HarvestError::Decode);
            },
        };
        let client_key = match base64_decode(u.key.as_str()) {
            Ok(b) => b,
            Err(_) => {
                return Err(HarvestError::Decode);
            },
        };
        let mut url = c.server.clone();
        url.append("/api/v1/pods");
        Ok(PodRequest { url, ca_cert, client_cert, client_key })
    }
}

} // verus!
