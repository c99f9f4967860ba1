//! The Kubernetes client, which is carried along as it is.
use kube::Client as KubeClient;
use vstd::prelude::*;

verus! {

/// `kube::Client`: the connection to a cluster.
#[verifier::external_type_specification]
#[verifier::external_body]
pub struct ExKubeClient(KubeClient);

/// `kube::Client::clone`: another handle on the same connection. Nothing is
/// said of it.
pub assume_specification[ <KubeClient as Clone>::clone ](client: &KubeClient) -> KubeClient
;

} // verus!
