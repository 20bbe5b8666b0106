//! Routers as requested, and the router a given cluster runs.

use vstd::prelude::*;

use crate::pipeline::Kind;
use crate::service::Action;

verus! {

/// Whether a custom domain gets a certificate when the request does not say.
pub fn default_generate_certificate() -> (r: bool)
    ensures
        r,
{
    true
}

/// A domain of the user's that points at a router.
pub struct CustomDomain {
    pub domain: String,
    pub target_domain: String,
    pub generate_certificate: bool,
}

impl View for CustomDomain {
    type V = (Seq<char>, Seq<char>, bool);

    open spec fn view(&self) -> (Seq<char>, Seq<char>, bool) {
        (self.domain@, self.target_domain@, self.generate_certificate)
    }
}

/// A path of a router and the service it leads to.
pub struct Route {
    pub path: String,
    pub service_long_id: u128,
}

impl View for Route {
    type V = (Seq<char>, u128);

    open spec fn view(&self) -> (Seq<char>, u128) {
        (self.path@, self.service_long_id)
    }
}

/// A router as requested: its domains and routes.
pub struct Router {
    pub long_id: u128,
    pub name: String,
    pub kube_name: String,
    pub action: Action,
    pub default_domain: String,
    pub public_port: u16,
    pub custom_domains: Vec<CustomDomain>,
    pub routes: Vec<Route>,
}

/// The kinds of managed Kubernetes.
#[derive(Clone, Copy, Debug, PartialEq, Eq, Structural)]
pub enum KubernetesKind {
    Eks,
    Ec2,
    ScwKapsule,
    Gke,
}

/// Which implementation of a router a cluster runs.
#[derive(Clone, Copy, Debug, PartialEq, Eq, Structural)]
pub enum RouterFlavor {
    Aws,
    AwsEc2,
    Scw,
}

/// The router flavor of a cloud provider and cluster kind: on AWS, the one of
/// EKS or the one of plain instances; none yet on GCP.
pub open spec fn router_flavor_of(cloud_provider: Kind, kubernetes_kind: KubernetesKind) -> Option<RouterFlavor> {
    match cloud_provider {
        Kind::Aws => if kubernetes_kind == KubernetesKind::Eks {
            Some(RouterFlavor::Aws)
        } else {
            Some(RouterFlavor::AwsEc2)
        },
        Kind::Scw => Some(RouterFlavor::Scw),
        Kind::Gcp => None,
    }
}

/// A router ready to be deployed on a given cluster.
pub struct RouterDomain {
    pub flavor: RouterFlavor,
    pub long_id: u128,
    pub name: String,
    pub kube_name: String,
    pub action: Action,
    pub default_domain: String,
    pub custom_domains: Vec<CustomDomain>,
    pub routes: Vec<Route>,
}

/// Why a router could not be built.
pub enum RouterError {
    UnsupportedCloudProvider(Kind),
}

fn copy_custom_domains(v: &Vec<CustomDomain>) -> (r: Vec<CustomDomain>)
    ensures
        r@.map_values(|d: CustomDomain| d@) == v@.map_values(|d: CustomDomain| d@),
{
    let mut out: Vec<CustomDomain> = Vec::new();
    let mut i: usize = 0;
    while i < v.len()
        invariant
            i <= v.len(),
            out@.map_values(|d: CustomDomain| d@) == v@.take(i as int).map_values(|d: CustomDomain| d@),
        decreases v.len() - i,
    {
        let d = &v[i];
        let ghost before = out@;
        out.push(
            CustomDomain {
                domain: d.domain.clone(),
                target_domain: d.target_domain.clone(),
                generate_certificate: d.generate_certificate,
            },
        );
        proof {
            assert(out@.map_values(|d: CustomDomain| d@) =~= before.map_values(|d: CustomDomain| d@).push(v@[i as int]@));
            assert(v@.take(i as int + 1).map_values(|d: CustomDomain| d@) =~= v@.take(i as int).map_values(
                |d: CustomDomain| d@,
            ).push(v@[i as int]@));
        }
        i = i + 1;
    }
    proof {
        assert(v@.take(v.len() as int) =~= v@);
    }
    out
}

fn copy_routes(v: &Vec<Route>) -> (r: Vec<Route>)
    ensures
        r@.map_values(|x: Route| x@) == v@.map_values(|x: Route| x@),
{
    let mut out: Vec<Route> = Vec::new();
    let mut i: usize = 0;
    while i < v.len()
        invariant
            i <= v.len(),
            out@.map_values(|x: Route| x@) == v@.take(i as int).map_values(|x: Route| x@),
        decreases v.len() - i,
    {
        let x = &v[i];
        let ghost before = out@;
        out.push(Route { path: x.path.clone(), service_long_id: x.service_long_id });
        proof {
            assert(out@.map_values(|x: Route| x@) =~= before.map_values(|x: Route| x@).push(v@[i as int]@));
            assert(v@.take(i as int + 1).map_values(|x: Route| x@) =~= v@.take(i as int).map_values(|x: Route| x@).push(
                v@[i as int]@,
            ));
        }
        i = i + 1;
    }
    proof {
        assert(v@.take(v.len() as int) =~= v@);
    }
    out
}

impl Router {
    /// The router for the given cluster, with the same identity, domains and
    /// routes as requested.
    pub fn to_router_domain(&self, cloud_provider: Kind, kubernetes_kind: KubernetesKind) -> (r: Result<
        RouterDomain,
        RouterError,
    >)
        ensures
            router_flavor_of(cloud_provider, kubernetes_kind) is None <==> r is Err,
            r matches Err(RouterError::UnsupportedCloudProvider(k)) ==> k == cloud_provider,
            r matches Ok(d) ==> {
                &&& Some(d.flavor) == router_flavor_of(cloud_provider, kubernetes_kind)
                &&& d.long_id == self.long_id
                &&& d.name@ == self.name@
                &&& d.kube_name@ == self.kube_name@
                &&& d.action == self.action
                &&& d.default_domain@ == self.default_domain@
                &&& d.custom_domains@.map_values(|c: CustomDomain| c@) == self.custom_domains@.map_values(
                    |c: CustomDomain| c@,
                )
                &&& d.routes@.map_values(|x: Route| x@) == self.routes@.map_values(|x: Route| x@)
            },
    {
        let flavor = match cloud_provider {
            Kind::Aws => if kubernetes_kind == KubernetesKind::Eks {
                RouterFlavor::Aws
            } else {
                RouterFlavor::AwsEc2
            },
            Kind::Scw => RouterFlavor::Scw,
            Kind::Gcp => {
                return Err(RouterError::UnsupportedCloudProvider(cloud_provider));
            },
        };
        Ok(
            RouterDomain {
                flavor,
                long_id: self.long_id,
                name: self.name.clone(),
                kube_name: self.kube_name.clone(),
                action: self.action,
                default_domain: self.default_domain.clone(),
                custom_domains: copy_custom_domains(&self.custom_domains),
                routes: copy_routes(&self.routes),
            },
        )
    }
}

} // verus!
