//! The kinds of resources that the agent can list.
use vstd::prelude::*;

verus! {

/// A kind of resource, under each of the names by which it can be asked
/// for.
#[derive(Clone, Copy, PartialEq, Eq, Structural, Debug)]
pub enum Resource {
    Version,
    No,
    Node,
    Nodes,
    Ns,
    Namespace,
    Namespaces,
    Ing,
    Ingress,
    Ingresses,
    Svc,
    Service,
    Services,
    Deploy,
    Deployment,
    Deployments,
    Po,
    Pod,
    Pods,
    St,
    Statefulset,
    Statefulsets,
    Ds,
    Daemonset,
    Daemonsets,
    Rc,
    Replicationcontroller,
    Replicationcontrollers,
    Rs,
    Replicaset,
    Replicasets,
}

impl Resource {
    /// The name under which the agent knows the kind. Services are listed
    /// with the namespaces.
    pub open spec fn name_of(self) -> Seq<char> {
        match self {
            Resource::No | Resource::Node | Resource::Nodes => "nodes"@,
            Resource::Ns | Resource::Namespace | Resource::Namespaces => "namespaces"@,
            Resource::Svc | Resource::Service | Resource::Services => "namespaces"@,
            Resource::Deploy | Resource::Deployment | Resource::Deployments => "deployments"@,
            Resource::Po | Resource::Pod | Resource::Pods => "pods"@,
            Resource::St | Resource::Statefulset | Resource::Statefulsets => "statefulsets"@,
            Resource::Ds | Resource::Daemonset | Resource::Daemonsets => "daemonsets"@,
            Resource::Rc | Resource::Replicationcontroller | Resource::Replicationcontrollers =>
                "replicationcontrollers"@,
            Resource::Rs | Resource::Replicaset | Resource::Replicasets => "replicasets"@,
            Resource::Ing | Resource::Ingress | Resource::Ingresses => "ingresses"@,
            Resource::Version => "version"@,
        }
    }

    /// The name under which the agent is asked for the kind.
    pub fn name(&self) -> (name: &'static str)
        ensures
            name@ == self.name_of(),
    {
        match *self {
            Resource::No | Resource::Node | Resource::Nodes => "nodes",
            Resource::Ns | Resource::Namespace | Resource::Namespaces => "namespaces",
            Resource::Svc | Resource::Service | Resource::Services => "namespaces",
            Resource::Deploy | Resource::Deployment | Resource::Deployments => "deployments",
            Resource::Po | Resource::Pod | Resource::Pods => "pods",
            Resource::St | Resource::Statefulset | Resource::Statefulsets => "statefulsets",
            Resource::Ds | Resource::Daemonset | Resource::Daemonsets => "daemonsets",
            Resource::Rc | Resource::Replicationcontroller | Resource::Replicationcontrollers => {
                "replicationcontrollers"
            },
            Resource::Rs | Resource::Replicaset | Resource::Replicasets => "replicasets",
            Resource::Ing | Resource::Ingress | Resource::Ingresses => "ingresses",
            Resource::Version => "version",
        }
    }
}

} // verus!
