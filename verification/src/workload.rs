//! The resource model: an external workload, its metadata and its
//! specification.

use crate::condition::{
    any_of_ready_type, any_ready, clone_opt_string, has_ready, has_ready_type, ConditionView,
    ExternalWorkloadStatus, ExternalWorkloadStatusView,
};
use vstd::prelude::*;
use vstd::string::*;

verus! {

/// The protocol of a port that names none.
pub const DEFAULT_PROTOCOL: &'static str = "TCP";

/// The address that a workload made by [`mk_external_workload`] is reachable at.
pub const EXAMPLE_WORKLOAD_IP: &'static str = "192.0.2.0";

/// TLS settings associated with an external workload.
#[derive(Debug, PartialEq, Eq)]
pub struct MeshTls {
    /// Identity associated with the workload, which peers verify in the mTLS
    /// handshake.
    pub identity: String,
    /// The DNS formatted name associated with the workload, used to terminate
    /// TLS by SNI.
    pub server_name: String,
}

/// The mathematical value of a [`MeshTls`].
pub struct MeshTlsView {
    pub identity: Seq<char>,
    pub server_name: Seq<char>,
}

impl View for MeshTls {
    type V = MeshTlsView;

    open spec fn view(&self) -> MeshTlsView {
        MeshTlsView { identity: self.identity@, server_name: self.server_name@ }
    }
}

impl Clone for MeshTls {
    fn clone(&self) -> (r: Self)
        ensures
            r@ == self@,
    {
        MeshTls { identity: self.identity.clone(), server_name: self.server_name.clone() }
    }
}

/// A network port of a single workload.
#[derive(Debug, PartialEq, Eq)]
pub struct PortSpec {
    /// If given, a name that is unique within the ports of the workload.
    pub name: Option<String>,
    /// Number of the port on the workload's address: above 0 and below 65536.
    pub port: u16,
    /// The network protocol: UDP, TCP or SCTP. TCP where none is given.
    pub protocol: Option<String>,
}

/// The mathematical value of a [`PortSpec`].
pub struct PortSpecView {
    pub name: Option<Seq<char>>,
    pub port: u16,
    pub protocol: Option<Seq<char>>,
}

impl PortSpecView {
    /// The port number is a valid one: it is not zero.
    pub open spec fn wf(self) -> bool {
        self.port > 0
    }

    /// The protocol of the port: the one it names, else TCP.
    pub open spec fn effective_protocol(self) -> Seq<char> {
        match self.protocol {
            Some(protocol) => protocol,
            None => DEFAULT_PROTOCOL@,
        }
    }

    /// The port with number `port`, without a name or a protocol.
    pub open spec fn numbered(port: u16) -> PortSpecView {
        PortSpecView { name: None, port, protocol: None }
    }
}

impl View for PortSpec {
    type V = PortSpecView;

    open spec fn view(&self) -> PortSpecView {
        PortSpecView {
            name: self.name.deep_view(),
            port: self.port,
            protocol: self.protocol.deep_view(),
        }
    }
}

impl PortSpec {
    /// The protocol of the port: the one it names, else TCP.
    pub fn effective_protocol(&self) -> (r: String)
        ensures
            r@ == self@.effective_protocol(),
    {
        match &self.protocol {
            Some(protocol) => protocol.clone(),
            None => String::from_str(DEFAULT_PROTOCOL),
        }
    }
}

impl Clone for PortSpec {
    fn clone(&self) -> (r: Self)
        ensures
            r@ == self@,
    {
        PortSpec {
            name: clone_opt_string(&self.name),
            port: self.port,
            protocol: clone_opt_string(&self.protocol),
        }
    }
}

/// An IP address that an external workload is reachable at.
#[derive(Debug, PartialEq, Eq)]
pub struct WorkloadIP {
    pub ip: String,
}

/// The mathematical value of a [`WorkloadIP`].
pub struct WorkloadIPView {
    pub ip: Seq<char>,
}

impl View for WorkloadIP {
    type V = WorkloadIPView;

    open spec fn view(&self) -> WorkloadIPView {
        WorkloadIPView { ip: self.ip@ }
    }
}

impl Clone for WorkloadIP {
    fn clone(&self) -> (r: Self)
        ensures
            r@ == self@,
    {
        WorkloadIP { ip: self.ip.clone() }
    }
}

/// The views of a sequence of ports, in order.
pub open spec fn ports_view(ports: Seq<PortSpec>) -> Seq<PortSpecView> {
    ports.map_values(|p: PortSpec| p@)
}

/// The views of a sequence of addresses, in order.
pub open spec fn ips_view(ips: Seq<WorkloadIP>) -> Seq<WorkloadIPView> {
    ips.map_values(|a: WorkloadIP| a@)
}

/// The view of an optional list of ports.
pub open spec fn opt_ports_view(ports: Option<Vec<PortSpec>>) -> Option<Seq<PortSpecView>> {
    match ports {
        Some(list) => Some(ports_view(list@)),
        None => None,
    }
}

/// The view of an optional list of addresses.
pub open spec fn opt_ips_view(ips: Option<Vec<WorkloadIP>>) -> Option<Seq<WorkloadIPView>> {
    match ips {
        Some(list) => Some(ips_view(list@)),
        None => None,
    }
}

/// Every port has a valid number, and no name is given to two ports.
pub open spec fn ports_wf(ports: Seq<PortSpecView>) -> bool {
    &&& forall|i: int| 0 <= i < ports.len() ==> (#[trigger] ports[i]).wf()
    &&& forall|i: int, j: int|
        0 <= i < j < ports.len() && (#[trigger] ports[i]).name is Some ==> ports[i].name != (
        #[trigger] ports[j]).name
}

// A copy of a list of ports.
fn clone_ports(ports: &Vec<PortSpec>) -> (r: Vec<PortSpec>)
    ensures
        ports_view(r@) == ports_view(ports@),
{
    let mut copy: Vec<PortSpec> = Vec::new();
    let mut i: usize = 0;
    while i < ports.len()
        invariant
            i <= ports.len(),
            copy.len() == i,
            forall|k: int| 0 <= k < i ==> (#[trigger] copy[k])@ == ports[k]@,
        decreases ports.len() - i,
    {
        copy.push(ports[i].clone());
        i += 1;
    }
    assert(ports_view(copy@) =~= ports_view(ports@));
    copy
}

// A copy of a list of addresses.
fn clone_ips(ips: &Vec<WorkloadIP>) -> (r: Vec<WorkloadIP>)
    ensures
        ips_view(r@) == ips_view(ips@),
{
    let mut copy: Vec<WorkloadIP> = Vec::new();
    let mut i: usize = 0;
    while i < ips.len()
        invariant
            i <= ips.len(),
            copy.len() == i,
            forall|k: int| 0 <= k < i ==> (#[trigger] copy[k])@ == ips[k]@,
        decreases ips.len() - i,
    {
        copy.push(ips[i].clone());
        i += 1;
    }
    assert(ips_view(copy@) =~= ips_view(ips@));
    copy
}

/// A single workload, that is a deployable unit much like a pod, which runs
/// outside of the cluster and is to be enrolled in the mesh.
#[derive(Debug, PartialEq, Eq)]
pub struct ExternalWorkloadSpec {
    /// TLS settings associated with the workload.
    pub mesh_tls: MeshTls,
    /// The ports that the workload exposes.
    pub ports: Option<Vec<PortSpec>>,
    /// The IP addresses that traffic for the workload can be sent to.
    pub workload_ips: Option<Vec<WorkloadIP>>,
}

/// The mathematical value of an [`ExternalWorkloadSpec`].
pub struct ExternalWorkloadSpecView {
    pub mesh_tls: MeshTlsView,
    pub ports: Option<Seq<PortSpecView>>,
    pub workload_ips: Option<Seq<WorkloadIPView>>,
}

impl ExternalWorkloadSpecView {
    /// The ports, where there are any, are valid and uniquely named.
    pub open spec fn wf(self) -> bool {
        self.ports matches Some(ports) ==> ports_wf(ports)
    }
}

impl View for ExternalWorkloadSpec {
    type V = ExternalWorkloadSpecView;

    open spec fn view(&self) -> ExternalWorkloadSpecView {
        ExternalWorkloadSpecView {
            mesh_tls: self.mesh_tls@,
            ports: opt_ports_view(self.ports),
            workload_ips: opt_ips_view(self.workload_ips),
        }
    }
}

impl Clone for ExternalWorkloadSpec {
    fn clone(&self) -> (r: Self)
        ensures
            r@ == self@,
    {
        let ports = match &self.ports {
            Some(list) => Some(clone_ports(list)),
            None => None,
        };
        let workload_ips = match &self.workload_ips {
            Some(list) => Some(clone_ips(list)),
            None => None,
        };
        ExternalWorkloadSpec { mesh_tls: self.mesh_tls.clone(), ports, workload_ips }
    }
}

/// The part of an object's metadata that the controller reads.
#[derive(Debug, PartialEq, Eq)]
pub struct ObjectMeta {
    /// The name of the object, unique within its namespace.
    pub name: Option<String>,
    /// A prefix from which the server makes a name where none is given.
    pub generate_name: Option<String>,
    /// The namespace that the object lives in.
    pub namespace: Option<String>,
}

/// The mathematical value of an [`ObjectMeta`].
pub struct ObjectMetaView {
    pub name: Option<Seq<char>>,
    pub generate_name: Option<Seq<char>>,
    pub namespace: Option<Seq<char>>,
}

impl ObjectMetaView {
    /// The name, else the prefix for generated names, else the empty string.
    pub open spec fn name_any(self) -> Seq<char> {
        match self.name {
            Some(name) => name,
            None => match self.generate_name {
                Some(prefix) => prefix,
                None => Seq::<char>::empty(),
            },
        }
    }
}

impl View for ObjectMeta {
    type V = ObjectMetaView;

    open spec fn view(&self) -> ObjectMetaView {
        ObjectMetaView {
            name: self.name.deep_view(),
            generate_name: self.generate_name.deep_view(),
            namespace: self.namespace.deep_view(),
        }
    }
}

impl Clone for ObjectMeta {
    fn clone(&self) -> (r: Self)
        ensures
            r@ == self@,
    {
        ObjectMeta {
            name: clone_opt_string(&self.name),
            generate_name: clone_opt_string(&self.generate_name),
            namespace: clone_opt_string(&self.namespace),
        }
    }
}

/// An external workload as the cluster holds it: metadata, specification and,
/// once a controller has written it, status.
#[derive(Debug, PartialEq, Eq)]
pub struct ExternalWorkload {
    pub metadata: ObjectMeta,
    pub spec: ExternalWorkloadSpec,
    pub status: Option<ExternalWorkloadStatus>,
}

/// The mathematical value of an [`ExternalWorkload`].
pub struct ExternalWorkloadView {
    pub metadata: ObjectMetaView,
    pub spec: ExternalWorkloadSpecView,
    pub status: Option<ExternalWorkloadStatusView>,
}

/// The view of an optional status.
pub open spec fn opt_status_view(status: Option<ExternalWorkloadStatus>) -> Option<
    ExternalWorkloadStatusView,
> {
    match status {
        Some(s) => Some(s@),
        None => None,
    }
}

impl View for ExternalWorkload {
    type V = ExternalWorkloadView;

    open spec fn view(&self) -> ExternalWorkloadView {
        ExternalWorkloadView {
            metadata: self.metadata@,
            spec: self.spec@,
            status: opt_status_view(self.status),
        }
    }
}

impl Clone for ExternalWorkload {
    fn clone(&self) -> (r: Self)
        ensures
            r@ == self@,
    {
        let status = match &self.status {
            Some(s) => Some(s.clone()),
            None => None,
        };
        ExternalWorkload { metadata: self.metadata.clone(), spec: self.spec.clone(), status }
    }
}

impl ExternalWorkloadView {
    /// The conditions of the workload; none where it has no status.
    pub open spec fn conditions(self) -> Seq<ConditionView> {
        match self.status {
            Some(status) => status.conditions,
            None => Seq::<ConditionView>::empty(),
        }
    }

    /// The workload is well formed: its ports are valid and uniquely named,
    /// and its status, where it has one, holds no condition type twice.
    pub open spec fn wf(self) -> bool {
        &&& self.spec.wf()
        &&& self.status matches Some(status) ==> status.wf()
    }

    /// The workload is ready: it has a condition of type `Ready` and status
    /// `True`.
    pub open spec fn is_ready(self) -> bool {
        has_ready(self.conditions())
    }

    /// Readiness has been recorded for the workload, with whatever status.
    pub open spec fn is_settled(self) -> bool {
        has_ready_type(self.conditions())
    }
}

impl ExternalWorkload {
    /// Whether the workload is ready. One without status or conditions is not.
    pub fn is_ready(&self) -> (r: bool)
        ensures
            r == self@.is_ready(),
    {
        match &self.status {
            Some(status) => any_ready(&status.conditions),
            None => false,
        }
    }

    /// Whether readiness has been recorded for the workload, with whatever
    /// status.
    pub fn is_settled(&self) -> (r: bool)
        ensures
            r == self@.is_settled(),
    {
        match &self.status {
            Some(status) => any_of_ready_type(&status.conditions),
            None => false,
        }
    }

    /// The name of the workload: its name, else the prefix for generated
    /// names, else the empty string.
    pub fn name_any(&self) -> (r: String)
        ensures
            r@ == self@.metadata.name_any(),
    {
        match &self.metadata.name {
            Some(name) => name.clone(),
            None => match &self.metadata.generate_name {
                Some(prefix) => prefix.clone(),
                None => String::new(),
            },
        }
    }

    /// The namespace that the workload lives in, if it has one.
    pub fn namespace(&self) -> (r: Option<String>)
        ensures
            r.deep_view() == self@.metadata.namespace,
    {
        clone_opt_string(&self.metadata.namespace)
    }
}

/// The mesh identity of the workload `name` in `namespace`.
pub open spec fn mesh_identity(name: Seq<char>, namespace: Seq<char>) -> Seq<char> {
    name + "."@ + namespace + ".serviceaccount.identity.linkerd.cluster.local"@
}

/// The server name of the workload `name` in `namespace`.
pub open spec fn mesh_server_name(name: Seq<char>, namespace: Seq<char>) -> Seq<char> {
    name + "."@ + namespace + ".cluster.local"@
}

impl ExternalWorkloadView {
    /// The workload `name` in `namespace` that exposes `ports`: its mesh
    /// identity and server name follow from the two names, its ports carry
    /// neither name nor protocol, it has the one example address and no status.
    pub open spec fn example(
        name: Seq<char>,
        namespace: Seq<char>,
        ports: Seq<u16>,
    ) -> ExternalWorkloadView {
        ExternalWorkloadView {
            metadata: ObjectMetaView {
                name: Some(name),
                generate_name: None,
                namespace: Some(namespace),
            },
            spec: ExternalWorkloadSpecView {
                mesh_tls: MeshTlsView {
                    identity: mesh_identity(name, namespace),
                    server_name: mesh_server_name(name, namespace),
                },
                ports: Some(ports.map_values(|p: u16| PortSpecView::numbered(p))),
                workload_ips: Some(seq![WorkloadIPView { ip: EXAMPLE_WORKLOAD_IP@ }]),
            },
            status: None,
        }
    }
}

/// An external workload from a name, a namespace and a list of port numbers.
///
/// A port number is above zero.
pub fn mk_external_workload(name: &str, namespace: &str, ports: Vec<u16>) -> (w: ExternalWorkload)
    requires
        forall|i: int| 0 <= i < ports.len() ==> ports[i] > 0,
    ensures
        w@ == ExternalWorkloadView::example(name@, namespace@, ports@),
        w@.wf(),
{
    let mut specs: Vec<PortSpec> = Vec::new();
    let mut i: usize = 0;
    while i < ports.len()
        invariant
            i <= ports.len(),
            specs.len() == i,
            forall|k: int| 0 <= k < i ==> (#[trigger] specs[k])@ == PortSpecView::numbered(ports[k]),
        decreases ports.len() - i,
    {
        specs.push(PortSpec { port: ports[i], name: None, protocol: None });
        i += 1;
    }
    let mut identity = String::from_str(name);
    identity.append(".");
    identity.append(namespace);
    identity.append(".serviceaccount.identity.linkerd.cluster.local");
    let mut server_name = String::from_str(name);
    server_name.append(".");
    server_name.append(namespace);
    server_name.append(".cluster.local");
    let mut ips: Vec<WorkloadIP> = Vec::new();
    ips.push(WorkloadIP { ip: String::from_str(EXAMPLE_WORKLOAD_IP) });
    proof {
        let model = ExternalWorkloadView::example(name@, namespace@, ports@);
        assert(ports_view(specs@) =~= model.spec.ports->0);
        assert(ips_view(ips@) =~= model.spec.workload_ips->0);
    }
    ExternalWorkload {
        metadata: ObjectMeta {
            name: Some(String::from_str(name)),
            generate_name: None,
            namespace: Some(String::from_str(namespace)),
        },
        spec: ExternalWorkloadSpec {
            mesh_tls: MeshTls { identity, server_name },
            ports: Some(specs),
            workload_ips: Some(ips),
        },
        status: None,
    }
}

} // verus!
