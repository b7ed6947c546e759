//! The topology of the cluster.
use vstd::prelude::*;
use crate::protocol;

verus! {

/// A request for the topology of the cluster.
#[derive(Debug, Clone)]
pub struct TopologyRequest {}

impl TopologyRequest {
    /// The request.
    pub fn new() -> (r: Self) {
        TopologyRequest {}
    }

    /// The message of the request.
    pub fn into_request(self) -> (m: protocol::TopologyRequest) {
        protocol::TopologyRequest {}
    }
}

/// What a partition holds.
pub struct PartitionView {
    pub partition_id: i32,
    pub role: i32,
    pub health: i32,
}

/// A partition of the cluster: its id, its role and its health.
#[derive(Debug, Clone)]
pub struct Partition {
    partition_id: i32,
    role: i32,
    health: i32,
}

impl View for Partition {
    type V = PartitionView;

    closed spec fn view(&self) -> PartitionView {
        PartitionView {
            partition_id: self.partition_id,
            role: self.role,
            health: self.health,
        }
    }
}

impl Partition {
    /// A value of the given fields, as the gateway reports them.
    pub fn new(partition_id: i32, role: i32, health: i32) -> (r: Self)
        ensures
            r@ == (PartitionView {
                partition_id: partition_id,
                role: role,
                health: health,
            }),
    {
        Partition { partition_id, role, health }
    }

    /// The id of the partition.
    pub fn partition_id(&self) -> (r: i32)
        ensures
            r == self@.partition_id,
    {
        self.partition_id
    }

    /// The role of the partition: 0 leader, 1 follower, 2 inactive.
    pub fn role(&self) -> (r: i32)
        ensures
            r == self@.role,
    {
        self.role
    }

    /// The health of the partition: 0 healthy, 1 unhealthy, 2 dead.
    pub fn health(&self) -> (r: i32)
        ensures
            r == self@.health,
    {
        self.health
    }
}

/// What a broker info holds.
pub struct BrokerInfoView {
    pub node_id: i32,
    pub host: Seq<char>,
    pub port: i32,
    pub partitions: Seq<Partition>,
    pub version: Seq<char>,
}

/// A broker of the cluster.
#[derive(Debug, Clone)]
pub struct BrokerInfo {
    node_id: i32,
    host: String,
    port: i32,
    partitions: Vec<Partition>,
    version: String,
}

impl View for BrokerInfo {
    type V = BrokerInfoView;

    closed spec fn view(&self) -> BrokerInfoView {
        BrokerInfoView {
            node_id: self.node_id,
            host: self.host@,
            port: self.port,
            partitions: self.partitions@,
            version: self.version@,
        }
    }
}

impl BrokerInfo {
    /// A value of the given fields, as the gateway reports them.
    pub fn new(node_id: i32, host: String, port: i32, partitions: Vec<Partition>, version: String) -> (r: Self)
        ensures
            r@ == (BrokerInfoView {
                node_id: node_id,
                host: host@,
                port: port,
                partitions: partitions@,
                version: version@,
            }),
    {
        BrokerInfo { node_id, host, port, partitions, version }
    }

    /// The id of the broker in the cluster.
    pub fn node_id(&self) -> (r: i32)
        ensures
            r == self@.node_id,
    {
        self.node_id
    }

    /// The host where the broker is reached.
    pub fn host(&self) -> (r: &str)
        ensures
            r@ == self@.host,
    {
        self.host.as_str()
    }

    /// The port where the broker takes connections.
    pub fn port(&self) -> (r: i32)
        ensures
            r == self@.port,
    {
        self.port
    }

    /// The partitions that the broker leads or follows.
    pub fn partitions(&self) -> (r: &[Partition])
        ensures
            r@ == self@.partitions,
    {
        self.partitions.as_slice()
    }

    /// The version of the broker.
    pub fn version(&self) -> (r: &str)
        ensures
            r@ == self@.version,
    {
        self.version.as_str()
    }
}

/// What a topology response holds.
pub struct TopologyResponseView {
    pub brokers: Seq<BrokerInfo>,
    pub cluster_size: i32,
    pub partitions_count: i32,
    pub replication_factor: i32,
    pub gateway_version: Seq<char>,
}

/// The topology of the cluster.
#[derive(Debug, Clone)]
pub struct TopologyResponse {
    brokers: Vec<BrokerInfo>,
    cluster_size: i32,
    partitions_count: i32,
    replication_factor: i32,
    gateway_version: String,
}

impl View for TopologyResponse {
    type V = TopologyResponseView;

    closed spec fn view(&self) -> TopologyResponseView {
        TopologyResponseView {
            brokers: self.brokers@,
            cluster_size: self.cluster_size,
            partitions_count: self.partitions_count,
            replication_factor: self.replication_factor,
            gateway_version: self.gateway_version@,
        }
    }
}

impl TopologyResponse {
    /// A value of the given fields, as the gateway reports them.
    pub fn new(brokers: Vec<BrokerInfo>, cluster_size: i32, partitions_count: i32, replication_factor: i32, gateway_version: String) -> (r: Self)
        ensures
            r@ == (TopologyResponseView {
                brokers: brokers@,
                cluster_size: cluster_size,
                partitions_count: partitions_count,
                replication_factor: replication_factor,
                gateway_version: gateway_version@,
            }),
    {
        TopologyResponse { brokers, cluster_size, partitions_count, replication_factor, gateway_version }
    }

    /// The brokers of the cluster.
    pub fn brokers(&self) -> (r: &[BrokerInfo])
        ensures
            r@ == self@.brokers,
    {
        self.brokers.as_slice()
    }

    /// The number of nodes of the cluster.
    pub fn cluster_size(&self) -> (r: i32)
        ensures
            r == self@.cluster_size,
    {
        self.cluster_size
    }

    /// The number of partitions of the cluster.
    pub fn partitions_count(&self) -> (r: i32)
        ensures
            r == self@.partitions_count,
    {
        self.partitions_count
    }

    /// The number of copies of each partition.
    pub fn replication_factor(&self) -> (r: i32)
        ensures
            r == self@.replication_factor,
    {
        self.replication_factor
    }

    /// The version of the gateway.
    pub fn gateway_version(&self) -> (r: &str)
        ensures
            r@ == self@.gateway_version,
    {
        self.gateway_version.as_str()
    }
}

} // verus!
