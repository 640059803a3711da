pub mod node_information;
pub mod primitives;

pub use node_information::LookupOutcome;
pub use node_information::NodeInfo;
