//! Deploy configuration and deployment planning for the Terp Network
//! website contracts: data-file paths, suite deploy data, the ZK contract
//! deployment sequence and the suite deployment plan.

mod probe;
pub mod deploy_data;
pub mod json;
pub mod paths;
pub mod price;
pub mod shitstrap;
pub mod suite;
pub mod zk_deploy;
