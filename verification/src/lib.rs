//! Health checks for the resources of a Kubernetes cluster.
//!
//! The library holds the rules: which resource a command selects and in which
//! scope it is listed, how a node or a pod is classified from its status, how
//! the classifications are counted, and what each line of the output says.
//! Talking to the cluster is left to the caller, which hands the listed
//! resources over as plain values.

pub mod dispatch;
pub mod health;
pub mod lines;
pub mod paint;
pub mod render;
pub mod report;
pub mod text;
pub mod views;
