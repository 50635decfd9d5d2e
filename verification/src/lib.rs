//! Status aggregation for a Kubernetes switchboard.
//!
//! Background tasks query the cluster and report what they found as
//! [`kube_res::KubeMessage`] values. This crate holds everything that is
//! decided about those values: how listings are classified into a
//! [`kube_res::KubeStatus`], how the text of an action's result is built, and
//! how each message is folded into the state that a front end renders.

pub mod config;
pub mod kube_res;
pub mod switchboard;
pub mod text;
pub mod ui;
