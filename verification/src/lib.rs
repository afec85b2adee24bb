//! The authentication API of an etcd cluster, as a core without I/O.
//!
//! A call is made against several members of the cluster: the members are tried in the order
//! given until one of them answers with a status that the call knows, and the failures of all
//! of them are returned when none does. This crate holds every decision of such a call: which
//! request to send, what an answer means, what the member said of the cluster in its headers,
//! and when to go on to the next member.
//!
//! [`enable`], [`disable`] and [`status`] make a whole call, given a function that sends one
//! request and hands back the answer. [`FirstOk`] is the same failover one step at a time, for
//! a caller that sends the requests on its own terms and reads the answers with
//! [`read_enable`], [`read_disable`] and [`read_status`].

pub mod auth;
pub mod cluster;
pub mod dispatch;
pub mod error;
pub mod outcome;
pub mod probe;
pub mod request;
pub mod role;
pub mod user;

pub use crate::auth::{disable, enable, read_disable, read_enable, read_status, status};
pub use crate::cluster::{ClusterInfo, Header, Response};
pub use crate::dispatch::{first_ok, FirstOk, Progress};
pub use crate::error::{ApiError, AuthError, TransportError};
pub use crate::outcome::{DisableAuth, EnableAuth};
pub use crate::probe::{call, probe, HttpResponse};
pub use crate::request::{build_url, LogicalRequest, Method, Request};
pub use crate::role::{Role, RoleUpdate};
pub use crate::user::{NewUser, User, UserUpdate};
