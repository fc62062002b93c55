pub mod text;
pub mod logind;
pub mod names;
pub mod payload_scope;
pub mod cgroup;
pub mod termination;
pub mod invocation;
pub mod scope_launch;
pub mod identity;
pub mod privilege_drop;
pub mod isolation;
pub mod runtime;
pub mod launch;
pub mod control;
pub mod fixture;
pub mod session_wait;
