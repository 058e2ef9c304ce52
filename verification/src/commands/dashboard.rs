//! `agentoven dashboard`: what the command takes, and what it makes of it.

use crate::text::{digits, opt_text, push_digits};
use crate::wire::Wire;
use vstd::prelude::*;

verus! {

/// What `agentoven dashboard` takes.
#[derive(Debug, Clone, PartialEq)]
pub struct DashboardArgs {
    /// The port of the control plane.
    pub port: u16,
    /// Whether to leave the browser alone.
    pub no_open: bool,
    /// The path of the control plane's binary.
    pub server_bin: Option<String>,
}

/// The model of [`DashboardArgs`].
pub struct DashboardArgsView {
    pub port: u16,
    pub no_open: bool,
    pub server_bin: Option<Seq<char>>,
}

impl View for DashboardArgs {
    type V = DashboardArgsView;

    open spec fn view(&self) -> DashboardArgsView {
        DashboardArgsView {
            port: self.port,
            no_open: self.no_open,
            server_bin: opt_text(self.server_bin),
        }
    }
}

/// The address of the dashboard on a port of this machine.
pub open spec fn dashboard_address(port: u16) -> Seq<char> {
    "http://localhost:"@ + digits(port as nat)
}

/// The address of the dashboard on a port of this machine.
pub fn dashboard_url(port: u16) -> (r: String)
    ensures
        r@ == dashboard_address(port),
{
    let mut out = "http://localhost:".to_owned();
    push_digits(&mut out, port as u64);
    out
}

/// The address at which the control plane says whether it is well.
pub fn health_url(port: u16) -> (r: String)
    ensures
        r@ == dashboard_address(port) + "/health"@,
{
    let mut out = dashboard_url(port);
    out.append("/health");
    out
}

/// Where the source of the control plane is looked for, in this order.
pub fn server_candidates() -> (r: Vec<String>)
    ensures
        r@.len() == 3,
        r@[0]@ == "control-plane/cmd/server"@,
        r@[1]@ == "../control-plane/cmd/server"@,
        r@[2]@ == "../../control-plane/cmd/server"@,
{
    let mut out: Vec<String> = Vec::new();
    out.push("control-plane/cmd/server".to_owned());
    out.push("../control-plane/cmd/server".to_owned());
    out.push("../../control-plane/cmd/server".to_owned());
    out
}

impl DashboardArgs {
    /// Whether the browser is to be opened.
    pub fn opens_browser(&self) -> (r: bool)
        ensures
            r == !self@.no_open,
    {
        !self.no_open
    }
}

} // verus!
