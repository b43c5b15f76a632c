//! Addresses of users and of their devices.
use vstd::prelude::*;
use wacore_binary::Jid as WireJid;
use wacore_binary::Server as WireServer;

verus! {

/// The domain that an address belongs to.
#[derive(Clone, Copy, Debug, PartialEq, Eq, Structural)]
pub enum Server {
    Pn,
    Lid,
    Group,
    Broadcast,
    Newsletter,
    Hosted,
    HostedLid,
    Messenger,
    Interop,
    Bot,
    Legacy,
    Call,
}

/// The address of a user, or of one device of a user.
#[derive(Debug)]
pub struct Jid {
    pub user: String,
    pub server: Server,
    pub agent: u8,
    pub device: u16,
    pub integrator: u16,
}

/// What an address holds.
pub struct JidView {
    pub user: Seq<char>,
    pub server: Server,
    pub agent: u8,
    pub device: u16,
    pub integrator: u16,
}

impl View for Jid {
    type V = JidView;

    open spec fn view(&self) -> JidView {
        JidView {
            user: self.user@,
            server: self.server,
            agent: self.agent,
            device: self.device,
            integrator: self.integrator,
        }
    }
}

impl Clone for Jid {
    fn clone(&self) -> (r: Self)
        ensures
            r@ == self@,
    {
        Jid {
            user: self.user.clone(),
            server: self.server,
            agent: self.agent,
            device: self.device,
            integrator: self.integrator,
        }
    }
}

/// Two addresses name the same device: same user, same server, same device number. The agent
/// and the integrator are details of how an address was spelled and do not count.
pub open spec fn names_same_device(a: JidView, b: JidView) -> bool {
    a.user == b.user && a.server == b.server && a.device == b.device
}

/// Whether two addresses name the same device.
pub fn same_device(a: &Jid, b: &Jid) -> (r: bool)
    ensures
        r <==> a.user@ == b.user@ && a.server == b.server && a.device == b.device,
        r == names_same_device(a@, b@),
{
    a.user == b.user && a.server == b.server && a.device == b.device
}

/// The name of a server as it follows the `@` of an address.
pub open spec fn server_name(server: Server) -> Seq<char> {
    match server {
        Server::Pn => "s.whatsapp.net"@,
        Server::Lid => "lid"@,
        Server::Group => "g.us"@,
        Server::Broadcast => "broadcast"@,
        Server::Newsletter => "newsletter"@,
        Server::Hosted => "hosted"@,
        Server::HostedLid => "hosted.lid"@,
        Server::Messenger => "msgr"@,
        Server::Interop => "interop"@,
        Server::Bot => "bot"@,
        Server::Legacy => "c.us"@,
        Server::Call => "call"@,
    }
}

/// The servers whose addresses are written with their agent number.
pub open spec fn writes_agent(server: Server) -> bool {
    !(server is Pn || server is Lid || server is Hosted || server is HostedLid)
}

/// A number in decimal digits, without leading zeros.
pub open spec fn decimal(n: nat) -> Seq<char>
    decreases n,
{
    let digit = (48 + n % 10) as char;
    if n < 10 {
        seq![digit]
    } else {
        decimal(n / 10).push(digit)
    }
}

/// A separator and a number, or nothing where the number is zero.
pub open spec fn suffix(separator: char, n: nat) -> Seq<char> {
    if n == 0 {
        Seq::empty()
    } else {
        seq![separator] + decimal(n)
    }
}

/// An address as text: `user[.agent][:device]@server`, or the bare server where there is no
/// user.
pub open spec fn jid_text(jid: JidView) -> Seq<char> {
    if jid.user.len() == 0 {
        server_name(jid.server)
    } else {
        let agent: nat = if writes_agent(jid.server) { jid.agent as nat } else { 0 };
        jid.user + suffix('.', agent) + suffix(':', jid.device as nat) + "@"@
            + server_name(jid.server)
    }
}

/// `wacore_binary::Jid`, the address type of the protocol crates.
#[verifier::external_type_specification]
#[verifier::external_body]
pub struct ExWireJid(WireJid);

/// The fields of a `wacore_binary::Jid`: its user, server, agent, device and integrator.
pub uninterp spec fn jid_fields(jid: WireJid) -> JidView;

/// Reads the public fields of a `wacore_binary::Jid`. Claimed: the result holds those fields.
#[verifier::external_body]
fn read_jid(jid: &WireJid) -> (r: Jid)
    ensures
        r@ == jid_fields(*jid),
{
    let server = match jid.server {
        WireServer::Pn => Server::Pn,
        WireServer::Lid => Server::Lid,
        WireServer::Group => Server::Group,
        WireServer::Broadcast => Server::Broadcast,
        WireServer::Newsletter => Server::Newsletter,
        WireServer::Hosted => Server::Hosted,
        WireServer::HostedLid => Server::HostedLid,
        WireServer::Messenger => Server::Messenger,
        WireServer::Interop => Server::Interop,
        WireServer::Bot => Server::Bot,
        WireServer::Legacy => Server::Legacy,
        WireServer::Call => Server::Call,
    };
    Jid { user: jid.user.to_string(), server, agent: jid.agent, device: jid.device, integrator: jid.integrator }
}

/// Makes a `wacore_binary::Jid` out of its public fields. Claimed: it holds the fields that it
/// was given.
#[verifier::external_body]
fn write_jid(jid: &Jid) -> (r: WireJid)
    ensures
        jid_fields(r) == jid@,
{
    let server = match jid.server {
        Server::Pn => WireServer::Pn,
        Server::Lid => WireServer::Lid,
        Server::Group => WireServer::Group,
        Server::Broadcast => WireServer::Broadcast,
        Server::Newsletter => WireServer::Newsletter,
        Server::Hosted => WireServer::Hosted,
        Server::HostedLid => WireServer::HostedLid,
        Server::Messenger => WireServer::Messenger,
        Server::Interop => WireServer::Interop,
        Server::Bot => WireServer::Bot,
        Server::Legacy => WireServer::Legacy,
        Server::Call => WireServer::Call,
    };
    WireJid { user: jid.user.as_str().into(), server, agent: jid.agent, device: jid.device, integrator: jid.integrator }
}

/// `<wacore_binary::Jid as Display>`, through `to_string`. Claimed: the text is
/// `user[.agent][:device]@server`, with the agent only on servers that write it and a zero
/// agent or device left out, and the bare server where the user is empty.
#[verifier::external_body]
fn display_jid(jid: &WireJid) -> (r: String)
    ensures
        r@ == jid_text(jid_fields(*jid)),
{
    jid.to_string()
}

impl Jid {
    /// The address that the protocol crates write this way.
    pub fn read(jid: &WireJid) -> (r: Self)
        ensures
            r@ == jid_fields(*jid),
    {
        read_jid(jid)
    }

    /// The address as the protocol crates write it.
    pub fn write(&self) -> (r: WireJid)
        ensures
            jid_fields(r) == self@,
    {
        write_jid(self)
    }

    /// The address as text.
    pub fn text(&self) -> (r: String)
        ensures
            r@ == jid_text(self@),
    {
        display_jid(&self.write())
    }
}

} // verus!
