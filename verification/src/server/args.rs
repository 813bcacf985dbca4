//! How the server is started: its options, the addresses it binds, its shell.

use crate::ids::Uuid;
use crate::paths::session_socket;
#[allow(unused_imports)]
use crate::paths::socket_path;
use crate::server::error::NeoshdError;
use crate::text::{
    append_decimal, chars_of, concat, read_port, rfind_char, split_on, split_words, str_eq, trim,
};
#[allow(unused_imports)]
use crate::text::{
    decimal, is_digit, is_space, law_parts_stand_between_separators,
    law_words_stand_between_spaces, lemma_decimal_round_trip, lemma_last_char_is_held,
    lemma_parts_nonempty, lemma_port_round_trip, parts, port_number, texts, trimmed, words,
};
use vstd::prelude::*;

verus! {

/// The options of a new session.
#[derive(Debug, Clone)]
pub struct NewArgs {
    pub user: String,
    pub port_range: String,
    pub bind_server: String,
    pub tls_cert: String,
    pub tls_key: String,
    pub working_directory: String,
    pub command: String,
    pub session_timeout: u64,
    pub initial_attach_timeout: u64,
    pub auth_token_ttl: u64,
    pub resume_token_ttl: u64,
    pub quic_idle_timeout_seconds: u64,
    pub replay_buffer_bytes: usize,
}

/// What is wrong with the options, if anything is.
pub open spec fn args_error(args: NewArgs) -> Option<Seq<char>> {
    if parts(args.port_range@, ':').len() != 2 {
        Some("--port-range must be START:END"@)
    } else if (args.tls_cert@.len() == 0) != (args.tls_key@.len() == 0) {
        Some("--tls-cert and --tls-key must be provided together"@)
    } else {
        None
    }
}

/// Checks that the options fit together.
pub fn validate_new_args(args: &NewArgs) -> (outcome: Result<(), NeoshdError>)
    ensures
        match outcome {
            Ok(()) => args_error(*args) is None,
            Err(e) => e matches NeoshdError::Config(m) && args_error(*args) == Some(m@),
        },
{
    let fields = split_on(args.port_range.as_str(), ':');
    assert(texts(fields@).len() == fields@.len());
    if fields.len() != 2 {
        return Err(NeoshdError::Config("--port-range must be START:END".to_owned()));
    }
    if args.tls_cert.as_str().is_empty() != args.tls_key.as_str().is_empty() {
        return Err(
            NeoshdError::Config("--tls-cert and --tls-key must be provided together".to_owned()),
        );
    }
    Ok(())
}

/// The ports that a range `START:END` names, both ends included, or what is wrong with it.
pub open spec fn port_range(range: Seq<char>) -> Result<(u16, u16), Seq<char>> {
    let fields = parts(range, ':');
    if port_number(fields[0]) is None {
        Err("invalid range start"@)
    } else if fields.len() < 2 {
        Err("missing range end"@)
    } else if port_number(fields[1]) is None {
        Err("invalid range end"@)
    } else {
        let start = port_number(fields[0])->0;
        let end = port_number(fields[1])->0;
        if start == 0 || end < start {
            Err("invalid --port-range"@)
        } else {
            Ok((start, end))
        }
    }
}

/// Reads a range of ports.
pub fn parse_port_range(range: &str) -> (ports: Result<(u16, u16), NeoshdError>)
    ensures
        match ports {
            Ok(p) => port_range(range@) == Ok::<(u16, u16), Seq<char>>(p) && 0 < p.0 <= p.1,
            Err(e) => e matches NeoshdError::Config(m) && port_range(range@) == Err::<
                (u16, u16),
                Seq<char>,
            >(m@),
        },
{
    let fields = split_on(range, ':');
    proof {
        lemma_parts_nonempty(range@, ':');
    }
    assert(texts(fields@).len() == fields@.len());
    assert(texts(fields@)[0] == fields@[0]@);
    let start = match read_port(fields[0].as_str()) {
        Some(n) => n,
        None => {
            return Err(NeoshdError::Config("invalid range start".to_owned()));
        },
    };
    if fields.len() < 2 {
        return Err(NeoshdError::Config("missing range end".to_owned()));
    }
    assert(texts(fields@)[1] == fields@[1]@);
    let end = match read_port(fields[1].as_str()) {
        Some(n) => n,
        None => {
            return Err(NeoshdError::Config("invalid range end".to_owned()));
        },
    };
    if start == 0 || end < start {
        return Err(NeoshdError::Config("invalid --port-range".to_owned()));
    }
    Ok((start, end))
}

/// The candidate that is tried after the one at an address and a port: the next port, and after
/// the last port the next address.
pub open spec fn successor(at: (nat, u16), start: u16, end: u16) -> (nat, u16) {
    if at.1 < end {
        (at.0, (at.1 + 1) as u16)
    } else {
        (at.0 + 1, start)
    }
}

/// The candidate that is tried after `n` others.
pub open spec fn candidate(n: nat, start: u16, end: u16) -> (nat, u16)
    decreases n,
{
    if n == 0 {
        (0, start)
    } else {
        successor(candidate((n - 1) as nat, start, end), start, end)
    }
}

/// Tries every port of a range at every address, until one can be bound.
#[derive(Debug)]
pub struct PortScan {
    hosts: usize,
    start: u16,
    end: u16,
    host: usize,
    port: u16,
}

impl PortScan {
    /// How many addresses there are.
    pub closed spec fn hosts(&self) -> nat {
        self.hosts as nat
    }

    /// The first and the last port.
    pub closed spec fn ports(&self) -> (u16, u16) {
        (self.start, self.end)
    }

    /// What is tried next; past the last address nothing is.
    pub closed spec fn upcoming(&self) -> (nat, u16) {
        (self.host as nat, self.port)
    }

    #[verifier::type_invariant]
    spec fn inv(&self) -> bool {
        self.host <= self.hosts && self.start <= self.port <= self.end
    }

    /// Starts with the first port at the first of `hosts` addresses.
    pub fn new(hosts: usize, range: &str) -> (scan: Result<PortScan, NeoshdError>)
        ensures
            match scan {
                Ok(s) => {
                    &&& port_range(range@) == Ok::<(u16, u16), Seq<char>>(s.ports())
                    &&& s.hosts() == hosts
                    &&& s.upcoming() == candidate(0, s.ports().0, s.ports().1)
                },
                Err(e) => e matches NeoshdError::Config(m) && port_range(range@) == Err::<
                    (u16, u16),
                    Seq<char>,
                >(m@),
            },
    {
        match parse_port_range(range) {
            Ok((start, end)) => Ok(PortScan { hosts, start, end, host: 0, port: start }),
            Err(e) => Err(e),
        }
    }

    /// What to try now: the position of the address, and the port. Nothing is left once every
    /// address has been tried.
    pub fn next(&mut self) -> (now: Option<(usize, u16)>)
        ensures
            final(self).hosts() == old(self).hosts(),
            final(self).ports() == old(self).ports(),
            match now {
                Some((host, port)) => {
                    &&& host < old(self).hosts()
                    &&& (host as nat, port) == old(self).upcoming()
                    &&& final(self).upcoming() == successor(
                        old(self).upcoming(),
                        old(self).ports().0,
                        old(self).ports().1,
                    )
                },
                None => {
                    &&& old(self).upcoming().0 >= old(self).hosts()
                    &&& final(self).upcoming() == old(self).upcoming()
                },
            },
    {
        proof {
            use_type_invariant(&*self);
        }
        if self.host == self.hosts {
            return None;
        }
        let now = (self.host, self.port);
        if self.port < self.end {
            self.port = self.port + 1;
        } else {
            let next = PortScan {
                hosts: self.hosts,
                start: self.start,
                end: self.end,
                host: self.host + 1,
                port: self.start,
            };
            *self = next;
        }
        Some(now)
    }

    /// What is wrong when nothing could be bound.
    pub fn exhausted() -> (e: NeoshdError)
        ensures
            e matches NeoshdError::Config(m) && m@ == "no available port in range"@,
    {
        NeoshdError::Config("no available port in range".to_owned())
    }
}

/// Every port of the range is tried at every address: the addresses in order, at each of them the
/// ports in ascending order.
pub proof fn law_scan_covers_everything(host: nat, port: u16, start: u16, end: u16)
    requires
        start <= port <= end,
    ensures
        candidate(host * ((end - start + 1) as nat) + (port - start) as nat, start, end) == (
            host,
            port,
        ),
    decreases host, port,
{
    let width = (end - start + 1) as nat;
    let n = host * width + (port - start) as nat;
    if port > start {
        law_scan_covers_everything(host, (port - 1) as u16, start, end);
        assert((n - 1) as nat == host * width + ((port - 1) as u16 - start) as nat);
    } else if host > 0 {
        law_scan_covers_everything((host - 1) as nat, end, start, end);
        assert(host * width == (host - 1) * width + width) by (nonlinear_arith)
            requires
                host > 0,
        ;
        assert((n - 1) as nat == ((host - 1) as nat) * width + (end - start) as nat);
    } else {
        assert(n == 0) by (nonlinear_arith)
            requires
                n == host * width + (port - start) as nat,
                host == 0,
                port == start,
        ;
    }
}

/// Which address the server binds.
#[derive(Debug)]
pub enum BindChoice {
    /// `127.0.0.1`.
    Loopback,
    /// `0.0.0.0`.
    Unspecified,
    /// This address if it is one, and `127.0.0.1` otherwise.
    AddressOrLoopback(String),
    /// This address if it is one, and otherwise what this name resolves to.
    AddressOrHost(String),
}

/// The address of the server in the value of `SSH_CONNECTION`: its third field of at least four.
pub open spec fn ssh_server_field(ssh_connection: Option<Seq<char>>) -> Option<Seq<char>> {
    match ssh_connection {
        Some(raw) => if words(raw).len() >= 4 {
            Some(words(raw)[2])
        } else {
            None
        },
        None => None,
    }
}

/// Decides which address to bind, from the option and the value of `SSH_CONNECTION`.
pub fn choose_bind(bind_server: &str, ssh_connection: Option<&str>) -> (choice: BindChoice)
    ensures
        ({
            let server = ssh_server_field(
                match ssh_connection {
                    Some(raw) => Some(raw@),
                    None => None,
                },
            );
            if bind_server@ == "ssh"@ {
                match server {
                    Some(field) => choice matches BindChoice::AddressOrLoopback(a) && a@ == field,
                    None => choice is Loopback,
                }
            } else if bind_server@ == "any"@ {
                choice is Unspecified
            } else {
                choice matches BindChoice::AddressOrHost(a) && a@ == bind_server@
            }
        }),
{
    if str_eq(bind_server, "ssh") {
        if let Some(raw) = ssh_connection {
            let fields = split_words(raw);
            assert(texts(fields@).len() == fields@.len());
            if fields.len() >= 4 {
                assert(texts(fields@)[2] == fields@[2]@);
                return BindChoice::AddressOrLoopback(fields[2].clone());
            }
        }
        BindChoice::Loopback
    } else if str_eq(bind_server, "any") {
        BindChoice::Unspecified
    } else {
        BindChoice::AddressOrHost(bind_server.to_owned())
    }
}

/// What is wrong when the name to bind resolves to nothing: to an error, or to no address.
pub fn resolve_failure(error: Option<&str>) -> (e: NeoshdError)
    ensures
        e matches NeoshdError::Config(m) && m@ == match error {
            Some(why) => "resolve --bind-server failed: "@ + why@,
            None => "--bind-server resolved no addresses"@,
        },
{
    match error {
        Some(why) => NeoshdError::Config(concat("resolve --bind-server failed: ", why)),
        None => NeoshdError::Config("--bind-server resolved no addresses".to_owned()),
    }
}

/// The address that clients are given: host and port. A host with a colon in it, as an IPv6
/// address has, stands in square brackets.
pub open spec fn address_text(host: Seq<char>, port: u16) -> Seq<char> {
    if host.contains(':') {
        "["@ + host + "]:"@ + decimal(port as nat)
    } else {
        host + ":"@ + decimal(port as nat)
    }
}

/// The address that clients are given.
pub fn quic_addr(host: &str, port: u16) -> (addr: String)
    ensures
        addr@ == address_text(host@, port),
{
    let cs = chars_of(host);
    proof {
        lemma_last_char_is_held(cs@, ':', cs@.len() as int);
        assert(cs@.take(cs@.len() as int) =~= cs@);
    }
    let mut addr = if rfind_char(&cs, ':').is_some() {
        concat(concat("[", host).as_str(), "]:")
    } else {
        concat(host, ":")
    };
    append_decimal(&mut addr, port as u64);
    addr
}

/// The shell to run: the value of `SHELL`, unless it is blank or not set.
pub fn resolve_login_shell(shell: Option<&str>) -> (name: String)
    ensures
        name@ == match shell {
            Some(v) => if trimmed(v@).len() > 0 {
                v@
            } else {
                "sh"@
            },
            None => "sh"@,
        },
{
    match shell {
        Some(v) => if trim(v).as_str().is_empty() {
            "sh".to_owned()
        } else {
            v.to_owned()
        },
        None => "sh".to_owned(),
    }
}

/// The socket over which tokens of a session are renewed, in the directory `neoshd` of the runtime
/// directory.
pub fn ipc_socket_path(runtime_dir: Option<&str>, session_id: Uuid) -> (path: String)
    ensures
        path@ == socket_path(
            match runtime_dir {
                Some(dir) => Some(dir@),
                None => None,
            },
            "neoshd"@,
            session_id,
        ),
{
    session_socket(runtime_dir, "neoshd", session_id)
}

/// A range of ports is read from the numerals of its two ends with a colon between them, exactly if
/// it is not empty and does not hold the port zero.
pub proof fn law_port_ranges_are_read(start: u16, end: u16)
    ensures
        ({
            let range = decimal(start as nat).push(':') + decimal(end as nat);
            &&& 0 < start <= end ==> port_range(range) == Ok::<(u16, u16), Seq<char>>((start, end))
            &&& start == 0 || end < start ==> port_range(range) == Err::<(u16, u16), Seq<char>>(
                "invalid --port-range"@,
            )
        }),
{
    let a = decimal(start as nat);
    let b = decimal(end as nat);
    lemma_numeral_has_no_colon(start as nat);
    lemma_numeral_has_no_colon(end as nat);
    law_parts_stand_between_separators(a, b, ':');
    law_parts_stand_between_separators(b, b, ':');
    assert(seq![a] + seq![b] =~= seq![a, b]);
    lemma_port_round_trip(start);
    lemma_port_round_trip(end);
}

/// No colon stands in a numeral.
proof fn lemma_numeral_has_no_colon(n: nat)
    ensures
        !decimal(n).contains(':'),
{
    lemma_decimal_round_trip(n);
    if decimal(n).contains(':') {
        let i = choose|i: int| 0 <= i < decimal(n).len() && decimal(n)[i] == ':';
        assert(is_digit(decimal(n)[i]));
    }
}

/// A text without a colon is no range, nor is one whose ends are no ports; and it is said which end
/// is at fault, the first one first.
pub proof fn law_broken_port_ranges_are_refused(first: Seq<char>, second: Seq<char>)
    requires
        !first.contains(':'),
        !second.contains(':'),
    ensures
        port_number(first) is None ==> port_range(first.push(':') + second) == Err::<
            (u16, u16),
            Seq<char>,
        >("invalid range start"@),
        port_number(first) is Some && port_number(second) is None ==> port_range(
            first.push(':') + second,
        ) == Err::<(u16, u16), Seq<char>>("invalid range end"@),
        port_number(first) is Some ==> port_range(first) == Err::<(u16, u16), Seq<char>>(
            "missing range end"@,
        ),
        port_number(first) is None ==> port_range(first) == Err::<(u16, u16), Seq<char>>(
            "invalid range start"@,
        ),
{
    law_parts_stand_between_separators(first, second, ':');
    law_parts_stand_between_separators(second, second, ':');
    assert(seq![first] + seq![second] =~= seq![first, second]);
}

/// Options fit together exactly if the range of ports has one colon, and if a certificate and a key
/// are given together or not at all; the range is looked at first.
pub proof fn law_options_fit_together(
    args: NewArgs,
    first: Seq<char>,
    second: Seq<char>,
    third: Seq<char>,
)
    requires
        !first.contains(':'),
        !second.contains(':'),
    ensures
        args.port_range@ == first.push(':') + second ==> {
            &&& args_error(args) is None <==> (args.tls_cert@.len() > 0 <==> args.tls_key@.len()
                > 0)
            &&& args_error(args) is Some ==> args_error(args) == Some(
                "--tls-cert and --tls-key must be provided together"@,
            )
        },
        args.port_range@ == first || args.port_range@ == first.push(':') + (second.push(':')
            + third) ==> args_error(args) == Some("--port-range must be START:END"@),
{
    law_parts_stand_between_separators(first, second, ':');
    law_parts_stand_between_separators(second, third, ':');
    law_parts_stand_between_separators(first, second.push(':') + third, ':');
    lemma_parts_nonempty(third, ':');
}

/// The server binds the address at which the client reached it: the third field that
/// `SSH_CONNECTION` holds, if another one follows it, and whatever follows that. With fewer fields
/// there is none.
pub proof fn law_ssh_connection_names_the_server(
    client: Seq<char>,
    client_port: Seq<char>,
    server: Seq<char>,
    rest: Seq<char>,
)
    requires
        is_field(client),
        is_field(client_port),
        is_field(server),
        words(rest).len() > 0,
    ensures
        ssh_server_field(
            Some(client.push(' ') + (client_port.push(' ') + (server.push(' ') + rest))),
        ) == Some(server),
        ssh_server_field(Some(client.push(' ') + (client_port.push(' ') + server))) is None,
        ssh_server_field(None) is None,
{
    let last = server.push(' ') + rest;
    let tail = client_port.push(' ') + last;
    law_words_stand_between_spaces(server, ' ', rest, server);
    law_words_stand_between_spaces(client_port, ' ', last, client_port);
    law_words_stand_between_spaces(client, ' ', tail, client);
    law_words_stand_between_spaces(client_port, ' ', server, client);
    law_words_stand_between_spaces(client, ' ', client_port.push(' ') + server, client);
    assert(words(client.push(' ') + tail) =~= seq![client, client_port, server] + words(rest));
    assert((seq![client, client_port, server] + words(rest))[2] == server);
    assert(words(client.push(' ') + (client_port.push(' ') + server)) =~= seq![
        client,
        client_port,
        server,
    ]);
}

/// Whether a text is one field among others: not empty, and without white space.
pub open spec fn is_field(text: Seq<char>) -> bool {
    text.len() > 0 && forall|i: int| 0 <= i < text.len() ==> !is_space(#[trigger] text[i])
}

/// The address that clients are given is the host, a colon and the port; a host that holds a colon
/// itself stands in brackets, so that the last colon is always the one before the port.
pub proof fn law_address_ends_with_the_port(host: Seq<char>, port: u16)
    ensures
        ({
            let text = address_text(host, port);
            let n = text.len() - decimal(port as nat).len();
            &&& text.skip(n) == decimal(port as nat)
            &&& text[n - 1] == ':'
            &&& (forall|i: int| 0 <= i < host.len() ==> #[trigger] host[i] != ':') ==> text.take(
                n - 1,
            ) == host
            &&& (exists|i: int| 0 <= i < host.len() && #[trigger] host[i] == ':') ==> text.take(
                n - 1,
            ) == seq!['['] + host + seq![']']
        }),
{
    reveal_strlit("[");
    reveal_strlit("]:");
    reveal_strlit(":");
    let text = address_text(host, port);
    let n = text.len() - decimal(port as nat).len();
    assert(text.skip(n) =~= decimal(port as nat));
    if host.contains(':') {
        assert(text.take(n - 1) =~= seq!['['] + host + seq![']']);
    } else {
        assert forall|i: int| 0 <= i < host.len() implies #[trigger] host[i] != ':' by {
            assert(host.contains(host[i]));
        }
        assert(text.take(n - 1) =~= host);
    }
}

} // verus!
