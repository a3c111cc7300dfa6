//! Credential lookup.
//!
//! The client asks a [`CredentialProvider`] for the username/password pair
//! of its host before logging in.  The shipped provider,
//! [`NetrcCredentials`], holds the machine entries of a netrc file; parsing
//! the file's text is delegated to the `netrc_rs` crate behind one trusted
//! wrapper, and everything after the parse — which machine wins, when a
//! lookup fails — is verified.  Reading the file from disk is the embedding
//! program's business.

use vstd::prelude::*;
use vstd::string::StringExecFns;

verus! {

/// A username/password pair for one host.
#[derive(Debug, Clone)]
pub struct Credentials {
    pub username: String,
    pub password: String,
}

/// The mathematical value of a [`Credentials`].
pub struct CredentialsView {
    pub username: Seq<char>,
    pub password: Seq<char>,
}

impl View for Credentials {
    type V = CredentialsView;

    open spec fn view(&self) -> CredentialsView {
        CredentialsView { username: self.username@, password: self.password@ }
    }
}

/// Answers the question "which credentials are configured for this host?".
///
/// `creds_for` is the provider's table; `lookup` must answer exactly
/// according to it.  Both shipped implementations are verified against this
/// contract.
pub trait CredentialProvider {
    spec fn creds_for(&self, host: Seq<char>) -> Option<CredentialsView>;

    fn lookup(&self, host: &str) -> (r: Option<Credentials>)
        ensures
            match r {
                Some(c) => self.creds_for(host@) == Some(c@),
                None => self.creds_for(host@) is None,
            },
    ;
}

/// One machine entry of a netrc file, reduced to what lookup reads.
#[derive(Debug, Clone)]
pub struct NetrcMachine {
    /// The machine name; `None` stands for the file's `default` entry.
    pub name: Option<String>,
    pub login: Option<String>,
    pub password: Option<String>,
}

/// The mathematical value of a [`NetrcMachine`].
pub struct MachineView {
    pub name: Option<Seq<char>>,
    pub login: Option<Seq<char>>,
    pub password: Option<Seq<char>>,
}

impl View for NetrcMachine {
    type V = MachineView;

    open spec fn view(&self) -> MachineView {
        MachineView {
            name: self.name.deep_view(),
            login: self.login.deep_view(),
            password: self.password.deep_view(),
        }
    }
}

impl DeepView for NetrcMachine {
    type V = MachineView;

    open spec fn deep_view(&self) -> MachineView {
        self.view()
    }
}

/// What parsing a netrc text yields: `None` when the text is not a netrc
/// file, otherwise the machine entries in file order.  The parse is the
/// `netrc_rs` crate's; this name stands for its result.
pub uninterp spec fn netrc_machines(text: Seq<char>) -> Option<Seq<MachineView>>;

/// Relies on `netrc_rs::Netrc::parse`: the outcome depends on the text
/// alone; on success the parsed machines are handed back in file order,
/// each reduced to its `name`, `login` and `password` entries.
#[verifier::external_body]
fn parse_netrc(text: &str) -> (r: Option<Vec<NetrcMachine>>)
    ensures
        r matches Some(ms) ==> netrc_machines(text@) == Some(ms.deep_view()),
        r is None ==> netrc_machines(text@) is None,
{
    match netrc_rs::Netrc::parse(text, false) {
        Ok(netrc) => Some(
            netrc
                .machines
                .into_iter()
                .map(|m| NetrcMachine { name: m.name, login: m.login, password: m.password })
                .collect(),
        ),
        Err(_) => None,
    }
}

/// The first machine whose name is `host`, if any.
pub open spec fn spec_find_machine(ms: Seq<MachineView>, host: Seq<char>) -> Option<MachineView>
    decreases ms.len(),
{
    if ms.len() == 0 {
        None
    } else if ms[0].name == Some(host) {
        Some(ms[0])
    } else {
        spec_find_machine(ms.drop_first(), host)
    }
}

fn find_machine<'a>(ms: &'a Vec<NetrcMachine>, host: &str) -> (r: Option<&'a NetrcMachine>)
    ensures
        match r {
            Some(m) => spec_find_machine(ms.deep_view(), host@) == Some(m@),
            None => spec_find_machine(ms.deep_view(), host@) is None,
        },
{
    let key = String::from_str(host);
    let n = ms.len();
    let mut i: usize = 0;
    proof {
        assert(ms.deep_view().skip(0) =~= ms.deep_view());
    }
    while i < n
        invariant
            n == ms@.len(),
            i <= n,
            key@ == host@,
            spec_find_machine(ms.deep_view(), host@) == spec_find_machine(
                ms.deep_view().skip(i as int),
                host@,
            ),
        decreases n - i,
    {
        proof {
            assert(ms.deep_view().skip(i as int).len() == n - i);
            assert(ms.deep_view().skip(i as int)[0] == ms@[i as int].deep_view());
            assert(ms.deep_view().skip(i as int).drop_first() =~= ms.deep_view().skip(i + 1));
        }
        let matches_here = match &ms[i].name {
            Some(name) => name.eq(&key),
            None => false,
        };
        if matches_here {
            return Some(&ms[i]);
        }
        i = i + 1;
    }
    proof {
        assert(ms.deep_view().skip(i as int).len() == 0);
    }
    None
}

/// Why no password came out of a netrc text.
#[derive(Debug, Clone, Copy, PartialEq, Eq, Structural)]
pub enum CredentialError {
    /// The text is not a netrc file.
    Unparsable,
    /// No machine entry carries the requested name.
    MachineNotFound,
    /// The machine entry exists but has no `password` token.
    PasswordMissing,
}

/// The password configured for `machine` in the netrc text `netrc`: the
/// `password` entry of the first machine of that name.
pub fn get_password(netrc: &str, machine: &str) -> (r: Result<String, CredentialError>)
    ensures
        match netrc_machines(netrc@) {
            None => r matches Err(CredentialError::Unparsable),
            Some(ms) => match spec_find_machine(ms, machine@) {
                None => r matches Err(CredentialError::MachineNotFound),
                Some(m) => match m.password {
                    Some(p) => (r matches Ok(s) && s@ == p),
                    None => r matches Err(CredentialError::PasswordMissing),
                },
            },
        },
{
    let machines = match parse_netrc(netrc) {
        Some(ms) => ms,
        None => {
            return Err(CredentialError::Unparsable);
        },
    };
    match find_machine(&machines, machine) {
        None => Err(CredentialError::MachineNotFound),
        Some(m) => match &m.password {
            Some(p) => Ok(p.clone()),
            None => Err(CredentialError::PasswordMissing),
        },
    }
}

/// A provider backed by the machine entries of a netrc file.  A host's
/// credentials are the `login` and `password` of its first machine entry;
/// an entry that lacks either is treated as not configured.
#[derive(Debug, Clone)]
pub struct NetrcCredentials {
    pub machines: Vec<NetrcMachine>,
}

impl NetrcCredentials {
    /// Parses a netrc text into a provider; `None` when the text is not a
    /// netrc file.
    pub fn from_text(text: &str) -> (r: Option<NetrcCredentials>)
        ensures
            r matches Some(p) ==> netrc_machines(text@) == Some(p.machines.deep_view()),
            r is None ==> netrc_machines(text@) is None,
    {
        match parse_netrc(text) {
            Some(machines) => Some(NetrcCredentials { machines }),
            None => None,
        }
    }
}

impl CredentialProvider for NetrcCredentials {
    open spec fn creds_for(&self, host: Seq<char>) -> Option<CredentialsView> {
        match spec_find_machine(self.machines.deep_view(), host) {
            Some(m) => match (m.login, m.password) {
                (Some(username), Some(password)) => Some(CredentialsView { username, password }),
                _ => None,
            },
            None => None,
        }
    }

    fn lookup(&self, host: &str) -> (r: Option<Credentials>) {
        match find_machine(&self.machines, host) {
            Some(m) => match (&m.login, &m.password) {
                (Some(username), Some(password)) => Some(
                    Credentials { username: username.clone(), password: password.clone() },
                ),
                _ => None,
            },
            None => None,
        }
    }
}

/// A provider that knows exactly one host; the test double of the
/// credential-provider contract.
#[derive(Debug, Clone)]
pub struct StaticCredentials {
    pub host: String,
    pub username: String,
    pub password: String,
}

impl CredentialProvider for StaticCredentials {
    open spec fn creds_for(&self, host: Seq<char>) -> Option<CredentialsView> {
        if host == self.host@ {
            Some(CredentialsView { username: self.username@, password: self.password@ })
        } else {
            None
        }
    }

    fn lookup(&self, host: &str) -> (r: Option<Credentials>) {
        let key = String::from_str(host);
        if self.host.eq(&key) {
            Some(Credentials { username: self.username.clone(), password: self.password.clone() })
        } else {
            None
        }
    }
}

} // verus!
