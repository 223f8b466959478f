//! Credential negotiation for authenticated clones: given what the server
//! accepts, pick one mechanism by a fixed priority and build its credential.

use vstd::prelude::*;
use vstd::string::*;

verus! {

/// The authentication mechanisms a server will accept for one request.
#[derive(Clone, Copy, Debug, PartialEq, Eq, Structural)]
pub struct Mechanisms {
    /// Key authentication through a running SSH agent.
    pub ssh_key: bool,
    /// The platform's default credential mechanism (NTLM, Kerberos, ...).
    pub system_default: bool,
    /// Plain username and password.
    pub plaintext: bool,
}

/// An authentication challenge raised by the transport.
pub struct CredentialRequest {
    /// The remote being contacted.
    pub url: String,
    /// A username the transport already has, from the URL for instance.
    pub username: Option<String>,
    /// What the server will accept.
    pub allowed: Mechanisms,
}

/// The username and password the user supplied for plaintext authentication.
pub struct StoredCredentials {
    pub username: String,
    pub password: String,
}

/// The credential chosen for a request.
#[derive(Debug)]
pub enum Credential {
    /// Ask the SSH agent for a key for this user.
    SshAgent { username: String },
    /// Let the platform authenticate.
    SystemDefault,
    /// Send the stored username and password in plain text.
    Plaintext { username: String, password: String },
}

/// No mechanism the server accepts is available.
#[derive(Debug)]
pub struct AuthFailure {
    pub message: String,
}

/// What a [`Credential`] stands for, as plain values.
pub enum CredentialModel {
    SshAgent(Seq<char>),
    SystemDefault,
    Plaintext(Seq<char>, Seq<char>),
}

impl View for Credential {
    type V = CredentialModel;

    open spec fn view(&self) -> CredentialModel {
        match self {
            Credential::SshAgent { username } => CredentialModel::SshAgent(username@),
            Credential::SystemDefault => CredentialModel::SystemDefault,
            Credential::Plaintext { username, password } => CredentialModel::Plaintext(
                username@,
                password@,
            ),
        }
    }
}

/// The identity used for SSH-agent authentication when no username is known.
pub open spec fn default_identity() -> Seq<char> {
    "git"@
}

/// The message of the failure when no mechanism applies.
pub open spec fn no_mechanism_message() -> Seq<char> {
    "no authentication available"@
}

/// The username for SSH-agent authentication: the one the transport supplied,
/// else the one the credential helper configuration gives for the URL, else
/// the default identity.
pub open spec fn agent_username(previous: Option<Seq<char>>, helper: Option<Seq<char>>) -> Seq<char> {
    match previous {
        Some(u) => u,
        None => match helper {
            Some(h) => h,
            None => default_identity(),
        },
    }
}

/// The choice made for a request, by priority: SSH agent, then the platform
/// default, then plaintext; `None` when the server accepts none of them.
pub open spec fn negotiation(
    previous: Option<Seq<char>>,
    helper: Option<Seq<char>>,
    allowed: Mechanisms,
    user: Seq<char>,
    password: Seq<char>,
) -> Option<CredentialModel> {
    if allowed.ssh_key {
        Some(CredentialModel::SshAgent(agent_username(previous, helper)))
    } else if allowed.system_default {
        Some(CredentialModel::SystemDefault)
    } else if allowed.plaintext {
        Some(CredentialModel::Plaintext(user, password))
    } else {
        None
    }
}

pub open spec fn opt_view(o: Option<String>) -> Option<Seq<char>> {
    match o {
        Some(s) => Some(s@),
        None => None,
    }
}

/// The choice made for `req`, with `helper` the username that the credential
/// helper configuration gives for the request's URL, if any.
pub open spec fn negotiation_for(
    req: CredentialRequest,
    helper: Option<String>,
    stored: StoredCredentials,
) -> Option<CredentialModel> {
    negotiation(
        opt_view(req.username),
        opt_view(helper),
        req.allowed,
        stored.username@,
        stored.password@,
    )
}

fn clone_opt(o: &Option<String>) -> (r: Option<String>)
    ensures
        opt_view(r) == opt_view(*o),
{
    match o {
        Some(s) => Some(s.clone()),
        None => None,
    }
}

/// Chooses the credential for `req` by the fixed priority order. Depends on
/// its arguments alone, so repeated challenges get the same answer.
pub fn negotiate(
    req: &CredentialRequest,
    helper_username: &Option<String>,
    stored: &StoredCredentials,
) -> (r: Result<Credential, AuthFailure>)
    ensures
        match negotiation_for(*req, *helper_username, *stored) {
            Some(m) => r is Ok && r->Ok_0@ == m,
            None => r is Err && r->Err_0.message@ == no_mechanism_message(),
        },
{
    if req.allowed.ssh_key {
        let user = match &req.username {
            Some(u) => u.clone(),
            None => match helper_username {
                Some(h) => h.clone(),
                None => String::from_str("git"),
            },
        };
        proof {
            reveal_strlit("git");
        }
        Ok(Credential::SshAgent { username: user })
    } else if req.allowed.system_default {
        Ok(Credential::SystemDefault)
    } else if req.allowed.plaintext {
        Ok(
            Credential::Plaintext {
                username: stored.username.clone(),
                password: stored.password.clone(),
            },
        )
    } else {
        Err(AuthFailure { message: String::from_str("no authentication available") })
    }
}

/// The notice shown when plaintext authentication is used.
pub open spec fn plaintext_notice() -> Seq<char> {
    "(using plain text to authenticate)"@
}

impl Credential {
    /// The notice to show before this credential is used: plaintext
    /// authentication is never used silently.
    pub fn notice(&self) -> (r: Option<String>)
        ensures
            self@ is Plaintext <==> r is Some,
            r is Some ==> r->Some_0@ == plaintext_notice(),
    {
        match self {
            Credential::Plaintext { .. } => Some(
                String::from_str("(using plain text to authenticate)"),
            ),
            _ => None,
        }
    }
}

#[verifier::external_type_specification]
#[verifier::external_body]
pub struct ExCred(git2::Cred);

#[verifier::external_type_specification]
#[verifier::external_body]
pub struct ExGitError(git2::Error);

/// Relies on git2::Cred::ssh_key_from_agent: builds a credential that asks the
/// SSH agent for a key of `username`; fails only on a username holding a NUL
/// (or when memory runs out).
#[verifier::external_body]
fn agent_credential(username: &str) -> (r: Result<git2::Cred, git2::Error>)
    ensures
        !username@.contains('\0') ==> r is Ok,
{
    git2::Cred::ssh_key_from_agent(username)
}

/// Relies on git2::Cred::default: builds the platform-default credential,
/// which takes no input and fails only when memory runs out.
#[verifier::external_body]
fn platform_credential() -> (r: Result<git2::Cred, git2::Error>)
    ensures
        r is Ok,
{
    git2::Cred::default()
}

/// Relies on git2::Cred::userpass_plaintext: builds a plaintext credential;
/// fails only on a username or password holding a NUL (or when memory runs
/// out).
#[verifier::external_body]
fn plaintext_credential(username: &str, password: &str) -> (r: Result<git2::Cred, git2::Error>)
    ensures
        !username@.contains('\0') && !password@.contains('\0') ==> r is Ok,
{
    git2::Cred::userpass_plaintext(username, password)
}

/// Relies on git2::Error::from_str: an error carrying `message`.
#[verifier::external_body]
fn git_error(message: &str) -> (r: git2::Error) {
    git2::Error::from_str(message)
}

/// No string of the credential holds a NUL character, which the transport
/// cannot carry.
pub open spec fn nul_free(m: CredentialModel) -> bool {
    match m {
        CredentialModel::SshAgent(u) => !u.contains('\0'),
        CredentialModel::SystemDefault => true,
        CredentialModel::Plaintext(u, p) => !u.contains('\0') && !p.contains('\0'),
    }
}

/// Builds the transport credential for a negotiated choice. A failed
/// negotiation is handed back as an error carrying its message; a choice
/// whose strings hold no NUL is always built.
pub fn git_credential(choice: Result<Credential, AuthFailure>) -> (r: Result<git2::Cred, git2::Error>)
    ensures
        choice is Err ==> r is Err,
        choice is Ok && nul_free(choice->Ok_0@) ==> r is Ok,
{
    match choice {
        Ok(Credential::SshAgent { username }) => agent_credential(username.as_str()),
        Ok(Credential::SystemDefault) => platform_credential(),
        Ok(Credential::Plaintext { username, password }) => plaintext_credential(
            username.as_str(),
            password.as_str(),
        ),
        Err(failure) => Err(git_error(failure.message.as_str())),
    }
}

/// Handles one authentication challenge: negotiates a credential and builds
/// it for the transport. Returns the plaintext notice to show, if any, beside
/// the credential.
pub fn answer_challenge(
    req: &CredentialRequest,
    helper_username: &Option<String>,
    stored: &StoredCredentials,
) -> (r: (Option<String>, Result<git2::Cred, git2::Error>))
    ensures
        (r.0 is Some) <==> (negotiation_for(*req, *helper_username, *stored) matches Some(
            CredentialModel::Plaintext(_, _),
        )),
        r.0 is Some ==> r.0->Some_0@ == plaintext_notice(),
        negotiation_for(*req, *helper_username, *stored) is None ==> r.1 is Err,
        negotiation_for(*req, *helper_username, *stored) matches Some(m) && nul_free(m)
            ==> r.1 is Ok,
{
    let choice = negotiate(req, helper_username, stored);
    let notice = match &choice {
        Ok(c) => c.notice(),
        Err(_) => None,
    };
    (notice, git_credential(choice))
}

/// Negotiation is a function of its inputs: the same request, helper username
/// and stored credentials always give the same choice.
pub proof fn lemma_negotiation_deterministic(
    req1: CredentialRequest,
    req2: CredentialRequest,
    helper1: Option<String>,
    helper2: Option<String>,
    stored1: StoredCredentials,
    stored2: StoredCredentials,
)
    requires
        req1.url@ == req2.url@,
        opt_view(req1.username) == opt_view(req2.username),
        req1.allowed == req2.allowed,
        opt_view(helper1) == opt_view(helper2),
        stored1.username@ == stored2.username@,
        stored1.password@ == stored2.password@,
    ensures
        negotiation_for(req1, helper1, stored1) == negotiation_for(req2, helper2, stored2),
{
}

/// Plaintext is never chosen while the server accepts SSH-agent or platform
/// default authentication.
pub proof fn lemma_plaintext_last_resort(
    req: CredentialRequest,
    helper: Option<String>,
    stored: StoredCredentials,
)
    requires
        req.allowed.ssh_key || req.allowed.system_default,
    ensures
        negotiation_for(req, helper, stored) is Some,
        !(negotiation_for(req, helper, stored)->Some_0 is Plaintext),
{
}

} // verus!
