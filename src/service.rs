//! The secrets service: its interface, its data and its method names.

use vstd::prelude::*;
use vstd::string::*;
use vstd::utf8::encode_utf8;

verus! {

/// Service error
#[derive(Debug, Clone)]
pub struct Error {
    /// Message
    pub message: String,
}

impl From<String> for Error {
    fn from(message: String) -> (r: Self) {
        Error { message }
    }
}

impl vstd::std_specs::convert::FromSpecImpl<String> for Error {
    open spec fn obeys_from_spec() -> bool {
        true
    }

    open spec fn from_spec(v: String) -> Error {
        Error { message: v }
    }
}

/// Service status
#[derive(Debug, Clone)]
pub struct ServiceStatus {}

impl ServiceStatus {
    /// Encodes the status as the UTF-8 bytes of its JSON text, `{}`.
    pub fn to_json(&self) -> (r: Vec<u8>)
        ensures
            r@ == encode_utf8("{}"@),
    {
        "{}".as_bytes_vec()
    }
}

/// Signup input
#[derive(Debug, Clone)]
pub struct SignupInput {
    /// Email
    pub email: String,
    /// Name
    pub name: String,
    /// Password
    pub password: String,
}

/// Login input
#[derive(Debug, Clone)]
pub struct LoginInput {
    /// Email
    pub email: String,
    /// Password
    pub password: String,
}

/// Login response
#[derive(Debug, Clone)]
pub struct LoginResponse {
    /// Token
    pub token: String,
    /// User
    pub user: User,
}

/// User
#[derive(Debug, Clone, Eq)]
pub struct User {
    /// ID
    pub id: String,
    /// Name
    pub name: String,
    /// Email
    pub email: String,
    /// Password
    pub password: String,
}

impl PartialEq for User {
    /// Users are the same when their identifiers are.
    fn eq(&self, other: &Self) -> (r: bool) {
        self.id == other.id
    }
}

impl vstd::std_specs::cmp::PartialEqSpecImpl for User {
    open spec fn obeys_eq_spec() -> bool {
        true
    }

    open spec fn eq_spec(&self, other: &User) -> bool {
        self.id@ == other.id@
    }
}

/// Organization input
#[derive(Debug, Clone)]
pub struct OrganizationInput {
    /// Name
    pub name: String,
}

/// Organization
#[derive(Debug, Clone, Eq)]
pub struct Organization {
    /// ID
    pub id: String,
    /// Name
    pub name: String,
}

impl PartialEq for Organization {
    /// Organizations are the same when their identifiers are.
    fn eq(&self, other: &Self) -> (r: bool) {
        self.id == other.id
    }
}

impl vstd::std_specs::cmp::PartialEqSpecImpl for Organization {
    open spec fn obeys_eq_spec() -> bool {
        true
    }

    open spec fn eq_spec(&self, other: &Organization) -> bool {
        self.id@ == other.id@
    }
}

/// Project input
#[derive(Debug, Clone)]
pub struct ProjectInput {
    /// Organization ID
    pub org_id: String,
    /// Name
    pub name: String,
}

/// Project
#[derive(Debug, Clone, Eq)]
pub struct Project {
    /// ID
    pub id: String,
    /// Name
    pub name: String,
    /// Organization
    pub organization: Organization,
}

impl PartialEq for Project {
    /// Projects are the same when their identifiers are.
    fn eq(&self, other: &Self) -> (r: bool) {
        self.id == other.id
    }
}

impl vstd::std_specs::cmp::PartialEqSpecImpl for Project {
    open spec fn obeys_eq_spec() -> bool {
        true
    }

    open spec fn eq_spec(&self, other: &Project) -> bool {
        self.id@ == other.id@
    }
}

/// Secret input
#[derive(Debug, Clone)]
pub struct SecretInput {
    /// Organization ID
    pub org_id: String,
    /// Project ID
    pub project_id: Option<String>,
    /// Key
    pub key: String,
    /// Value
    pub value: String,
}

/// Secret
#[derive(Debug, Clone, Eq)]
pub struct Secret {
    /// ID
    pub id: String,
    /// Organization
    pub oeganization: Organization,
    /// Project
    pub project: Option<Project>,
    /// Key
    pub key: String,
    /// Value
    pub value: String,
}

impl PartialEq for Secret {
    /// Secrets are the same when their identifiers are.
    fn eq(&self, other: &Self) -> (r: bool) {
        self.id == other.id
    }
}

impl vstd::std_specs::cmp::PartialEqSpecImpl for Secret {
    open spec fn obeys_eq_spec() -> bool {
        true
    }

    open spec fn eq_spec(&self, other: &Secret) -> bool {
        self.id@ == other.id@
    }
}

/// The secrets service is the interface between the server and client: one
/// operation per method name.
pub trait SecretsService {
    /// Returns the API status
    fn status(&self) -> Result<ServiceStatus, Error>;

    /// Signup a new user
    fn signup(&self, input: SignupInput) -> Result<LoginResponse, Error>;

    /// Login a new user
    fn login(&self, input: LoginInput) -> Result<LoginResponse, Error>;

    /// Reads a user
    fn user(&self, token: String, id: String) -> Result<User, Error>;

    /// Deletes a user
    fn delete_user(&self, token: String, id: String) -> Result<User, Error>;

    /// Add an organization
    fn add_organization(&self, token: String, organization: OrganizationInput) -> Result<
        Organization,
        Error,
    >;

    /// Reads an organization
    fn organization(&self, token: String, id: String) -> Result<Organization, Error>;

    /// Deletes an organization
    fn delete_organization(&self, token: String, id: String) -> Result<Organization, Error>;

    /// Add a project
    fn add_project(&self, token: String, project: ProjectInput) -> Result<Project, Error>;

    /// Reads a project
    fn project(&self, token: String, id: String) -> Result<Project, Error>;

    /// Deletes a project
    fn delete_project(&self, token: String, id: String) -> Result<Project, Error>;

    /// Adds a secret
    fn add_secret(&self, token: String, secret: SecretInput) -> Result<Secret, Error>;

    /// Reads a secret
    fn secret(&self, token: String, id: String) -> Result<Secret, Error>;

    /// Update a secret
    fn update_secret(&self, token: String, secret: Secret) -> Result<Secret, Error>;

    /// Deletes a secret
    fn delete_secret(&self, token: String, id: String) -> Result<Secret, Error>;
}

/// Method 'status'
pub struct StatusSrvMethod;

impl StatusSrvMethod {
    /// Method name
    pub fn id() -> (r: &'static str)
        ensures
            r@ == "status"@,
    {
        "status"
    }

    /// Converts a set of inputs to parameters (the method takes none).
    pub fn to_params() {
    }
}

} // verus!
