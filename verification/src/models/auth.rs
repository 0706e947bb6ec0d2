//! The credential payload sent to the identity endpoint to obtain a bearer
//! token: password authentication scoped to a project.
use vstd::prelude::*;

verus! {

/// The whole token-request body.
#[derive(Debug, Clone)]
pub struct AuthPayload {
    pub auth: Auth,
}

/// Identity (who authenticates) and scope (for which project).
#[derive(Debug, Clone)]
pub struct Auth {
    pub identity: Identity,
    pub scope: Scope,
}

/// The authentication methods offered and the password credential.
#[derive(Debug, Clone)]
pub struct Identity {
    pub methods: Vec<String>,
    pub password: Password,
}

/// The password credential.
#[derive(Debug, Clone)]
pub struct Password {
    pub user: User,
}

/// The authenticating user and its domain.
#[derive(Debug, Clone)]
pub struct User {
    pub name: String,
    pub password: String,
    pub domain: Domain,
}

/// A domain, named.
#[derive(Debug, Clone)]
pub struct Domain {
    pub name: String,
}

/// The project scope of the requested token.
#[derive(Debug, Clone)]
pub struct Scope {
    pub project: Project,
}

/// A project and the domain it belongs to.
#[derive(Debug, Clone)]
pub struct Project {
    pub domain: Domain,
    pub name: String,
}

impl AuthPayload {
    /// A token request for `name`/`password`, scoped to `project` in
    /// `domain`, offering exactly the password method.
    pub fn new(name: String, password: String, domain: &str, project: &str) -> (r: Self)
        ensures
            r.auth.identity.methods@.len() == 1,
            r.auth.identity.methods@[0]@ == "password"@,
            r.auth.identity.password.user.name == name,
            r.auth.identity.password.user.password == password,
            r.auth.identity.password.user.domain.name@ == domain@,
            r.auth.scope.project.name@ == project@,
            r.auth.scope.project.domain.name@ == domain@,
    {
        let mut methods: Vec<String> = Vec::new();
        methods.push(String::from_str("password"));
        Self {
            auth: Auth {
                identity: Identity {
                    methods,
                    password: Password {
                        user: User {
                            name,
                            password,
                            domain: Domain { name: String::from_str(domain) },
                        },
                    },
                },
                scope: Scope {
                    project: Project {
                        domain: Domain { name: String::from_str(domain) },
                        name: String::from_str(project),
                    },
                },
            },
        }
    }
}

} // verus!
