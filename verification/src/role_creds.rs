//! The name and password of a role on the engine's server.

use vstd::prelude::*;

use crate::text::string_of_str;

verus! {

/// The role name used where none is given.
pub open spec fn default_role_name() -> Seq<char> {
    "admin"@
}

/// The password used where none is given.
pub open spec fn default_role_password() -> Seq<char> {
    "admin"@
}

/// A role name with its password.
#[derive(Debug)]
pub struct RoleCreds {
    pub role_name: String,
    pub password: String,
}

impl Clone for RoleCreds {
    fn clone(&self) -> (r: Self)
        ensures
            r == *self,
    {
        RoleCreds { role_name: self.role_name.clone(), password: self.password.clone() }
    }
}

impl Default for RoleCreds {
    /// The role `admin` with password `admin`.
    fn default() -> (r: Self)
        ensures
            r.role_name@ == default_role_name(),
            r.password@ == default_role_password(),
    {
        proof {
            reveal_strlit("admin");
        }
        RoleCreds { role_name: string_of_str("admin"), password: string_of_str("admin") }
    }
}

impl RoleCreds {
    /// The role `role_name` with `password`.
    pub fn new(role_name: &str, password: &str) -> (r: RoleCreds)
        ensures
            r.role_name@ == role_name@,
            r.password@ == password@,
    {
        RoleCreds { role_name: string_of_str(role_name), password: string_of_str(password) }
    }
}

} // verus!
