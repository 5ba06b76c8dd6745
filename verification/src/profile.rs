//! Profiles: the application and user variants, their fingerprint keys,
//! validity predicates, and the field-wise merge of command-line overrides
//! and configured defaults.

use vstd::prelude::*;
use vstd::string::StringExecFns;

use crate::error::Error;
use crate::text::str_eq;

verus! {

/// A non-empty override replaces the stored value; an empty one keeps it.
pub open spec fn override_field(stored: Seq<char>, ov: Seq<char>) -> Seq<char> {
    if ov.len() > 0 {
        ov
    } else {
        stored
    }
}

/// A field still empty after overrides is filled from the global default.
pub open spec fn default_field(v: Seq<char>, def: Seq<char>) -> Seq<char> {
    if v.len() == 0 {
        def
    } else {
        v
    }
}

/// Resolution precedence is strict and per-field: override over stored
/// value over default, never short-circuited at the profile level.
pub proof fn lemma_resolution_precedence(stored: Seq<char>, ov: Seq<char>, def: Seq<char>)
    ensures
        default_field(override_field(stored, ov), def) == (if ov.len() > 0 {
            ov
        } else if stored.len() > 0 {
            stored
        } else {
            def
        }),
{
}

fn pick_override(stored: &String, ov: &str) -> (r: String)
    ensures
        r@ == override_field(stored@, ov@),
{
    if ov.is_empty() {
        stored.clone()
    } else {
        ov.to_owned()
    }
}

fn pick_default(v: &String, def: &str) -> (r: String)
    ensures
        r@ == default_field(v@, def@),
{
    if v.as_str().is_empty() {
        def.to_owned()
    } else {
        v.clone()
    }
}

/// A confidential-client identity for the client-credentials grant.
#[derive(Debug, PartialEq)]
pub struct AppProfile {
    pub name: String,
    pub client_id: String,
    pub secret: String,
    pub tenant: String,
    pub authority: String,
    pub resource: String,
}

impl Clone for AppProfile {
    fn clone(&self) -> (r: Self)
        ensures
            r == *self,
    {
        AppProfile {
            name: self.name.clone(),
            client_id: self.client_id.clone(),
            secret: self.secret.clone(),
            tenant: self.tenant.clone(),
            authority: self.authority.clone(),
            resource: self.resource.clone(),
        }
    }
}

impl AppProfile {
    /// The cache fingerprint of this profile: the variant tag and exactly
    /// the fields that shape the server-side grant request.  The display
    /// name and the secret are deliberately excluded.
    pub open spec fn spec_key(&self) -> Seq<char> {
        "App:"@ + self.client_id@ + "\t"@ + self.tenant@ + "\t"@ + self.authority@ + "\t"@
            + self.resource@
    }

    /// Every field the client-credentials flow sends is present.
    pub open spec fn spec_is_valid(&self) -> bool {
        &&& self.client_id@.len() > 0
        &&& self.secret@.len() > 0
        &&& self.tenant@.len() > 0
        &&& self.authority@.len() > 0
    }

    /// Whether this profile may be used to attempt acquisition.
    pub fn is_valid(&self) -> (r: bool)
        ensures
            r == self.spec_is_valid(),
    {
        !(self.client_id.as_str().is_empty() || self.secret.as_str().is_empty()
            || self.tenant.as_str().is_empty() || self.authority.as_str().is_empty())
    }

    /// The fingerprint key this profile's tokens are cached under.
    pub fn get_key(&self) -> (r: String)
        ensures
            r@ == self.spec_key(),
    {
        let mut k = String::from_str("App:");
        k.append(self.client_id.as_str());
        k.append("\t");
        k.append(self.tenant.as_str());
        k.append("\t");
        k.append(self.authority.as_str());
        k.append("\t");
        k.append(self.resource.as_str());
        k
    }
}

/// A public-client identity for the device-code grant.
#[derive(Debug, PartialEq)]
pub struct UserProfile {
    pub name: String,
    pub client_id: String,
    pub tenant: String,
    pub authority: String,
    pub scope: String,
}

impl Clone for UserProfile {
    fn clone(&self) -> (r: Self)
        ensures
            r == *self,
    {
        UserProfile {
            name: self.name.clone(),
            client_id: self.client_id.clone(),
            tenant: self.tenant.clone(),
            authority: self.authority.clone(),
            scope: self.scope.clone(),
        }
    }
}

impl UserProfile {
    /// The cache fingerprint of this profile; the display name is
    /// deliberately excluded.
    pub open spec fn spec_key(&self) -> Seq<char> {
        "User:"@ + self.client_id@ + "\t"@ + self.tenant@ + "\t"@ + self.authority@ + "\t"@
            + self.scope@
    }

    /// Every field the device-code flow sends is present.
    pub open spec fn spec_is_valid(&self) -> bool {
        &&& self.client_id@.len() > 0
        &&& self.authority@.len() > 0
        &&& self.tenant@.len() > 0
        &&& self.scope@.len() > 0
    }

    /// Whether this profile may be used to attempt acquisition.
    pub fn is_valid(&self) -> (r: bool)
        ensures
            r == self.spec_is_valid(),
    {
        !(self.client_id.as_str().is_empty() || self.authority.as_str().is_empty()
            || self.tenant.as_str().is_empty() || self.scope.as_str().is_empty())
    }

    /// The fingerprint key this profile's tokens are cached under.
    pub fn get_key(&self) -> (r: String)
        ensures
            r@ == self.spec_key(),
    {
        let mut k = String::from_str("User:");
        k.append(self.client_id.as_str());
        k.append("\t");
        k.append(self.tenant.as_str());
        k.append("\t");
        k.append(self.authority.as_str());
        k.append("\t");
        k.append(self.scope.as_str());
        k
    }
}

/// Two application profiles that request the same server-side grant share
/// one cache entry, whatever their display names and secrets.
pub proof fn lemma_app_fingerprint_ignores_name_and_secret(p1: AppProfile, p2: AppProfile)
    requires
        p1.client_id@ == p2.client_id@,
        p1.tenant@ == p2.tenant@,
        p1.authority@ == p2.authority@,
        p1.resource@ == p2.resource@,
    ensures
        p1.spec_key() == p2.spec_key(),
{
}

/// Two user profiles that request the same server-side grant share one
/// cache entry, whatever their display names.
pub proof fn lemma_user_fingerprint_ignores_name(p1: UserProfile, p2: UserProfile)
    requires
        p1.client_id@ == p2.client_id@,
        p1.tenant@ == p2.tenant@,
        p1.authority@ == p2.authority@,
        p1.scope@ == p2.scope@,
    ensures
        p1.spec_key() == p2.spec_key(),
{
}

/// A user profile without a scope is invalid, and so may never reach
/// acquisition: the request builders demand validity.
pub proof fn lemma_missing_scope_invalid(p: UserProfile)
    requires
        p.scope@.len() == 0,
    ensures
        !p.spec_is_valid(),
{
}

/// A named identity of either variant, as resolved for one invocation.
#[derive(Debug, PartialEq)]
pub enum Profile {
    App(AppProfile),
    User(UserProfile),
}

impl Clone for Profile {
    fn clone(&self) -> (r: Self)
        ensures
            r == *self,
    {
        match self {
            Profile::App(p) => Profile::App(p.clone()),
            Profile::User(p) => Profile::User(p.clone()),
        }
    }
}

impl Profile {
    /// The cache fingerprint of either variant.
    pub open spec fn spec_key(&self) -> Seq<char> {
        match self {
            Profile::App(p) => p.spec_key(),
            Profile::User(p) => p.spec_key(),
        }
    }

    /// The display name, used only for lookup by configuration.
    pub open spec fn spec_name(&self) -> Seq<char> {
        match self {
            Profile::App(p) => p.name@,
            Profile::User(p) => p.name@,
        }
    }

    /// Validity of either variant.
    pub open spec fn spec_is_valid(&self) -> bool {
        match self {
            Profile::App(p) => p.spec_is_valid(),
            Profile::User(p) => p.spec_is_valid(),
        }
    }

    /// The fingerprint key this profile's tokens are cached under.
    pub fn get_key(&self) -> (r: String)
        ensures
            r@ == self.spec_key(),
    {
        match self {
            Profile::App(p) => p.get_key(),
            Profile::User(p) => p.get_key(),
        }
    }

    /// The display name, used only for lookup by configuration.
    pub fn get_name(&self) -> (r: &str)
        ensures
            r@ == self.spec_name(),
    {
        match self {
            Profile::App(p) => p.name.as_str(),
            Profile::User(p) => p.name.as_str(),
        }
    }

    /// Whether this profile may be used to attempt acquisition.
    pub fn is_valid(&self) -> (r: bool)
        ensures
            r == self.spec_is_valid(),
    {
        match self {
            Profile::App(p) => p.is_valid(),
            Profile::User(p) => p.is_valid(),
        }
    }

    /// This profile with each non-empty override in place of the stored
    /// value.  Overrides that do not apply to the variant (`secret` and
    /// `resource` for user profiles, `scope` for application profiles) are
    /// ignored; the display name is kept.
    pub fn with_overrides(
        &self,
        client_id: &str,
        secret: &str,
        tenant: &str,
        authority: &str,
        resource: &str,
        scope: &str,
    ) -> (r: Profile)
        ensures
            (self matches Profile::App(p) ==> (r matches Profile::App(q) && q.name@ == p.name@
                && q.client_id@ == override_field(p.client_id@, client_id@) && q.secret@
                == override_field(p.secret@, secret@) && q.tenant@ == override_field(
                p.tenant@,
                tenant@,
            ) && q.authority@ == override_field(p.authority@, authority@) && q.resource@
                == override_field(p.resource@, resource@))),
            (self matches Profile::User(p) ==> (r matches Profile::User(q) && q.name@ == p.name@
                && q.client_id@ == override_field(p.client_id@, client_id@) && q.tenant@
                == override_field(p.tenant@, tenant@) && q.authority@ == override_field(
                p.authority@,
                authority@,
            ) && q.scope@ == override_field(p.scope@, scope@))),
    {
        match self {
            Profile::App(p) => Profile::App(
                AppProfile {
                    name: p.name.clone(),
                    client_id: pick_override(&p.client_id, client_id),
                    secret: pick_override(&p.secret, secret),
                    tenant: pick_override(&p.tenant, tenant),
                    authority: pick_override(&p.authority, authority),
                    resource: pick_override(&p.resource, resource),
                },
            ),
            Profile::User(p) => Profile::User(
                UserProfile {
                    name: p.name.clone(),
                    client_id: pick_override(&p.client_id, client_id),
                    tenant: pick_override(&p.tenant, tenant),
                    authority: pick_override(&p.authority, authority),
                    scope: pick_override(&p.scope, scope),
                },
            ),
        }
    }

    /// This profile with every still-empty field filled from the global
    /// defaults.  `resource` has no global default and is kept as stored.
    pub fn with_defaults(
        &self,
        client_id: &str,
        secret: &str,
        tenant: &str,
        authority: &str,
        scope: &str,
    ) -> (r: Profile)
        ensures
            (self matches Profile::App(p) ==> (r matches Profile::App(q) && q.name@ == p.name@
                && q.client_id@ == default_field(p.client_id@, client_id@) && q.secret@
                == default_field(p.secret@, secret@) && q.tenant@ == default_field(
                p.tenant@,
                tenant@,
            ) && q.authority@ == default_field(p.authority@, authority@) && q.resource@
                == p.resource@)),
            (self matches Profile::User(p) ==> (r matches Profile::User(q) && q.name@ == p.name@
                && q.client_id@ == default_field(p.client_id@, client_id@) && q.tenant@
                == default_field(p.tenant@, tenant@) && q.authority@ == default_field(
                p.authority@,
                authority@,
            ) && q.scope@ == default_field(p.scope@, scope@))),
    {
        match self {
            Profile::App(p) => Profile::App(
                AppProfile {
                    name: p.name.clone(),
                    client_id: pick_default(&p.client_id, client_id),
                    secret: pick_default(&p.secret, secret),
                    tenant: pick_default(&p.tenant, tenant),
                    authority: pick_default(&p.authority, authority),
                    resource: p.resource.clone(),
                },
            ),
            Profile::User(p) => Profile::User(
                UserProfile {
                    name: p.name.clone(),
                    client_id: pick_default(&p.client_id, client_id),
                    tenant: pick_default(&p.tenant, tenant),
                    authority: pick_default(&p.authority, authority),
                    scope: pick_default(&p.scope, scope),
                },
            ),
        }
    }

    /// A bare profile of the requested type, synthesized from the raw
    /// overrides when no stored profile matches the requested name.  A type
    /// that names neither variant is a configuration error.
    pub fn create(
        profile_type: &str,
        client_id: &str,
        secret: &str,
        tenant: &str,
        authority: &str,
        resource: &str,
        scope: &str,
    ) -> (r: Result<Profile, Error>)
        ensures
            profile_type@ == "App"@ ==> (r matches Ok(Profile::App(p)) && p.name@.len() == 0
                && p.client_id@ == client_id@ && p.secret@ == secret@ && p.tenant@ == tenant@
                && p.authority@ == authority@ && p.resource@ == resource@),
            profile_type@ == "User"@ ==> (r matches Ok(Profile::User(p)) && p.name@.len() == 0
                && p.client_id@ == client_id@ && p.tenant@ == tenant@ && p.authority@ == authority@
                && p.scope@ == scope@),
            profile_type@ != "App"@ && profile_type@ != "User"@ ==> r matches Err(
                Error::UnknownProfileType,
            ),
    {
        proof {
            reveal_strlit("App");
            reveal_strlit("User");
            assert("App"@.len() == 3);
            assert("User"@.len() == 4);
            assert("App"@ != "User"@);
        }
        if str_eq(profile_type, "App") {
            Ok(
                Profile::App(
                    AppProfile {
                        name: String::new(),
                        client_id: client_id.to_owned(),
                        secret: secret.to_owned(),
                        tenant: tenant.to_owned(),
                        authority: authority.to_owned(),
                        resource: resource.to_owned(),
                    },
                ),
            )
        } else if str_eq(profile_type, "User") {
            Ok(
                Profile::User(
                    UserProfile {
                        name: String::new(),
                        client_id: client_id.to_owned(),
                        tenant: tenant.to_owned(),
                        authority: authority.to_owned(),
                        scope: scope.to_owned(),
                    },
                ),
            )
        } else {
            Err(Error::UnknownProfileType)
        }
    }
}

} // verus!
