//! The configuration the process hands in, and the resolution of a
//! requested profile name against it.
//!
//! Resolution locates the stored profile by name (the configured default
//! name when none is requested), applies the command-line overrides
//! field by field, then fills every still-empty field from the global
//! defaults; when no stored profile matches, a bare profile of the
//! requested type is synthesized from the raw overrides and defaulted the
//! same way.

use vstd::prelude::*;
use vstd::string::StringExecFns;

use crate::error::Error;
use crate::profile::{default_field, override_field, AppProfile, Profile, UserProfile};
use crate::text::str_eq;

verus! {

/// The position of the first stored profile named `name`, or -1 when
/// none is.
pub open spec fn first_named(profiles: Seq<Profile>, name: Seq<char>) -> int
    decreases profiles.len(),
{
    if profiles.len() == 0 {
        -1
    } else if profiles[0].spec_name() == name {
        0
    } else {
        let rest = first_named(profiles.drop_first(), name);
        if rest < 0 {
            -1
        } else {
            rest + 1
        }
    }
}

proof fn lemma_first_named_found(profiles: Seq<Profile>, name: Seq<char>, i: int)
    requires
        0 <= i < profiles.len(),
        profiles[i].spec_name() == name,
        forall|j: int| 0 <= j < i ==> profiles[j].spec_name() != name,
    ensures
        first_named(profiles, name) == i,
    decreases i,
{
    if i > 0 {
        lemma_first_named_found(profiles.drop_first(), name, i - 1);
    }
}

proof fn lemma_first_named_absent(profiles: Seq<Profile>, name: Seq<char>)
    requires
        forall|j: int| 0 <= j < profiles.len() ==> profiles[j].spec_name() != name,
    ensures
        first_named(profiles, name) == -1,
    decreases profiles.len(),
{
    if profiles.len() > 0 {
        lemma_first_named_absent(profiles.drop_first(), name);
    }
}

/// What the process's configuration supplies: the default profile name,
/// the global field defaults, and the stored profiles in order.
#[derive(Debug, PartialEq)]
pub struct Configuration {
    pub default_profile: String,
    pub default_client_id: String,
    pub default_secret: String,
    pub default_tenant: String,
    pub default_authority: String,
    pub default_scope: String,
    pub profiles: Vec<Profile>,
}

impl Configuration {
    /// An empty configuration: no defaults, no stored profiles.  Used
    /// whenever the persisted configuration is missing or unreadable.
    pub fn new() -> (r: Configuration)
        ensures
            r.default_profile@.len() == 0,
            r.default_client_id@.len() == 0,
            r.default_secret@.len() == 0,
            r.default_tenant@.len() == 0,
            r.default_authority@.len() == 0,
            r.default_scope@.len() == 0,
            r.profiles@.len() == 0,
    {
        Configuration {
            default_profile: String::new(),
            default_client_id: String::new(),
            default_secret: String::new(),
            default_tenant: String::new(),
            default_authority: String::new(),
            default_scope: String::new(),
            profiles: Vec::new(),
        }
    }

    /// This configuration with the standard fallbacks applied: a missing
    /// default profile name becomes `DEFAULT`, and a missing default
    /// authority becomes the public Azure AD endpoint.
    pub fn with_standard_fallbacks(self) -> (r: Configuration)
        ensures
            r.default_profile@ == default_field(self.default_profile@, "DEFAULT"@),
            r.default_authority@ == default_field(
                self.default_authority@,
                "https://login.microsoftonline.com"@,
            ),
            r.default_client_id@ == self.default_client_id@,
            r.default_secret@ == self.default_secret@,
            r.default_tenant@ == self.default_tenant@,
            r.default_scope@ == self.default_scope@,
            r.profiles == self.profiles,
    {
        let default_profile = if self.default_profile.as_str().is_empty() {
            String::from_str("DEFAULT")
        } else {
            self.default_profile
        };
        let default_authority = if self.default_authority.as_str().is_empty() {
            String::from_str("https://login.microsoftonline.com")
        } else {
            self.default_authority
        };
        Configuration {
            default_profile,
            default_client_id: self.default_client_id,
            default_secret: self.default_secret,
            default_tenant: self.default_tenant,
            default_authority,
            default_scope: self.default_scope,
            profiles: self.profiles,
        }
    }

    /// The name resolution actually looks up: the requested name, or the
    /// configured default name when none was requested.
    pub open spec fn spec_requested_name(&self, name: Seq<char>) -> Seq<char> {
        if name.len() == 0 {
            self.default_profile@
        } else {
            name
        }
    }

    /// `q` is `p` resolved against the overrides and this configuration's
    /// defaults: override over stored value over default, independently
    /// per field.  `resource` is only overridden, never defaulted;
    /// overrides that do not apply to the variant are ignored.
    pub open spec fn spec_resolved(
        &self,
        q: Profile,
        p: Profile,
        client_id: Seq<char>,
        secret: Seq<char>,
        tenant: Seq<char>,
        authority: Seq<char>,
        resource: Seq<char>,
        scope: Seq<char>,
    ) -> bool {
        match (p, q) {
            (Profile::App(pp), Profile::App(qq)) => {
                &&& qq.name@ == pp.name@
                &&& qq.client_id@ == default_field(
                    override_field(pp.client_id@, client_id),
                    self.default_client_id@,
                )
                &&& qq.secret@ == default_field(
                    override_field(pp.secret@, secret),
                    self.default_secret@,
                )
                &&& qq.tenant@ == default_field(
                    override_field(pp.tenant@, tenant),
                    self.default_tenant@,
                )
                &&& qq.authority@ == default_field(
                    override_field(pp.authority@, authority),
                    self.default_authority@,
                )
                &&& qq.resource@ == override_field(pp.resource@, resource)
            },
            (Profile::User(pp), Profile::User(qq)) => {
                &&& qq.name@ == pp.name@
                &&& qq.client_id@ == default_field(
                    override_field(pp.client_id@, client_id),
                    self.default_client_id@,
                )
                &&& qq.tenant@ == default_field(
                    override_field(pp.tenant@, tenant),
                    self.default_tenant@,
                )
                &&& qq.authority@ == default_field(
                    override_field(pp.authority@, authority),
                    self.default_authority@,
                )
                &&& qq.scope@ == default_field(
                    override_field(pp.scope@, scope),
                    self.default_scope@,
                )
            },
            _ => false,
        }
    }

    /// `q` is the profile synthesized from the raw overrides and this
    /// configuration's defaults, as used when no stored profile matches.
    pub open spec fn spec_synthesized(
        &self,
        q: Profile,
        profile_type: Seq<char>,
        client_id: Seq<char>,
        secret: Seq<char>,
        tenant: Seq<char>,
        authority: Seq<char>,
        resource: Seq<char>,
        scope: Seq<char>,
    ) -> bool {
        match q {
            Profile::App(qq) => {
                &&& profile_type == "App"@
                &&& qq.name@.len() == 0
                &&& qq.client_id@ == default_field(client_id, self.default_client_id@)
                &&& qq.secret@ == default_field(secret, self.default_secret@)
                &&& qq.tenant@ == default_field(tenant, self.default_tenant@)
                &&& qq.authority@ == default_field(authority, self.default_authority@)
                &&& qq.resource@ == resource
            },
            Profile::User(qq) => {
                &&& profile_type == "User"@
                &&& qq.name@.len() == 0
                &&& qq.client_id@ == default_field(client_id, self.default_client_id@)
                &&& qq.tenant@ == default_field(tenant, self.default_tenant@)
                &&& qq.authority@ == default_field(authority, self.default_authority@)
                &&& qq.scope@ == default_field(scope, self.default_scope@)
            },
        }
    }

    /// Resolves one invocation's profile: the first stored profile with
    /// the requested name (the configured default name when none is
    /// requested), with overrides and then defaults applied per field —
    /// or, when no stored profile matches, a bare profile synthesized
    /// from the requested type and the raw overrides, defaulted the same
    /// way.  An unknown type in that path is a configuration error.
    pub fn get_profile(
        &self,
        name: &str,
        profile_type: &str,
        client_id: &str,
        secret: &str,
        tenant: &str,
        authority: &str,
        resource: &str,
        scope: &str,
    ) -> (r: Result<Profile, Error>)
        ensures
            ({
                let nm = self.spec_requested_name(name@);
                let idx = first_named(self.profiles@, nm);
                if idx >= 0 {
                    r matches Ok(q) && self.spec_resolved(
                        q,
                        self.profiles@[idx],
                        client_id@,
                        secret@,
                        tenant@,
                        authority@,
                        resource@,
                        scope@,
                    )
                } else if profile_type@ == "App"@ || profile_type@ == "User"@ {
                    r matches Ok(q) && self.spec_synthesized(
                        q,
                        profile_type@,
                        client_id@,
                        secret@,
                        tenant@,
                        authority@,
                        resource@,
                        scope@,
                    )
                } else {
                    r matches Err(Error::UnknownProfileType)
                }
            }),
    {
        let lookup: &str = if name.is_empty() {
            self.default_profile.as_str()
        } else {
            name
        };
        let ghost nm = self.spec_requested_name(name@);
        let n = self.profiles.len();
        let mut i: usize = 0;
        while i < n
            invariant
                n == self.profiles@.len(),
                0 <= i <= n,
                nm == self.spec_requested_name(name@),
                lookup@ == nm,
                forall|j: int| 0 <= j < i ==> self.profiles@[j].spec_name() != nm,
            decreases n - i,
        {
            if str_eq(self.profiles[i].get_name(), lookup) {
                proof {
                    lemma_first_named_found(self.profiles@, nm, i as int);
                }
                let found = &self.profiles[i];
                let resolved = found.with_overrides(
                    client_id,
                    secret,
                    tenant,
                    authority,
                    resource,
                    scope,
                ).with_defaults(
                    self.default_client_id.as_str(),
                    self.default_secret.as_str(),
                    self.default_tenant.as_str(),
                    self.default_authority.as_str(),
                    self.default_scope.as_str(),
                );
                return Ok(resolved);
            }
            i = i + 1;
        }
        proof {
            lemma_first_named_absent(self.profiles@, nm);
        }
        let created = Profile::create(
            profile_type,
            client_id,
            secret,
            tenant,
            authority,
            resource,
            scope,
        );
        match created {
            Ok(bare) => Ok(
                bare.with_defaults(
                    self.default_client_id.as_str(),
                    self.default_secret.as_str(),
                    self.default_tenant.as_str(),
                    self.default_authority.as_str(),
                    self.default_scope.as_str(),
                ),
            ),
            Err(e) => Err(e),
        }
    }
}

} // verus!
