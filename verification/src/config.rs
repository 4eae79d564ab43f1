//! Configuration snapshots: one fully validated configuration value, the
//! edits that a configuration document asks for, and the merge of the two.

use vstd::prelude::*;
use vstd::string::*;

verus! {

/// The challenge lifetime of the template configuration, in seconds.
pub const DEFAULT_CHALLENGE_EXPIRY: u32 = 30;

/// The token lifetime of the template configuration, in seconds.
pub const DEFAULT_TOKEN_EXPIRY: u64 = 86400;

/// Why a candidate configuration is refused.
#[derive(Clone, Copy, Debug, PartialEq, Eq, Structural)]
pub enum ConfigError {
    /// The web mountpoint is empty or does not begin with `/`.
    BadMountpoint,
    /// The primary secret key is empty.
    EmptySecretKey,
    /// The secondary secret key is empty.
    EmptySecondarySecretKey,
}

/// The mathematical content of a configuration.
pub ghost struct ConfigView {
    pub web_mountpoint: Seq<char>,
    pub secret_key: Seq<char>,
    pub secret_key2: Seq<char>,
    pub maintenance: bool,
    pub use_external_verification: bool,
    pub challenge_expiry: u32,
    pub token_expiry: u64,
}

/// The mathematical content of an edit: `None` keeps the prior value.
pub ghost struct EditView {
    pub web_mountpoint: Option<Seq<char>>,
    pub secret_key: Option<Seq<char>>,
    pub secret_key2: Option<Seq<char>>,
    pub maintenance: Option<bool>,
    pub use_external_verification: Option<bool>,
    pub challenge_expiry: Option<u32>,
    pub token_expiry: Option<u64>,
}

/// The first rule that `c` breaks, in the order mountpoint, primary secret,
/// secondary secret; `None` when it breaks none.
pub open spec fn first_violation(c: ConfigView) -> Option<ConfigError> {
    if c.web_mountpoint.len() == 0 || c.web_mountpoint[0] != '/' {
        Some(ConfigError::BadMountpoint)
    } else if c.secret_key.len() == 0 {
        Some(ConfigError::EmptySecretKey)
    } else if c.secret_key2.len() == 0 {
        Some(ConfigError::EmptySecondarySecretKey)
    } else {
        None
    }
}

/// The text that an optional string stands for.
pub open spec fn text_of(field: Option<String>) -> Option<Seq<char>> {
    match field {
        Some(s) => Some(s@),
        None => None,
    }
}

/// `fresh` where the edit gives a value, else `prior`.
pub open spec fn pick<T>(fresh: Option<T>, prior: T) -> T {
    match fresh {
        Some(v) => v,
        None => prior,
    }
}

/// The configuration that `edit` asks for on top of `base`: each field that
/// the edit names is taken from it, every other field keeps its prior value.
pub open spec fn merge(base: ConfigView, edit: EditView) -> ConfigView {
    ConfigView {
        web_mountpoint: pick(edit.web_mountpoint, base.web_mountpoint),
        secret_key: pick(edit.secret_key, base.secret_key),
        secret_key2: pick(edit.secret_key2, base.secret_key2),
        maintenance: pick(edit.maintenance, base.maintenance),
        use_external_verification: pick(
            edit.use_external_verification,
            base.use_external_verification,
        ),
        challenge_expiry: pick(edit.challenge_expiry, base.challenge_expiry),
        token_expiry: pick(edit.token_expiry, base.token_expiry),
    }
}

/// What validating the candidate `c` yields: `c` itself where it is valid,
/// else the first rule it breaks.
pub open spec fn validated(c: ConfigView) -> Result<ConfigView, ConfigError> {
    match first_violation(c) {
        Some(e) => Err(e),
        None => Ok(c),
    }
}

/// What applying `edit` to `base` yields: the merged configuration where it
/// is valid, else the first rule it breaks.
pub open spec fn merge_result(base: ConfigView, edit: EditView) -> Result<ConfigView, ConfigError> {
    validated(merge(base, edit))
}

/// The configuration that a fresh installation starts from, with the given
/// secrets: mounted at `/`, maintenance off, external verification off, and
/// the default lifetimes.
pub open spec fn template_view(secret_key: Seq<char>, secret_key2: Seq<char>) -> ConfigView {
    ConfigView {
        web_mountpoint: "/"@,
        secret_key,
        secret_key2,
        maintenance: false,
        use_external_verification: false,
        challenge_expiry: DEFAULT_CHALLENGE_EXPIRY,
        token_expiry: DEFAULT_TOKEN_EXPIRY,
    }
}

impl ConfigView {
    /// A configuration is valid when it breaks no rule.
    pub open spec fn is_valid(self) -> bool {
        first_violation(self) is None
    }
}

impl EditView {
    /// The edit that names every field of `c`.
    pub open spec fn full(c: ConfigView) -> EditView {
        EditView {
            web_mountpoint: Some(c.web_mountpoint),
            secret_key: Some(c.secret_key),
            secret_key2: Some(c.secret_key2),
            maintenance: Some(c.maintenance),
            use_external_verification: Some(c.use_external_verification),
            challenge_expiry: Some(c.challenge_expiry),
            token_expiry: Some(c.token_expiry),
        }
    }

    /// The edit that names no field.
    pub open spec fn empty() -> EditView {
        EditView {
            web_mountpoint: None,
            secret_key: None,
            secret_key2: None,
            maintenance: None,
            use_external_verification: None,
            challenge_expiry: None,
            token_expiry: None,
        }
    }
}

/// What one configuration document asks for. A field left `None` is not
/// named by the document and keeps its prior value.
#[derive(Debug, PartialEq, Eq)]
pub struct ConfigEdit {
    pub web_mountpoint: Option<String>,
    pub secret_key: Option<String>,
    pub secret_key2: Option<String>,
    pub maintenance: Option<bool>,
    pub use_external_verification: Option<bool>,
    pub challenge_expiry: Option<u32>,
    pub token_expiry: Option<u64>,
}

impl View for ConfigEdit {
    type V = EditView;

    open spec fn view(&self) -> EditView {
        EditView {
            web_mountpoint: text_of(self.web_mountpoint),
            secret_key: text_of(self.secret_key),
            secret_key2: text_of(self.secret_key2),
            maintenance: self.maintenance,
            use_external_verification: self.use_external_verification,
            challenge_expiry: self.challenge_expiry,
            token_expiry: self.token_expiry,
        }
    }
}

/// A copy of an optional string.
fn clone_text(field: &Option<String>) -> (r: Option<String>)
    ensures
        text_of(r) == text_of(*field),
{
    match field {
        Some(s) => Some(s.clone()),
        None => None,
    }
}

impl Clone for ConfigEdit {
    fn clone(&self) -> (copy: ConfigEdit)
        ensures
            copy@ == self@,
    {
        ConfigEdit {
            web_mountpoint: clone_text(&self.web_mountpoint),
            secret_key: clone_text(&self.secret_key),
            secret_key2: clone_text(&self.secret_key2),
            maintenance: self.maintenance,
            use_external_verification: self.use_external_verification,
            challenge_expiry: self.challenge_expiry,
            token_expiry: self.token_expiry,
        }
    }
}

impl ConfigEdit {
    /// The edit that names no field.
    pub fn empty() -> (edit: ConfigEdit)
        ensures
            edit@ == EditView::empty(),
    {
        ConfigEdit {
            web_mountpoint: None,
            secret_key: None,
            secret_key2: None,
            maintenance: None,
            use_external_verification: None,
            challenge_expiry: None,
            token_expiry: None,
        }
    }
}

/// One immutable, fully validated configuration. A value of this type is
/// valid by construction: every function that makes one refuses a candidate
/// that breaks a rule, and none changes one once it is made.
#[derive(Debug, PartialEq, Eq)]
pub struct ConfigSnapshot {
    web_mountpoint: String,
    secret_key: String,
    secret_key2: String,
    maintenance: bool,
    use_external_verification: bool,
    challenge_expiry: u32,
    token_expiry: u64,
}

impl View for ConfigSnapshot {
    type V = ConfigView;

    closed spec fn view(&self) -> ConfigView {
        ConfigView {
            web_mountpoint: self.web_mountpoint@,
            secret_key: self.secret_key@,
            secret_key2: self.secret_key2@,
            maintenance: self.maintenance,
            use_external_verification: self.use_external_verification,
            challenge_expiry: self.challenge_expiry,
            token_expiry: self.token_expiry,
        }
    }
}

/// Whether `s` begins with `/`.
fn starts_with_slash(s: &str) -> (r: bool)
    ensures
        r == (s@.len() > 0 && s@[0] == '/'),
{
    !s.is_empty() && s.get_char(0) == '/'
}

/// `fresh` cloned where the edit gives a value, else `prior` cloned.
fn pick_text(fresh: &Option<String>, prior: &String) -> (r: String)
    ensures
        r@ == pick(text_of(*fresh), prior@),
{
    match fresh {
        Some(s) => s.clone(),
        None => prior.clone(),
    }
}

impl ConfigSnapshot {
    /// What holds of every snapshot: it breaks no rule.
    #[verifier::type_invariant]
    pub open spec fn valid(self) -> bool {
        self@.is_valid()
    }

    /// Builds a snapshot from a value for every field, or names the first
    /// rule that the values break.
    pub fn new(
        web_mountpoint: String,
        secret_key: String,
        secret_key2: String,
        maintenance: bool,
        use_external_verification: bool,
        challenge_expiry: u32,
        token_expiry: u64,
    ) -> (r: Result<ConfigSnapshot, ConfigError>)
        ensures
            ({
                let candidate = ConfigView {
                    web_mountpoint: web_mountpoint@,
                    secret_key: secret_key@,
                    secret_key2: secret_key2@,
                    maintenance,
                    use_external_verification,
                    challenge_expiry,
                    token_expiry,
                };
                match r {
                    Ok(snapshot) => validated(candidate) == Ok::<ConfigView, ConfigError>(
                        snapshot@,
                    ),
                    Err(e) => validated(candidate) == Err::<ConfigView, ConfigError>(e),
                }
            }),
    {
        if !starts_with_slash(web_mountpoint.as_str()) {
            Err(ConfigError::BadMountpoint)
        } else if secret_key.as_str().is_empty() {
            Err(ConfigError::EmptySecretKey)
        } else if secret_key2.as_str().is_empty() {
            Err(ConfigError::EmptySecondarySecretKey)
        } else {
            Ok(
                ConfigSnapshot {
                    web_mountpoint,
                    secret_key,
                    secret_key2,
                    maintenance,
                    use_external_verification,
                    challenge_expiry,
                    token_expiry,
                },
            )
        }
    }

    /// The configuration that a fresh installation starts from, with the
    /// given secrets. The only candidates refused are those with an empty
    /// secret.
    pub fn template(secret_key: String, secret_key2: String) -> (r: Result<
        ConfigSnapshot,
        ConfigError,
    >)
        ensures
            match r {
                Ok(snapshot) => validated(template_view(secret_key@, secret_key2@)) == Ok::<
                    ConfigView,
                    ConfigError,
                >(snapshot@),
                Err(e) => validated(template_view(secret_key@, secret_key2@)) == Err::<
                    ConfigView,
                    ConfigError,
                >(e),
            },
            r is Err <==> secret_key@.len() == 0 || secret_key2@.len() == 0,
    {
        proof {
            reveal_strlit("/");
        }
        ConfigSnapshot::new(
            String::from_str("/"),
            secret_key,
            secret_key2,
            false,
            false,
            DEFAULT_CHALLENGE_EXPIRY,
            DEFAULT_TOKEN_EXPIRY,
        )
    }

    /// Applies `edit` on top of this snapshot. The result is a new snapshot
    /// that holds the merged fields in full, or the first rule that the
    /// merged fields break; this snapshot is never changed.
    pub fn merged(&self, edit: &ConfigEdit) -> (r: Result<ConfigSnapshot, ConfigError>)
        ensures
            match r {
                Ok(snapshot) => merge_result(self@, edit@) == Ok::<ConfigView, ConfigError>(
                    snapshot@,
                ),
                Err(e) => merge_result(self@, edit@) == Err::<ConfigView, ConfigError>(e),
            },
    {
        ConfigSnapshot::new(
            pick_text(&edit.web_mountpoint, &self.web_mountpoint),
            pick_text(&edit.secret_key, &self.secret_key),
            pick_text(&edit.secret_key2, &self.secret_key2),
            match edit.maintenance { Some(v) => v, None => self.maintenance },
            match edit.use_external_verification {
                Some(v) => v,
                None => self.use_external_verification,
            },
            match edit.challenge_expiry { Some(v) => v, None => self.challenge_expiry },
            match edit.token_expiry { Some(v) => v, None => self.token_expiry },
        )
    }

    /// The path under which the web routes are mounted. It begins with `/`.
    pub fn web_mountpoint(&self) -> (r: &str)
        ensures
            r@ == self@.web_mountpoint,
            r@.len() > 0 && r@[0] == '/',
    {
        proof {
            use_type_invariant(self);
        }
        self.web_mountpoint.as_str()
    }

    /// The primary secret key. It is not empty.
    pub fn secret_key(&self) -> (r: &str)
        ensures
            r@ == self@.secret_key,
            r@.len() > 0,
    {
        proof {
            use_type_invariant(self);
        }
        self.secret_key.as_str()
    }

    /// The secondary secret key. It is not empty.
    pub fn secret_key2(&self) -> (r: &str)
        ensures
            r@ == self@.secret_key2,
            r@.len() > 0,
    {
        proof {
            use_type_invariant(self);
        }
        self.secret_key2.as_str()
    }

    /// Whether the service is in maintenance mode.
    pub fn maintenance(&self) -> (r: bool)
        ensures
            r == self@.maintenance,
    {
        self.maintenance
    }

    /// Whether accounts are verified against the external authority.
    pub fn use_external_verification(&self) -> (r: bool)
        ensures
            r == self@.use_external_verification,
    {
        self.use_external_verification
    }

    /// Seconds for which an issued challenge stays open.
    pub fn challenge_expiry(&self) -> (r: u32)
        ensures
            r == self@.challenge_expiry,
    {
        self.challenge_expiry
    }

    /// Seconds for which an issued token stays good.
    pub fn token_expiry(&self) -> (r: u64)
        ensures
            r == self@.token_expiry,
    {
        self.token_expiry
    }
}

impl Clone for ConfigSnapshot {
    fn clone(&self) -> (copy: ConfigSnapshot)
        ensures
            copy@ == self@,
    {
        proof {
            use_type_invariant(self);
        }
        ConfigSnapshot {
            web_mountpoint: self.web_mountpoint.clone(),
            secret_key: self.secret_key.clone(),
            secret_key2: self.secret_key2.clone(),
            maintenance: self.maintenance,
            use_external_verification: self.use_external_verification,
            challenge_expiry: self.challenge_expiry,
            token_expiry: self.token_expiry,
        }
    }
}

/// An edit that names no field asks for the configuration as it is.
pub proof fn law_empty_edit_keeps_everything(base: ConfigView)
    ensures
        merge(base, EditView::empty()) == base,
        base.is_valid() ==> merge_result(base, EditView::empty()) == Ok::<ConfigView, ConfigError>(
            base,
        ),
{
}

/// An edit that names every field asks for exactly the configuration it
/// names, whatever was there before.
pub proof fn law_full_edit_replaces_everything(base: ConfigView, fresh: ConfigView)
    ensures
        merge(base, EditView::full(fresh)) == fresh,
        merge_result(base, EditView::full(fresh)) == validated(fresh),
{
}

} // verus!
