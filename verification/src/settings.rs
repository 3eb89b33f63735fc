//! Persisted user settings and the API credential configuration: the
//! default shortcut, the settings-file location, credential validation,
//! and the change detection that drives a settings save.

use vstd::prelude::*;
use vstd::string::{StrSliceExecFns, StringExecFns};

use crate::text;

verus! {

/// User settings persisted between runs.
#[derive(Debug)]
pub struct Settings {
    pub shortcut: String,
    pub openai_api_key: Option<String>,
}

/// The credential configuration used by the transcription collaborator.
pub struct ApiConfig {
    pub openai_api_key: String,
}

/// The character view of an optional key, for contracts that compare keys.
pub open spec fn opt_key_view(o: Option<String>) -> Option<Seq<char>> {
    match o {
        Option::Some(s) => Option::Some(s@),
        Option::None => Option::None,
    }
}

/// Clones an optional credential value.
pub fn clone_opt_key(o: &Option<String>) -> (r: Option<String>)
    ensures
        opt_key_view(r) == opt_key_view(*o),
{
    match o {
        Option::Some(s) => Option::Some(s.clone()),
        Option::None => Option::None,
    }
}

impl Clone for Settings {
    fn clone(&self) -> (r: Self)
        ensures
            r.shortcut@ == self.shortcut@,
            opt_key_view(r.openai_api_key) == opt_key_view(self.openai_api_key),
    {
        Settings {
            shortcut: self.shortcut.clone(),
            openai_api_key: clone_opt_key(&self.openai_api_key),
        }
    }
}

impl Default for Settings {
    /// The out-of-the-box settings: the default chord and no stored key.
    fn default() -> (r: Self)
        ensures
            r.shortcut@ == "Ctrl+Shift+R"@,
            r.openai_api_key is None,
    {
        Settings { shortcut: String::from_str("Ctrl+Shift+R"), openai_api_key: Option::None }
    }
}

/// Where the settings file lives below a configuration directory: the
/// directory (or "." where none is known) extended by the fixed relative
/// location of the settings file.
pub open spec fn spec_settings_path(base: Option<Seq<char>>) -> Seq<char> {
    (match base {
        Option::Some(b) => b,
        Option::None => "."@,
    }) + "/whis/settings.json"@
}

/// Joins a configuration directory with the settings-file location.
pub fn settings_path_from(base: Option<String>) -> (r: String)
    ensures
        r@ == spec_settings_path(opt_key_view(base)),
{
    let prefix = match base {
        Option::Some(b) => b,
        Option::None => String::from_str("."),
    };
    prefix.concat("/whis/settings.json")
}

/// Relies on dirs::config_dir: yields the platform's user configuration
/// directory, if it reports one. The result depends on the process
/// environment, so nothing more is stated of it.
#[verifier::external_body]
fn os_config_dir() -> (r: Option<String>)
{
    dirs::config_dir().map(|p| p.to_string_lossy().into_owned())
}

impl Settings {
    /// The settings file path: some configuration directory extended by
    /// the fixed relative location.
    pub fn path() -> (r: String)
        ensures
            exists|base: Option<Seq<char>>| r@ == spec_settings_path(base),
    {
        let base = os_config_dir();
        let ghost base_view = opt_key_view(base);
        let r = settings_path_from(base);
        proof {
            assert(r@ == spec_settings_path(base_view));
        }
        r
    }
}

impl ApiConfig {
    /// Builds the credential configuration from an already looked-up
    /// key value; absent means unconfigured.
    pub fn from_lookup(key: Option<String>) -> (r: Result<ApiConfig, ()>)
        ensures
            key matches Option::Some(k) ==> r matches Result::Ok(c) && c.openai_api_key@ == k@,
            key is None ==> r is Err,
    {
        match key {
            Option::Some(k) => Result::Ok(ApiConfig { openai_api_key: k }),
            Option::None => Result::Err(()),
        }
    }
}

/// A key is acceptable when it is empty (the environment value will be
/// used instead) or carries the expected "sk-" prefix.
pub open spec fn spec_key_acceptable(key: Seq<char>) -> bool {
    key.len() == 0 || text::match_at(key, "sk-"@, 0)
}

/// Validates the stored credential's format; a rejected key comes back
/// as an error message.
pub fn validate_api_key(api_key: &str) -> (r: Result<bool, String>)
    ensures
        r is Ok <==> spec_key_acceptable(api_key@),
        r matches Result::Ok(b) ==> b,
        r matches Result::Err(m) ==> m@ == "Invalid key format. OpenAI keys start with 'sk-'"@,
{
    let n = api_key.unicode_len();
    if n == 0 {
        return Result::Ok(true);
    }
    proof {
        reveal_strlit("sk-");
    }
    if n >= 3 && text::str_match_at(api_key, "sk-", 0) {
        Result::Ok(true)
    } else {
        assert(!text::match_at(api_key@, "sk-"@, 0));
        Result::Err(String::from_str("Invalid key format. OpenAI keys start with 'sk-'"))
    }
}

/// What a settings save has to react to: which of the two fields changed.
pub struct SavePlan {
    pub api_key_changed: bool,
    pub shortcut_changed: bool,
}

/// Equality of two optional credential values.
pub fn opt_key_eq(a: &Option<String>, b: &Option<String>) -> (r: bool)
    ensures
        r == (opt_key_view(*a) == opt_key_view(*b)),
{
    match (a, b) {
        (Option::Some(x), Option::Some(y)) => {
            let e = text::str_eq(x.as_str(), y.as_str());
            proof {
                if x@ == y@ {
                    assert(opt_key_view(*a) == opt_key_view(*b));
                }
            }
            e
        },
        (Option::None, Option::None) => true,
        _ => false,
    }
}

/// Compares the settings being saved against the current ones and says
/// which fields changed.
pub fn save_plan(current: &Settings, incoming: &Settings) -> (r: SavePlan)
    ensures
        r.api_key_changed == (opt_key_view(current.openai_api_key) != opt_key_view(
            incoming.openai_api_key,
        )),
        r.shortcut_changed == (current.shortcut@ != incoming.shortcut@),
{
    SavePlan {
        api_key_changed: !opt_key_eq(&current.openai_api_key, &incoming.openai_api_key),
        shortcut_changed: !text::str_eq(current.shortcut.as_str(), incoming.shortcut.as_str()),
    }
}

} // verus!
