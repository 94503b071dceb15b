//! Start-up helpers: the data directories, the bundled search tool's file
//! name, and boolean settings.
use vstd::prelude::*;
use crate::gateway::platforms::weixin_auth::{join_path, path_join};
use crate::model::settings::SettingRecord;

verus! {

/// A JSON whitespace character: space, tab, line feed or carriage return.
pub open spec fn is_json_space(c: char) -> bool {
    c == ' ' || c == '\t' || c == '\n' || c == '\r'
}

/// The text without its leading and trailing JSON whitespace.
pub open spec fn strip_json_space(s: Seq<char>) -> Seq<char>
    decreases s.len(),
{
    if s.len() > 0 && is_json_space(s[0]) {
        strip_json_space(s.drop_first())
    } else if s.len() > 0 && is_json_space(s.last()) {
        strip_json_space(s.drop_last())
    } else {
        s
    }
}

/// The boolean a JSON text denotes: `true` or `false` with nothing but JSON
/// whitespace around it; `None` for any other text.
pub open spec fn json_bool(text: Seq<char>) -> Option<bool> {
    let t = strip_json_space(text);
    if t == "true"@ {
        Some(true)
    } else if t == "false"@ {
        Some(false)
    } else {
        None
    }
}

/// serde_json: `from_str::<bool>(text).ok()`. It skips JSON whitespace,
/// reads the literal `true` or `false`, and accepts only whitespace after.
#[verifier::external_body]
fn parse_json_bool(text: &str) -> (r: Option<bool>)
    ensures
        r == json_bool(text@),
{
    serde_json::from_str::<bool>(text).ok()
}

/// A boolean setting: its JSON value, `false` when it is missing or is not
/// a JSON boolean.
pub fn parse_bool_setting(record: Option<SettingRecord>, key: &str) -> (r: bool)
    ensures
        r == match record {
            Some(s) => json_bool(s.value_json@) == Some(true),
            None => false,
        },
{
    match record {
        Some(setting) => match parse_json_bool(setting.value_json.as_str()) {
            Some(enabled) => enabled,
            None => false,
        },
        None => false,
    }
}

/// The file name of the bundled ripgrep binary on Windows or elsewhere.
pub fn bundled_rg_name(windows: bool) -> (r: &'static str)
    ensures
        r@ == if windows {
            "rg.exe"@
        } else {
            "rg"@
        },
{
    if windows {
        "rg.exe"
    } else {
        "rg"
    }
}

/// The `.tiy` base directory under a home directory.
pub fn tiy_home_under(home: &str) -> (r: String)
    ensures
        r@ == path_join(home@, ".tiy"@),
{
    join_path(home, ".tiy")
}

/// The directories created under the base directory at start-up.
pub open spec fn data_subdirs() -> Seq<Seq<char>> {
    seq![
        "db"@,
        "db/backups"@,
        "skills"@,
        "prompts"@,
        "plugins"@,
        "automations"@,
        "cache"@,
        "cache/index"@,
        "catalog"@,
    ]
}

/// The directories to create under `base`, in order.
pub fn data_directories(base: &str) -> (r: Vec<String>)
    ensures
        r@.len() == data_subdirs().len(),
        forall|i: int| 0 <= i < r@.len() ==> #[trigger] r@[i]@ == path_join(base@, data_subdirs()[i]),
{
    let names = ["db", "db/backups", "skills", "prompts", "plugins", "automations", "cache", "cache/index", "catalog"];
    proof {
        reveal_strlit("db");
        reveal_strlit("db/backups");
        reveal_strlit("skills");
        reveal_strlit("prompts");
        reveal_strlit("plugins");
        reveal_strlit("automations");
        reveal_strlit("cache");
        reveal_strlit("cache/index");
        reveal_strlit("catalog");
        assert(names@.map_values(|s: &str| s@) =~= data_subdirs());
    }
    let mut out: Vec<String> = Vec::new();
    let mut i: usize = 0;
    while i < names.len()
        invariant
            names@.map_values(|s: &str| s@) == data_subdirs(),
            names@.len() == 9,
            i <= 9,
            out@.len() == i,
            forall|k: int| 0 <= k < i ==> #[trigger] out@[k]@ == path_join(base@, data_subdirs()[k]),
        decreases 9 - i,
    {
        assert(names@.map_values(|s: &str| s@)[i as int] == names@[i as int]@);
        out.push(join_path(base, names[i]));
        i += 1;
    }
    out
}

} // verus!
