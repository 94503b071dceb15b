//! Custom sub-agents: their model role, stored rows, and slug rules.
use vstd::prelude::*;
use crate::json::{json_string_list, parse_string_list, string_views};
use crate::text::str_eq;

verus! {

/// Which of a profile's models a custom sub-agent runs on.
#[derive(Debug, Clone, Copy, PartialEq, Eq, Structural)]
pub enum CustomSubagentModelRole {
    Primary,
    Auxiliary,
    Lightweight,
}

impl Default for CustomSubagentModelRole {
    fn default() -> (r: CustomSubagentModelRole)
        ensures
            r == CustomSubagentModelRole::Auxiliary,
    {
        CustomSubagentModelRole::Auxiliary
    }
}

impl CustomSubagentModelRole {
    /// The stored name.
    pub open spec fn name(self) -> Seq<char> {
        match self {
            CustomSubagentModelRole::Primary => "primary"@,
            CustomSubagentModelRole::Auxiliary => "auxiliary"@,
            CustomSubagentModelRole::Lightweight => "lightweight"@,
        }
    }

    /// The role a stored name denotes; unknown names read as `Auxiliary`.
    pub open spec fn from_name(s: Seq<char>) -> CustomSubagentModelRole {
        if s == "primary"@ {
            CustomSubagentModelRole::Primary
        } else if s == "lightweight"@ {
            CustomSubagentModelRole::Lightweight
        } else {
            CustomSubagentModelRole::Auxiliary
        }
    }

    /// The stored name.
    pub fn as_str(self) -> (r: &'static str)
        ensures
            r@ == self.name(),
    {
        match self {
            CustomSubagentModelRole::Primary => "primary",
            CustomSubagentModelRole::Auxiliary => "auxiliary",
            CustomSubagentModelRole::Lightweight => "lightweight",
        }
    }

    /// The value a stored name denotes.
    pub fn from_db(value: &str) -> (r: CustomSubagentModelRole)
        ensures
            r == CustomSubagentModelRole::from_name(value@),
    {
        if str_eq(value, "primary") {
            CustomSubagentModelRole::Primary
        } else if str_eq(value, "lightweight") {
            CustomSubagentModelRole::Lightweight
        } else {
            CustomSubagentModelRole::Auxiliary
        }
    }
}

/// Reading back the stored name of a model role gives the same role.
pub proof fn lemma_model_role_round_trip(r: CustomSubagentModelRole)
    ensures
        CustomSubagentModelRole::from_name(r.name()) == r,
{
    reveal_strlit("primary");
    reveal_strlit("auxiliary");
    reveal_strlit("lightweight");
    assert("primary"@.len() == 7 && "auxiliary"@.len() == 9 && "lightweight"@.len() == 11);
}

/// A stored custom sub-agent row; `allowed_tools` is a JSON array of names.
#[derive(Debug, Clone)]
pub struct CustomSubagentRecord {
    pub id: String,
    pub name: String,
    pub slug: String,
    pub system_prompt: String,
    pub invocation_description: String,
    pub allowed_tools: String,
    pub model_role: CustomSubagentModelRole,
    pub is_enabled: bool,
    pub created_at: String,
    pub updated_at: String,
}

/// The tool names a JSON text lists; none when it is not an array of strings.
pub open spec fn tools_of(json: Seq<char>) -> Seq<Seq<char>> {
    match json_string_list(json) {
        Some(l) => l,
        None => Seq::empty(),
    }
}

impl CustomSubagentRecord {
    /// Parse the `allowed_tools` JSON string into a list of tool names.
    pub fn allowed_tools_vec(&self) -> (r: Vec<String>)
        ensures
            string_views(r@) == tools_of(self.allowed_tools@),
    {
        match parse_string_list(self.allowed_tools.as_str()) {
            Some(v) => v,
            None => {
                let v: Vec<String> = Vec::new();
                assert(string_views(v@) =~= Seq::<Seq<char>>::empty());
                v
            },
        }
    }
}

/// A custom sub-agent as sent to the frontend.
#[derive(Debug, Clone)]
pub struct CustomSubagentDto {
    pub id: String,
    pub name: String,
    pub slug: String,
    pub system_prompt: String,
    pub invocation_description: String,
    pub allowed_tools: Vec<String>,
    pub model_role: CustomSubagentModelRole,
    pub is_enabled: bool,
    pub created_at: String,
    pub updated_at: String,
}

impl From<CustomSubagentRecord> for CustomSubagentDto {
    fn from(r: CustomSubagentRecord) -> (d: CustomSubagentDto)
        ensures
            d.id == r.id && d.name == r.name && d.slug == r.slug,
            d.system_prompt == r.system_prompt,
            d.invocation_description == r.invocation_description,
            string_views(d.allowed_tools@) == tools_of(r.allowed_tools@),
            d.model_role == r.model_role && d.is_enabled == r.is_enabled,
            d.created_at == r.created_at && d.updated_at == r.updated_at,
    {
        let tools = r.allowed_tools_vec();
        CustomSubagentDto {
            id: r.id,
            name: r.name,
            slug: r.slug,
            system_prompt: r.system_prompt,
            invocation_description: r.invocation_description,
            allowed_tools: tools,
            model_role: r.model_role,
            is_enabled: r.is_enabled,
            created_at: r.created_at,
            updated_at: r.updated_at,
        }
    }
}

/// The tool list comes out of a JSON parse, which no spec value of the DTO
/// can be built from; the contract is the `ensures` of `from` itself.
impl vstd::std_specs::convert::FromSpecImpl<CustomSubagentRecord> for CustomSubagentDto {
    open spec fn obeys_from_spec() -> bool {
        false
    }

    open spec fn from_spec(v: CustomSubagentRecord) -> CustomSubagentDto {
        vstd::pervasive::arbitrary()
    }
}

/// Input from the frontend for creating or updating a sub-agent.
#[derive(Debug, Clone)]
pub struct CustomSubagentInput {
    pub name: String,
    pub slug: String,
    pub system_prompt: String,
    pub invocation_description: String,
    pub allowed_tools: Vec<String>,
    pub model_role: CustomSubagentModelRole,
    pub is_enabled: Option<bool>,
}

/// Which sub-agents a profile may use.
#[derive(Debug, Clone)]
pub struct ProfileSubagentAccessRecord {
    pub profile_id: String,
    pub subagent_id: String,
}

/// Slugs kept for the built-in agents.
pub open spec fn reserved_slug(s: Seq<char>) -> bool {
    s == "explore"@ || s == "review"@
}

/// Whether `c` is a lowercase ASCII letter.
pub open spec fn is_lower(c: char) -> bool {
    'a' <= c && c <= 'z'
}

/// Characters allowed after the first: lowercase letters, digits, hyphens.
pub open spec fn slug_char(c: char) -> bool {
    is_lower(c) || ('0' <= c && c <= '9') || c == '-'
}

/// The complaint about a slug, or `None` when it is well-formed and free.
pub open spec fn slug_error(s: Seq<char>) -> Option<Seq<char>> {
    if s.len() == 0 {
        Some("slug cannot be empty"@)
    } else if reserved_slug(s) {
        Some("slug is reserved for built-in agents"@)
    } else if !is_lower(s[0]) {
        Some("slug must start with a lowercase letter"@)
    } else if exists|i: int| 1 <= i < s.len() && !slug_char(#[trigger] s[i]) {
        Some("slug may only contain lowercase letters, digits, and hyphens"@)
    } else {
        None
    }
}

/// Validate that a slug is well-formed and not reserved.
pub fn validate_slug(slug: &str) -> (r: Result<(), &'static str>)
    ensures
        match r {
            Ok(()) => slug_error(slug@) is None,
            Err(e) => slug_error(slug@) == Some(e@),
        },
{
    let cs = crate::text::chars_of(slug);
    if cs.len() == 0 {
        return Err("slug cannot be empty");
    }
    if str_eq(slug, "explore") || str_eq(slug, "review") {
        return Err("slug is reserved for built-in agents");
    }
    let c0 = cs[0];
    if !('a' <= c0 && c0 <= 'z') {
        return Err("slug must start with a lowercase letter");
    }
    let mut i: usize = 1;
    while i < cs.len()
        invariant
            1 <= i <= cs@.len(),
            cs@ == slug@,
            !reserved_slug(slug@),
            is_lower(slug@[0]),
            forall|k: int| 1 <= k < i ==> slug_char(#[trigger] cs@[k]),
        decreases cs@.len() - i,
    {
        let c = cs[i];
        if !(('a' <= c && c <= 'z') || ('0' <= c && c <= '9') || c == '-') {
            assert(!slug_char(cs@[i as int]));
            return Err("slug may only contain lowercase letters, digits, and hyphens");
        }
        i += 1;
    }
    Ok(())
}

} // verus!
