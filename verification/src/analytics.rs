//! Usage analytics. Nothing is collected: the configuration is never
//! present and events are dropped. What is left is the anonymous
//! identifier of an installation.

use std::collections::hash_map::DefaultHasher;
use std::hash::{Hash, Hasher};
use vstd::prelude::*;
use vstd::std_specs::hash::DefaultHasherAdditionalSpecFns;
use vstd::string::StringExecFns;
use crate::text::{first_holding, hex, line_holding, lines_of, spec_hex, spec_trim, trim};

verus! {

/// `serde_json::Value`: any JSON value. Nothing is read of it here.
#[verifier::external_type_specification]
#[verifier::external_body]
pub struct ExJsonValue(serde_json::Value);

/// How events would be reported.
#[derive(Clone, Copy, Debug, PartialEq, Eq)]
pub struct AnalyticsService {
    _private: (),
}

/// Where events would be reported to.
#[derive(Clone, Debug, PartialEq, Eq)]
pub struct AnalyticsConfig {
    pub posthog_api_key: String,
    pub posthog_api_endpoint: String,
}

/// The service together with the user that events are reported for.
#[derive(Clone, Debug, PartialEq, Eq)]
pub struct AnalyticsContext {
    pub user_id: String,
    pub analytics_service: AnalyticsService,
}

impl AnalyticsConfig {
    /// There is no configuration: analytics is switched off.
    pub fn new() -> (r: Option<Self>)
        ensures
            r is None,
    {
        None
    }
}

impl AnalyticsService {
    pub fn new(_config: AnalyticsConfig) -> Self {
        AnalyticsService { _private: () }
    }

    /// Drops the event.
    pub fn track_event(
        &self,
        _user_id: &str,
        _event_name: &str,
        _properties: Option<serde_json::Value>,
    ) {
    }
}

/// What a hasher has been fed once a text was hashed into it, given what it
/// had been fed before.
pub uninterp spec fn text_hashed(fed: Seq<Seq<u8>>, text: Seq<char>) -> Seq<Seq<u8>>;

/// `Hash::hash` of a text into a `DefaultHasher`: what the hasher is fed
/// depends on the text and on what it was fed before, and on nothing else.
#[verifier::external_body]
fn hash_text(state: &mut DefaultHasher, text: &str)
    ensures
        final(state)@ == text_hashed(old(state)@, text@),
{
    text.hash(state)
}

/// The identifier that belongs to a hash: `npm_user_` and the hash in
/// sixteen hexadecimal digits.
pub open spec fn spec_user_id(hash: u64) -> Seq<char> {
    "npm_user_"@ + spec_hex(hash as nat, 16)
}

pub fn format_user_id(hash: u64) -> (r: String)
    ensures
        r@ == spec_user_id(hash),
{
    let mut out = "npm_user_".to_owned();
    let digits = hex(hash, 16);
    out.append(digits.as_str());
    out
}

/// The first of two values that is there.
pub fn first_present<'a>(first: Option<&'a str>, second: Option<&'a str>) -> (r: Option<&'a str>)
    ensures
        r == if first is Some {
            first
        } else {
            second
        },
{
    match first {
        Some(_) => first,
        None => second,
    }
}

/// What was read of the machine to tell it from others.
#[derive(Clone, Debug, PartialEq, Eq)]
pub enum MachineIdentity {
    /// The content of the file that holds the machine's identifier. It
    /// counts without the white space at its ends.
    IdFile(String),
    /// What the query of the platform registry printed. The first line
    /// that holds `IOPlatformUUID` counts, as it is; without such a line
    /// nothing counts.
    Registry(String),
    /// The machine's GUID, as it was printed. It counts as it is.
    Guid(String),
}

impl MachineIdentity {
    /// The text that stands for the machine.
    pub open spec fn spec_text(self) -> Option<Seq<char>> {
        match self {
            MachineIdentity::IdFile(content) => Some(spec_trim(content@)),
            MachineIdentity::Registry(output) => first_holding(
                lines_of(output@),
                "IOPlatformUUID"@,
            ),
            MachineIdentity::Guid(printed) => Some(printed@),
        }
    }
}

/// The view of a text slice that may be absent.
pub open spec fn opt_slice(o: Option<&str>) -> Option<Seq<char>> {
    match o {
        Some(s) => Some(s@),
        None => None,
    }
}

/// What a hasher has been fed after a text that may be absent.
pub open spec fn fed_with(fed: Seq<Seq<u8>>, text: Option<Seq<char>>) -> Seq<Seq<u8>> {
    match text {
        Some(t) => text_hashed(fed, t),
        None => fed,
    }
}

/// The hash of an installation: of the machine's text, the user's name and
/// the user's home directory, in this order, each left out where it is
/// absent.
pub open spec fn spec_identity_hash(
    machine: Option<Seq<char>>,
    user: Option<Seq<char>>,
    home: Option<Seq<char>>,
) -> u64 {
    DefaultHasher::spec_finish(fed_with(fed_with(fed_with(Seq::empty(), machine), user), home))
}

/// The text that stands for the machine, where anything was read of it.
pub open spec fn machine_text(machine: Option<&MachineIdentity>) -> Option<Seq<char>> {
    match machine {
        Some(m) => m.spec_text(),
        None => None,
    }
}

/// The anonymous identifier of an installation, from what could be read of
/// it: the machine, the user's name and the user's home directory. It is a
/// function of these three alone.
pub fn user_id_from(machine: Option<&MachineIdentity>, user: Option<&str>, home: Option<&str>) -> (r:
    String)
    ensures
        r@ == spec_user_id(
            spec_identity_hash(machine_text(machine), opt_slice(user), opt_slice(home)),
        ),
{
    let mut state = DefaultHasher::new();
    match machine {
        Some(MachineIdentity::IdFile(content)) => {
            hash_text(&mut state, trim(content.as_str()));
        },
        Some(MachineIdentity::Registry(output)) => {
            match line_holding(output.as_str(), "IOPlatformUUID") {
                Some(line) => {
                    hash_text(&mut state, line.as_str());
                },
                None => {},
            }
        },
        Some(MachineIdentity::Guid(printed)) => {
            hash_text(&mut state, printed.as_str());
        },
        None => {},
    }
    assert(state@ == fed_with(Seq::empty(), machine_text(machine)));
    match user {
        Some(name) => {
            hash_text(&mut state, name);
        },
        None => {},
    }
    match home {
        Some(dir) => {
            hash_text(&mut state, dir);
        },
        None => {},
    }
    format_user_id(state.finish())
}

/// Two installations that agree in what was read of them have the same
/// identifier: where the machine's text, the user's name and the home
/// directory are equal, so are the identifiers.
pub proof fn law_same_values_same_user_id(
    first: Option<&MachineIdentity>,
    second: Option<&MachineIdentity>,
    user: Option<&str>,
    other_user: Option<&str>,
    home: Option<&str>,
    other_home: Option<&str>,
)
    requires
        machine_text(first) == machine_text(second),
        opt_slice(user) == opt_slice(other_user),
        opt_slice(home) == opt_slice(other_home),
    ensures
        spec_user_id(spec_identity_hash(machine_text(first), opt_slice(user), opt_slice(home)))
            == spec_user_id(
            spec_identity_hash(machine_text(second), opt_slice(other_user), opt_slice(other_home)),
        ),
{
}

} // verus!
