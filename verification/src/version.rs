//! Version numbers and the outcome of a check for a newer release.

use crate::json::{
    json_as_str, json_document, json_error_text, json_get, json_model, member, parse_json,
    text_of, JsonModel,
};
use crate::text::{find_char, find_from, parse_decimal, parse_number, to_chars};
use vstd::prelude::*;

verus! {

/// The version of this release.
pub const VERSION: &'static str = "0.1.0";

/// The address that publishes the newest release.
pub const REGISTRY_URL: &'static str = "https://crates.io/api/v1/crates/hazelnut";

/// The seconds after which a request to the registry is given up.
pub const DEFAULT_TIMEOUT_SECS: u64 = 5;

/// The outcome of a check for a newer release.
#[derive(Debug, Clone)]
pub enum VersionCheck {
    /// The running version is the newest.
    UpToDate,
    /// A newer version is published.
    UpdateAvailable { latest: String, current: String },
    /// The check could not be made; the text says why.
    CheckFailed(String),
}

/// What the registry answered.
#[derive(Debug, Clone)]
pub enum RegistryReply {
    /// The bytes of the answer's body.
    Body(Vec<u8>),
    /// An answer came, but its body could not be read; the text is the
    /// failure's message.
    Unreadable(String),
    /// The request failed; the text is the failure's message.
    Failed(String),
}

/// The outcome of a check, with its texts as sequences of characters.
pub ghost enum VersionCheckModel {
    UpToDate,
    UpdateAvailable { latest: Seq<char>, current: Seq<char> },
    CheckFailed(Seq<char>),
}

impl View for VersionCheck {
    type V = VersionCheckModel;

    open spec fn view(&self) -> VersionCheckModel {
        match self {
            VersionCheck::UpToDate => VersionCheckModel::UpToDate,
            VersionCheck::UpdateAvailable { latest, current } => VersionCheckModel::UpdateAvailable {
                latest: latest@,
                current: current@,
            },
            VersionCheck::CheckFailed(reason) => VersionCheckModel::CheckFailed(reason@),
        }
    }
}

/// The part of a version before its first hyphen.
pub open spec fn version_base(v: Seq<char>) -> Seq<char> {
    v.subrange(0, find_from(v, '-', 0))
}

/// The numbers among the fields of `base` that full stops separate, from
/// index `from` on. A field that is no numeral of 32 bits is left out.
pub open spec fn numeric_components(base: Seq<char>, from: int) -> Seq<u32>
    decreases base.len() - from,
{
    let end = find_from(base, '.', from);
    if 0 <= from <= end <= base.len() {
        let head = match parse_decimal(base.subrange(from, end), u32::MAX as nat) {
            Some(n) => seq![n as u32],
            None => Seq::empty(),
        };
        if end < base.len() {
            head + numeric_components(base, end + 1)
        } else {
            head
        }
    } else {
        Seq::empty()
    }
}

/// The numeric components of a version.
pub open spec fn components_of(v: Seq<char>) -> Seq<u32> {
    numeric_components(version_base(v), 0)
}

/// The component at position `i`; 0 where there is none.
pub open spec fn component(parts: Seq<u32>, i: int) -> u32 {
    if 0 <= i < parts.len() {
        parts[i]
    } else {
        0
    }
}

/// Whether `latest` is strictly newer than `current`: the first of the
/// three leading components in which they differ decides.
pub open spec fn is_newer(latest: Seq<char>, current: Seq<char>) -> bool {
    let l = components_of(latest);
    let c = components_of(current);
    if component(l, 0) != component(c, 0) {
        component(l, 0) > component(c, 0)
    } else if component(l, 1) != component(c, 1) {
        component(l, 1) > component(c, 1)
    } else {
        component(l, 2) > component(c, 2)
    }
}

/// The numeric components of a version.
pub fn version_components(v: &str) -> (r: Vec<u32>)
    ensures
        r@ == components_of(v@),
{
    let chars = to_chars(v);
    let cut: usize = find_char(&chars, '-', 0);
    let mut base: Vec<char> = Vec::new();
    let mut k: usize = 0;
    while k < cut
        invariant
            k <= cut <= chars@.len(),
            base@ == chars@.subrange(0, k as int),
        decreases cut - k,
    {
        base.push(chars[k]);
        k += 1;
        proof {
            assert(base@ =~= chars@.subrange(0, k as int));
        }
    }
    let mut out: Vec<u32> = Vec::new();
    let mut from: usize = 0;
    let mut done: bool = false;
    while !done
        invariant
            from <= base@.len(),
            !done ==> out@ + numeric_components(base@, from as int) == numeric_components(
                base@,
                0,
            ),
            done ==> out@ == numeric_components(base@, 0),
        decreases base@.len() - from + (if done { 0int } else { 1int }),
    {
        let ghost before = out@;
        let end: usize = find_char(&base, '.', from);
        match parse_number(&base, from, end, 0xFFFF_FFFFu64) {
            Some(n) => {
                out.push(n as u32);
            },
            None => {},
        }
        proof {
            let head = match parse_decimal(base@.subrange(from as int, end as int), u32::MAX as nat) {
                Some(n) => seq![n as u32],
                None => Seq::empty(),
            };
            assert(out@ =~= before + head);
            if end < base@.len() {
                assert(before + (head + numeric_components(base@, end + 1)) =~= out@
                    + numeric_components(base@, end + 1));
            } else {
                assert(before + head =~= out@);
            }
        }
        if end < base.len() {
            from = end + 1;
        } else {
            done = true;
        }
    }
    out
}

fn component_at(parts: &Vec<u32>, i: usize) -> (r: u32)
    ensures
        r == component(parts@, i as int),
{
    if i < parts.len() {
        parts[i]
    } else {
        0
    }
}

/// Whether `latest` is strictly newer than `current`. What follows the
/// first hyphen of a version is not looked at.
pub fn version_is_newer(latest: &str, current: &str) -> (r: bool)
    ensures
        r == is_newer(latest@, current@),
{
    let l = version_components(latest);
    let c = version_components(current);
    let mut i: usize = 0;
    while i < 3
        invariant
            i <= 3,
            l@ == components_of(latest@),
            c@ == components_of(current@),
            forall|j: int| 0 <= j < i ==> component(l@, j) == component(c@, j),
        decreases 3 - i,
    {
        let a: u32 = component_at(&l, i);
        let b: u32 = component_at(&c, i);
        if a > b {
            return true;
        }
        if a < b {
            return false;
        }
        i += 1;
    }
    false
}

/// The outcome for a published version `latest` and a running version
/// `current`.
pub open spec fn verdict(latest: Seq<char>, current: Seq<char>) -> VersionCheckModel {
    if is_newer(latest, current) {
        VersionCheckModel::UpdateAvailable { latest, current }
    } else {
        VersionCheckModel::UpToDate
    }
}

/// The published maximum version in a registry document: the string under
/// `crate`, then `max_version`.
pub open spec fn max_version_of(doc: JsonModel) -> Option<Seq<char>> {
    match member(doc, "crate"@) {
        Some(inner) => match member(inner, "max_version"@) {
            Some(v) => text_of(v),
            None => None,
        },
        None => None,
    }
}

/// The outcome for a registry document and a running version.
pub open spec fn document_verdict(doc: JsonModel, current: Seq<char>) -> VersionCheckModel {
    match max_version_of(doc) {
        Some(latest) => verdict(latest, current),
        None => VersionCheckModel::CheckFailed("Could not parse crates.io response"@),
    }
}

/// Whether `s` begins with `prefix`.
pub open spec fn starts_with(s: Seq<char>, prefix: Seq<char>) -> bool {
    prefix.len() <= s.len() && s.subrange(0, prefix.len() as int) == prefix
}

/// Whether `r` is the outcome owed for a registry reply: a failed request
/// fails the check with the request's message; a body that could not be
/// read, with the reader's message; a body that is no JSON, with the
/// parser's message; a document is judged by `document_verdict`.
pub open spec fn reply_verdict(
    r: VersionCheckModel,
    reply: RegistryReply,
    current: Seq<char>,
) -> bool {
    match reply {
        RegistryReply::Failed(msg) => r == VersionCheckModel::CheckFailed(
            "Request failed: "@ + msg@,
        ),
        RegistryReply::Unreadable(msg) => r == VersionCheckModel::CheckFailed(
            "Failed to parse response: "@ + msg@,
        ),
        RegistryReply::Body(bytes) => match json_document(bytes@) {
            Some(doc) => r == document_verdict(doc, current),
            None => r matches VersionCheckModel::CheckFailed(reason) && starts_with(
                reason,
                "Failed to parse response: "@,
            ),
        },
    }
}

/// Judges a published version against the running one.
pub fn compare_versions(latest: &str, current: &str) -> (r: VersionCheck)
    ensures
        r@ == verdict(latest@, current@),
{
    if version_is_newer(latest, current) {
        VersionCheck::UpdateAvailable {
            latest: String::from_str(latest),
            current: String::from_str(current),
        }
    } else {
        VersionCheck::UpToDate
    }
}

/// The published maximum version that a registry document names.
pub fn published_version(doc: &serde_json::Value) -> (r: Option<String>)
    ensures
        r.is_some() == max_version_of(json_model(*doc)).is_some(),
        r.is_some() ==> r.unwrap()@ == max_version_of(json_model(*doc)).unwrap(),
{
    match json_get(doc, "crate") {
        Some(inner) => match json_get(inner, "max_version") {
            Some(v) => match json_as_str(v) {
                Some(text) => Some(String::from_str(text)),
                None => None,
            },
            None => None,
        },
        None => None,
    }
}

/// Judges a registry document against the running version `current`.
pub fn judge_document(doc: &serde_json::Value, current: &str) -> (r: VersionCheck)
    ensures
        r@ == document_verdict(json_model(*doc), current@),
{
    match published_version(doc) {
        Some(latest) => compare_versions(latest.as_str(), current),
        None => VersionCheck::CheckFailed(String::from_str("Could not parse crates.io response")),
    }
}

/// Judges what the registry answered against the running version
/// `current`. No reply makes this fail: every failure becomes
/// `CheckFailed`.
pub fn judge_reply(reply: &RegistryReply, current: &str) -> (r: VersionCheck)
    ensures
        reply_verdict(r@, *reply, current@),
{
    match reply {
        RegistryReply::Failed(msg) => {
            let mut reason = String::from_str("Request failed: ");
            reason.append(msg.as_str());
            VersionCheck::CheckFailed(reason)
        },
        RegistryReply::Unreadable(msg) => {
            let mut reason = String::from_str("Failed to parse response: ");
            reason.append(msg.as_str());
            VersionCheck::CheckFailed(reason)
        },
        RegistryReply::Body(bytes) => match parse_json(bytes.as_slice()) {
            Ok(doc) => judge_document(&doc, current),
            Err(e) => {
                let mut reason = String::from_str("Failed to parse response: ");
                let detail = json_error_text(&e);
                reason.append(detail.as_str());
                proof {
                    let p = "Failed to parse response: "@;
                    assert((p + detail@).subrange(0, p.len() as int) =~= p);
                }
                VersionCheck::CheckFailed(reason)
            },
        },
    }
}

/// Judges what the registry answered against the version of this release.
pub fn check_for_updates_crates_io(reply: &RegistryReply) -> (r: VersionCheck)
    ensures
        reply_verdict(r@, *reply, VERSION@),
{
    judge_reply(reply, VERSION)
}

/// The client identifier that a request to the registry carries.
pub fn user_agent() -> (r: String)
    ensures
        r@ == "hazelnut/"@ + VERSION@,
{
    let mut agent = String::from_str("hazelnut/");
    agent.append(VERSION);
    agent
}

/// No version is newer than itself.
pub proof fn law_not_newer_than_itself(v: Seq<char>)
    ensures
        !is_newer(v, v),
{
}

/// Of two versions, at most one is newer than the other.
pub proof fn law_newer_is_one_sided(a: Seq<char>, b: Seq<char>)
    requires
        is_newer(a, b),
    ensures
        !is_newer(b, a),
{
}

/// What follows the first hyphen of a version decides nothing: a version
/// and its part before the hyphen have the same components.
pub proof fn law_suffix_is_ignored(v: Seq<char>)
    ensures
        components_of(version_base(v)) == components_of(v),
{
    crate::text::lemma_find_from_bounds(v, '-', 0);
    let base = version_base(v);
    lemma_find_absent(base, '-', 0);
    assert(base.subrange(0, base.len() as int) =~= base);
}

proof fn lemma_find_absent(s: Seq<char>, c: char, from: int)
    requires
        0 <= from <= s.len(),
        forall|j: int| from <= j < s.len() ==> s[j] != c,
    ensures
        find_from(s, c, from) == s.len(),
    decreases s.len() - from,
{
    if from < s.len() {
        lemma_find_absent(s, c, from + 1);
    }
}

} // verus!
