use vstd::prelude::*;
use vstd::string::StringExecFns;

use zbus::zvariant::OwnedObjectPath;

verus! {

/// Whether the unit file behind a loaded unit was read successfully, as the
/// remote service reports it on the wire.
#[derive(Debug)]
pub enum UnitLoadState {
    Stub,
    Loaded,
    NotLoaded,
    BadSetting,
    Error,
    Merged,
    Masked,
    /// A wire value outside the known vocabulary, kept unchanged. Unknown
    /// values are never an error: the remote vocabulary may grow.
    Other(String),
}

/// Whether a unit is currently started, as the remote service reports it.
#[derive(Debug)]
pub enum UnitActiveState {
    Active,
    Reloading,
    Inactive,
    Failed,
    Activating,
    Deactivating,
    Maintenance,
    /// A wire value outside the known vocabulary, kept unchanged.
    Other(String),
}

/// The wire strings with a named `UnitLoadState` variant.
pub open spec fn known_load_state(s: Seq<char>) -> bool {
    ||| s == "stub"@
    ||| s == "loaded"@
    ||| s == "not-found"@
    ||| s == "bad-setting"@
    ||| s == "error"@
    ||| s == "merged"@
    ||| s == "masked"@
}

/// How a wire string and a `UnitLoadState` correspond: each named variant
/// stands for exactly one wire string, and `Other` carries any string outside
/// that vocabulary unchanged.
pub open spec fn load_state_decodes(s: Seq<char>, r: UnitLoadState) -> bool {
    match r {
        UnitLoadState::Stub => s == "stub"@,
        UnitLoadState::Loaded => s == "loaded"@,
        UnitLoadState::NotLoaded => s == "not-found"@,
        UnitLoadState::BadSetting => s == "bad-setting"@,
        UnitLoadState::Error => s == "error"@,
        UnitLoadState::Merged => s == "merged"@,
        UnitLoadState::Masked => s == "masked"@,
        UnitLoadState::Other(raw) => raw@ == s && !known_load_state(s),
    }
}

/// The wire strings with a named `UnitActiveState` variant.
pub open spec fn known_active_state(s: Seq<char>) -> bool {
    ||| s == "active"@
    ||| s == "reloading"@
    ||| s == "inactive"@
    ||| s == "failed"@
    ||| s == "activating"@
    ||| s == "deactivating"@
    ||| s == "maintenance"@
}

/// How a wire string and a `UnitActiveState` correspond.
pub open spec fn active_state_decodes(s: Seq<char>, r: UnitActiveState) -> bool {
    match r {
        UnitActiveState::Active => s == "active"@,
        UnitActiveState::Reloading => s == "reloading"@,
        UnitActiveState::Inactive => s == "inactive"@,
        UnitActiveState::Failed => s == "failed"@,
        UnitActiveState::Activating => s == "activating"@,
        UnitActiveState::Deactivating => s == "deactivating"@,
        UnitActiveState::Maintenance => s == "maintenance"@,
        UnitActiveState::Other(raw) => raw@ == s && !known_active_state(s),
    }
}

/// True when the string's characters are exactly `lit`'s.
pub(crate) fn string_eq_lit(s: &String, lit: &str) -> (r: bool)
    ensures
        r == (s@ == lit@),
{
    let lit_owned = String::from_str(lit);
    *s == lit_owned
}

/// Decodes the wire value of a unit's load state. Total: an unknown string
/// becomes `Other` carrying it unchanged, never an error.
pub fn decode_load_state(s: String) -> (r: UnitLoadState)
    ensures
        load_state_decodes(s@, r),
        r matches UnitLoadState::Other(raw) ==> raw == s,
{
    if string_eq_lit(&s, "stub") {
        UnitLoadState::Stub
    } else if string_eq_lit(&s, "loaded") {
        UnitLoadState::Loaded
    } else if string_eq_lit(&s, "not-found") {
        UnitLoadState::NotLoaded
    } else if string_eq_lit(&s, "bad-setting") {
        UnitLoadState::BadSetting
    } else if string_eq_lit(&s, "error") {
        UnitLoadState::Error
    } else if string_eq_lit(&s, "merged") {
        UnitLoadState::Merged
    } else if string_eq_lit(&s, "masked") {
        UnitLoadState::Masked
    } else {
        UnitLoadState::Other(s)
    }
}

/// Decodes the wire value of a unit's active state. Total, like
/// `decode_load_state`.
pub fn decode_active_state(s: String) -> (r: UnitActiveState)
    ensures
        active_state_decodes(s@, r),
        r matches UnitActiveState::Other(raw) ==> raw == s,
{
    if string_eq_lit(&s, "active") {
        UnitActiveState::Active
    } else if string_eq_lit(&s, "reloading") {
        UnitActiveState::Reloading
    } else if string_eq_lit(&s, "inactive") {
        UnitActiveState::Inactive
    } else if string_eq_lit(&s, "failed") {
        UnitActiveState::Failed
    } else if string_eq_lit(&s, "activating") {
        UnitActiveState::Activating
    } else if string_eq_lit(&s, "deactivating") {
        UnitActiveState::Deactivating
    } else if string_eq_lit(&s, "maintenance") {
        UnitActiveState::Maintenance
    } else {
        UnitActiveState::Other(s)
    }
}

/// One record of the remote "list loaded units" reply, exactly as it arrives:
/// ten positional fields.
pub type WireUnit = (
    String,
    String,
    String,
    String,
    String,
    String,
    OwnedObjectPath,
    u32,
    String,
    OwnedObjectPath,
);

/// A loaded unit, decoded from one wire record. An immutable snapshot of
/// remote state at call time; never cached or mutated.
#[derive(Debug)]
pub struct Unit {
    /// The primary unit name.
    pub name: String,
    /// The human-readable description.
    pub description: String,
    /// Whether the unit file was loaded successfully.
    pub load_state: UnitLoadState,
    /// Whether the unit is currently started.
    pub active_state: UnitActiveState,
    /// A finer-grained, unit-type-specific version of the active state.
    pub sub_state: String,
    /// A unit whose state this unit follows, when there is one (an empty wire
    /// string means there is none).
    pub followed_unit: Option<String>,
    /// The unit's object path, an opaque remote handle.
    pub object_path: OwnedObjectPath,
    /// The id of the job queued for the unit, when there is one (the wire
    /// value 0 is the remote sentinel for "no job queued", not a job id).
    pub queued_job_id: Option<u32>,
    /// The queued job's type.
    pub job_type: String,
    /// The queued job's object path, an opaque remote handle.
    pub job_object_path: OwnedObjectPath,
}

/// How a wire record and a `Unit` correspond: fields are positional, the two
/// state strings go through their decoders (an unknown state keeps the wire
/// string itself), an empty followed-unit string and a zero job id mean
/// absent, and everything else is passed through verbatim.
pub open spec fn unit_decodes(t: WireUnit, r: Unit) -> bool {
    &&& r.name == t.0
    &&& r.description == t.1
    &&& load_state_decodes(t.2@, r.load_state)
    &&& (r.load_state matches UnitLoadState::Other(raw) ==> raw == t.2)
    &&& active_state_decodes(t.3@, r.active_state)
    &&& (r.active_state matches UnitActiveState::Other(raw) ==> raw == t.3)
    &&& r.sub_state == t.4
    &&& (t.5@.len() == 0 ==> r.followed_unit is None)
    &&& (t.5@.len() != 0 ==> r.followed_unit == Some(t.5))
    &&& r.object_path == t.6
    &&& (t.7 == 0 ==> r.queued_job_id is None)
    &&& (t.7 != 0 ==> r.queued_job_id == Some(t.7))
    &&& r.job_type == t.8
    &&& r.job_object_path == t.9
}

/// Decodes one wire record into a `Unit`. Total: garbage positional data
/// still produces a record, with `Other` state variants, never an error.
pub fn decode_unit(t: WireUnit) -> (r: Unit)
    ensures
        unit_decodes(t, r),
{
    let (name, description, load_raw, active_raw, sub_state, followed, object_path, job_id, job_type, job_object_path) = t;
    Unit {
        name,
        description,
        load_state: decode_load_state(load_raw),
        active_state: decode_active_state(active_raw),
        sub_state,
        followed_unit: if followed.as_str().unicode_len() == 0 { None } else { Some(followed) },
        object_path,
        queued_job_id: if job_id == 0 { None } else { Some(job_id) },
        job_type,
        job_object_path,
    }
}

/// How a whole wire reply and a decoded sequence correspond: same length, and
/// record by record in the same order.
pub open spec fn units_decode(raw: Seq<WireUnit>, units: Seq<Unit>) -> bool {
    &&& units.len() == raw.len()
    &&& forall|i: int| 0 <= i < raw.len() ==> unit_decodes(raw[i], #[trigger] units[i])
}

/// Whether a sequence of units is, record by record and in order, the decoded
/// image of some wire reply.
pub open spec fn decoded_units_reply(units: Seq<Unit>) -> bool {
    exists|raw: Seq<WireUnit>| #[trigger] units_decode(raw, units)
}

/// Decodes every record of a "list loaded units" reply, preserving the remote
/// reply's order and cardinality.
pub fn decode_units(raw: Vec<WireUnit>) -> (r: Vec<Unit>)
    ensures
        units_decode(raw@, r@),
{
    let ghost orig = raw@;
    let mut rest = raw;
    let mut out: Vec<Unit> = Vec::new();
    while rest.len() > 0
        invariant
            out@.len() + rest@.len() == orig.len(),
            rest@ == orig.skip(out@.len() as int),
            forall|i: int| 0 <= i < out@.len() ==> unit_decodes(orig[i], #[trigger] out@[i]),
        decreases rest@.len(),
    {
        let t = rest.remove(0);
        out.push(decode_unit(t));
        proof {
            assert(rest@ =~= orig.skip(out@.len() as int));
        }
    }
    out
}

} // verus!

verus! {

/// Whether two load states carry the same information: equal, or both `Other`
/// with the same characters.
pub open spec fn same_load_state(a: UnitLoadState, b: UnitLoadState) -> bool {
    match (a, b) {
        (UnitLoadState::Other(x), UnitLoadState::Other(y)) => x@ == y@,
        _ => a == b,
    }
}

/// Whether two active states carry the same information.
pub open spec fn same_active_state(a: UnitActiveState, b: UnitActiveState) -> bool {
    match (a, b) {
        (UnitActiveState::Other(x), UnitActiveState::Other(y)) => x@ == y@,
        _ => a == b,
    }
}

/// Law: the load-state vocabulary decodes exactly — each listed literal can
/// only decode to its named variant, and a string outside the vocabulary only
/// to `Other` carrying it unchanged.
pub proof fn lemma_load_state_decoding(s: Seq<char>, r: UnitLoadState)
    requires
        load_state_decodes(s, r),
    ensures
        s == "stub"@ ==> r is Stub,
        s == "loaded"@ ==> r is Loaded,
        s == "not-found"@ ==> r is NotLoaded,
        s == "bad-setting"@ ==> r is BadSetting,
        s == "error"@ ==> r is Error,
        s == "merged"@ ==> r is Merged,
        s == "masked"@ ==> r is Masked,
        !known_load_state(s) ==> (r matches UnitLoadState::Other(raw) && raw@ == s),
{
    reveal_strlit("stub");
    reveal_strlit("loaded");
    reveal_strlit("not-found");
    reveal_strlit("bad-setting");
    reveal_strlit("error");
    reveal_strlit("merged");
    reveal_strlit("masked");
    assert("stub"@.len() == 4 && "loaded"@.len() == 6 && "not-found"@.len() == 9);
    assert("bad-setting"@.len() == 11 && "error"@.len() == 5 && "merged"@.len() == 6);
    assert("masked"@.len() == 6);
    assert("loaded"@[0] == 'l' && "merged"@[0] == 'm' && "masked"@[0] == 'm');
    assert("merged"@[1] == 'e' && "masked"@[1] == 'a');
}

/// Law: the active-state vocabulary decodes exactly, as for load states.
pub proof fn lemma_active_state_decoding(s: Seq<char>, r: UnitActiveState)
    requires
        active_state_decodes(s, r),
    ensures
        s == "active"@ ==> r is Active,
        s == "reloading"@ ==> r is Reloading,
        s == "inactive"@ ==> r is Inactive,
        s == "failed"@ ==> r is Failed,
        s == "activating"@ ==> r is Activating,
        s == "deactivating"@ ==> r is Deactivating,
        s == "maintenance"@ ==> r is Maintenance,
        !known_active_state(s) ==> (r matches UnitActiveState::Other(raw) && raw@ == s),
{
    reveal_strlit("active");
    reveal_strlit("reloading");
    reveal_strlit("inactive");
    reveal_strlit("failed");
    reveal_strlit("activating");
    reveal_strlit("deactivating");
    reveal_strlit("maintenance");
    assert("active"@.len() == 6 && "reloading"@.len() == 9 && "inactive"@.len() == 8);
    assert("failed"@.len() == 6 && "activating"@.len() == 10 && "deactivating"@.len() == 12);
    assert("maintenance"@.len() == 11);
    assert("active"@[0] == 'a' && "failed"@[0] == 'f');
}

/// Law: a wire string decodes to one load state only — any two decodings of
/// the same string carry the same information.
pub proof fn lemma_load_state_decode_deterministic(s: Seq<char>, a: UnitLoadState, b: UnitLoadState)
    requires
        load_state_decodes(s, a),
        load_state_decodes(s, b),
    ensures
        same_load_state(a, b),
{
    lemma_load_state_decoding(s, a);
    lemma_load_state_decoding(s, b);
}

/// Law: a wire string decodes to one active state only.
pub proof fn lemma_active_state_decode_deterministic(
    s: Seq<char>,
    a: UnitActiveState,
    b: UnitActiveState,
)
    requires
        active_state_decodes(s, a),
        active_state_decodes(s, b),
    ensures
        same_active_state(a, b),
{
    lemma_active_state_decoding(s, a);
    lemma_active_state_decoding(s, b);
}

/// Whether two units carry the same information, field by field.
pub open spec fn same_unit(a: Unit, b: Unit) -> bool {
    &&& a.name == b.name
    &&& a.description == b.description
    &&& same_load_state(a.load_state, b.load_state)
    &&& same_active_state(a.active_state, b.active_state)
    &&& a.sub_state == b.sub_state
    &&& a.followed_unit == b.followed_unit
    &&& a.object_path == b.object_path
    &&& a.queued_job_id == b.queued_job_id
    &&& a.job_type == b.job_type
    &&& a.job_object_path == b.job_object_path
}

/// Law: a wire record decodes to one unit only.
pub proof fn lemma_unit_decode_deterministic(t: WireUnit, a: Unit, b: Unit)
    requires
        unit_decodes(t, a),
        unit_decodes(t, b),
    ensures
        same_unit(a, b),
{
    lemma_load_state_decode_deterministic(t.2@, a.load_state, b.load_state);
    lemma_active_state_decode_deterministic(t.3@, a.active_state, b.active_state);
}

/// Law: decoding a whole reply is a function of the reply alone — any two
/// decodings of the same wire reply agree record by record. The blocking and
/// the suspending client both hand their reply to this one decoder, so on the
/// same reply they produce the same records.
pub proof fn lemma_units_decode_deterministic(raw: Seq<WireUnit>, u1: Seq<Unit>, u2: Seq<Unit>)
    requires
        units_decode(raw, u1),
        units_decode(raw, u2),
    ensures
        u1.len() == u2.len(),
        forall|i: int| 0 <= i < u1.len() ==> same_unit(u1[i], #[trigger] u2[i]),
{
    assert forall|i: int| 0 <= i < u1.len() implies same_unit(u1[i], #[trigger] u2[i]) by {
        lemma_unit_decode_deterministic(raw[i], u1[i], u2[i]);
    }
}

} // verus!
