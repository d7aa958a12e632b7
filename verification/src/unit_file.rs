use vstd::prelude::*;

use crate::unit::string_eq_lit;

verus! {

/// Whether a unit file is configured to start automatically, and how, as the
/// remote service reports it on the wire.
#[derive(Debug)]
pub enum EnablementStatus {
    Alias,
    Disabled,
    Enabled,
    EnabledRuntime,
    Generated,
    Static,
    Transient,
    /// A wire value outside the known vocabulary, kept unchanged. Unknown
    /// values are never an error: the remote vocabulary may grow.
    Other(String),
}

/// A unit file found on disk, decoded from one wire record. An immutable
/// snapshot of remote state at call time; never cached or mutated.
#[derive(Debug)]
pub struct UnitFile {
    /// The location of the unit file on disk.
    pub path: String,
    /// Whether and how the unit file is enabled.
    pub enablement_status: EnablementStatus,
}

/// One record of the remote "list unit files on disk" reply, exactly as it
/// arrives: the file's path and its enablement status string.
pub type WireUnitFile = (String, String);

/// The wire strings with a named `EnablementStatus` variant.
pub open spec fn known_enablement_status(s: Seq<char>) -> bool {
    ||| s == "alias"@
    ||| s == "disabled"@
    ||| s == "enabled"@
    ||| s == "enabled-runtime"@
    ||| s == "generated"@
    ||| s == "static"@
    ||| s == "transient"@
}

/// How a wire string and an `EnablementStatus` correspond: each named variant
/// stands for exactly one wire string, and `Other` carries any string outside
/// that vocabulary unchanged.
pub open spec fn enablement_status_decodes(s: Seq<char>, r: EnablementStatus) -> bool {
    match r {
        EnablementStatus::Alias => s == "alias"@,
        EnablementStatus::Disabled => s == "disabled"@,
        EnablementStatus::Enabled => s == "enabled"@,
        EnablementStatus::EnabledRuntime => s == "enabled-runtime"@,
        EnablementStatus::Generated => s == "generated"@,
        EnablementStatus::Static => s == "static"@,
        EnablementStatus::Transient => s == "transient"@,
        EnablementStatus::Other(raw) => raw@ == s && !known_enablement_status(s),
    }
}

/// How a wire record and a `UnitFile` correspond: the path is passed through
/// verbatim and the status string goes through its decoder.
pub open spec fn unit_file_decodes(t: WireUnitFile, r: UnitFile) -> bool {
    &&& r.path == t.0
    &&& enablement_status_decodes(t.1@, r.enablement_status)
    &&& (r.enablement_status matches EnablementStatus::Other(raw) ==> raw == t.1)
}

/// How a whole wire reply and a decoded sequence correspond: same length, and
/// record by record in the same order.
pub open spec fn unit_files_decode(raw: Seq<WireUnitFile>, files: Seq<UnitFile>) -> bool {
    &&& files.len() == raw.len()
    &&& forall|i: int| 0 <= i < raw.len() ==> unit_file_decodes(raw[i], #[trigger] files[i])
}

/// Whether a sequence of unit files is, record by record and in order, the
/// decoded image of some wire reply.
pub open spec fn decoded_unit_files_reply(files: Seq<UnitFile>) -> bool {
    exists|raw: Seq<WireUnitFile>| #[trigger] unit_files_decode(raw, files)
}

/// Decodes the wire value of a unit file's enablement status. Total: an
/// unknown string becomes `Other` carrying it unchanged, never an error.
pub fn decode_enablement_status(s: String) -> (r: EnablementStatus)
    ensures
        enablement_status_decodes(s@, r),
        r matches EnablementStatus::Other(raw) ==> raw == s,
{
    if string_eq_lit(&s, "alias") {
        EnablementStatus::Alias
    } else if string_eq_lit(&s, "disabled") {
        EnablementStatus::Disabled
    } else if string_eq_lit(&s, "enabled") {
        EnablementStatus::Enabled
    } else if string_eq_lit(&s, "enabled-runtime") {
        EnablementStatus::EnabledRuntime
    } else if string_eq_lit(&s, "generated") {
        EnablementStatus::Generated
    } else if string_eq_lit(&s, "static") {
        EnablementStatus::Static
    } else if string_eq_lit(&s, "transient") {
        EnablementStatus::Transient
    } else {
        EnablementStatus::Other(s)
    }
}

/// Decodes one wire record into a `UnitFile`. Total, like the enum decoder.
pub fn decode_unit_file(t: WireUnitFile) -> (r: UnitFile)
    ensures
        unit_file_decodes(t, r),
{
    let (path, status_raw) = t;
    UnitFile { path, enablement_status: decode_enablement_status(status_raw) }
}

/// Decodes every record of a "list unit files on disk" reply, preserving the
/// remote reply's order and cardinality.
pub fn decode_unit_files(raw: Vec<WireUnitFile>) -> (r: Vec<UnitFile>)
    ensures
        unit_files_decode(raw@, r@),
{
    let ghost orig = raw@;
    let mut rest = raw;
    let mut out: Vec<UnitFile> = Vec::new();
    while rest.len() > 0
        invariant
            out@.len() + rest@.len() == orig.len(),
            rest@ == orig.skip(out@.len() as int),
            forall|i: int| 0 <= i < out@.len() ==> unit_file_decodes(orig[i], #[trigger] out@[i]),
        decreases rest@.len(),
    {
        let t = rest.remove(0);
        out.push(decode_unit_file(t));
        proof {
            assert(rest@ =~= orig.skip(out@.len() as int));
        }
    }
    out
}

} // verus!

verus! {

/// Whether two enablement statuses carry the same information: equal, or both
/// `Other` with the same characters.
pub open spec fn same_enablement_status(a: EnablementStatus, b: EnablementStatus) -> bool {
    match (a, b) {
        (EnablementStatus::Other(x), EnablementStatus::Other(y)) => x@ == y@,
        _ => a == b,
    }
}

/// Law: the enablement vocabulary decodes exactly — each listed literal can
/// only decode to its named variant, and a string outside the vocabulary only
/// to `Other` carrying it unchanged.
pub proof fn lemma_enablement_status_decoding(s: Seq<char>, r: EnablementStatus)
    requires
        enablement_status_decodes(s, r),
    ensures
        s == "alias"@ ==> r is Alias,
        s == "disabled"@ ==> r is Disabled,
        s == "enabled"@ ==> r is Enabled,
        s == "enabled-runtime"@ ==> r is EnabledRuntime,
        s == "generated"@ ==> r is Generated,
        s == "static"@ ==> r is Static,
        s == "transient"@ ==> r is Transient,
        !known_enablement_status(s) ==> (r matches EnablementStatus::Other(raw) && raw@ == s),
{
    reveal_strlit("alias");
    reveal_strlit("disabled");
    reveal_strlit("enabled");
    reveal_strlit("enabled-runtime");
    reveal_strlit("generated");
    reveal_strlit("static");
    reveal_strlit("transient");
    assert("alias"@.len() == 5 && "disabled"@.len() == 8 && "enabled"@.len() == 7);
    assert("enabled-runtime"@.len() == 15 && "generated"@.len() == 9 && "static"@.len() == 6);
    assert("transient"@.len() == 9);
    assert("generated"@[0] == 'g' && "transient"@[0] == 't');
}

/// Law: a wire string decodes to one enablement status only.
pub proof fn lemma_enablement_status_decode_deterministic(
    s: Seq<char>,
    a: EnablementStatus,
    b: EnablementStatus,
)
    requires
        enablement_status_decodes(s, a),
        enablement_status_decodes(s, b),
    ensures
        same_enablement_status(a, b),
{
    lemma_enablement_status_decoding(s, a);
    lemma_enablement_status_decoding(s, b);
}

/// Whether two unit files carry the same information, field by field.
pub open spec fn same_unit_file(a: UnitFile, b: UnitFile) -> bool {
    &&& a.path == b.path
    &&& same_enablement_status(a.enablement_status, b.enablement_status)
}

/// Law: a wire record decodes to one unit file only.
pub proof fn lemma_unit_file_decode_deterministic(t: WireUnitFile, a: UnitFile, b: UnitFile)
    requires
        unit_file_decodes(t, a),
        unit_file_decodes(t, b),
    ensures
        same_unit_file(a, b),
{
    lemma_enablement_status_decode_deterministic(t.1@, a.enablement_status, b.enablement_status);
}

/// Law: decoding a whole reply is a function of the reply alone — any two
/// decodings of the same wire reply agree record by record, so the blocking
/// and the suspending client produce the same unit files from the same reply.
pub proof fn lemma_unit_files_decode_deterministic(
    raw: Seq<WireUnitFile>,
    f1: Seq<UnitFile>,
    f2: Seq<UnitFile>,
)
    requires
        unit_files_decode(raw, f1),
        unit_files_decode(raw, f2),
    ensures
        f1.len() == f2.len(),
        forall|i: int| 0 <= i < f1.len() ==> same_unit_file(f1[i], #[trigger] f2[i]),
{
    assert forall|i: int| 0 <= i < f1.len() implies same_unit_file(f1[i], #[trigger] f2[i]) by {
        lemma_unit_file_decode_deterministic(raw[i], f1[i], f2[i]);
    }
}

} // verus!
