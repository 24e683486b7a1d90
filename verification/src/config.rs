use vstd::prelude::*;

use crate::text::{
    all_hex_digits, chars_of, decimal_digits, hex_digits, hex_digits_value,
    lemma_hex_digits_roundtrip, lemma_utf8_len_at_least_len, parse_hex_u32, parse_hex_u32_spec,
    pow16, push_decimal, push_hex_digits, push_str, string_from_chars, utf8_len, utf8_len_up_to,
};

verus! {

/// Colour mode that a LUT assignment applies to.
#[derive(Debug, Clone, Copy, PartialEq, Eq, Structural, Hash)]
pub enum ColorMode {
    Sdr,
    Hdr,
}

/// A display adapter's locally unique identifier.
#[derive(Debug, Clone, Copy, PartialEq, Eq, Structural, Hash)]
pub struct AdapterLuid {
    pub high_part: i32,
    pub low_part: u32,
}

/// Why a `high:low` adapter LUID string was refused.
#[derive(Debug, Clone, Copy, PartialEq, Eq, Structural)]
pub enum AdapterLuidError {
    MissingSeparator,
    InvalidLength,
    HighPartNotHex,
    LowPartNotHex,
}

impl AdapterLuidError {
    /// The message the manifest reader reports for this refusal.
    pub fn message(self) -> (m: &'static str)
        ensures
            m@ == adapter_luid_error_message(self),
    {
        match self {
            AdapterLuidError::MissingSeparator => "adapter_luid must use high:low hex format",
            AdapterLuidError::InvalidLength => "adapter_luid must use 8-digit high and low hex parts",
            AdapterLuidError::HighPartNotHex => "adapter_luid high part must be hex",
            AdapterLuidError::LowPartNotHex => "adapter_luid low part must be hex",
        }
    }
}

pub open spec fn adapter_luid_error_message(e: AdapterLuidError) -> Seq<char> {
    match e {
        AdapterLuidError::MissingSeparator => "adapter_luid must use high:low hex format"@,
        AdapterLuidError::InvalidLength => "adapter_luid must use 8-digit high and low hex parts"@,
        AdapterLuidError::HighPartNotHex => "adapter_luid high part must be hex"@,
        AdapterLuidError::LowPartNotHex => "adapter_luid low part must be hex"@,
    }
}

/// Index of the first `c` in `s`, if any.
pub open spec fn first_index_of(s: Seq<char>, c: char) -> Option<int> {
    if exists|i: int| 0 <= i < s.len() && s[i] == c {
        Some(
            choose|i: int|
                0 <= i < s.len() && s[i] == c && forall|j: int| 0 <= j < i ==> s[j] != c,
        )
    } else {
        None
    }
}

/// What parsing a `high:low` adapter LUID gives: the text is split at its
/// first `:`, each side must be eight bytes long and a hexadecimal `u32`
/// (an optional `+` allowed), and the high part is reinterpreted as `i32`.
pub open spec fn adapter_luid_parse_spec(s: Seq<char>) -> Result<AdapterLuid, AdapterLuidError> {
    match first_index_of(s, ':') {
        None => Err(AdapterLuidError::MissingSeparator),
        Some(i) => {
            let high = s.subrange(0, i);
            let low = s.subrange(i + 1, s.len() as int);
            if utf8_len(high) != 8 || utf8_len(low) != 8 {
                Err(AdapterLuidError::InvalidLength)
            } else {
                match parse_hex_u32_spec(high) {
                    None => Err(AdapterLuidError::HighPartNotHex),
                    Some(h) => match parse_hex_u32_spec(low) {
                        None => Err(AdapterLuidError::LowPartNotHex),
                        Some(l) => Ok(AdapterLuid { high_part: h as i32, low_part: l }),
                    },
                }
            }
        },
    }
}

/// The `{:08x}:{:08x}` text of an adapter LUID, high part taken as `u32`.
pub open spec fn adapter_luid_text(luid: AdapterLuid) -> Seq<char> {
    hex_digits((luid.high_part as u32) as nat, 8) + seq![':'] + hex_digits(luid.low_part as nat, 8)
}

fn find_first(chars: &Vec<char>, c: char) -> (r: Option<usize>)
    ensures
        match r {
            Some(i) => first_index_of(chars@, c) == Some(i as int) && i < chars@.len(),
            None => first_index_of(chars@, c) is None,
        },
{
    let mut i: usize = 0;
    while i < chars.len()
        invariant
            i <= chars@.len(),
            forall|j: int| 0 <= j < i ==> chars@[j] != c,
        decreases chars@.len() - i,
    {
        if chars[i] == c {
            proof {
                let s = chars@;
                assert(0 <= i < s.len() && s[i as int] == c);
                let k = choose|k: int|
                    0 <= k < s.len() && s[k] == c && forall|j: int| 0 <= j < k ==> s[j] != c;
                assert(k == i) by {
                    if k < i {
                        assert(s[k] != c);
                    }
                    if k > i {
                        assert(s[i as int] != c);
                    }
                }
            }
            return Some(i);
        }
        i = i + 1;
    }
    None
}

impl AdapterLuid {
    /// Parses the `high:low` hexadecimal form used by manifests.
    pub fn parse(value: &str) -> (r: Result<AdapterLuid, AdapterLuidError>)
        ensures
            r == adapter_luid_parse_spec(value@),
    {
        let chars = chars_of(value);
        let colon = match find_first(&chars, ':') {
            None => return Err(AdapterLuidError::MissingSeparator),
            Some(i) => i,
        };
        let high_len = utf8_len_up_to(&chars, 0, colon, 8);
        let low_len = utf8_len_up_to(&chars, colon + 1, chars.len(), 8);
        let lengths_ok = match (high_len, low_len) {
            (Some(h), Some(l)) => h == 8 && l == 8,
            _ => false,
        };
        if !lengths_ok {
            return Err(AdapterLuidError::InvalidLength);
        }
        proof {
            lemma_utf8_len_at_least_len(chars@.subrange(0, colon as int));
            lemma_utf8_len_at_least_len(chars@.subrange(colon + 1, chars@.len() as int));
        }
        let high = match parse_hex_u32(&chars, 0, colon) {
            None => return Err(AdapterLuidError::HighPartNotHex),
            Some(h) => h,
        };
        let low = match parse_hex_u32(&chars, colon + 1, chars.len()) {
            None => return Err(AdapterLuidError::LowPartNotHex),
            Some(l) => l,
        };
        Ok(AdapterLuid { high_part: high as i32, low_part: low })
    }

    /// The characters of the `high:low` form, both parts as eight lower-case
    /// hexadecimal digits.
    pub fn text_chars(&self) -> (v: Vec<char>)
        ensures
            v@ == adapter_luid_text(*self),
    {
        let mut out: Vec<char> = Vec::new();
        push_hex_digits(&mut out, self.high_part as u32, 8);
        out.push(':');
        push_hex_digits(&mut out, self.low_part, 8);
        assert(out@ =~= adapter_luid_text(*self));
        out
    }

    /// The `high:low` form as a string, as the manifest writes it.
    pub fn to_text(&self) -> (s: String)
        ensures
            s@ == adapter_luid_text(*self),
    {
        let chars = self.text_chars();
        string_from_chars(&chars)
    }
}

impl core::str::FromStr for AdapterLuid {
    type Err = &'static str;

    fn from_str(value: &str) -> (r: Result<AdapterLuid, &'static str>)
        ensures
            match adapter_luid_parse_spec(value@) {
                Ok(luid) => r == Ok::<AdapterLuid, &'static str>(luid),
                Err(e) => r matches Err(m) && m@ == adapter_luid_error_message(e),
            },
    {
        match AdapterLuid::parse(value) {
            Ok(luid) => Ok(luid),
            Err(e) => Err(e.message()),
        }
    }
}

proof fn lemma_hex8_parses(v: u32)
    ensures
        hex_digits(v as nat, 8).len() == 8,
        utf8_len(hex_digits(v as nat, 8)) == 8,
        parse_hex_u32_spec(hex_digits(v as nat, 8)) == Some(v),
        forall|i: int| 0 <= i < 8 ==> hex_digits(v as nat, 8)[i] != ':',
{
    reveal_with_fuel(pow16, 9);
    lemma_hex_digits_roundtrip(v as nat, 8);
    let d = hex_digits(v as nat, 8);
    lemma_utf8_len_ones(d);
    assert(d[0] != '+');
    assert(!(d.len() > 0 && d[0] == '+'));
}

proof fn lemma_utf8_len_ones(s: Seq<char>)
    requires
        forall|i: int| 0 <= i < s.len() ==> #[trigger] crate::text::char_utf8_len(s[i]) == 1,
    ensures
        utf8_len(s) == s.len(),
    decreases s.len(),
{
    if s.len() > 0 {
        let p = s.drop_last();
        assert forall|i: int| 0 <= i < p.len() implies #[trigger] crate::text::char_utf8_len(p[i]) == 1 by {
            assert(p[i] == s[i]);
        }
        lemma_utf8_len_ones(p);
        assert(crate::text::char_utf8_len(s[s.len() - 1]) == 1);
    }
}

/// Writing an adapter LUID in its `high:low` form and parsing the text gives
/// the same LUID back.
pub proof fn lemma_adapter_luid_text_roundtrip(luid: AdapterLuid)
    ensures
        adapter_luid_parse_spec(adapter_luid_text(luid)) == Ok::<AdapterLuid, AdapterLuidError>(luid),
{
    let h = luid.high_part as u32;
    let l = luid.low_part;
    lemma_hex8_parses(h);
    lemma_hex8_parses(l);
    let hs = hex_digits(h as nat, 8);
    let ls = hex_digits(l as nat, 8);
    let s = adapter_luid_text(luid);
    assert(s[8] == ':');
    assert forall|j: int| 0 <= j < 8 implies s[j] != ':' by {
        assert(s[j] == hs[j]);
    }
    let k = choose|k: int| 0 <= k < s.len() && s[k] == ':' && forall|j: int| 0 <= j < k ==> s[j] != ':';
    assert(0 <= 8 < s.len() && s[8] == ':' && forall|j: int| 0 <= j < 8 ==> s[j] != ':');
    assert(k == 8) by {
        if k < 8 {
            assert(s[k] == hs[k]);
        }
        if k > 8 {
            assert(s[8] != ':');
        }
    }
    assert(s.subrange(0, 8) =~= hs);
    assert(s.subrange(9, s.len() as int) =~= ls);
    let hp = luid.high_part;
    assert((h as i32) == hp) by (bit_vector)
        requires
            h == hp as u32,
    ;
}

/// A monitor as the runtime identifies it: adapter and display target.
#[derive(Debug, Clone, Copy, PartialEq, Eq, Structural, Hash)]
pub struct MonitorIdentity {
    pub adapter_luid: AdapterLuid,
    pub target_id: u32,
}

/// A monitor together with the colour mode an assignment covers.
#[derive(Debug, Clone, Copy, PartialEq, Eq, Structural, Hash)]
pub struct MonitorTarget {
    pub identity: MonitorIdentity,
    pub color_mode: ColorMode,
}

/// One LUT file assigned to a monitor and colour mode.
#[derive(Debug, Clone, PartialEq, Eq)]
pub struct LutAssignment {
    pub target: MonitorTarget,
    pub lut_path: String,
    pub lut_size: u32,
}

/// The list of LUT assignments of a manifest, in file order.
#[derive(Debug, Clone, PartialEq, Eq)]
pub struct LutManifest {
    pub assignments: Vec<LutAssignment>,
}

impl LutManifest {
    /// A manifest with no assignments.
    pub fn empty() -> (m: LutManifest)
        ensures
            m.assignments@.len() == 0,
    {
        LutManifest { assignments: Vec::new() }
    }

    /// Appends an assignment after the existing ones.
    pub fn add(&mut self, assignment: LutAssignment)
        ensures
            final(self).assignments@ == old(self).assignments@.push(assignment),
    {
        self.assignments.push(assignment);
    }
}

/// The outside I/O error type that a manifest read can fail with.
#[verifier::external_type_specification]
#[verifier::external_body]
pub struct ExIoError(std::io::Error);

/// Why a manifest or cube file could not be used.
#[derive(Debug)]
pub enum ConfigError {
    Io(std::io::Error),
    Parse { line: Option<usize>, message: String },
    Unsupported(&'static str),
}

/// Whether `e` is a parse error at `line` with the message `message`.
pub open spec fn is_parse_error(e: ConfigError, line: Option<usize>, message: Seq<char>) -> bool {
    match e {
        ConfigError::Parse { line: l, message: m } => l == line && m@ == message,
        _ => false,
    }
}

impl ConfigError {
    /// A parse error tied to a line of the input.
    pub fn parse_at(line: usize, message: String) -> (e: ConfigError)
        ensures
            is_parse_error(e, Some(line), message@),
    {
        ConfigError::Parse { line: Some(line), message }
    }

    /// A parse error that concerns the input as a whole.
    pub fn parse_message(message: String) -> (e: ConfigError)
        ensures
            is_parse_error(e, None, message@),
    {
        ConfigError::Parse { line: None, message }
    }

    /// The error for a JSON document the reader refused: a reported line of
    /// zero means that no line is known.
    pub fn from_json_failure(line: usize, message: String) -> (e: ConfigError)
        ensures
            is_parse_error(e, if line == 0 { None } else { Some(line) }, message@),
    {
        let line = if line == 0 {
            None
        } else {
            Some(line)
        };
        ConfigError::Parse { line, message }
    }
}

/// The `monitor` object of a manifest assignment.
#[derive(Debug, Clone, Copy, PartialEq, Eq, Structural)]
pub struct ManifestMonitorDocument {
    pub adapter_luid: AdapterLuid,
    pub target_id: u32,
}

/// One entry of a manifest's `assignments` array, as written.
#[derive(Debug, Clone, PartialEq, Eq)]
pub struct ManifestAssignmentDocument {
    pub monitor: ManifestMonitorDocument,
    pub color_mode: ColorMode,
    pub lut_path: String,
    pub lut_size: u32,
}

/// A manifest as written, before validation.
#[derive(Debug, Clone, PartialEq, Eq)]
pub struct ManifestDocument {
    pub assignments: Vec<ManifestAssignmentDocument>,
}

pub open spec fn document_target(d: ManifestAssignmentDocument) -> MonitorTarget {
    MonitorTarget {
        identity: MonitorIdentity {
            adapter_luid: d.monitor.adapter_luid,
            target_id: d.monitor.target_id,
        },
        color_mode: d.color_mode,
    }
}

/// Whether an earlier entry already names the monitor and colour mode of entry `i`.
pub open spec fn has_earlier_duplicate(docs: Seq<ManifestAssignmentDocument>, i: int) -> bool {
    exists|j: int| 0 <= j < i && document_target(#[trigger] docs[j]) == document_target(docs[i])
}

/// Whether entry `i` is refused: a zero LUT size or a repeated target.
pub open spec fn entry_refused(docs: Seq<ManifestAssignmentDocument>, i: int) -> bool {
    docs[i].lut_size == 0 || has_earlier_duplicate(docs, i)
}

/// Whether `i` is the first refused entry.
pub open spec fn first_refused(docs: Seq<ManifestAssignmentDocument>, i: int) -> bool {
    0 <= i < docs.len() && entry_refused(docs, i) && forall|j: int|
        0 <= j < i ==> !#[trigger] entry_refused(docs, j)
}

pub open spec fn color_mode_name(c: ColorMode) -> Seq<char> {
    match c {
        ColorMode::Sdr => "Sdr"@,
        ColorMode::Hdr => "Hdr"@,
    }
}

/// The message for a second assignment to one monitor and colour mode.
pub open spec fn duplicate_message(t: MonitorTarget) -> Seq<char> {
    "duplicate assignment for monitor adapter_luid="@ + adapter_luid_text(t.identity.adapter_luid)
        + ", target_id="@ + decimal_digits(t.identity.target_id as nat) + ", color_mode="@
        + color_mode_name(t.color_mode)
}

/// The error reported for refused entry `i`.
pub open spec fn refusal_matches(docs: Seq<ManifestAssignmentDocument>, i: int, e: ConfigError) -> bool {
    if docs[i].lut_size == 0 {
        is_parse_error(e, None, "lut_size must be greater than 0"@)
    } else {
        is_parse_error(e, None, duplicate_message(document_target(docs[i])))
    }
}

/// Whether `assignments` are the entries of `docs` with the given LUT paths.
pub open spec fn assignments_match(
    assignments: Seq<LutAssignment>,
    docs: Seq<ManifestAssignmentDocument>,
    paths: Seq<String>,
) -> bool {
    &&& assignments.len() == docs.len()
    &&& forall|i: int|
        0 <= i < docs.len() ==> {
            &&& (#[trigger] assignments[i]).target == document_target(docs[i])
            &&& assignments[i].lut_size == docs[i].lut_size
            &&& assignments[i].lut_path@ == paths[i]@
        }
}

fn color_mode_chars(out: &mut Vec<char>, c: ColorMode)
    ensures
        final(out)@ == old(out)@ + color_mode_name(c),
{
    match c {
        ColorMode::Sdr => push_str(out, "Sdr"),
        ColorMode::Hdr => push_str(out, "Hdr"),
    }
}

fn duplicate_error(target: MonitorTarget) -> (e: ConfigError)
    ensures
        is_parse_error(e, None, duplicate_message(target)),
{
    let mut out: Vec<char> = Vec::new();
    push_str(&mut out, "duplicate assignment for monitor adapter_luid=");
    let luid = target.identity.adapter_luid.text_chars();
    let mut i: usize = 0;
    let ghost start = out@;
    while i < luid.len()
        invariant
            i <= luid@.len(),
            out@ == start + luid@.subrange(0, i as int),
        decreases luid@.len() - i,
    {
        out.push(luid[i]);
        i = i + 1;
        assert(out@ =~= start + luid@.subrange(0, i as int));
    }
    assert(luid@.subrange(0, i as int) =~= luid@);
    push_str(&mut out, ", target_id=");
    push_decimal(&mut out, target.identity.target_id as u64);
    push_str(&mut out, ", color_mode=");
    color_mode_chars(&mut out, target.color_mode);
    assert(out@ =~= duplicate_message(target));
    ConfigError::parse_message(string_from_chars(&out))
}

/// Validates a manifest document whose relative LUT paths have already been
/// resolved into `resolved_paths` (one per entry, in order): entries are
/// taken in order, and the first entry with a zero LUT size, or with a
/// monitor and colour mode that an earlier entry already has, stops the
/// build with its error.
pub fn build_manifest(document: ManifestDocument, resolved_paths: Vec<String>) -> (r: Result<
    LutManifest,
    ConfigError,
>)
    requires
        resolved_paths@.len() == document.assignments@.len(),
    ensures
        match r {
            Ok(m) => {
                &&& forall|i: int|
                    0 <= i < document.assignments@.len() ==> !#[trigger] entry_refused(
                        document.assignments@,
                        i,
                    )
                &&& assignments_match(m.assignments@, document.assignments@, resolved_paths@)
            },
            Err(e) => exists|i: int|
                #[trigger] first_refused(document.assignments@, i) && refusal_matches(
                    document.assignments@,
                    i,
                    e,
                ),
        },
{
    let docs = document.assignments;
    assert(docs@ == document.assignments@);
    let mut manifest = LutManifest::empty();
    let mut i: usize = 0;
    while i < docs.len()
        invariant
            i <= docs@.len(),
            docs@ == document.assignments@,
            resolved_paths@.len() == docs@.len(),
            forall|j: int| 0 <= j < i ==> !#[trigger] entry_refused(docs@, j),
            assignments_match(manifest.assignments@, docs@.subrange(0, i as int), resolved_paths@),
        decreases docs@.len() - i,
    {
        let entry = &docs[i];
        if entry.lut_size == 0 {
            let e = ConfigError::parse_message(
                string_from_chars(&{
                    let mut v: Vec<char> = Vec::new();
                    push_str(&mut v, "lut_size must be greater than 0");
                    v
                }),
            );
            assert(first_refused(docs@, i as int));
            assert(refusal_matches(docs@, i as int, e));
            assert(first_refused(document.assignments@, i as int));
            return Err(e);
        }
        let target = MonitorTarget {
            identity: MonitorIdentity {
                adapter_luid: entry.monitor.adapter_luid,
                target_id: entry.monitor.target_id,
            },
            color_mode: entry.color_mode,
        };
        let mut k: usize = 0;
        while k < manifest.assignments.len()
            invariant
                k <= manifest.assignments@.len(),
                manifest.assignments@.len() == i,
                i < docs@.len(),
                target == document_target(docs@[i as int]),
                assignments_match(manifest.assignments@, docs@.subrange(0, i as int), resolved_paths@),
                forall|j: int| 0 <= j < k ==> document_target(docs@[j]) != target,
                forall|j: int| 0 <= j < i ==> !#[trigger] entry_refused(docs@, j),
                docs@[i as int].lut_size != 0,
                docs@ == document.assignments@,
            decreases manifest.assignments@.len() - k,
        {
            if manifest.assignments[k].target == target {
                assert(docs@.subrange(0, i as int)[k as int] == docs@[k as int]);
                assert(manifest.assignments@[k as int].target == document_target(docs@[k as int]));
                assert(document_target(docs@[k as int]) == document_target(docs@[i as int]));
                assert(has_earlier_duplicate(docs@, i as int));
                assert(entry_refused(docs@, i as int));
                assert(first_refused(docs@, i as int));
                let e = duplicate_error(target);
                assert(refusal_matches(docs@, i as int, e));
                assert(first_refused(document.assignments@, i as int));
                return Err(e);
            }
            assert(docs@.subrange(0, i as int)[k as int] == docs@[k as int]);
            k = k + 1;
        }
        assert(!has_earlier_duplicate(docs@, i as int));
        let path = resolved_paths[i].clone();
        manifest.add(LutAssignment { target, lut_path: path, lut_size: entry.lut_size });
        i = i + 1;
        assert(assignments_match(manifest.assignments@, docs@.subrange(0, i as int), resolved_paths@)) by {
            assert forall|j: int| 0 <= j < i implies {
                &&& (#[trigger] manifest.assignments@[j]).target == document_target(docs@.subrange(0, i as int)[j])
                &&& manifest.assignments@[j].lut_size == docs@.subrange(0, i as int)[j].lut_size
                &&& manifest.assignments@[j].lut_path@ == resolved_paths@[j]@
            } by {
                if j < i - 1 {
                    assert(docs@.subrange(0, i - 1)[j] == docs@[j]);
                }
            }
        }
    }
    assert(docs@.subrange(0, i as int) =~= docs@);
    Ok(manifest)
}

/// Whether `c` separates path components on some platform.
pub open spec fn is_path_separator(c: char) -> bool {
    c == '/' || c == '\\'
}

/// Whether `path` starts with two separators, as a Windows UNC, device or
/// verbatim path does.
pub open spec fn starts_with_two_separators(path: Seq<char>) -> bool {
    path.len() >= 2 && is_path_separator(path[0]) && is_path_separator(path[1])
}

/// Whether `path` is relative on every platform: it starts with no
/// separator and has no drive prefix (a letter and `:`).
pub open spec fn plainly_relative(path: Seq<char>) -> bool {
    &&& !(path.len() >= 1 && is_path_separator(path[0]))
    &&& !(path.len() >= 2 && path[1] == ':')
}

/// Whether `s` starts with `prefix`.
pub open spec fn starts_with(s: Seq<char>, prefix: Seq<char>) -> bool {
    prefix.len() <= s.len() && s.subrange(0, prefix.len() as int) == prefix
}

/// Whether `s` ends with `suffix`.
pub open spec fn ends_with(s: Seq<char>, suffix: Seq<char>) -> bool {
    suffix.len() <= s.len() && s.subrange(s.len() - suffix.len(), s.len() as int) == suffix
}

/// Whether a path is absolute under the running platform's path rules.
///
/// Trusted: wraps `std::path::Path::is_absolute`. Its documentation makes
/// an absolute path start with the root on Unix, and have a prefix and a
/// root on Windows; every Windows prefix starts with a separator or is a
/// drive letter and `:`. So the contract claims only that an absolute path
/// is not plainly relative; the rest depends on the platform.
#[verifier::external_body]
fn path_is_absolute(path: &str) -> (r: bool)
    ensures
        r ==> !plainly_relative(path@),
{
    std::path::Path::new(path).is_absolute()
}

/// `base` joined with `path` under the running platform's path rules.
///
/// Trusted: wraps `std::path::Path::join`, the result converted to a string
/// (losslessly, both parts being UTF-8). As `PathBuf::push` documents
/// adjoining, the path is appended to `base` with at most one separator
/// between, except that an absolute path, one with a root or one with a
/// prefix replaces all or part of `base`, and a Windows verbatim `base`
/// (starting with two separators) is normalized. So the contract claims:
/// unless `base` starts with two separators, the result ends with `path`,
/// and for a plainly relative `path` it is `base`, at most one character,
/// then `path`. The separator chosen depends on the platform.
#[verifier::external_body]
fn path_join(base: &str, path: &str) -> (r: String)
    ensures
        !starts_with_two_separators(base@) ==> ends_with(r@, path@),
        !starts_with_two_separators(base@) && plainly_relative(path@) ==> starts_with(r@, base@)
            && r@.len() <= base@.len() + path@.len() + 1,
{
    std::path::Path::new(base).join(path).to_string_lossy().into_owned()
}

/// Whether `resolved` can be the LUT path of an entry written as `written`
/// in a manifest in `base_dir`: unless `base_dir` starts with two
/// separators it ends with the written path, and a plainly relative written
/// path is joined to `base_dir` (`base_dir`, at most one separator, then
/// the written path).
pub open spec fn resolves_lut_path(base_dir: Seq<char>, written: Seq<char>, resolved: Seq<char>) -> bool {
    &&& !starts_with_two_separators(base_dir) ==> ends_with(resolved, written)
    &&& !starts_with_two_separators(base_dir) && plainly_relative(written) ==> starts_with(
        resolved,
        base_dir,
    ) && resolved.len() <= base_dir.len() + written.len() + 1
}

/// The LUT path of an entry whose written path is `lut_path`: the path as
/// written where it is `absolute`, else `joined`, the path joined to the
/// manifest's directory.
pub fn resolved_lut_path(lut_path: &String, absolute: bool, joined: String) -> (r: String)
    ensures
        r@ == if absolute {
            lut_path@
        } else {
            joined@
        },
{
    if absolute {
        lut_path.clone()
    } else {
        joined
    }
}

/// The LUT path an entry stands for: absolute paths as written, relative ones
/// joined to the manifest's directory, as the running platform reads paths.
fn resolve_lut_path(base_dir: &str, lut_path: &String) -> (r: String)
    ensures
        resolves_lut_path(base_dir@, lut_path@, r@),
{
    let absolute = path_is_absolute(lut_path.as_str());
    let joined = path_join(base_dir, lut_path.as_str());
    assert(lut_path@.subrange(0, lut_path@.len() as int) =~= lut_path@);
    resolved_lut_path(lut_path, absolute, joined)
}

/// Of two paths a string ends with, the shorter is a suffix of the longer.
proof fn lemma_common_suffixes(s: Seq<char>, a: Seq<char>, b: Seq<char>)
    requires
        ends_with(s, a),
        ends_with(s, b),
        a.len() <= b.len(),
    ensures
        ends_with(b, a),
{
    assert(b.subrange(b.len() - a.len(), b.len() as int) =~= s.subrange(
        s.len() - a.len(),
        s.len() as int,
    ));
}

/// In a manifest built from `entries` in `base_dir` (not a UNC or verbatim
/// directory), as `manifest_from_document` builds it, each assignment's LUT
/// path ends with the path its own entry wrote, and a plainly relative
/// written path lies in `base_dir`. So two entries whose written paths are
/// not suffixes of one another never get the same LUT path.
pub proof fn lemma_manifest_paths_follow_their_entries(
    base_dir: Seq<char>,
    entries: Seq<ManifestAssignmentDocument>,
    assignments: Seq<LutAssignment>,
    i: int,
    j: int,
)
    requires
        !starts_with_two_separators(base_dir),
        assignments.len() == entries.len(),
        forall|k: int|
            0 <= k < entries.len() ==> resolves_lut_path(
                base_dir,
                #[trigger] entries[k].lut_path@,
                assignments[k].lut_path@,
            ),
        0 <= i < entries.len(),
        0 <= j < entries.len(),
        !ends_with(entries[i].lut_path@, entries[j].lut_path@),
        !ends_with(entries[j].lut_path@, entries[i].lut_path@),
    ensures
        ends_with(assignments[i].lut_path@, entries[i].lut_path@),
        plainly_relative(entries[i].lut_path@) ==> starts_with(assignments[i].lut_path@, base_dir),
        assignments[i].lut_path@ != assignments[j].lut_path@,
{
    let pi = entries[i].lut_path@;
    let pj = entries[j].lut_path@;
    let s = assignments[i].lut_path@;
    assert(resolves_lut_path(base_dir, pi, s));
    assert(resolves_lut_path(base_dir, pj, assignments[j].lut_path@));
    if s == assignments[j].lut_path@ {
        if pi.len() <= pj.len() {
            lemma_common_suffixes(s, pi, pj);
        } else {
            lemma_common_suffixes(s, pj, pi);
        }
    }
}

/// Validates a manifest document read from a file in `base_dir`.
///
/// Succeeds exactly when no entry has a zero LUT size and no two entries name
/// the same monitor and colour mode; the assignments then keep the entries'
/// order, targets and sizes. Otherwise the first refused entry decides the
/// error, as `build_manifest` states.
pub fn manifest_from_document(base_dir: &str, document: ManifestDocument) -> (r: Result<
    LutManifest,
    ConfigError,
>)
    ensures
        match r {
            Ok(m) => {
                &&& forall|i: int|
                    0 <= i < document.assignments@.len() ==> !#[trigger] entry_refused(
                        document.assignments@,
                        i,
                    )
                &&& m.assignments@.len() == document.assignments@.len()
                &&& forall|i: int|
                    0 <= i < document.assignments@.len() ==> {
                        &&& (#[trigger] m.assignments@[i]).target == document_target(
                            document.assignments@[i],
                        )
                        &&& m.assignments@[i].lut_size == document.assignments@[i].lut_size
                        &&& resolves_lut_path(
                            base_dir@,
                            document.assignments@[i].lut_path@,
                            m.assignments@[i].lut_path@,
                        )
                    }
            },
            Err(e) => exists|i: int|
                #[trigger] first_refused(document.assignments@, i) && refusal_matches(
                    document.assignments@,
                    i,
                    e,
                ),
        },
{
    let mut paths: Vec<String> = Vec::new();
    let mut i: usize = 0;
    while i < document.assignments.len()
        invariant
            i <= document.assignments@.len(),
            paths@.len() == i,
            forall|j: int|
                0 <= j < i ==> resolves_lut_path(
                    base_dir@,
                    document.assignments@[j].lut_path@,
                    #[trigger] paths@[j]@,
                ),
        decreases document.assignments@.len() - i,
    {
        paths.push(resolve_lut_path(base_dir, &document.assignments[i].lut_path));
        i = i + 1;
    }
    build_manifest(document, paths)
}

} // verus!
