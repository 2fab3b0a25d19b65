use vstd::prelude::*;
use crate::presence::opt_text;
use crate::text::same_text;

verus! {

/// Declares `serde_json::Error`, the error of the JSON parser, so that the
/// library can hand it on; nothing inside it is read.
#[verifier::external_type_specification]
#[verifier::external_body]
pub struct ExJsonError(serde_json::Error);

/// The fields of a JSON object as the parser hands them out: the name of each
/// field and, where the field's value is a JSON string, that string.
pub type TextFields = Vec<(String, Option<String>)>;

/// The fields, by their characters.
pub open spec fn fields_view(f: Seq<(String, Option<String>)>) -> Seq<(Seq<char>, Option<Seq<char>>)> {
    f.map_values(|e: (String, Option<String>)| (e.0@, opt_text(e.1)))
}

/// What parsing `raw` as one JSON value gives: `None` when it is not valid
/// JSON, `Some(None)` when it is a JSON value other than an object, and
/// `Some(Some(f))` with the object's fields otherwise.
pub uninterp spec fn json_text_fields(raw: Seq<char>) -> Option<Option<Seq<(Seq<char>, Option<Seq<char>>)>>>;

/// A parse outcome read by its characters.
pub open spec fn parsed_view(d: Result<Option<TextFields>, serde_json::Error>) -> Option<Option<Seq<(Seq<char>, Option<Seq<char>>)>>> {
    match d {
        Err(_) => None,
        Ok(None) => Some(None),
        Ok(Some(f)) => Some(Some(fields_view(f@))),
    }
}

/// No two fields share a name.
pub open spec fn distinct_names(f: Seq<(Seq<char>, Option<Seq<char>>)>) -> bool {
    forall|i: int, j: int| 0 <= i < f.len() && 0 <= j < f.len() && i != j ==> #[trigger] f[i].0 != #[trigger] f[j].0
}

/// Parses `raw` with `serde_json::from_str` into a `serde_json::Value` and, when
/// that value is an object, hands out its fields (the object's map holds each
/// name once). The contract names the outcome by `json_text_fields` and
/// states that the names are distinct; it says nothing of which texts the
/// parser accepts.
#[verifier::external_body]
fn parse_text_fields(raw: &str) -> (r: Result<Option<TextFields>, serde_json::Error>)
    ensures
        parsed_view(r) == json_text_fields(raw@),
        r matches Ok(Some(f)) ==> distinct_names(fields_view(f@)),
{
    match serde_json::from_str::<serde_json::Value>(raw) {
        Err(e) => Err(e),
        Ok(serde_json::Value::Object(map)) => Ok(Some(map.into_iter().map(|(k, v)| (k, match v {
            serde_json::Value::String(s) => Some(s),
            _ => None,
        })).collect())),
        Ok(_) => Ok(None),
    }
}

/// The value of the first field named `name`: `None` when there is no such
/// field, `Some(None)` when its value is not a JSON string, and `Some(Some(t))`
/// when it is the string `t`.
pub open spec fn field_entry(f: Seq<(Seq<char>, Option<Seq<char>>)>, name: Seq<char>) -> Option<Option<Seq<char>>>
    decreases f.len(),
{
    if f.len() == 0 {
        None
    } else if f[0].0 == name {
        Some(f[0].1)
    } else {
        field_entry(f.drop_first(), name)
    }
}

/// The text value of the first field named `name`; `None` when there is no
/// such field or its value is not a JSON string.
pub open spec fn field_text(f: Seq<(Seq<char>, Option<Seq<char>>)>, name: Seq<char>) -> Option<Seq<char>> {
    match field_entry(f, name) {
        Some(v) => v,
        None => None,
    }
}

/// The value of the field named `name`, as `field_entry` says.
pub fn lookup_field(fields: &TextFields, name: &str) -> (r: Option<Option<String>>)
    ensures
        match r {
            Some(v) => field_entry(fields_view(fields@), name@) == Some(opt_text(v)),
            None => field_entry(fields_view(fields@), name@) is None,
        },
{
    let ghost all = fields_view(fields@);
    let n = fields.len();
    let mut i: usize = 0;
    assert(all.subrange(0, n as int) =~= all);
    while i < n
        invariant
            n == fields@.len(),
            all == fields_view(fields@),
            all.len() == n,
            i <= n,
            field_entry(all, name@) == field_entry(all.subrange(i as int, n as int), name@),
        decreases n - i,
    {
        let ghost rest = all.subrange(i as int, n as int);
        assert(rest[0] == all[i as int]);
        if same_text(fields[i].0.as_str(), name) {
            return match &fields[i].1 {
                Some(s) => Some(Some(s.clone())),
                None => Some(None),
            };
        }
        assert(rest.drop_first() =~= all.subrange(i + 1, n as int));
        i = i + 1;
    }
    None
}

/// The text value of the field named `name`, as `field_text` says.
pub fn lookup_text_field(fields: &TextFields, name: &str) -> (r: Option<String>)
    ensures
        opt_text(r) == field_text(fields_view(fields@), name@),
{
    match lookup_field(fields, name) {
        Some(v) => v,
        None => None,
    }
}

/// Whether an allowed-devices document lists the device `device_id`: it is a
/// JSON object with a field of that name.
pub open spec fn device_listed(doc: Option<Option<Seq<(Seq<char>, Option<Seq<char>>)>>>, device_id: Seq<char>) -> bool {
    match doc {
        Some(Some(f)) => field_entry(f, device_id) is Some,
        _ => false,
    }
}

/// How an allowed-devices document stands to a device and a secret.
#[derive(Debug, PartialEq, Eq, Structural)]
pub enum DeviceStanding {
    /// The document does not list the device.
    Unknown,
    /// The document lists the device, but not with this secret.
    WrongSecret,
    /// The document lists the device with this secret.
    Allowed,
}

/// Whether an allowed-devices document grants the device `device_id` with the
/// secret `secret`: the document is a JSON object whose field named after the
/// device holds exactly that secret as a string.
pub open spec fn device_allowed(
    doc: Option<Option<Seq<(Seq<char>, Option<Seq<char>>)>>>,
    device_id: Seq<char>,
    secret: Seq<char>,
) -> bool {
    match doc {
        Some(Some(f)) => field_text(f, device_id) == Some(secret),
        _ => false,
    }
}

/// Decides, from a parsed allowed-devices document, whether the device is
/// allowed with the given secret.
pub fn check_device(doc: &Result<Option<TextFields>, serde_json::Error>, device_id: &str, secret: &str) -> (r: bool)
    ensures
        r == device_allowed(parsed_view(*doc), device_id@, secret@),
{
    match doc {
        Ok(Some(fields)) => match lookup_text_field(fields, device_id) {
            Some(stored) => same_text(stored.as_str(), secret),
            None => false,
        },
        _ => false,
    }
}

/// How a parsed allowed-devices document stands to the device and secret.
pub fn standing_in(doc: &Result<Option<TextFields>, serde_json::Error>, device_id: &str, secret: &str) -> (r: DeviceStanding)
    ensures
        r == DeviceStanding::Unknown <==> !device_listed(parsed_view(*doc), device_id@),
        r == DeviceStanding::Allowed <==> device_allowed(parsed_view(*doc), device_id@, secret@),
{
    match doc {
        Ok(Some(fields)) => match lookup_field(fields, device_id) {
            None => DeviceStanding::Unknown,
            Some(Some(stored)) => if same_text(stored.as_str(), secret) {
                DeviceStanding::Allowed
            } else {
                DeviceStanding::WrongSecret
            },
            Some(None) => DeviceStanding::WrongSecret,
        },
        _ => DeviceStanding::Unknown,
    }
}

/// How the allowed-devices document `allowed_devices` stands to the device and
/// secret.
pub fn device_standing(allowed_devices: &str, device_id: &str, secret: &str) -> (r: DeviceStanding)
    ensures
        r == DeviceStanding::Unknown <==> !device_listed(json_text_fields(allowed_devices@), device_id@),
        r == DeviceStanding::Allowed <==> device_allowed(json_text_fields(allowed_devices@), device_id@, secret@),
{
    let doc = parse_text_fields(allowed_devices);
    standing_in(&doc, device_id, secret)
}

/// Whether the allowed-devices document `allowed_devices` (JSON text mapping
/// device identifiers to secrets) grants the device with the secret.
pub fn validate_device(allowed_devices: &str, device_id: &str, secret: &str) -> (r: bool)
    ensures
        r == device_allowed(json_text_fields(allowed_devices@), device_id@, secret@),
{
    let doc = parse_text_fields(allowed_devices);
    check_device(&doc, device_id, secret)
}

/// Why the secret of a device could not be read from a document.
pub enum SecretError {
    /// The document is not valid JSON.
    Malformed(serde_json::Error),
    /// The document holds no string under the device's name.
    Missing,
}

impl SecretError {
    /// Whether the document was not valid JSON.
    pub fn is_malformed(&self) -> (r: bool)
        ensures
            r <==> self is Malformed,
    {
        match self {
            SecretError::Malformed(_) => true,
            SecretError::Missing => false,
        }
    }
}

/// The secret that a parsed document holds for the device `device_id`.
pub fn secret_from(doc: Result<Option<TextFields>, serde_json::Error>, device_id: &str) -> (r: Result<String, SecretError>)
    ensures
        r is Err && r->Err_0 is Malformed <==> parsed_view(doc) is None,
        r is Err && r->Err_0 is Missing <==> (parsed_view(doc) matches Some(d) && (match d {
            Some(f) => field_text(f, device_id@) is None,
            None => true,
        })),
        r matches Ok(s) ==> parsed_view(doc) matches Some(Some(f)) && field_text(f, device_id@) == Some(s@),
{
    match doc {
        Err(e) => Err(SecretError::Malformed(e)),
        Ok(None) => Err(SecretError::Missing),
        Ok(Some(fields)) => match lookup_text_field(&fields, device_id) {
            Some(s) => Ok(s),
            None => Err(SecretError::Missing),
        },
    }
}

/// The secret that the JSON document `raw` holds for the device `device_id`.
pub fn device_secret(raw: &str, device_id: &str) -> (r: Result<String, SecretError>)
    ensures
        r is Err && r->Err_0 is Malformed <==> json_text_fields(raw@) is None,
        r is Err && r->Err_0 is Missing <==> (json_text_fields(raw@) matches Some(d) && (match d {
            Some(f) => field_text(f, device_id@) is None,
            None => true,
        })),
        r matches Ok(s) ==> json_text_fields(raw@) matches Some(Some(f)) && field_text(f, device_id@) == Some(s@),
{
    secret_from(parse_text_fields(raw), device_id)
}

/// Law: the secret that `device_secret` reads for a device from a document is
/// one that `validate_device` accepts for that device from the same document.
pub proof fn lemma_read_secret_is_accepted(raw: Seq<char>, device_id: Seq<char>, secret: Seq<char>)
    requires
        json_text_fields(raw) matches Some(Some(f)) && field_text(f, device_id) == Some(secret),
    ensures
        device_allowed(json_text_fields(raw), device_id, secret),
{
}

/// Law: a document grants only devices that it lists.
pub proof fn lemma_allowed_devices_are_listed(raw: Seq<char>, device_id: Seq<char>, secret: Seq<char>)
    requires
        device_allowed(json_text_fields(raw), device_id, secret),
    ensures
        device_listed(json_text_fields(raw), device_id),
{
}

/// Law: a document grants a device at most one secret.
pub proof fn lemma_one_secret_per_device(raw: Seq<char>, device_id: Seq<char>, s1: Seq<char>, s2: Seq<char>)
    requires
        device_allowed(json_text_fields(raw), device_id, s1),
        device_allowed(json_text_fields(raw), device_id, s2),
    ensures
        s1 == s2,
{
}

} // verus!
