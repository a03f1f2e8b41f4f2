//! S3 client: its errors and the shaping of the listings it returns.
use vstd::prelude::*;
use crate::text::{join2, join3, opt_text};
use crate::widgets::paragraph::{decimal, decimal_text};

verus! {

/// Errors of the S3 client
pub enum S3ClientError {
    AwsError(String),
    ConnectionFailed(String),
    NoObjectsFound,
    SerializationError(String),
}

pub enum S3ClientErrorView {
    AwsError(Seq<char>),
    ConnectionFailed(Seq<char>),
    NoObjectsFound,
    SerializationError(Seq<char>),
}

impl View for S3ClientError {
    type V = S3ClientErrorView;

    open spec fn view(&self) -> S3ClientErrorView {
        match self {
            S3ClientError::AwsError(s) => S3ClientErrorView::AwsError(s@),
            S3ClientError::ConnectionFailed(s) => S3ClientErrorView::ConnectionFailed(s@),
            S3ClientError::NoObjectsFound => S3ClientErrorView::NoObjectsFound,
            S3ClientError::SerializationError(s) => S3ClientErrorView::SerializationError(s@),
        }
    }
}

impl S3ClientErrorView {
    /// The error as reported to the user.
    pub open spec fn message(self) -> Seq<char> {
        match self {
            S3ClientErrorView::AwsError(s) => "AWS SDK error: "@ + s,
            S3ClientErrorView::ConnectionFailed(s) => "Failed to connect with profile: "@ + s,
            S3ClientErrorView::NoObjectsFound => "No objects found in bucket matching prefix"@,
            S3ClientErrorView::SerializationError(s) => "Serialization error: "@ + s,
        }
    }
}

impl S3ClientError {
    /// The error as reported to the user.
    pub fn message(&self) -> (s: String)
        ensures
            s@ == self@.message(),
    {
        match self {
            S3ClientError::AwsError(s) => join2("AWS SDK error: ", s.as_str()),
            S3ClientError::ConnectionFailed(s) => join2("Failed to connect with profile: ", s.as_str()),
            S3ClientError::NoObjectsFound => "No objects found in bucket matching prefix".to_string(),
            S3ClientError::SerializationError(s) => join2("Serialization error: ", s.as_str()),
        }
    }
}

/// The names that are present, in order.
pub open spec fn present_names(names: Seq<Option<Seq<char>>>) -> Seq<Seq<char>>
    decreases names.len(),
{
    if names.len() == 0 {
        Seq::empty()
    } else {
        match names.last() {
            Some(n) => present_names(names.drop_last()).push(n),
            None => present_names(names.drop_last()),
        }
    }
}

pub open spec fn names_view(names: Seq<Option<String>>) -> Seq<Option<Seq<char>>> {
    Seq::new(names.len(), |i: int| match names[i] {
        Some(s) => Some(s@),
        None => None,
    })
}

/// The names that are present, in order: buckets or log groups without a
/// name are left out.
pub fn present(names: Vec<Option<String>>) -> (r: Vec<String>)
    ensures
        r.deep_view() == present_names(names_view(names@)),
{
    let mut r: Vec<String> = Vec::new();
    let mut i: usize = 0;
    while i < names.len()
        invariant
            i <= names@.len(),
            r.deep_view() == present_names(names_view(names@).take(i as int)),
        decreases names@.len() - i,
    {
        let ghost prefix = names_view(names@).take(i as int);
        assert(names_view(names@).take(i + 1).drop_last() =~= prefix);
        match &names[i] {
            Some(n) => {
                r.push(n.clone());
                assert(r.deep_view() =~= present_names(names_view(names@).take(i + 1)));
            },
            None => {
                assert(r.deep_view() =~= present_names(names_view(names@).take(i + 1)));
            },
        }
        i = i + 1;
    }
    assert(names_view(names@).take(names@.len() as int) =~= names_view(names@));
    r
}

/// The bucket listing: the names of the buckets that have one.
pub fn bucket_names(names: Vec<Option<String>>) -> (r: Vec<String>)
    ensures
        r.deep_view() == present_names(names_view(names@)),
{
    present(names)
}

/// The object listing shown: the object records, or a notice where there are none.
pub open spec fn object_listing_of(records: Seq<Seq<char>>) -> Seq<Seq<char>> {
    if records.len() == 0 {
        seq!["No objects found"@]
    } else {
        records
    }
}

/// The object listing shown: the object records, or a notice where there are none.
pub fn object_listing(records: Vec<String>) -> (r: Vec<String>)
    ensures
        r.deep_view() == object_listing_of(records.deep_view()),
{
    if records.len() == 0 {
        let mut r = Vec::new();
        r.push("No objects found".to_string());
        assert(r.deep_view() =~= seq!["No objects found"@]);
        r
    } else {
        records
    }
}

/// The decimal form of a whole number, with a minus sign where it is negative.
pub open spec fn int_text(n: int) -> Seq<char> {
    if n < 0 {
        "-"@ + decimal_text((-n) as nat)
    } else {
        decimal_text(n as nat)
    }
}

/// The decimal form of a whole number, with a minus sign where it is negative.
pub fn signed_decimal(n: i64) -> (s: String)
    ensures
        s@ == int_text(n as int),
{
    if n < 0 {
        let magnitude: u64 = if n == i64::MIN {
            9223372036854775808u64
        } else {
            (-n) as u64
        };
        let digits = decimal(magnitude);
        join2("-", digits.as_str())
    } else {
        decimal(n as u64)
    }
}

/// Named string fields as plain values.
pub open spec fn fields_view(fields: Seq<(String, String)>) -> Seq<(Seq<char>, Seq<char>)> {
    Seq::new(fields.len(), |i: int| (fields[i].0@, fields[i].1@))
}

/// What `serde_json::to_string` makes of a JSON object whose fields are the
/// given names with string values (`None` where it reports an error).
pub uninterp spec fn json_object_text(fields: Seq<(Seq<char>, Seq<char>)>) -> Option<Seq<char>>;

/// `serde_json::to_string` on a JSON object of string fields (a
/// `serde_json::Map` of `Value::String`s). Its text is only named.
#[verifier::external_body]
fn json_object(fields: &Vec<(String, String)>) -> (r: Option<String>)
    ensures
        opt_text(r) == json_object_text(fields_view(fields@)),
{
    let map: serde_json::Map<String, serde_json::Value> = fields
        .iter()
        .map(|(k, v)| (k.clone(), serde_json::Value::String(v.clone())))
        .collect();
    serde_json::to_string(&serde_json::Value::Object(map)).ok()
}

/// What `serde_json::to_string_pretty` makes of a JSON object whose fields are
/// the given names with string values, plus one field `nested_name` holding
/// either `null` or an object of string fields (`Err` with the error's text
/// where it reports one).
pub uninterp spec fn json_details_text(
    fields: Seq<(Seq<char>, Seq<char>)>,
    nested_name: Seq<char>,
    nested: Option<Seq<(Seq<char>, Seq<char>)>>,
) -> Result<Seq<char>, Seq<char>>;

/// `serde_json::to_string_pretty` on a JSON object of string fields with one
/// nested field that is `null` or an object of string fields. Its text is only
/// named.
#[verifier::external_body]
fn json_details(fields: &Vec<(String, String)>, nested_name: &str, nested: &Option<Vec<(String, String)>>) -> (r:
    Result<String, String>)
    ensures
        match r {
            Ok(t) => json_details_text(fields_view(fields@), nested_name@, match nested {
                Some(m) => Some(fields_view(m@)),
                None => None,
            }) == Ok::<Seq<char>, Seq<char>>(t@),
            Err(e) => json_details_text(fields_view(fields@), nested_name@, match nested {
                Some(m) => Some(fields_view(m@)),
                None => None,
            }) == Err::<Seq<char>, Seq<char>>(e@),
        },
{
    let obj = |f: &Vec<(String, String)>| {
        f.iter().map(|(k, v)| (k.clone(), serde_json::Value::String(v.clone()))).collect()
    };
    let mut map: serde_json::Map<String, serde_json::Value> = obj(fields);
    let inner = nested.as_ref().map_or(serde_json::Value::Null, |m| serde_json::Value::Object(obj(m)));
    map.insert(nested_name.to_string(), inner);
    serde_json::to_string_pretty(&serde_json::Value::Object(map)).map_err(|e| e.to_string())
}

/// The fields of an object's record: key, size in bytes, last change and ETag.
pub open spec fn record_fields(key: Seq<char>, size: int, last_modified: Seq<char>, etag: Seq<char>) -> Seq<
    (Seq<char>, Seq<char>),
> {
    seq![
        ("key"@, key),
        ("size"@, int_text(size) + " bytes"@),
        ("last_modified"@, last_modified),
        ("etag"@, etag),
    ]
}

/// The record where serialising failed: the key alone.
pub open spec fn fallback_record(key: Seq<char>) -> Seq<char> {
    "{\"key\": \""@ + key + "\"}"@
}

/// The record of an object from what serialising its fields gave.
pub fn record_or_fallback(key: &str, rendered: Option<String>) -> (s: String)
    ensures
        s@ == match opt_text(rendered) {
            Some(t) => t,
            None => fallback_record(key@),
        },
{
    match rendered {
        Some(t) => t,
        None => join3("{\"key\": \"", key, "\"}"),
    }
}

/// One object of a listing as a compact JSON record.
pub fn object_record(key: &str, size: i64, last_modified: &str, etag: &str) -> (s: String)
    ensures
        s@ == match json_object_text(record_fields(key@, size as int, last_modified@, etag@)) {
            Some(t) => t,
            None => fallback_record(key@),
        },
{
    let size_text = signed_decimal(size);
    let mut fields: Vec<(String, String)> = Vec::new();
    fields.push(("key".to_string(), key.to_string()));
    fields.push(("size".to_string(), join2(size_text.as_str(), " bytes")));
    fields.push(("last_modified".to_string(), last_modified.to_string()));
    fields.push(("etag".to_string(), etag.to_string()));
    assert(fields_view(fields@) =~= record_fields(key@, size as int, last_modified@, etag@));
    record_or_fallback(key, json_object(&fields))
}

/// The fields of an object's details, before its user metadata.
pub open spec fn detail_fields(
    key: Seq<char>,
    bucket: Seq<char>,
    content_type: Seq<char>,
    size: int,
    last_modified: Seq<char>,
    etag: Seq<char>,
) -> Seq<(Seq<char>, Seq<char>)> {
    seq![
        ("key"@, key),
        ("bucket"@, bucket),
        ("content_type"@, content_type),
        ("size"@, int_text(size) + " bytes"@),
        ("last_modified"@, last_modified),
        ("etag"@, etag),
    ]
}

/// The details from what serialising them gave: the text, or a
/// serialisation error with the serialiser's message.
pub fn details_or_error(rendered: Result<String, String>) -> (r: Result<String, S3ClientError>)
    ensures
        match rendered {
            Ok(t) => r matches Ok(u) && u@ == t@,
            Err(e) => r matches Err(S3ClientError::SerializationError(m)) && m@ == e@,
        },
{
    match rendered {
        Ok(t) => Ok(t),
        Err(e) => Err(S3ClientError::SerializationError(e)),
    }
}

/// An object's details as pretty-printed JSON, with its user metadata (if
/// any) as a nested `metadata` object.
pub fn object_details(
    key: &str,
    bucket: &str,
    content_type: &str,
    size: i64,
    last_modified: &str,
    etag: &str,
    metadata: Option<Vec<(String, String)>>,
) -> (r: Result<String, S3ClientError>)
    ensures
        match json_details_text(
            detail_fields(key@, bucket@, content_type@, size as int, last_modified@, etag@),
            "metadata"@,
            match metadata {
                Some(m) => Some(fields_view(m@)),
                None => None,
            },
        ) {
            Ok(t) => r matches Ok(u) && u@ == t,
            Err(e) => r matches Err(S3ClientError::SerializationError(m)) && m@ == e,
        },
{
    let size_text = signed_decimal(size);
    let mut fields: Vec<(String, String)> = Vec::new();
    fields.push(("key".to_string(), key.to_string()));
    fields.push(("bucket".to_string(), bucket.to_string()));
    fields.push(("content_type".to_string(), content_type.to_string()));
    fields.push(("size".to_string(), join2(size_text.as_str(), " bytes")));
    fields.push(("last_modified".to_string(), last_modified.to_string()));
    fields.push(("etag".to_string(), etag.to_string()));
    assert(fields_view(fields@) =~= detail_fields(
        key@,
        bucket@,
        content_type@,
        size as int,
        last_modified@,
        etag@,
    ));
    details_or_error(json_details(&fields, "metadata", &metadata))
}

} // verus!
