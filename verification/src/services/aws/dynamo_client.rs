//! DynamoDB client: its errors, the reading of a table's key schema, and the
//! key condition that a query by partition key (and sort key) sends.
use vstd::prelude::*;
use crate::text::{join2, join3};

verus! {

/// Errors that can occur when interacting with DynamoDB
pub enum DynamoDBClientError {
    /// General AWS SDK error
    AWSDynamoDBError(String),
    /// Error during ListTables operation
    ListTablesError(String),
    /// Error during Query operation
    QueryError(String),
    /// Error during DescribeTable operation
    DescribeTableError(String),
    /// No primary key found for table: the table description or its key
    /// schema is missing, or the schema has no HASH key
    NoPrimaryKeyFound,
}

pub enum DynamoDBClientErrorView {
    AWSDynamoDBError(Seq<char>),
    ListTablesError(Seq<char>),
    QueryError(Seq<char>),
    DescribeTableError(Seq<char>),
    NoPrimaryKeyFound,
}

impl View for DynamoDBClientError {
    type V = DynamoDBClientErrorView;

    open spec fn view(&self) -> DynamoDBClientErrorView {
        match self {
            DynamoDBClientError::AWSDynamoDBError(s) => DynamoDBClientErrorView::AWSDynamoDBError(s@),
            DynamoDBClientError::ListTablesError(s) => DynamoDBClientErrorView::ListTablesError(s@),
            DynamoDBClientError::QueryError(s) => DynamoDBClientErrorView::QueryError(s@),
            DynamoDBClientError::DescribeTableError(s) => DynamoDBClientErrorView::DescribeTableError(
                s@,
            ),
            DynamoDBClientError::NoPrimaryKeyFound => DynamoDBClientErrorView::NoPrimaryKeyFound,
        }
    }
}

impl DynamoDBClientErrorView {
    /// The error as reported to the user.
    pub open spec fn message(self) -> Seq<char> {
        match self {
            DynamoDBClientErrorView::AWSDynamoDBError(s) => "AWS SDK error: "@ + s,
            DynamoDBClientErrorView::ListTablesError(s) => "ListTables error: "@ + s,
            DynamoDBClientErrorView::QueryError(s) => "Query error: "@ + s,
            DynamoDBClientErrorView::DescribeTableError(s) => "DescribeTable error: "@ + s,
            DynamoDBClientErrorView::NoPrimaryKeyFound => "No primary key found for table"@,
        }
    }
}

impl DynamoDBClientError {
    /// The error as reported to the user.
    pub fn message(&self) -> (s: String)
        ensures
            s@ == self@.message(),
    {
        match self {
            DynamoDBClientError::AWSDynamoDBError(s) => join2("AWS SDK error: ", s.as_str()),
            DynamoDBClientError::ListTablesError(s) => join2("ListTables error: ", s.as_str()),
            DynamoDBClientError::QueryError(s) => join2("Query error: ", s.as_str()),
            DynamoDBClientError::DescribeTableError(s) => join2("DescribeTable error: ", s.as_str()),
            DynamoDBClientError::NoPrimaryKeyFound => "No primary key found for table".to_string(),
        }
    }
}

/// The role of an attribute in a table's key schema.
#[derive(PartialEq, Eq, Structural, Clone, Copy)]
pub enum KeyType {
    /// The partition key
    Hash,
    /// The sort key
    Range,
    /// A role this library does not know
    Other,
}

/// One entry of a table's key schema.
pub struct KeyElement {
    pub attribute_name: String,
    pub key_type: KeyType,
}

impl View for KeyElement {
    type V = (Seq<char>, KeyType);

    open spec fn view(&self) -> (Seq<char>, KeyType) {
        (self.attribute_name@, self.key_type)
    }
}

/// A key schema as attribute names with their roles.
pub open spec fn schema_view(schema: Seq<KeyElement>) -> Seq<(Seq<char>, KeyType)> {
    Seq::new(schema.len(), |i: int| schema[i]@)
}

/// The name of the first attribute of the schema with the given role.
pub open spec fn first_key(schema: Seq<(Seq<char>, KeyType)>, role: KeyType) -> Option<Seq<char>>
    decreases schema.len(),
{
    if schema.len() == 0 {
        None
    } else if schema[0].1 == role {
        Some(schema[0].0)
    } else {
        first_key(schema.drop_first(), role)
    }
}

/// The name of the first attribute with the given role, searching the schema
/// from the front.
fn find_key(schema: &Vec<KeyElement>, role: KeyType) -> (r: Option<String>)
    ensures
        opt_view(r) == first_key(schema_view(schema@), role),
{
    let ghost s = schema_view(schema@);
    let mut i: usize = 0;
    assert(s.subrange(0, s.len() as int) =~= s);
    while i < schema.len()
        invariant
            i <= schema@.len(),
            s == schema_view(schema@),
            first_key(s, role) == first_key(s.subrange(i as int, s.len() as int), role),
        decreases schema@.len() - i,
    {
        let ghost rest = s.subrange(i as int, s.len() as int);
        assert(rest[0] == schema@[i as int]@);
        if schema[i].key_type == role {
            return Some(schema[i].attribute_name.clone());
        }
        assert(rest.drop_first() =~= s.subrange(i + 1, s.len() as int));
        i = i + 1;
    }
    assert(s.subrange(i as int, s.len() as int) =~= Seq::<(Seq<char>, KeyType)>::empty());
    None
}

pub open spec fn opt_view(o: Option<String>) -> Option<Seq<char>> {
    match o {
        Some(s) => Some(s@),
        None => None,
    }
}

/// The partition key of a table, from its key schema (`None` where the
/// table description came back without one): the first HASH attribute.
pub fn primary_key(key_schema: Option<&Vec<KeyElement>>) -> (r: Result<String, DynamoDBClientError>)
    ensures
        match key_schema {
            Some(s) => match first_key(schema_view(s@), KeyType::Hash) {
                Some(k) => r matches Ok(name) && name@ == k,
                None => r matches Err(DynamoDBClientError::NoPrimaryKeyFound),
            },
            None => r matches Err(DynamoDBClientError::NoPrimaryKeyFound),
        },
{
    match key_schema {
        Some(s) => {
            if s.len() == 0 {
                return Err(DynamoDBClientError::NoPrimaryKeyFound);
            }
            match find_key(s, KeyType::Hash) {
                Some(k) => Ok(k),
                None => Err(DynamoDBClientError::NoPrimaryKeyFound),
            }
        },
        None => Err(DynamoDBClientError::NoPrimaryKeyFound),
    }
}

/// The sort key of a table, if it has one: the first RANGE attribute of its
/// key schema. A missing table description is an error.
pub fn sort_key(key_schema: Option<&Vec<KeyElement>>) -> (r: Result<
    Option<String>,
    DynamoDBClientError,
>)
    ensures
        match key_schema {
            Some(s) => r matches Ok(k) && opt_view(k) == first_key(schema_view(s@), KeyType::Range),
            None => r matches Err(DynamoDBClientError::NoPrimaryKeyFound),
        },
{
    match key_schema {
        Some(s) => Ok(find_key(s, KeyType::Range)),
        None => Err(DynamoDBClientError::NoPrimaryKeyFound),
    }
}

/// Whether a query needs the table's sort key: a sort key value was given
/// and it is not empty.
pub open spec fn wants_sort_key(sort_value: Option<Seq<char>>) -> bool {
    match sort_value {
        Some(v) => v.len() > 0,
        None => false,
    }
}

/// Whether a query needs the table's sort key.
pub fn needs_sort_key(sort_value: &Option<String>) -> (b: bool)
    ensures
        b == wants_sort_key(opt_view(*sort_value)),
{
    match sort_value {
        Some(v) => v.as_str().unicode_len() > 0,
        None => false,
    }
}

/// What a query by key sends: the key condition expression and the values of
/// its placeholders (each a string attribute).
pub struct KeyQuery {
    pub key_condition_expression: String,
    pub expression_attribute_values: Vec<(String, String)>,
}

pub struct KeyQueryView {
    pub key_condition_expression: Seq<char>,
    pub expression_attribute_values: Seq<(Seq<char>, Seq<char>)>,
}

impl View for KeyQuery {
    type V = KeyQueryView;

    open spec fn view(&self) -> KeyQueryView {
        KeyQueryView {
            key_condition_expression: self.key_condition_expression@,
            expression_attribute_values: Seq::new(
                self.expression_attribute_values@.len(),
                |i: int|
                    (
                        self.expression_attribute_values@[i].0@,
                        self.expression_attribute_values@[i].1@,
                    ),
            ),
        }
    }
}

/// The query by partition key, refined by the sort key where a nonempty sort
/// value was given and the table has a sort key.
pub open spec fn key_query_of(
    partition_key: Seq<char>,
    partition_value: Seq<char>,
    sort_value: Option<Seq<char>>,
    sort_key: Option<Seq<char>>,
) -> KeyQueryView {
    let base = partition_key + " = :pk"@;
    let pk = (":pk"@, partition_value);
    if wants_sort_key(sort_value) && sort_key is Some {
        KeyQueryView {
            key_condition_expression: base + " AND "@ + sort_key->0 + " = :sk"@,
            expression_attribute_values: seq![pk, (":sk"@, sort_value->0)],
        }
    } else {
        KeyQueryView { key_condition_expression: base, expression_attribute_values: seq![pk] }
    }
}

/// Builds the query for a partition key value and an optional sort key value.
/// `sort_key` is the table's sort key as far as it could be learnt (it is only
/// looked up where `needs_sort_key` holds).
pub fn key_query(
    partition_key: &str,
    partition_value: String,
    sort_value: Option<String>,
    sort_key: Option<String>,
) -> (q: KeyQuery)
    ensures
        q@ == key_query_of(partition_key@, partition_value@, opt_view(sort_value), opt_view(sort_key)),
{
    let ghost pk_name = partition_key@;
    let ghost pv = partition_value@;
    let ghost sv = opt_view(sort_value);
    let ghost sk_name = opt_view(sort_key);
    let wants = needs_sort_key(&sort_value);
    let base = join2(partition_key, " = :pk");
    let mut values: Vec<(String, String)> = Vec::new();
    values.push((":pk".to_string(), partition_value));
    if wants {
        if let Some(sk) = sort_key {
            if let Some(v) = sort_value {
                let with_and = join3(base.as_str(), " AND ", sk.as_str());
                let expr = join2(with_and.as_str(), " = :sk");
                values.push((":sk".to_string(), v));
                let q = KeyQuery { key_condition_expression: expr, expression_attribute_values: values };
                assert(q@.expression_attribute_values =~= key_query_of(
                    pk_name,
                    pv,
                    sv,
                    sk_name,
                ).expression_attribute_values);
                return q;
            }
        }
    }
    let q = KeyQuery { key_condition_expression: base, expression_attribute_values: values };
    assert(q@.expression_attribute_values =~= seq![(":pk"@, pv)]);
    q
}

} // verus!
