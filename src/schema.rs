use vstd::prelude::*;

verus! {

/// What the store reports about the table that holds the leases.
pub struct TableDescription {
    /// Whether the table exists at all.
    pub exists: bool,
    /// The name of the table's hash key.
    pub hash_key_name: String,
    /// Whether the hash key is of string type.
    pub hash_key_is_string: bool,
    /// The attribute that time-to-live expiry is enabled on, if any.
    pub ttl_attribute: Option<String>,
}

/// Why a table cannot hold leases.
#[derive(PartialEq, Eq, Structural, Clone, Copy, Debug)]
pub enum SchemaError {
    /// The table does not exist.
    TableMissing,
    /// The hash key is not named `key`.
    WrongHashKeyName,
    /// The hash key `key` is not of string type.
    WrongHashKeyType,
    /// Time-to-live expiry is not enabled on `lease_expiry`.
    TtlDisabled,
}

/// The first requirement on the table that `d` fails, if any: the table
/// exists, its hash key is named `key` and is a string, and expiry is enabled
/// on `lease_expiry`.
pub open spec fn schema_verdict(d: TableDescription) -> Result<(), SchemaError> {
    if !d.exists {
        Err(SchemaError::TableMissing)
    } else if d.hash_key_name@ != "key"@ {
        Err(SchemaError::WrongHashKeyName)
    } else if !d.hash_key_is_string {
        Err(SchemaError::WrongHashKeyType)
    } else if !(d.ttl_attribute matches Some(a) && a@ == "lease_expiry"@) {
        Err(SchemaError::TtlDisabled)
    } else {
        Ok(())
    }
}

/// The description of each error, as shown to a user.
pub open spec fn schema_message(e: SchemaError) -> Seq<char> {
    match e {
        SchemaError::TableMissing => "lease table is missing"@,
        SchemaError::WrongHashKeyName => "lease table hash key must be named 'key'"@,
        SchemaError::WrongHashKeyType => "lease table hash key 'key' must be of string type"@,
        SchemaError::TtlDisabled => "lease table must have time to live enabled on 'lease_expiry'"@,
    }
}

impl SchemaError {
    /// A description of the error, as shown to a user.
    pub fn message(&self) -> (r: String)
        ensures
            r@ == schema_message(*self),
    {
        match self {
            SchemaError::TableMissing => "lease table is missing".to_owned(),
            SchemaError::WrongHashKeyName => "lease table hash key must be named 'key'".to_owned(),
            SchemaError::WrongHashKeyType => "lease table hash key 'key' must be of string type".to_owned(),
            SchemaError::TtlDisabled => "lease table must have time to live enabled on 'lease_expiry'".to_owned(),
        }
    }
}

/// Checks that a table can hold leases.
pub fn check_schema(d: &TableDescription) -> (r: Result<(), SchemaError>)
    ensures
        r == schema_verdict(*d),
{
    if !d.exists {
        return Err(SchemaError::TableMissing);
    }
    if d.hash_key_name != "key".to_owned() {
        return Err(SchemaError::WrongHashKeyName);
    }
    if !d.hash_key_is_string {
        return Err(SchemaError::WrongHashKeyType);
    }
    match &d.ttl_attribute {
        Some(a) => {
            if *a != "lease_expiry".to_owned() {
                return Err(SchemaError::TtlDisabled);
            }
        },
        None => {
            return Err(SchemaError::TtlDisabled);
        },
    }
    Ok(())
}

} // verus!
