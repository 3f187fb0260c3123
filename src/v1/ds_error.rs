//! The error payload that the DataStore service returns with a failure.
use crate::json::{
    json_array_len, json_item_str_at, json_item_str_field, json_len_at, json_str_at, json_str_field,
};
use crate::text::str_eq;
use vstd::prelude::*;
use vstd::string::*;

verus! {

/// Error codes that the DataStore service names in an error detail.
#[derive(Debug, Clone, Copy, PartialEq, Eq, Structural)]
pub enum DataStoreErrorCode {
    ContentLengthRequired,
    InvalidUniverseId,
    InvalidCursor,
    InvalidVersionId,
    ExistingValueNotNumeric,
    IncrementValueTooLarge,
    IncrementValueTooSmall,
    InvalidDataStoreScope,
    InvalidEntryKey,
    InvalidDataStoreName,
    InvalidStartTime,
    InvalidEndTime,
    InvalidAttributes,
    InvalidUserIds,
    ExclusiveCreateAndMatchVersionCannotBeSet,
    ContentTooBig,
    ChecksumMismatch,
    ContentNotJson,
    InvalidSortOrder,
    Forbidden,
    InsufficientScope,
    DatastoreNotFound,
    EntryNotFound,
    VersionNotFound,
    TooManyRequests,
    Unknown,
}

/// The name of a code, as the service writes it.
pub open spec fn code_name(c: DataStoreErrorCode) -> Seq<char> {
    match c {
        DataStoreErrorCode::ContentLengthRequired => "ContentLengthRequired"@,
        DataStoreErrorCode::InvalidUniverseId => "InvalidUniverseId"@,
        DataStoreErrorCode::InvalidCursor => "InvalidCursor"@,
        DataStoreErrorCode::InvalidVersionId => "InvalidVersionId"@,
        DataStoreErrorCode::ExistingValueNotNumeric => "ExistingValueNotNumeric"@,
        DataStoreErrorCode::IncrementValueTooLarge => "IncrementValueTooLarge"@,
        DataStoreErrorCode::IncrementValueTooSmall => "IncrementValueTooSmall"@,
        DataStoreErrorCode::InvalidDataStoreScope => "InvalidDataStoreScope"@,
        DataStoreErrorCode::InvalidEntryKey => "InvalidEntryKey"@,
        DataStoreErrorCode::InvalidDataStoreName => "InvalidDataStoreName"@,
        DataStoreErrorCode::InvalidStartTime => "InvalidStartTime"@,
        DataStoreErrorCode::InvalidEndTime => "InvalidEndTime"@,
        DataStoreErrorCode::InvalidAttributes => "InvalidAttributes"@,
        DataStoreErrorCode::InvalidUserIds => "InvalidUserIds"@,
        DataStoreErrorCode::ExclusiveCreateAndMatchVersionCannotBeSet => "ExclusiveCreateAndMatchVersionCannotBeSet"@,
        DataStoreErrorCode::ContentTooBig => "ContentTooBig"@,
        DataStoreErrorCode::ChecksumMismatch => "ChecksumMismatch"@,
        DataStoreErrorCode::ContentNotJson => "ContentNotJson"@,
        DataStoreErrorCode::InvalidSortOrder => "InvalidSortOrder"@,
        DataStoreErrorCode::Forbidden => "Forbidden"@,
        DataStoreErrorCode::InsufficientScope => "InsufficientScope"@,
        DataStoreErrorCode::DatastoreNotFound => "DatastoreNotFound"@,
        DataStoreErrorCode::EntryNotFound => "EntryNotFound"@,
        DataStoreErrorCode::VersionNotFound => "VersionNotFound"@,
        DataStoreErrorCode::TooManyRequests => "TooManyRequests"@,
        DataStoreErrorCode::Unknown => "Unknown"@,
    }
}

impl DataStoreErrorCode {
    /// The name of the code, as the service writes it.
    pub fn name(&self) -> (r: &'static str)
        ensures
            r@ == code_name(*self),
    {
        match self {
            DataStoreErrorCode::ContentLengthRequired => "ContentLengthRequired",
            DataStoreErrorCode::InvalidUniverseId => "InvalidUniverseId",
            DataStoreErrorCode::InvalidCursor => "InvalidCursor",
            DataStoreErrorCode::InvalidVersionId => "InvalidVersionId",
            DataStoreErrorCode::ExistingValueNotNumeric => "ExistingValueNotNumeric",
            DataStoreErrorCode::IncrementValueTooLarge => "IncrementValueTooLarge",
            DataStoreErrorCode::IncrementValueTooSmall => "IncrementValueTooSmall",
            DataStoreErrorCode::InvalidDataStoreScope => "InvalidDataStoreScope",
            DataStoreErrorCode::InvalidEntryKey => "InvalidEntryKey",
            DataStoreErrorCode::InvalidDataStoreName => "InvalidDataStoreName",
            DataStoreErrorCode::InvalidStartTime => "InvalidStartTime",
            DataStoreErrorCode::InvalidEndTime => "InvalidEndTime",
            DataStoreErrorCode::InvalidAttributes => "InvalidAttributes",
            DataStoreErrorCode::InvalidUserIds => "InvalidUserIds",
            DataStoreErrorCode::ExclusiveCreateAndMatchVersionCannotBeSet => "ExclusiveCreateAndMatchVersionCannotBeSet",
            DataStoreErrorCode::ContentTooBig => "ContentTooBig",
            DataStoreErrorCode::ChecksumMismatch => "ChecksumMismatch",
            DataStoreErrorCode::ContentNotJson => "ContentNotJson",
            DataStoreErrorCode::InvalidSortOrder => "InvalidSortOrder",
            DataStoreErrorCode::Forbidden => "Forbidden",
            DataStoreErrorCode::InsufficientScope => "InsufficientScope",
            DataStoreErrorCode::DatastoreNotFound => "DatastoreNotFound",
            DataStoreErrorCode::EntryNotFound => "EntryNotFound",
            DataStoreErrorCode::VersionNotFound => "VersionNotFound",
            DataStoreErrorCode::TooManyRequests => "TooManyRequests",
            DataStoreErrorCode::Unknown => "Unknown",
        }
    }

    /// The code that `s` names, if any.
    pub fn from_name(s: &str) -> (r: Option<DataStoreErrorCode>)
        ensures
            match r {
                Some(c) => code_name(c) == s@,
                None => forall|c: DataStoreErrorCode| code_name(c) != s@,
            },
    {
        if str_eq(s, "ContentLengthRequired") {
            return Some(DataStoreErrorCode::ContentLengthRequired);
        }
        if str_eq(s, "InvalidUniverseId") {
            return Some(DataStoreErrorCode::InvalidUniverseId);
        }
        if str_eq(s, "InvalidCursor") {
            return Some(DataStoreErrorCode::InvalidCursor);
        }
        if str_eq(s, "InvalidVersionId") {
            return Some(DataStoreErrorCode::InvalidVersionId);
        }
        if str_eq(s, "ExistingValueNotNumeric") {
            return Some(DataStoreErrorCode::ExistingValueNotNumeric);
        }
        if str_eq(s, "IncrementValueTooLarge") {
            return Some(DataStoreErrorCode::IncrementValueTooLarge);
        }
        if str_eq(s, "IncrementValueTooSmall") {
            return Some(DataStoreErrorCode::IncrementValueTooSmall);
        }
        if str_eq(s, "InvalidDataStoreScope") {
            return Some(DataStoreErrorCode::InvalidDataStoreScope);
        }
        if str_eq(s, "InvalidEntryKey") {
            return Some(DataStoreErrorCode::InvalidEntryKey);
        }
        if str_eq(s, "InvalidDataStoreName") {
            return Some(DataStoreErrorCode::InvalidDataStoreName);
        }
        if str_eq(s, "InvalidStartTime") {
            return Some(DataStoreErrorCode::InvalidStartTime);
        }
        if str_eq(s, "InvalidEndTime") {
            return Some(DataStoreErrorCode::InvalidEndTime);
        }
        if str_eq(s, "InvalidAttributes") {
            return Some(DataStoreErrorCode::InvalidAttributes);
        }
        if str_eq(s, "InvalidUserIds") {
            return Some(DataStoreErrorCode::InvalidUserIds);
        }
        if str_eq(s, "ExclusiveCreateAndMatchVersionCannotBeSet") {
            return Some(DataStoreErrorCode::ExclusiveCreateAndMatchVersionCannotBeSet);
        }
        if str_eq(s, "ContentTooBig") {
            return Some(DataStoreErrorCode::ContentTooBig);
        }
        if str_eq(s, "ChecksumMismatch") {
            return Some(DataStoreErrorCode::ChecksumMismatch);
        }
        if str_eq(s, "ContentNotJson") {
            return Some(DataStoreErrorCode::ContentNotJson);
        }
        if str_eq(s, "InvalidSortOrder") {
            return Some(DataStoreErrorCode::InvalidSortOrder);
        }
        if str_eq(s, "Forbidden") {
            return Some(DataStoreErrorCode::Forbidden);
        }
        if str_eq(s, "InsufficientScope") {
            return Some(DataStoreErrorCode::InsufficientScope);
        }
        if str_eq(s, "DatastoreNotFound") {
            return Some(DataStoreErrorCode::DatastoreNotFound);
        }
        if str_eq(s, "EntryNotFound") {
            return Some(DataStoreErrorCode::EntryNotFound);
        }
        if str_eq(s, "VersionNotFound") {
            return Some(DataStoreErrorCode::VersionNotFound);
        }
        if str_eq(s, "TooManyRequests") {
            return Some(DataStoreErrorCode::TooManyRequests);
        }
        if str_eq(s, "Unknown") {
            return Some(DataStoreErrorCode::Unknown);
        }
        proof {
            reveal_strlit("ContentLengthRequired");
            reveal_strlit("InvalidUniverseId");
            reveal_strlit("InvalidCursor");
            reveal_strlit("InvalidVersionId");
            reveal_strlit("ExistingValueNotNumeric");
            reveal_strlit("IncrementValueTooLarge");
            reveal_strlit("IncrementValueTooSmall");
            reveal_strlit("InvalidDataStoreScope");
            reveal_strlit("InvalidEntryKey");
            reveal_strlit("InvalidDataStoreName");
            reveal_strlit("InvalidStartTime");
            reveal_strlit("InvalidEndTime");
            reveal_strlit("InvalidAttributes");
            reveal_strlit("InvalidUserIds");
            reveal_strlit("ExclusiveCreateAndMatchVersionCannotBeSet");
            reveal_strlit("ContentTooBig");
            reveal_strlit("ChecksumMismatch");
            reveal_strlit("ContentNotJson");
            reveal_strlit("InvalidSortOrder");
            reveal_strlit("Forbidden");
            reveal_strlit("InsufficientScope");
            reveal_strlit("DatastoreNotFound");
            reveal_strlit("EntryNotFound");
            reveal_strlit("VersionNotFound");
            reveal_strlit("TooManyRequests");
            reveal_strlit("Unknown");
        }
        assert forall|c: DataStoreErrorCode| code_name(c) != s@ by {
            match c {
                DataStoreErrorCode::ContentLengthRequired => {},
                DataStoreErrorCode::InvalidUniverseId => {},
                DataStoreErrorCode::InvalidCursor => {},
                DataStoreErrorCode::InvalidVersionId => {},
                DataStoreErrorCode::ExistingValueNotNumeric => {},
                DataStoreErrorCode::IncrementValueTooLarge => {},
                DataStoreErrorCode::IncrementValueTooSmall => {},
                DataStoreErrorCode::InvalidDataStoreScope => {},
                DataStoreErrorCode::InvalidEntryKey => {},
                DataStoreErrorCode::InvalidDataStoreName => {},
                DataStoreErrorCode::InvalidStartTime => {},
                DataStoreErrorCode::InvalidEndTime => {},
                DataStoreErrorCode::InvalidAttributes => {},
                DataStoreErrorCode::InvalidUserIds => {},
                DataStoreErrorCode::ExclusiveCreateAndMatchVersionCannotBeSet => {},
                DataStoreErrorCode::ContentTooBig => {},
                DataStoreErrorCode::ChecksumMismatch => {},
                DataStoreErrorCode::ContentNotJson => {},
                DataStoreErrorCode::InvalidSortOrder => {},
                DataStoreErrorCode::Forbidden => {},
                DataStoreErrorCode::InsufficientScope => {},
                DataStoreErrorCode::DatastoreNotFound => {},
                DataStoreErrorCode::EntryNotFound => {},
                DataStoreErrorCode::VersionNotFound => {},
                DataStoreErrorCode::TooManyRequests => {},
                DataStoreErrorCode::Unknown => {},
            }
        }
        None
    }
}

/// One detail of a DataStore error.
#[derive(Debug, Clone)]
pub struct DataStoreErrorDetail {
    pub error_detail_type: String,
    pub datastore_error_code: DataStoreErrorCode,
}

/// The structured error payload of the DataStore service.
#[derive(Debug, Clone)]
pub struct DataStoreErrorResponse {
    pub error: String,
    pub message: String,
    pub error_details: Vec<DataStoreErrorDetail>,
}

/// The codes of `d`, separated by `, `.
pub open spec fn join_codes(d: Seq<DataStoreErrorDetail>) -> Seq<char>
    decreases d.len(),
{
    if d.len() == 0 {
        seq![]
    } else if d.len() == 1 {
        code_name(d[0].datastore_error_code)
    } else {
        join_codes(d.drop_last()) + ", "@ + code_name(d.last().datastore_error_code)
    }
}

/// `item` of the `errorDetails` array of `body` holds the detail `d`.
pub open spec fn detail_matches(body: Seq<char>, i: usize, d: DataStoreErrorDetail) -> bool {
    &&& json_item_str_at(body, "errorDetails"@, i, "errorDetailType"@) == Some(d.error_detail_type@)
    &&& json_item_str_at(body, "errorDetails"@, i, "datastoreErrorCode"@) == Some(
        code_name(d.datastore_error_code),
    )
}

/// `body` is the JSON form of the payload `e`.
pub open spec fn payload_matches(body: Seq<char>, e: DataStoreErrorResponse) -> bool {
    &&& json_str_at(body, "error"@) == Some(e.error@)
    &&& json_str_at(body, "message"@) == Some(e.message@)
    &&& json_len_at(body, "errorDetails"@) == Some(e.error_details@.len() as usize)
    &&& forall|i: int|
        0 <= i < e.error_details@.len() ==> #[trigger] detail_matches(
            body,
            i as usize,
            e.error_details@[i],
        )
}

/// Item `i` of the `errorDetails` array of `body` is a well-formed detail.
pub open spec fn detail_parses(body: Seq<char>, i: usize) -> bool {
    &&& json_item_str_at(body, "errorDetails"@, i, "errorDetailType"@) is Some
    &&& exists|c: DataStoreErrorCode|
        json_item_str_at(body, "errorDetails"@, i, "datastoreErrorCode"@) == Some(
            #[trigger] code_name(c),
        )
}

/// `body` has the shape of the DataStore error payload.
pub open spec fn payload_parses(body: Seq<char>) -> bool {
    &&& json_str_at(body, "error"@) is Some
    &&& json_str_at(body, "message"@) is Some
    &&& json_len_at(body, "errorDetails"@) is Some
    &&& forall|i: usize|
        i < json_len_at(body, "errorDetails"@).unwrap() ==> #[trigger] detail_parses(body, i)
}

impl DataStoreErrorResponse {
    /// `[codes] - message`, the codes separated by `, `.
    pub open spec fn text(self) -> Seq<char> {
        "["@ + join_codes(self.error_details@) + "] - "@ + self.message@
    }

    /// The text a person reads for this payload.
    pub fn to_string(&self) -> (r: String)
        ensures
            r@ == self.text(),
    {
        let d = &self.error_details;
        let mut s = String::from_str("[");
        let mut i: usize = 0;
        while i < d.len()
            invariant
                i <= d@.len(),
                s@ == "["@ + join_codes(d@.subrange(0, i as int)),
            decreases d@.len() - i,
        {
            let ghost prev = d@.subrange(0, i as int);
            let ghost next = d@.subrange(0, i as int + 1);
            assert(next.drop_last() =~= prev);
            if i > 0 {
                s.append(", ");
            }
            s.append(d[i].datastore_error_code.name());
            proof {
                reveal_strlit("[");
                reveal_strlit(", ");
                if i == 0 {
                    assert(join_codes(prev) =~= seq![]);
                }
            }
            i = i + 1;
        }
        assert(d@.subrange(0, d@.len() as int) =~= d@);
        s.append("] - ");
        s.append(self.message.as_str());
        s
    }

    /// Reads the payload out of a response body.
    ///
    /// Succeeds exactly when the body has the payload's shape: an `error`
    /// and a `message` string, and an `errorDetails` array whose items each
    /// hold an `errorDetailType` string and a `datastoreErrorCode` that names
    /// a known code. The codes come out in the order of the array.
    pub fn decode(body: &str) -> (r: Result<DataStoreErrorResponse, crate::error::Error>)
        ensures
            payload_parses(body@) <==> r is Ok,
            r matches Ok(e) ==> payload_matches(body@, e),
            r matches Err(e) ==> e is SerdeJsonError,
    {
        let error = json_str_field(body, "error");
        let message = json_str_field(body, "message");
        let n = json_array_len(body, "errorDetails");
        if error.is_none() || message.is_none() || n.is_none() {
            return Err(crate::error::Error::SerdeJsonError(String::from_str("response body is not a DataStore error payload")));
        }
        let n = n.unwrap();
        let mut details: Vec<DataStoreErrorDetail> = Vec::new();
        let mut i: usize = 0;
        while i < n
            invariant
                json_len_at(body@, "errorDetails"@) == Some(n),
                i <= n,
                details@.len() == i,
                forall|j: int| 0 <= j < i ==> #[trigger] detail_matches(body@, j as usize, details@[j]),
                forall|j: usize| j < i ==> #[trigger] detail_parses(body@, j),
            decreases n - i,
        {
            let t = json_item_str_field(body, "errorDetails", i, "errorDetailType");
            let c = json_item_str_field(body, "errorDetails", i, "datastoreErrorCode");
            let code = match &c {
                Some(name) => DataStoreErrorCode::from_name(name.as_str()),
                None => None,
            };
            if t.is_none() || code.is_none() {
                proof {
                    if c is Some {
                        assert(!detail_parses(body@, i));
                    }
                    assert(!detail_parses(body@, i));
                }
                return Err(crate::error::Error::SerdeJsonError(String::from_str("response body is not a DataStore error payload")));
            }
            let d = DataStoreErrorDetail {
                error_detail_type: t.unwrap(),
                datastore_error_code: code.unwrap(),
            };
            assert(detail_parses(body@, i));
            details.push(d);
            i = i + 1;
        }
        Ok(DataStoreErrorResponse { error: error.unwrap(), message: message.unwrap(), error_details: details })
    }
}

} // verus!
