//! Package records and the mapping from a JSON object to a record.

use crate::error::{Error, Failure};
use crate::json::{
    blurred, blurred_members, lookup_blurred, distinct_names, find, lookup, lookup_ignores_order, lookup_ignores_other_names, members_view,
    object_view, same_members, JsonModel, Members, Value,
};
use crate::timestamp::{calendar_time, first_second_of_2021, Timestamp};
use vstd::prelude::*;

verus! {

/// One entry of the repository.
#[derive(Clone, Debug, PartialEq)]
pub struct Package {
    pub base_name: String,
    pub base_id: u64,
    pub name: String,
    pub version: String,
    pub homepage: String,
    pub description: String,
    pub out_of_date: bool,
    pub created: Timestamp,
    pub modified: Timestamp,
    pub license: Option<String>,
    pub maintainer: Option<String>,
    pub votes: u64,
    pub id: u64,
    pub category_id: u64,
    pub download: String,
}

/// The mathematical content of a [`Package`].
pub struct Record {
    pub base_name: Seq<char>,
    pub base_id: u64,
    pub name: Seq<char>,
    pub version: Seq<char>,
    pub homepage: Seq<char>,
    pub description: Seq<char>,
    pub out_of_date: bool,
    pub created: Timestamp,
    pub modified: Timestamp,
    pub license: Option<Seq<char>>,
    pub maintainer: Option<Seq<char>>,
    pub votes: u64,
    pub id: u64,
    pub category_id: u64,
    pub download: Seq<char>,
}

/// The content of a text that may be absent.
pub open spec fn optional_text(text: Option<String>) -> Option<Seq<char>> {
    match text {
        Some(s) => Some(s@),
        None => None,
    }
}

impl View for Package {
    type V = Record;

    open spec fn view(&self) -> Record {
        Record {
            base_name: self.base_name@,
            base_id: self.base_id,
            name: self.name@,
            version: self.version@,
            homepage: self.homepage@,
            description: self.description@,
            out_of_date: self.out_of_date,
            created: self.created,
            modified: self.modified,
            license: optional_text(self.license),
            maintainer: optional_text(self.maintainer),
            votes: self.votes,
            id: self.id,
            category_id: self.category_id,
            download: self.download@,
        }
    }
}

/// The string under `key`; `None` where the member is missing or no string.
pub open spec fn text_at(members: Members, key: Seq<char>) -> Option<Seq<char>> {
    match lookup(members, key) {
        Some(JsonModel::String(s)) => Some(s),
        _ => None,
    }
}

/// The unsigned integer under `key`; `None` where the member is missing or
/// anything else.
pub open spec fn number_at(members: Members, key: Seq<char>) -> Option<u64> {
    match lookup(members, key) {
        Some(JsonModel::U64(n)) => Some(n),
        _ => None,
    }
}

/// The string or null under `key`, null read as an absent text; `None` where
/// the member is missing or neither.
pub open spec fn optional_text_at(members: Members, key: Seq<char>) -> Option<Option<Seq<char>>> {
    match lookup(members, key) {
        Some(JsonModel::String(s)) => Some(Some(s)),
        Some(JsonModel::Null) => Some(None),
        _ => None,
    }
}

/// The calendar timestamp of the unsigned integer under `key`, read as
/// seconds since the epoch; `None` where the member is missing, no unsigned
/// integer, beyond the signed 64-bit range, or beyond what the calendar
/// represents.
pub open spec fn time_at(members: Members, key: Seq<char>) -> Option<Timestamp> {
    match number_at(members, key) {
        Some(n) => if n <= i64::MAX {
            calendar_time(n as int)
        } else {
            None
        },
        None => None,
    }
}

/// `t` is a timestamp of the calendar whose time of day is that of the
/// seconds under `key`.
pub open spec fn on_the_clock(t: Timestamp, members: Members, key: Seq<char>) -> bool {
    &&& number_at(members, key) is Some
    &&& t.well_formed()
    &&& t.time_of_day_matches(number_at(members, key)->Some_0 as int)
}

/// Every field of a record is present in `members` with its type.
pub open spec fn complete(members: Members) -> bool {
    &&& text_at(members, "PackageBase"@) is Some
    &&& number_at(members, "PackageBaseID"@) is Some
    &&& text_at(members, "Name"@) is Some
    &&& number_at(members, "CategoryID"@) is Some
    &&& text_at(members, "Description"@) is Some
    &&& time_at(members, "FirstSubmitted"@) is Some
    &&& time_at(members, "LastModified"@) is Some
    &&& number_at(members, "ID"@) is Some
    &&& optional_text_at(members, "License"@) is Some
    &&& optional_text_at(members, "Maintainer"@) is Some
    &&& number_at(members, "NumVotes"@) is Some
    &&& number_at(members, "OutOfDate"@) is Some
    &&& text_at(members, "URL"@) is Some
    &&& text_at(members, "URLPath"@) is Some
    &&& text_at(members, "Version"@) is Some
}

/// The record that the members of an object spell out, field by field.
pub open spec fn record_from(members: Members) -> Record {
    Record {
        base_name: text_at(members, "PackageBase"@)->Some_0,
        base_id: number_at(members, "PackageBaseID"@)->Some_0,
        name: text_at(members, "Name"@)->Some_0,
        version: text_at(members, "Version"@)->Some_0,
        homepage: text_at(members, "URL"@)->Some_0,
        description: text_at(members, "Description"@)->Some_0,
        out_of_date: number_at(members, "OutOfDate"@)->Some_0 != 0,
        created: time_at(members, "FirstSubmitted"@)->Some_0,
        modified: time_at(members, "LastModified"@)->Some_0,
        license: optional_text_at(members, "License"@)->Some_0,
        maintainer: optional_text_at(members, "Maintainer"@)->Some_0,
        votes: number_at(members, "NumVotes"@)->Some_0,
        id: number_at(members, "ID"@)->Some_0,
        category_id: number_at(members, "CategoryID"@)->Some_0,
        download: text_at(members, "URLPath"@)->Some_0,
    }
}

/// The record that a JSON value maps to: that of its members where it is an
/// object that holds every field with its type, and none otherwise.
pub open spec fn record_of(value: JsonModel) -> Option<Record> {
    match value {
        JsonModel::Object(members) => if complete(members) {
            Some(record_from(members))
        } else {
            None
        },
        _ => None,
    }
}

fn text_field(members: &Vec<(String, Value)>, key: &str) -> (r: Option<String>)
    ensures
        match r {
            Some(s) => text_at(members_view(members@), key@) == Some(s@),
            None => text_at(members_view(members@), key@) is None,
        },
{
    match find(members, key) {
        Some(Value::String(s)) => Some(s.clone()),
        _ => None,
    }
}

fn number_field(members: &Vec<(String, Value)>, key: &str) -> (r: Option<u64>)
    ensures
        r == number_at(members_view(members@), key@),
{
    match find(members, key) {
        Some(Value::U64(n)) => Some(*n),
        _ => None,
    }
}

fn optional_text_field(members: &Vec<(String, Value)>, key: &str) -> (r: Option<Option<String>>)
    ensures
        match r {
            Some(t) => optional_text_at(members_view(members@), key@) == Some(optional_text(t)),
            None => optional_text_at(members_view(members@), key@) is None,
        },
{
    match find(members, key) {
        Some(Value::String(s)) => Some(Some(s.clone())),
        Some(Value::Null) => Some(None),
        _ => None,
    }
}

fn time_field(members: &Vec<(String, Value)>, key: &str) -> (r: Option<Timestamp>)
    ensures
        r == time_at(members_view(members@), key@),
        r matches Some(t) ==> on_the_clock(t, members_view(members@), key@),
{
    match number_field(members, key) {
        Some(n) => if n <= 0x7fff_ffff_ffff_ffff {
            Timestamp::from_unix(n as i64)
        } else {
            None
        },
        None => None,
    }
}

impl Package {
    /// Maps a JSON value to a package.
    ///
    /// The value must be an object that holds every field of a record under
    /// its name and with its JSON type: a string, an unsigned integer, or,
    /// for `License` and `Maintainer`, a string or null. A timestamp must fit
    /// the signed 64-bit range and the calendar. Anything else is an invalid
    /// response; no partial record is ever produced. Members under other
    /// names are ignored.
    pub fn from_json(j: &Value) -> (r: Result<Package, Error>)
        ensures
            match record_of(j@) {
                Some(record) => r matches Ok(p) && p@ == record,
                None => r matches Err(e) && e@ == Failure::InvalidResponse,
            },
            r matches Ok(p) ==> {
                &&& j@ is Object
                &&& on_the_clock(p.created, j@->Object_0, "FirstSubmitted"@)
                &&& on_the_clock(p.modified, j@->Object_0, "LastModified"@)
            },
    {
        let members = match j {
            Value::Object(members) => members,
            _ => {
                return Err(Error::InvalidResponse);
            },
        };
        proof {
            object_view(*members);
        }
        let base_name = match text_field(members, "PackageBase") {
            Some(v) => v,
            None => {
                return Err(Error::InvalidResponse);
            },
        };
        let base_id = match number_field(members, "PackageBaseID") {
            Some(v) => v,
            None => {
                return Err(Error::InvalidResponse);
            },
        };
        let name = match text_field(members, "Name") {
            Some(v) => v,
            None => {
                return Err(Error::InvalidResponse);
            },
        };
        let category_id = match number_field(members, "CategoryID") {
            Some(v) => v,
            None => {
                return Err(Error::InvalidResponse);
            },
        };
        let description = match text_field(members, "Description") {
            Some(v) => v,
            None => {
                return Err(Error::InvalidResponse);
            },
        };
        let created = match time_field(members, "FirstSubmitted") {
            Some(v) => v,
            None => {
                return Err(Error::InvalidResponse);
            },
        };
        let modified = match time_field(members, "LastModified") {
            Some(v) => v,
            None => {
                return Err(Error::InvalidResponse);
            },
        };
        let id = match number_field(members, "ID") {
            Some(v) => v,
            None => {
                return Err(Error::InvalidResponse);
            },
        };
        let license = match optional_text_field(members, "License") {
            Some(v) => v,
            None => {
                return Err(Error::InvalidResponse);
            },
        };
        let maintainer = match optional_text_field(members, "Maintainer") {
            Some(v) => v,
            None => {
                return Err(Error::InvalidResponse);
            },
        };
        let votes = match number_field(members, "NumVotes") {
            Some(v) => v,
            None => {
                return Err(Error::InvalidResponse);
            },
        };
        let out_of_date = match number_field(members, "OutOfDate") {
            Some(v) => v != 0,
            None => {
                return Err(Error::InvalidResponse);
            },
        };
        let homepage = match text_field(members, "URL") {
            Some(v) => v,
            None => {
                return Err(Error::InvalidResponse);
            },
        };
        let download = match text_field(members, "URLPath") {
            Some(v) => v,
            None => {
                return Err(Error::InvalidResponse);
            },
        };
        let version = match text_field(members, "Version") {
            Some(v) => v,
            None => {
                return Err(Error::InvalidResponse);
            },
        };
        Ok(
            Package {
                base_name,
                base_id,
                name,
                version,
                homepage,
                description,
                out_of_date,
                created,
                modified,
                license,
                maintainer,
                votes,
                id,
                category_id,
                download,
            },
        )
    }
}

/// `key` names one of the fields of a record.
pub open spec fn is_field_name(key: Seq<char>) -> bool {
    ||| key == "PackageBase"@
    ||| key == "PackageBaseID"@
    ||| key == "Name"@
    ||| key == "CategoryID"@
    ||| key == "Description"@
    ||| key == "FirstSubmitted"@
    ||| key == "LastModified"@
    ||| key == "ID"@
    ||| key == "License"@
    ||| key == "Maintainer"@
    ||| key == "NumVotes"@
    ||| key == "OutOfDate"@
    ||| key == "URL"@
    ||| key == "URLPath"@
    ||| key == "Version"@
}

/// An object that lacks a field of the record maps to no record at all,
/// whatever else it holds.
pub proof fn missing_field_is_no_record(members: Members, key: Seq<char>)
    requires
        is_field_name(key),
        lookup(members, key) is None,
    ensures
        record_of(JsonModel::Object(members)) is None,
{
}

/// Only an object maps to a record.
pub proof fn only_objects_are_records(value: JsonModel)
    requires
        !(value is Object),
    ensures
        record_of(value) is None,
{
}

/// A null `License` or `Maintainer` is an absent text in the record, and a
/// string is that text.
pub proof fn optional_fields_mirror_the_object(members: Members)
    requires
        record_of(JsonModel::Object(members)) is Some,
    ensures
        ({
            let record = record_of(JsonModel::Object(members))->Some_0;
            &&& lookup(members, "License"@) == Some(JsonModel::Null) ==> record.license is None
            &&& forall|s: Seq<char>|
                lookup(members, "License"@) == Some(JsonModel::String(s)) ==> record.license
                    == Some(s)
            &&& lookup(members, "Maintainer"@) == Some(JsonModel::Null)
                ==> record.maintainer is None
            &&& forall|s: Seq<char>|
                lookup(members, "Maintainer"@) == Some(JsonModel::String(s))
                    ==> record.maintainer == Some(s)
        }),
{
}

/// The timestamps of a record are the calendar times of the seconds that
/// the object gives (their time of day is stated by [`Package::from_json`]), and a package is out of date exactly when the object's
/// `OutOfDate` is not zero.
pub proof fn derived_fields_mirror_the_object(members: Members)
    requires
        record_of(JsonModel::Object(members)) is Some,
    ensures
        ({
            let record = record_of(JsonModel::Object(members))->Some_0;
            &&& forall|n: u64|
                lookup(members, "FirstSubmitted"@) == Some(JsonModel::U64(n)) ==> n <= i64::MAX
                    && calendar_time(n as int) == Some(record.created)
            &&& forall|n: u64|
                lookup(members, "LastModified"@) == Some(JsonModel::U64(n)) ==> n <= i64::MAX
                    && calendar_time(n as int) == Some(record.modified)
            &&& forall|n: u64|
                lookup(members, "OutOfDate"@) == Some(JsonModel::U64(n)) ==> record.out_of_date
                    == (n != 0)
        }),
{
}

/// A member under a name that is no field of the record changes nothing:
/// the object maps to the same record, or to none, with it as without it.
pub proof fn other_members_are_ignored(members: Members, name: Seq<char>, value: JsonModel)
    requires
        !is_field_name(name),
    ensures
        record_of(JsonModel::Object(members.push((name, value)))) == record_of(
            JsonModel::Object(members),
        ),
{
    lookup_ignores_other_names(members, name, value, "PackageBase"@);
    lookup_ignores_other_names(members, name, value, "PackageBaseID"@);
    lookup_ignores_other_names(members, name, value, "Name"@);
    lookup_ignores_other_names(members, name, value, "CategoryID"@);
    lookup_ignores_other_names(members, name, value, "Description"@);
    lookup_ignores_other_names(members, name, value, "FirstSubmitted"@);
    lookup_ignores_other_names(members, name, value, "LastModified"@);
    lookup_ignores_other_names(members, name, value, "ID"@);
    lookup_ignores_other_names(members, name, value, "License"@);
    lookup_ignores_other_names(members, name, value, "Maintainer"@);
    lookup_ignores_other_names(members, name, value, "NumVotes"@);
    lookup_ignores_other_names(members, name, value, "OutOfDate"@);
    lookup_ignores_other_names(members, name, value, "URL"@);
    lookup_ignores_other_names(members, name, value, "URLPath"@);
    lookup_ignores_other_names(members, name, value, "Version"@);
}

/// The order of the members does not matter: two objects that hold the same
/// members, each name once, map to the same record, or both to none.
pub proof fn order_of_members_is_irrelevant(first: Members, second: Members)
    requires
        distinct_names(first),
        distinct_names(second),
        same_members(first, second),
    ensures
        record_of(JsonModel::Object(first)) == record_of(JsonModel::Object(second)),
{
    lookup_ignores_order(first, second, "PackageBase"@);
    lookup_ignores_order(first, second, "PackageBaseID"@);
    lookup_ignores_order(first, second, "Name"@);
    lookup_ignores_order(first, second, "CategoryID"@);
    lookup_ignores_order(first, second, "Description"@);
    lookup_ignores_order(first, second, "FirstSubmitted"@);
    lookup_ignores_order(first, second, "LastModified"@);
    lookup_ignores_order(first, second, "ID"@);
    lookup_ignores_order(first, second, "License"@);
    lookup_ignores_order(first, second, "Maintainer"@);
    lookup_ignores_order(first, second, "NumVotes"@);
    lookup_ignores_order(first, second, "OutOfDate"@);
    lookup_ignores_order(first, second, "URL"@);
    lookup_ignores_order(first, second, "URLPath"@);
    lookup_ignores_order(first, second, "Version"@);
}

/// An object that maps to a record and was first submitted 1,609,459,200
/// seconds after the epoch was created in the first second of 2021.
pub proof fn first_submitted_in_2021(members: Members)
    requires
        record_of(JsonModel::Object(members)) is Some,
        lookup(members, "FirstSubmitted"@) == Some(JsonModel::U64(1_609_459_200)),
    ensures
        record_of(JsonModel::Object(members))->Some_0.created == (Timestamp {
            year: 2021,
            month: 1,
            day: 1,
            hour: 0,
            minute: 0,
            second: 0,
        }),
{
    first_second_of_2021();
}

/// The bits of floats do not matter to a record: a value maps to the same
/// record, or to none, with them as without them.
pub proof fn record_ignores_floats(value: JsonModel)
    ensures
        record_of(blurred(value)) == record_of(value),
{
    if let JsonModel::Object(members) = value {
        assert(blurred(value) == JsonModel::Object(blurred_members(members)));
        lookup_blurred(members, "PackageBase"@);
        lookup_blurred(members, "PackageBaseID"@);
        lookup_blurred(members, "Name"@);
        lookup_blurred(members, "CategoryID"@);
        lookup_blurred(members, "Description"@);
        lookup_blurred(members, "FirstSubmitted"@);
        lookup_blurred(members, "LastModified"@);
        lookup_blurred(members, "ID"@);
        lookup_blurred(members, "License"@);
        lookup_blurred(members, "Maintainer"@);
        lookup_blurred(members, "NumVotes"@);
        lookup_blurred(members, "OutOfDate"@);
        lookup_blurred(members, "URL"@);
        lookup_blurred(members, "URLPath"@);
        lookup_blurred(members, "Version"@);
    }
}

} // verus!
