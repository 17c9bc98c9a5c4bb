//! The four operations of the service: the URL that asks for each, and the
//! typed result that a response to it amounts to.

use crate::envelope::{is_outcome, outcomes_are_alike, rpc, Response};
use crate::error::{Error, Failure};
use crate::json::{array_view, blurred, items_view, JsonModel, Value};
use crate::package::{record_ignores_floats, record_of, Package, Record};
use crate::query::{
    arg_list, form_encoded, many_arguments_query_text, many_arguments_url,
    one_argument_query_text, one_argument_url, operation_names_are_plain, query_multi, query_one,
    texts,
};
use vstd::prelude::*;

verus! {

/// The endpoint that a new client talks to.
pub const ENDPOINT: &'static str = "https://aur4.archlinux.org/rpc.php";

/// The configuration of a client: the endpoint of the service.
///
/// The value is immutable and carries no state of any call.
pub struct Aur {
    base: String,
}

/// The records of a list of packages.
pub open spec fn records(packages: Seq<Package>) -> Seq<Record> {
    Seq::new(packages.len(), |i: int| packages[i]@)
}

/// The content of a result that holds a list of packages.
pub open spec fn listing_view(r: Result<Vec<Package>, Error>) -> Result<Seq<Record>, Failure> {
    match r {
        Ok(packages) => Ok(records(packages@)),
        Err(e) => Err(e@),
    }
}

/// The content of a result that holds at most one package.
pub open spec fn single_view(r: Result<Option<Package>, Error>) -> Result<
    Option<Record>,
    Failure,
> {
    match r {
        Ok(Some(package)) => Ok(Some(package@)),
        Ok(None) => Ok(None),
        Err(e) => Err(e@),
    }
}

/// Every item maps to a record.
pub open spec fn all_records(items: Seq<JsonModel>) -> bool {
    forall|i: int| 0 <= i < items.len() ==> record_of(#[trigger] items[i]) is Some
}

/// The packages that a result payload lists: the records of the items of an
/// array, in the order of the array. A payload that is no array, or an item
/// that is no record, makes the response invalid.
pub open spec fn listing_of(payload: JsonModel) -> Result<Seq<Record>, Failure> {
    match payload {
        JsonModel::Array(items) => if all_records(items) {
            Ok(Seq::new(items.len(), |i: int| record_of(items[i])->Some_0))
        } else {
            Err(Failure::InvalidResponse)
        },
        _ => Err(Failure::InvalidResponse),
    }
}

/// The package that a result payload describes: none for an empty array,
/// which is how the service says "not found", and else the record that the
/// payload itself maps to.
pub open spec fn single_of(payload: JsonModel) -> Result<Option<Record>, Failure> {
    if payload is Array && payload->Array_0.len() == 0 {
        Ok(None)
    } else {
        match record_of(payload) {
            Some(record) => Ok(Some(record)),
            None => Err(Failure::InvalidResponse),
        }
    }
}

/// What the outcome of a response amounts to for a listing operation.
pub open spec fn listing_from(outcome: Result<JsonModel, Failure>) -> Result<Seq<Record>, Failure> {
    match outcome {
        Ok(payload) => listing_of(payload),
        Err(failure) => Err(failure),
    }
}

/// What the outcome of a response amounts to for `info`.
pub open spec fn single_from(outcome: Result<JsonModel, Failure>) -> Result<
    Option<Record>,
    Failure,
> {
    match outcome {
        Ok(payload) => single_of(payload),
        Err(failure) => Err(failure),
    }
}

/// `listing` is what a response to a listing operation amounts to.
pub open spec fn is_listing(
    status: u16,
    body: Seq<u8>,
    listing: Result<Seq<Record>, Failure>,
) -> bool {
    exists|outcome: Result<JsonModel, Failure>| #[trigger]
        is_outcome(status, body, outcome) && listing == listing_from(outcome)
}

/// `single` is what a response to `info` amounts to.
pub open spec fn is_single(
    status: u16,
    body: Seq<u8>,
    single: Result<Option<Record>, Failure>,
) -> bool {
    exists|outcome: Result<JsonModel, Failure>| #[trigger]
        is_outcome(status, body, outcome) && single == single_from(outcome)
}

/// Maps the items of a result payload to packages, in order.
pub fn packages(payload: &Value) -> (r: Result<Vec<Package>, Error>)
    ensures
        listing_view(r) == listing_of(payload@),
{
    let items = match payload {
        Value::Array(items) => items,
        _ => {
            return Err(Error::InvalidResponse);
        },
    };
    proof {
        array_view(*items);
    }
    let mut out: Vec<Package> = Vec::new();
    let mut i: usize = 0;
    while i < items.len()
        invariant
            i <= items.len(),
            out.len() == i,
            payload@ == JsonModel::Array(items_view(items@)),
            forall|k: int|
                0 <= k < i ==> record_of(#[trigger] items_view(items@)[k]) == Some(out@[k]@),
        decreases items.len() - i,
    {
        match Package::from_json(&items[i]) {
            Ok(package) => {
                out.push(package);
            },
            Err(_) => {
                assert(record_of(items_view(items@)[i as int]) is None);
                return Err(Error::InvalidResponse);
            },
        }
        i += 1;
    }
    assert(records(out@) =~= Seq::new(
        items_view(items@).len(),
        |k: int| record_of(items_view(items@)[k])->Some_0,
    ));
    Ok(out)
}

/// Maps the result payload of `info` to the package it describes, if any.
pub fn package_option(payload: &Value) -> (r: Result<Option<Package>, Error>)
    ensures
        single_view(r) == single_of(payload@),
{
    match payload {
        Value::Array(items) => {
            proof {
                array_view(*items);
            }
            if items.len() == 0 {
                return Ok(None);
            }
        },
        _ => {},
    }
    match Package::from_json(payload) {
        Ok(package) => Ok(Some(package)),
        Err(e) => Err(e),
    }
}

impl Aur {
    /// The endpoint that the client talks to.
    pub closed spec fn endpoint(&self) -> Seq<char> {
        self.base@
    }

    /// A client of the public service.
    pub fn new() -> (aur: Aur)
        ensures
            aur.endpoint() == ENDPOINT@,
    {
        Aur { base: ENDPOINT.to_owned() }
    }

    /// The URL of a call of `fun` with one argument.
    pub fn call_one(&self, fun: &str, arg: &str) -> (url: String)
        ensures
            url@ == self.endpoint() + seq!['?'] + query_one(fun@, arg@),
    {
        one_argument_url(self.base.as_str(), fun, arg)
    }

    /// The URL of a call of `fun` with a list of arguments.
    pub fn call_multi(&self, fun: &str, args: &[&str]) -> (url: String)
        ensures
            url@ == self.endpoint() + seq!['?'] + query_multi(fun@, texts(args@)),
    {
        many_arguments_url(self.base.as_str(), fun, args)
    }

    /// The URL that searches the repository for `pat`.
    pub fn search_url(&self, pat: &str) -> (url: String)
        ensures
            url@ == self.endpoint() + seq!['?'] + query_one("search"@, pat@),
            url@ == self.endpoint() + "?type=search&arg="@ + form_encoded(pat@),
    {
        proof {
            operation_names_are_plain();
            one_argument_query_text("search"@, pat@);
            reveal_strlit("?type=search&arg=");
            reveal_strlit("type=");
            reveal_strlit("search");
            reveal_strlit("&arg=");
            assert(seq!['?'] + ("type="@ + "search"@ + "&arg="@) =~= "?type=search&arg="@);
        }
        let url = self.call_one("search", pat);
        assert(url@ =~= self.endpoint() + "?type=search&arg="@ + form_encoded(pat@));
        url
    }

    /// The URL that searches the repository for the packages of `author`.
    pub fn msearch_url(&self, author: &str) -> (url: String)
        ensures
            url@ == self.endpoint() + seq!['?'] + query_one("msearch"@, author@),
            url@ == self.endpoint() + "?type=msearch&arg="@ + form_encoded(author@),
    {
        proof {
            operation_names_are_plain();
            one_argument_query_text("msearch"@, author@);
            reveal_strlit("?type=msearch&arg=");
            reveal_strlit("type=");
            reveal_strlit("msearch");
            reveal_strlit("&arg=");
            assert(seq!['?'] + ("type="@ + "msearch"@ + "&arg="@) =~= "?type=msearch&arg="@);
        }
        let url = self.call_one("msearch", author);
        assert(url@ =~= self.endpoint() + "?type=msearch&arg="@ + form_encoded(author@));
        url
    }

    /// The URL that asks for the package named `name`.
    pub fn info_url(&self, name: &str) -> (url: String)
        ensures
            url@ == self.endpoint() + seq!['?'] + query_one("info"@, name@),
            url@ == self.endpoint() + "?type=info&arg="@ + form_encoded(name@),
    {
        proof {
            operation_names_are_plain();
            one_argument_query_text("info"@, name@);
            reveal_strlit("?type=info&arg=");
            reveal_strlit("type=");
            reveal_strlit("info");
            reveal_strlit("&arg=");
            assert(seq!['?'] + ("type="@ + "info"@ + "&arg="@) =~= "?type=info&arg="@);
        }
        let url = self.call_one("info", name);
        assert(url@ =~= self.endpoint() + "?type=info&arg="@ + form_encoded(name@));
        url
    }

    /// The URL that asks for the packages named in `names`.
    pub fn multiinfo_url(&self, names: &[&str]) -> (url: String)
        ensures
            url@ == self.endpoint() + seq!['?'] + query_multi("multiinfo"@, texts(names@)),
            url@ == self.endpoint() + "?type=multiinfo"@ + arg_list(texts(names@)),
    {
        proof {
            operation_names_are_plain();
            many_arguments_query_text("multiinfo"@, texts(names@));
            reveal_strlit("?type=multiinfo");
            reveal_strlit("type=");
            reveal_strlit("multiinfo");
            assert(seq!['?'] + ("type="@ + "multiinfo"@) =~= "?type=multiinfo"@);
        }
        let url = self.call_multi("multiinfo", names);
        assert(url@ =~= self.endpoint() + "?type=multiinfo"@ + arg_list(texts(names@)));
        url
    }

    /// The packages that a response to a search lists, in the server's order.
    pub fn search(&self, response: &Response) -> (r: Result<Vec<Package>, Error>)
        ensures
            is_listing(response.status, response.body@, listing_view(r)),
    {
        match rpc(response) {
            Ok(payload) => packages(&payload),
            Err(e) => Err(e),
        }
    }

    /// The packages that a response to a search by maintainer lists, in the
    /// server's order.
    pub fn msearch(&self, response: &Response) -> (r: Result<Vec<Package>, Error>)
        ensures
            is_listing(response.status, response.body@, listing_view(r)),
    {
        match rpc(response) {
            Ok(payload) => packages(&payload),
            Err(e) => Err(e),
        }
    }

    /// The package that a response to `info` describes, if the service found
    /// one.
    pub fn info(&self, response: &Response) -> (r: Result<Option<Package>, Error>)
        ensures
            is_single(response.status, response.body@, single_view(r)),
    {
        match rpc(response) {
            Ok(payload) => package_option(&payload),
            Err(e) => Err(e),
        }
    }

    /// The packages that a response to `multiinfo` lists, in the server's
    /// order.
    pub fn multiinfo(&self, response: &Response) -> (r: Result<Vec<Package>, Error>)
        ensures
            is_listing(response.status, response.body@, listing_view(r)),
    {
        match rpc(response) {
            Ok(payload) => packages(&payload),
            Err(e) => Err(e),
        }
    }
}

/// An empty array as the result of `info` means that there is no such
/// package: no package, and no error.
pub proof fn empty_array_means_absent(status: u16, body: Seq<u8>)
    requires
        is_outcome(status, body, Ok::<JsonModel, Failure>(JsonModel::Array(Seq::empty()))),
    ensures
        is_single(status, body, Ok::<Option<Record>, Failure>(None)),
        single_of(JsonModel::Array(Seq::empty())) == Ok::<Option<Record>, Failure>(None),
{
}

/// A listing has one package per item of the result array, in its order.
pub proof fn listing_keeps_the_order(items: Seq<JsonModel>)
    requires
        all_records(items),
    ensures
        listing_of(JsonModel::Array(items)) is Ok,
        listing_of(JsonModel::Array(items))->Ok_0.len() == items.len(),
        forall|i: int|
            0 <= i < items.len() ==> Some(
                #[trigger] listing_of(JsonModel::Array(items))->Ok_0[i],
            ) == record_of(items[i]),
{
}

/// A failure of the transport, the parser or the service is the failure of
/// the operation: no operation turns one into a result or into another.
pub proof fn failures_pass_through(status: u16, body: Seq<u8>, failure: Failure)
    requires
        is_outcome(status, body, Err::<JsonModel, Failure>(failure)),
    ensures
        is_listing(status, body, Err::<Seq<Record>, Failure>(failure)),
        is_single(status, body, Err::<Option<Record>, Failure>(failure)),
{
}

/// The bits of floats do not matter to a listing, nor to the package that
/// `info` finds.
pub proof fn listing_ignores_floats(payload: JsonModel)
    ensures
        listing_of(blurred(payload)) == listing_of(payload),
        single_of(blurred(payload)) == single_of(payload),
{
    record_ignores_floats(payload);
    if let JsonModel::Array(items) = payload {
        let blurry = blurred(payload)->Array_0;
        assert(blurry.len() == items.len());
        assert forall|i: int| 0 <= i < items.len() implies record_of(#[trigger] blurry[i])
            == record_of(items[i]) by {
            record_ignores_floats(items[i]);
        }
        if all_records(items) {
            assert(all_records(blurry)) by {
                assert forall|i: int| 0 <= i < blurry.len() implies record_of(
                    #[trigger] blurry[i],
                ) is Some by {
                    assert(record_of(items[i]) is Some);
                }
            }
            assert(listing_of(blurred(payload))->Ok_0 =~= listing_of(payload)->Ok_0);
        } else {
            let i = choose|i: int| 0 <= i < items.len() && !(record_of(#[trigger] items[i]) is Some);
            assert(!(record_of(blurry[i]) is Some));
        }
    }
}

/// The bytes of a response fix the result of a listing operation and of
/// `info`: the packages, or the failure, apart from the text of a service
/// error.
pub proof fn results_are_fixed(
    status: u16,
    body: Seq<u8>,
    first: Result<JsonModel, Failure>,
    second: Result<JsonModel, Failure>,
)
    requires
        is_outcome(status, body, first),
        is_outcome(status, body, second),
    ensures
        listing_from(first) == listing_from(second) || (first matches Err(Failure::Aur(_))
            && second matches Err(Failure::Aur(_))),
        single_from(first) == single_from(second) || (first matches Err(Failure::Aur(_))
            && second matches Err(Failure::Aur(_))),
{
    outcomes_are_alike(status, body, first, second);
    if let (Ok(a), Ok(b)) = (first, second) {
        listing_ignores_floats(a);
        listing_ignores_floats(b);
    }
}

} // verus!
