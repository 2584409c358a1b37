//! Types that mirror the service's data.
use vstd::prelude::*;

use crate::decode::{
    FromJson, fail, result_items, first, list_field, number_field, opt_string_field, opt_u64_field,
    read_list, read_number, read_opt_string, read_opt_u64, read_string, read_u64, string_field,
    u64_field,
};
use crate::error::DecodeError;
use crate::json::{Json, JsonNumber};

verus! {

/// How a search matches packages.
#[derive(Copy, Clone, Debug, PartialEq, Eq, Structural)]
pub enum SearchBy {
    /// Match the package name.
    Name,
    /// Match the package name and description.
    NameDesc,
    /// Match the maintainer's name.
    Maintainer,
    /// Match the packages depended upon.
    Depends,
    /// Match the packages needed to build.
    MakeDepends,
    /// Match the packages needed to run checks.
    CheckDepends,
    /// Match the packages optionally depended upon.
    OptDepends,
}

impl SearchBy {
    /// The token that stands for the search kind in the `by` parameter.
    pub open spec fn token(self) -> Seq<char> {
        match self {
            SearchBy::Name => "name"@,
            SearchBy::NameDesc => "name-desc"@,
            SearchBy::Maintainer => "maintainer"@,
            SearchBy::Depends => "depends"@,
            SearchBy::MakeDepends => "makedepends"@,
            SearchBy::OptDepends => "optdepends"@,
            SearchBy::CheckDepends => "checkdepends"@,
        }
    }

    /// The token that stands for the search kind in the `by` parameter.
    pub fn as_str(&self) -> (r: &'static str)
        ensures
            r@ == self.token(),
    {
        match self {
            SearchBy::Name => "name",
            SearchBy::NameDesc => "name-desc",
            SearchBy::Maintainer => "maintainer",
            SearchBy::Depends => "depends",
            SearchBy::MakeDepends => "makedepends",
            SearchBy::OptDepends => "optdepends",
            SearchBy::CheckDepends => "checkdepends",
        }
    }

    /// The token as an owned string.
    pub fn to_string(&self) -> (r: String)
        ensures
            r@ == self.token(),
    {
        String::from_str(self.as_str())
    }
}

/// The envelope of every answer: the results and what the service says of
/// them.
#[derive(Debug)]
pub struct Search<T> {
    /// The results, in the order the service gave them.
    pub results: Vec<T>,
    /// The number of results as the service reports it, kept as it was sent
    /// even where it differs from the length of `results`.
    pub result_count: u64,
    /// The type of search that was performed.
    pub type_: String,
    /// The version of the interface in use.
    pub version: u64,
}

impl<T: FromJson> Search<T> {
    /// Whether `self` holds what the envelope `doc` holds.
    pub open spec fn decoded_from(&self, doc: Json) -> bool {
        match doc {
            Json::Object(f) => {
                &&& u64_field(f@, "resultcount") == Ok::<u64, DecodeError>(self.result_count)
                &&& string_field(f@, "type") == Ok::<String, DecodeError>(self.type_)
                &&& u64_field(f@, "version") == Ok::<u64, DecodeError>(self.version)
                &&& self.results@.len() == result_items(doc).len()
                &&& forall|i: int|
                    0 <= i < self.results@.len() ==> #[trigger] self.results@[i].decoded_from(
                        result_items(doc)[i],
                    )
            },
            _ => false,
        }
    }
}

/// A package found by a search, without its relations.
#[derive(Debug)]
pub struct SearchResult {
    /// A longer description of the package.
    pub description: Option<String>,
    /// When the package was first submitted.
    pub first_submitted: u64,
    /// The ID of the package.
    pub id: u64,
    /// When the package was last modified.
    pub last_modified: u64,
    /// The name of the package's maintainer.
    pub maintainer: Option<String>,
    /// The name of the package.
    pub name: String,
    /// The number of votes that the package has.
    pub num_votes: u64,
    /// When the package was marked as out-of-date.
    pub out_of_date: Option<u64>,
    /// The name of the base package.
    pub package_base: String,
    /// The ID of the base package.
    pub package_base_id: u64,
    /// The relative popularity of the package, as the service wrote it.
    pub popularity: JsonNumber,
    /// URL to the package's project home.
    pub url: Option<String>,
    /// Path to the package's snapshot tar.
    pub url_path: String,
    /// The version of the package.
    pub version: String,
}

/// The first member of an object that does not decode as a `SearchResult`,
/// in the order of the fields, if any.
pub open spec fn summary_error(f: Seq<(String, Json)>) -> Option<DecodeError> {
    let e = fail(opt_string_field(f, "Description"));
    let e = first(e, fail(u64_field(f, "FirstSubmitted")));
    let e = first(e, fail(u64_field(f, "ID")));
    let e = first(e, fail(u64_field(f, "LastModified")));
    let e = first(e, fail(opt_string_field(f, "Maintainer")));
    let e = first(e, fail(string_field(f, "Name")));
    let e = first(e, fail(u64_field(f, "NumVotes")));
    let e = first(e, fail(opt_u64_field(f, "OutOfDate")));
    let e = first(e, fail(string_field(f, "PackageBase")));
    let e = first(e, fail(u64_field(f, "PackageBaseID")));
    let e = first(e, fail(number_field(f, "Popularity")));
    let e = first(e, fail(opt_string_field(f, "URL")));
    let e = first(e, fail(string_field(f, "URLPath")));
    let e = first(e, fail(string_field(f, "Version")));
    e
}

impl FromJson for SearchResult {
    open spec fn decode_error(doc: Json) -> Option<DecodeError> {
        match doc {
            Json::Object(f) => summary_error(f@),
            _ => Some(DecodeError::NotAnObject),
        }
    }

    open spec fn decoded_from(&self, doc: Json) -> bool {
        match doc {
            Json::Object(f) => {
                &&& opt_string_field(f@, "Description")
                        == Ok::<Option<String>, DecodeError>(self.description)
                &&& u64_field(f@, "FirstSubmitted") == Ok::<u64, DecodeError>(self.first_submitted)
                &&& u64_field(f@, "ID") == Ok::<u64, DecodeError>(self.id)
                &&& u64_field(f@, "LastModified") == Ok::<u64, DecodeError>(self.last_modified)
                &&& opt_string_field(f@, "Maintainer")
                        == Ok::<Option<String>, DecodeError>(self.maintainer)
                &&& string_field(f@, "Name") == Ok::<String, DecodeError>(self.name)
                &&& u64_field(f@, "NumVotes") == Ok::<u64, DecodeError>(self.num_votes)
                &&& opt_u64_field(f@, "OutOfDate")
                        == Ok::<Option<u64>, DecodeError>(self.out_of_date)
                &&& string_field(f@, "PackageBase") == Ok::<String, DecodeError>(self.package_base)
                &&& u64_field(f@, "PackageBaseID") == Ok::<u64, DecodeError>(self.package_base_id)
                &&& number_field(f@, "Popularity") == Ok::<JsonNumber, DecodeError>(self.popularity)
                &&& opt_string_field(f@, "URL") == Ok::<Option<String>, DecodeError>(self.url)
                &&& string_field(f@, "URLPath") == Ok::<String, DecodeError>(self.url_path)
                &&& string_field(f@, "Version") == Ok::<String, DecodeError>(self.version)
            },
            _ => false,
        }
    }

    fn from_json(doc: &Json) -> (r: Result<Self, DecodeError>) {
        match doc {
            Json::Object(f) => {
                let description = read_opt_string(f, "Description")?;
                let first_submitted = read_u64(f, "FirstSubmitted")?;
                let id = read_u64(f, "ID")?;
                let last_modified = read_u64(f, "LastModified")?;
                let maintainer = read_opt_string(f, "Maintainer")?;
                let name = read_string(f, "Name")?;
                let num_votes = read_u64(f, "NumVotes")?;
                let out_of_date = read_opt_u64(f, "OutOfDate")?;
                let package_base = read_string(f, "PackageBase")?;
                let package_base_id = read_u64(f, "PackageBaseID")?;
                let popularity = read_number(f, "Popularity")?;
                let url = read_opt_string(f, "URL")?;
                let url_path = read_string(f, "URLPath")?;
                let version = read_string(f, "Version")?;
                Ok(SearchResult {
                    description,
                    first_submitted,
                    id,
                    last_modified,
                    maintainer,
                    name,
                    num_votes,
                    out_of_date,
                    package_base,
                    package_base_id,
                    popularity,
                    url,
                    url_path,
                    version,
                })
            },
            _ => Err(DecodeError::NotAnObject),
        }
    }
}

/// A package with its relations, as an `info` request gives it.
#[derive(Debug)]
pub struct InfoResult {
    /// Package names that conflict with this package.
    pub conflicts: Vec<String>,
    /// The packages that this package depends upon.
    pub dependencies: Vec<String>,
    /// A longer description of the package.
    pub description: Option<String>,
    /// When the package was first submitted.
    pub first_submitted: u64,
    /// The ID of the package.
    pub id: u64,
    /// The keywords that the package has been marked with.
    pub keywords: Vec<String>,
    /// When the package was last modified.
    pub last_modified: u64,
    /// The licenses that the project is licensed under.
    pub license: Vec<String>,
    /// The name of the package's maintainer.
    pub maintainer: Option<String>,
    /// The packages needed to build the package.
    pub make_depends: Vec<String>,
    /// The name of the package.
    pub name: String,
    /// The number of votes that the package has.
    pub num_votes: u64,
    /// The packages that this package optionally depends upon.
    pub optional_dependencies: Vec<String>,
    /// When the package was marked as out-of-date.
    pub out_of_date: Option<u64>,
    /// The name of the base package.
    pub package_base: String,
    /// The ID of the base package.
    pub package_base_id: u64,
    /// The relative popularity of the package, as the service wrote it.
    pub popularity: JsonNumber,
    /// Package names that this package provides.
    pub provides: Vec<String>,
    /// URL to the package's project home.
    pub url: Option<String>,
    /// Path to the package's snapshot tar.
    pub url_path: String,
    /// The version of the package.
    pub version: String,
}

/// The first member of an object that does not decode as a `InfoResult`,
/// in the order of the fields, if any.
pub open spec fn detail_error(f: Seq<(String, Json)>) -> Option<DecodeError> {
    let e = fail(list_field(f, "Conflicts"));
    let e = first(e, fail(list_field(f, "Depends")));
    let e = first(e, fail(opt_string_field(f, "Description")));
    let e = first(e, fail(u64_field(f, "FirstSubmitted")));
    let e = first(e, fail(u64_field(f, "ID")));
    let e = first(e, fail(list_field(f, "Keywords")));
    let e = first(e, fail(u64_field(f, "LastModified")));
    let e = first(e, fail(list_field(f, "License")));
    let e = first(e, fail(opt_string_field(f, "Maintainer")));
    let e = first(e, fail(list_field(f, "MakeDepends")));
    let e = first(e, fail(string_field(f, "Name")));
    let e = first(e, fail(u64_field(f, "NumVotes")));
    let e = first(e, fail(list_field(f, "OptDepends")));
    let e = first(e, fail(opt_u64_field(f, "OutOfDate")));
    let e = first(e, fail(string_field(f, "PackageBase")));
    let e = first(e, fail(u64_field(f, "PackageBaseID")));
    let e = first(e, fail(number_field(f, "Popularity")));
    let e = first(e, fail(list_field(f, "Provides")));
    let e = first(e, fail(opt_string_field(f, "URL")));
    let e = first(e, fail(string_field(f, "URLPath")));
    let e = first(e, fail(string_field(f, "Version")));
    e
}

impl FromJson for InfoResult {
    open spec fn decode_error(doc: Json) -> Option<DecodeError> {
        match doc {
            Json::Object(f) => detail_error(f@),
            _ => Some(DecodeError::NotAnObject),
        }
    }

    open spec fn decoded_from(&self, doc: Json) -> bool {
        match doc {
            Json::Object(f) => {
                &&& list_field(f@, "Conflicts") == Ok::<Seq<String>, DecodeError>(self.conflicts@)
                &&& list_field(f@, "Depends") == Ok::<Seq<String>, DecodeError>(self.dependencies@)
                &&& opt_string_field(f@, "Description")
                        == Ok::<Option<String>, DecodeError>(self.description)
                &&& u64_field(f@, "FirstSubmitted") == Ok::<u64, DecodeError>(self.first_submitted)
                &&& u64_field(f@, "ID") == Ok::<u64, DecodeError>(self.id)
                &&& list_field(f@, "Keywords") == Ok::<Seq<String>, DecodeError>(self.keywords@)
                &&& u64_field(f@, "LastModified") == Ok::<u64, DecodeError>(self.last_modified)
                &&& list_field(f@, "License") == Ok::<Seq<String>, DecodeError>(self.license@)
                &&& opt_string_field(f@, "Maintainer")
                        == Ok::<Option<String>, DecodeError>(self.maintainer)
                &&& list_field(f@, "MakeDepends")
                        == Ok::<Seq<String>, DecodeError>(self.make_depends@)
                &&& string_field(f@, "Name") == Ok::<String, DecodeError>(self.name)
                &&& u64_field(f@, "NumVotes") == Ok::<u64, DecodeError>(self.num_votes)
                &&& list_field(f@, "OptDepends")
                        == Ok::<Seq<String>, DecodeError>(self.optional_dependencies@)
                &&& opt_u64_field(f@, "OutOfDate")
                        == Ok::<Option<u64>, DecodeError>(self.out_of_date)
                &&& string_field(f@, "PackageBase") == Ok::<String, DecodeError>(self.package_base)
                &&& u64_field(f@, "PackageBaseID") == Ok::<u64, DecodeError>(self.package_base_id)
                &&& number_field(f@, "Popularity") == Ok::<JsonNumber, DecodeError>(self.popularity)
                &&& list_field(f@, "Provides") == Ok::<Seq<String>, DecodeError>(self.provides@)
                &&& opt_string_field(f@, "URL") == Ok::<Option<String>, DecodeError>(self.url)
                &&& string_field(f@, "URLPath") == Ok::<String, DecodeError>(self.url_path)
                &&& string_field(f@, "Version") == Ok::<String, DecodeError>(self.version)
            },
            _ => false,
        }
    }

    fn from_json(doc: &Json) -> (r: Result<Self, DecodeError>) {
        match doc {
            Json::Object(f) => {
                let conflicts = read_list(f, "Conflicts")?;
                let dependencies = read_list(f, "Depends")?;
                let description = read_opt_string(f, "Description")?;
                let first_submitted = read_u64(f, "FirstSubmitted")?;
                let id = read_u64(f, "ID")?;
                let keywords = read_list(f, "Keywords")?;
                let last_modified = read_u64(f, "LastModified")?;
                let license = read_list(f, "License")?;
                let maintainer = read_opt_string(f, "Maintainer")?;
                let make_depends = read_list(f, "MakeDepends")?;
                let name = read_string(f, "Name")?;
                let num_votes = read_u64(f, "NumVotes")?;
                let optional_dependencies = read_list(f, "OptDepends")?;
                let out_of_date = read_opt_u64(f, "OutOfDate")?;
                let package_base = read_string(f, "PackageBase")?;
                let package_base_id = read_u64(f, "PackageBaseID")?;
                let popularity = read_number(f, "Popularity")?;
                let provides = read_list(f, "Provides")?;
                let url = read_opt_string(f, "URL")?;
                let url_path = read_string(f, "URLPath")?;
                let version = read_string(f, "Version")?;
                Ok(InfoResult {
                    conflicts,
                    dependencies,
                    description,
                    first_submitted,
                    id,
                    keywords,
                    last_modified,
                    license,
                    maintainer,
                    make_depends,
                    name,
                    num_votes,
                    optional_dependencies,
                    out_of_date,
                    package_base,
                    package_base_id,
                    popularity,
                    provides,
                    url,
                    url_path,
                    version,
                })
            },
            _ => Err(DecodeError::NotAnObject),
        }
    }
}

} // verus!
