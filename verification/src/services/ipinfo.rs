//! The check of the address and the country from which requests are made.

use crate::services::http::{HttpClient, HttpError};
use crate::services::options::{AppOptions, AppOptionsView};
use crate::services::paths::push_error;
use crate::utils::validation::{
    error_views, expect_error, optional, result_view, to_result, to_result_spec, Validate,
    ValidationError, ValidationErrorView,
};
use crate::text::{chars_of, push_str, string_from_chars};
use vstd::prelude::*;

verus! {

/// The address of the service that tells the external address.
pub const IP_INFO_URL: &'static str = "https://ipinfo.io";

/// Checks the external address against what the options expect.
#[derive(Debug)]
pub struct IpInfoProvider {
    options: AppOptions,
    http: HttpClient,
}

/// What the service tells of the external address.
#[derive(Debug)]
pub struct IpInfo {
    pub ip: String,
    pub hostname: String,
    pub city: String,
    pub region: String,
    pub country: String,
    pub loc: String,
    pub org: String,
    pub postal: String,
    pub timezone: String,
}

/// What the user reads of the external address: the address, and in brackets
/// the city, the region and the country.
pub open spec fn info_message(info: IpInfo) -> Seq<char> {
    info.ip@ + " ("@ + info.city@ + ", "@ + info.region@ + ", "@ + info.country@ + ")"@
}

impl IpInfo {
    /// Writes the external address out for the user.
    pub fn message(&self) -> (text: String)
        ensures
            text@ == info_message(*self),
    {
        let mut out = chars_of(self.ip.as_str());
        push_str(&mut out, " (");
        push_str(&mut out, self.city.as_str());
        push_str(&mut out, ", ");
        push_str(&mut out, self.region.as_str());
        push_str(&mut out, ", ");
        push_str(&mut out, self.country.as_str());
        push_str(&mut out, ")");
        string_from_chars(&out)
    }
}

/// What is wrong with a value of which the options may expect another.
pub open spec fn expectation_error(
    field: Seq<char>,
    expected: Option<Seq<char>>,
    actual: Seq<char>,
) -> Option<ValidationErrorView> {
    match expected {
        Some(e) => expect_error(field, e, actual),
        None => None,
    }
}

/// What the check finds: nothing where the options expect nothing; else a
/// mismatch for the address, and one for the country.
pub open spec fn info_errors(options: AppOptionsView, ip: Seq<char>, country: Seq<char>) -> Seq<
    ValidationErrorView,
> {
    optional(expectation_error("IP address"@, options.expect_ip, ip)) + optional(
        expectation_error("Geolocated country"@, options.expect_country, country),
    )
}

fn check(field: &str, expected: &Option<String>, actual: &str) -> (checked: Result<
    (),
    ValidationError,
>)
    ensures
        match checked {
            Ok(()) => expectation_error(field@, crate::text::opt_text(*expected), actual@) is None,
            Err(e) => expectation_error(field@, crate::text::opt_text(*expected), actual@) == Some(
                e@,
            ),
        },
{
    match expected {
        Some(e) => Validate::expect(field, e.as_str(), actual),
        None => Ok(()),
    }
}

impl IpInfoProvider {
    /// The options that say what is expected.
    pub closed spec fn options(&self) -> AppOptionsView {
        self.options@
    }

    /// The directory of the cache.
    pub closed spec fn http(&self) -> Seq<char> {
        self.http@
    }

    /// A provider over the options and the cache that it is given.
    pub fn new(options: AppOptions, http: HttpClient) -> (provider: Self)
        ensures
            provider.options() == options@,
            provider.http() == http@,
    {
        Self { options, http }
    }

    /// The cache, from which the answer of the service is removed before it is
    /// asked, so that each check asks anew.
    pub fn get_http(&self) -> (http: &HttpClient)
        ensures
            http@ == self.http(),
    {
        &self.http
    }

    /// Checks what the service told against what the options expect. An
    /// answer that could not be had is the one error; else there is an error
    /// for each expected value that differs.
    pub fn validate(&self, info: Result<IpInfo, HttpError>) -> (result: Result<
        (),
        Vec<ValidationError>,
    >)
        ensures
            match info {
                Err(e) => result_view(result) == Err::<(), Seq<ValidationErrorView>>(
                    seq![ValidationErrorView::Http(e@)],
                ),
                Ok(i) => result_view(result) == to_result_spec(
                    info_errors(self.options(), i.ip@, i.country@),
                ),
            },
    {
        let info = match info {
            Ok(info) => info,
            Err(e) => {
                let mut errors: Vec<ValidationError> = Vec::new();
                let error = ValidationError::Http(e);
                errors.push(error);
                assert(error_views(errors@) == seq![error@]);
                return Err(errors);
            },
        };
        let mut errors: Vec<ValidationError> = Vec::new();
        push_error(&mut errors, check("IP address", &self.options.expect_ip, info.ip.as_str()));
        push_error(
            &mut errors,
            check("Geolocated country", &self.options.expect_country, info.country.as_str()),
        );
        to_result(errors)
    }
}

} // verus!
