//! Checks of the options, and what they find.

use crate::services::http::{http_error_message, HttpError, HttpErrorView};
use crate::text::{chars_of, push_str, str_eq, string_from_chars};
use vstd::prelude::*;

verus! {

/// The checks of single options.
pub struct Validate;

/// What is wrong with an option.
#[derive(Debug)]
pub enum ValidationError {
    /// The named field is empty.
    Required(String),
    /// The named path is empty.
    RequiredPath(String),
    /// The named path does not exist.
    PathNotExist(String, String),
    /// The named path is no directory.
    DirectoryNotExist(String, String),
    /// The named path is no file.
    FileNotExist(String, String),
    /// The named value was expected to be the first text and is the second.
    Mismatch(String, String, String),
    /// The value to check could not be fetched.
    Http(HttpError),
}

/// What a `ValidationError` holds, as mathematical values.
pub enum ValidationErrorView {
    Required(Seq<char>),
    RequiredPath(Seq<char>),
    PathNotExist(Seq<char>, Seq<char>),
    DirectoryNotExist(Seq<char>, Seq<char>),
    FileNotExist(Seq<char>, Seq<char>),
    Mismatch(Seq<char>, Seq<char>, Seq<char>),
    Http(HttpErrorView),
}

impl View for ValidationError {
    type V = ValidationErrorView;

    open spec fn view(&self) -> ValidationErrorView {
        match self {
            ValidationError::Required(field) => ValidationErrorView::Required(field@),
            ValidationError::RequiredPath(field) => ValidationErrorView::RequiredPath(field@),
            ValidationError::PathNotExist(field, path) => ValidationErrorView::PathNotExist(
                field@,
                path@,
            ),
            ValidationError::DirectoryNotExist(field, path) => ValidationErrorView::DirectoryNotExist(
                field@,
                path@,
            ),
            ValidationError::FileNotExist(field, path) => ValidationErrorView::FileNotExist(
                field@,
                path@,
            ),
            ValidationError::Mismatch(field, expected, actual) => ValidationErrorView::Mismatch(
                field@,
                expected@,
                actual@,
            ),
            ValidationError::Http(e) => ValidationErrorView::Http(e@),
        }
    }
}

/// The views of a sequence of errors.
pub open spec fn error_views(errors: Seq<ValidationError>) -> Seq<ValidationErrorView> {
    errors.map_values(|e: ValidationError| e@)
}

/// The views of a sequence with one more error are the views of the sequence
/// with one more view.
pub proof fn lemma_error_views_push(errors: Seq<ValidationError>, error: ValidationError)
    ensures
        error_views(errors.push(error)) == error_views(errors).push(error@),
{
}

/// What is wrong with a directory option: it is empty, or it names no directory.
pub open spec fn directory_error(field: Seq<char>, dir: Seq<char>, is_dir: bool) -> Option<
    ValidationErrorView,
> {
    if dir.len() == 0 {
        Some(ValidationErrorView::RequiredPath(field))
    } else if !is_dir {
        Some(ValidationErrorView::DirectoryNotExist(field, dir))
    } else {
        None
    }
}

/// What is wrong with a value that was expected to be another.
pub open spec fn expect_error(field: Seq<char>, expected: Seq<char>, actual: Seq<char>) -> Option<
    ValidationErrorView,
> {
    if expected == actual {
        None
    } else {
        Some(ValidationErrorView::Mismatch(field, expected, actual))
    }
}

/// A sequence of at most one element.
pub open spec fn optional<T>(item: Option<T>) -> Seq<T> {
    match item {
        Some(x) => seq![x],
        None => Seq::empty(),
    }
}

/// `Ok` for no errors, else the errors.
pub open spec fn to_result_spec(errors: Seq<ValidationErrorView>) -> Result<
    (),
    Seq<ValidationErrorView>,
> {
    if errors.len() == 0 {
        Ok(())
    } else {
        Err(errors)
    }
}

/// The view of the result of a validation.
pub open spec fn result_view(result: Result<(), Vec<ValidationError>>) -> Result<
    (),
    Seq<ValidationErrorView>,
> {
    match result {
        Ok(()) => Ok(()),
        Err(errors) => Err(error_views(errors@)),
    }
}

/// `Ok` for no errors, else the errors.
pub fn to_result(errors: Vec<ValidationError>) -> (result: Result<(), Vec<ValidationError>>)
    ensures
        result_view(result) == to_result_spec(error_views(errors@)),
{
    if errors.len() == 0 {
        Ok(())
    } else {
        Err(errors)
    }
}

impl Validate {
    /// Checks a directory option, given whether its path names a directory.
    pub fn directory(field: &str, dir: &str, is_dir: bool) -> (checked: Result<
        (),
        ValidationError,
    >)
        ensures
            match checked {
                Ok(()) => directory_error(field@, dir@, is_dir) is None,
                Err(e) => directory_error(field@, dir@, is_dir) == Some(e@),
            },
    {
        if dir.unicode_len() == 0 {
            return Err(ValidationError::RequiredPath(field.to_owned()));
        }
        if !is_dir {
            return Err(ValidationError::DirectoryNotExist(field.to_owned(), dir.to_owned()));
        }
        Ok(())
    }

    /// Checks that a value is the expected one.
    pub fn expect(field: &str, expected: &str, actual: &str) -> (checked: Result<
        (),
        ValidationError,
    >)
        ensures
            match checked {
                Ok(()) => expect_error(field@, expected@, actual@) is None,
                Err(e) => expect_error(field@, expected@, actual@) == Some(e@),
            },
    {
        if str_eq(expected, actual) {
            Ok(())
        } else {
            Err(ValidationError::Mismatch(field.to_owned(), expected.to_owned(), actual.to_owned()))
        }
    }
}

/// What the user reads of a `ValidationError`.
pub open spec fn validation_error_message(error: ValidationErrorView) -> Seq<char> {
    match error {
        ValidationErrorView::Required(field) => "Required field `"@ + field + "` is empty"@,
        ValidationErrorView::RequiredPath(field) => field + " is required"@,
        ValidationErrorView::PathNotExist(field, path) => field + " does not exist:\n"@ + path,
        ValidationErrorView::DirectoryNotExist(field, path) =>
            field + " is not a directory:\n"@ + path,
        ValidationErrorView::FileNotExist(field, path) => field + " is not a file:\n"@ + path,
        ValidationErrorView::Mismatch(field, expected, actual) =>
            field + " is not as expected\nExpected: "@ + expected + "\nActual: "@ + actual,
        ValidationErrorView::Http(e) => http_error_message(e),
    }
}

impl ValidationError {
    /// Writes the error out for the user.
    pub fn message(&self) -> (text: String)
        ensures
            text@ == validation_error_message(self@),
    {
        match self {
            ValidationError::Required(field) => {
                let mut out = chars_of("Required field `");
                push_str(&mut out, field.as_str());
                push_str(&mut out, "` is empty");
                string_from_chars(&out)
            },
            ValidationError::RequiredPath(field) => {
                let mut out = chars_of(field.as_str());
                push_str(&mut out, " is required");
                string_from_chars(&out)
            },
            ValidationError::PathNotExist(field, path) => {
                let mut out = chars_of(field.as_str());
                push_str(&mut out, " does not exist:\n");
                push_str(&mut out, path.as_str());
                string_from_chars(&out)
            },
            ValidationError::DirectoryNotExist(field, path) => {
                let mut out = chars_of(field.as_str());
                push_str(&mut out, " is not a directory:\n");
                push_str(&mut out, path.as_str());
                string_from_chars(&out)
            },
            ValidationError::FileNotExist(field, path) => {
                let mut out = chars_of(field.as_str());
                push_str(&mut out, " is not a file:\n");
                push_str(&mut out, path.as_str());
                string_from_chars(&out)
            },
            ValidationError::Mismatch(field, expected, actual) => {
                let mut out = chars_of(field.as_str());
                push_str(&mut out, " is not as expected\nExpected: ");
                push_str(&mut out, expected.as_str());
                push_str(&mut out, "\nActual: ");
                push_str(&mut out, actual.as_str());
                string_from_chars(&out)
            },
            ValidationError::Http(e) => {
                let mut out = chars_of(e.message().as_str());
                string_from_chars(&out)
            },
        }
    }
}

} // verus!
