//! From the outcome of a search to a profile.
//!
//! The caller searches the roots as [`crate::resolve`] directs and reads the
//! file that the search names. What came of that is a [`Resolution`];
//! [`load_profile`] makes the profile of it, or the error.

use vstd::prelude::*;
use crate::document::{diagnostic, toml_document};
use crate::profile::{parsed, Profile, ProfileError, ProfileFault, ProfileView};

verus! {

/// `std::io::Error`, the cause that the system gives where a file cannot be
/// read. It is carried through unread.
#[verifier::external_type_specification]
#[verifier::external_body]
pub struct ExIoError(std::io::Error);

/// Why no profile was loaded.
#[derive(Debug)]
pub enum LoadError {
    /// No search root holds a file for the profile.
    NotFound,
    /// The file was read and its text is no profile.
    InvalidProfile(ProfileError),
    /// A text is not well-formed TOML. Loading does not make this error: it
    /// hands on the parser's error inside [`LoadError::InvalidProfile`].
    InvalidToml(toml::de::Error),
    /// The file was found and could not be read.
    IoError(std::io::Error),
}

/// A [`LoadError`] as contracts speak of it. A diagnostic stands as its
/// message.
pub enum LoadFault {
    NotFound,
    InvalidProfile(ProfileFault),
    InvalidToml(Seq<char>),
    IoError(std::io::Error),
}

impl View for LoadError {
    type V = LoadFault;

    open spec fn view(&self) -> LoadFault {
        match *self {
            LoadError::NotFound => LoadFault::NotFound,
            LoadError::InvalidProfile(error) => LoadFault::InvalidProfile(error@),
            LoadError::InvalidToml(error) => LoadFault::InvalidToml(diagnostic(error)),
            LoadError::IoError(cause) => LoadFault::IoError(cause),
        }
    }
}

/// What came of searching the roots and reading the file found.
#[derive(Debug)]
pub enum Resolution {
    /// The search ended without a match.
    NotFound,
    /// The search named a file, and reading it failed with this cause.
    Unreadable(std::io::Error),
    /// The text of the file that the search named.
    Found(String),
}

/// What loading gives for a resolution.
pub open spec fn loaded(resolution: Resolution) -> Result<ProfileView, LoadFault> {
    match resolution {
        Resolution::NotFound => Err(LoadFault::NotFound),
        Resolution::Unreadable(cause) => Err(LoadFault::IoError(cause)),
        Resolution::Found(text) => match parsed(toml_document(text@)) {
            Ok(profile) => Ok(profile),
            Err(fault) => Err(LoadFault::InvalidProfile(fault)),
        },
    }
}

impl Resolution {
    /// The resolution of a search that named a file, from what reading the
    /// file gave.
    pub fn from_read(read: Result<String, std::io::Error>) -> (r: Resolution)
        ensures
            match read {
                Ok(text) => r == Resolution::Found(text),
                Err(cause) => r == Resolution::Unreadable(cause),
            },
    {
        match read {
            Ok(text) => Resolution::Found(text),
            Err(cause) => Resolution::Unreadable(cause),
        }
    }
}

/// Loads the profile from the outcome of its resolution. A search without a
/// match is `NotFound`; a file that could not be read is an `IoError` with
/// the cause as it came; a text that was read is parsed, and a text that is
/// no profile is an `InvalidProfile` with the parser's error, be it a parse
/// error or a missing field.
pub fn load_profile(resolution: Resolution) -> (r: Result<Profile, LoadError>)
    ensures
        match r {
            Ok(profile) => loaded(resolution) == Ok::<ProfileView, LoadFault>(profile@),
            Err(error) => loaded(resolution) == Err::<ProfileView, LoadFault>(error@),
        },
        r matches Ok(profile) ==> profile@.is_valid(),
        !(r matches Err(LoadError::InvalidToml(_))),
{
    match resolution {
        Resolution::NotFound => Err(LoadError::NotFound),
        Resolution::Unreadable(cause) => Err(LoadError::IoError(cause)),
        Resolution::Found(text) => match Profile::from_toml(text.as_str()) {
            Ok(profile) => Ok(profile),
            Err(error) => Err(LoadError::InvalidProfile(error)),
        },
    }
}

} // verus!
