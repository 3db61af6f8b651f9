//! The options of one build: library type, build mode, output settings and
//! the selection of cargo features.

use vstd::prelude::*;
use vstd::string::*;
use crate::common::text::str_eq;

verus! {

#[derive(Debug, PartialEq, Eq, Clone, Copy, Structural)]
pub enum LibType {
    Static,
    Dynamic,
}

#[derive(Debug, PartialEq, Eq, Clone, Copy, Structural)]
pub enum Mode {
    Debug,
    Release,
}

pub struct Config {
    pub silent: bool,
    pub accept_all: bool,
}

#[derive(Debug, Clone, PartialEq, Eq)]
pub struct FeatureOptions {
    pub features: Option<Vec<String>>,
    pub all_features: bool,
    pub no_default_features: bool,
}

pub ghost struct FeatureOptionsView {
    pub features: Option<Seq<Seq<char>>>,
    pub all_features: bool,
    pub no_default_features: bool,
}

impl View for FeatureOptions {
    type V = FeatureOptionsView;

    open spec fn view(&self) -> FeatureOptionsView {
        FeatureOptionsView {
            features: match self.features {
                Some(list) => Some(list.deep_view()),
                None => None,
            },
            all_features: self.all_features,
            no_default_features: self.no_default_features,
        }
    }
}

/// A library type name that is neither `staticlib` nor `cdylib`.
#[derive(Debug, PartialEq, Eq)]
pub struct InvalidLibType {
    pub given: String,
}

impl InvalidLibType {
    pub open spec fn message_spec(given: Seq<char>) -> Seq<char> {
        "Invalid library type: "@ + given
    }

    pub fn message(&self) -> (r: String)
        ensures
            r@ == Self::message_spec(self.given@),
    {
        String::from_str("Invalid library type: ").concat(self.given.as_str())
    }
}

/// The name of the directory cargo builds a mode into.
pub open spec fn mode_name(mode: Mode) -> Seq<char> {
    match mode {
        Mode::Debug => "debug"@,
        Mode::Release => "release"@,
    }
}

impl Mode {
    /// `debug` or `release`, as cargo names its output directories.
    pub fn as_str(&self) -> (r: &'static str)
        ensures
            r@ == mode_name(*self),
    {
        match self {
            Mode::Debug => "debug",
            Mode::Release => "release",
        }
    }

    pub fn to_string(&self) -> (r: String)
        ensures
            r@ == mode_name(*self),
    {
        String::from_str(self.as_str())
    }
}

/// The crate-type identifier of a library type.
pub open spec fn lib_type_identifier(lib_type: LibType) -> Seq<char> {
    match lib_type {
        LibType::Static => "staticlib"@,
        LibType::Dynamic => "cdylib"@,
    }
}

/// The file extension of a library on Apple platforms.
pub open spec fn lib_type_extension(lib_type: LibType) -> Seq<char> {
    match lib_type {
        LibType::Static => "a"@,
        LibType::Dynamic => "dylib"@,
    }
}

/// The file extension of a library on Android.
pub open spec fn lib_type_extension_android(lib_type: LibType) -> Seq<char> {
    match lib_type {
        LibType::Static => "a"@,
        LibType::Dynamic => "so"@,
    }
}

/// The word a library type is shown as.
pub open spec fn lib_type_name(lib_type: LibType) -> Seq<char> {
    match lib_type {
        LibType::Static => "static"@,
        LibType::Dynamic => "dynamic"@,
    }
}

/// The library type that a crate-type identifier stands for.
pub open spec fn lib_type_of(identifier: Seq<char>) -> Option<LibType> {
    if identifier == "staticlib"@ {
        Some(LibType::Static)
    } else if identifier == "cdylib"@ {
        Some(LibType::Dynamic)
    } else {
        None
    }
}

impl LibType {
    /// Reads a crate-type identifier: `staticlib` or `cdylib`. Anything else
    /// is handed back in the error.
    pub fn from_str(s: &str) -> (r: Result<LibType, InvalidLibType>)
        ensures
            match r {
                Ok(t) => lib_type_of(s@) == Some(t),
                Err(e) => lib_type_of(s@) is None && e.given@ == s@,
            },
    {
        if str_eq(s, "staticlib") {
            Ok(LibType::Static)
        } else if str_eq(s, "cdylib") {
            Ok(LibType::Dynamic)
        } else {
            Err(InvalidLibType { given: String::from_str(s) })
        }
    }

    /// The identifier used in the crate-type field of a cargo manifest.
    pub fn identifier(&self) -> (r: &'static str)
        ensures
            r@ == lib_type_identifier(*self),
    {
        match self {
            LibType::Static => "staticlib",
            LibType::Dynamic => "cdylib",
        }
    }

    pub fn file_extension(&self) -> (r: &'static str)
        ensures
            r@ == lib_type_extension(*self),
    {
        match self {
            LibType::Static => "a",
            LibType::Dynamic => "dylib",
        }
    }

    pub fn file_extension_android(&self) -> (r: &'static str)
        ensures
            r@ == lib_type_extension_android(*self),
    {
        match self {
            LibType::Static => "a",
            LibType::Dynamic => "so",
        }
    }

    pub fn to_string(&self) -> (r: String)
        ensures
            r@ == lib_type_name(*self),
    {
        match self {
            LibType::Static => String::from_str("static"),
            LibType::Dynamic => String::from_str("dynamic"),
        }
    }
}

/// Reading the identifier of a library type gives that type back.
pub proof fn lemma_identifier_round_trip(lib_type: LibType)
    ensures
        lib_type_of(lib_type_identifier(lib_type)) == Some(lib_type),
{
    reveal_strlit("staticlib");
    reveal_strlit("cdylib");
    assert("staticlib"@.len() != "cdylib"@.len());
}

} // verus!
