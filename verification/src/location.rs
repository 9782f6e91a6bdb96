//! Classification of dataset locations: NFS paths, S3 URIs, and Hugging Face
//! dataset URIs.

use vstd::prelude::*;
use vstd::string::*;
use crate::text::{chars_of, find, has_prefix, split_once, starts_with, str_eq, substring};

verus! {

/// The storage system a dataset location refers to.
#[derive(Debug, Clone, Copy, PartialEq, Eq, Structural)]
pub enum LocationKind {
    Nfs,
    S3,
    HuggingFace,
}

/// Errors produced while classifying a dataset location.
#[derive(Debug, PartialEq, Eq)]
pub enum LocationError {
    UnsupportedScheme(String),
}

/// The text of a location error naming the unsupported `scheme`.
pub open spec fn location_error_message(scheme: Seq<char>) -> Seq<char> {
    "unsupported dataset location scheme: "@ + scheme
}

impl LocationError {
    /// The text of this error.
    pub fn message(&self) -> (r: String)
        ensures
            self matches LocationError::UnsupportedScheme(s) && r@ == location_error_message(s@),
    {
        match self {
            LocationError::UnsupportedScheme(s) => {
                let mut r = String::from_str("unsupported dataset location scheme: ");
                r.append(s.as_str());
                r
            },
        }
    }
}

/// The scheme that selects the location kind, or the offending scheme.
pub open spec fn spec_parse_kind(uri: Seq<char>) -> Result<LocationKind, Seq<char>> {
    if has_prefix(uri, "s3://"@) {
        Ok(LocationKind::S3)
    } else if has_prefix(uri, "hf://"@) {
        Ok(LocationKind::HuggingFace)
    } else {
        match split_once(uri, "://"@) {
            Some((scheme, _)) => Err(scheme),
            None => Ok(LocationKind::Nfs),
        }
    }
}

/// The wire name of a location kind.
pub open spec fn location_kind_name(kind: LocationKind) -> Seq<char> {
    match kind {
        LocationKind::Nfs => "nfs"@,
        LocationKind::S3 => "s3"@,
        LocationKind::HuggingFace => "hugging_face"@,
    }
}

/// The location kind named `name`, if any.
pub open spec fn location_kind_from_name(name: Seq<char>) -> Option<LocationKind> {
    if name == "nfs"@ {
        Some(LocationKind::Nfs)
    } else if name == "s3"@ {
        Some(LocationKind::S3)
    } else if name == "hugging_face"@ {
        Some(LocationKind::HuggingFace)
    } else {
        None
    }
}

impl LocationKind {
    /// The wire name of this kind.
    pub fn as_str(&self) -> (r: &'static str)
        ensures
            r@ == location_kind_name(*self),
    {
        match self {
            LocationKind::Nfs => "nfs",
            LocationKind::S3 => "s3",
            LocationKind::HuggingFace => "hugging_face",
        }
    }

    /// Parses a wire name; an unknown name is reported as an unsupported scheme.
    pub fn from_name(value: &str) -> (r: Result<LocationKind, LocationError>)
        ensures
            match location_kind_from_name(value@) {
                Some(kind) => r == Ok::<LocationKind, LocationError>(kind),
                None => r matches Err(LocationError::UnsupportedScheme(s)) && s@ == value@,
            },
    {
        if str_eq(value, "nfs") {
            Ok(LocationKind::Nfs)
        } else if str_eq(value, "s3") {
            Ok(LocationKind::S3)
        } else if str_eq(value, "hugging_face") {
            Ok(LocationKind::HuggingFace)
        } else {
            Err(LocationError::UnsupportedScheme(value.to_owned()))
        }
    }
}

/// Parsing a location kind's wire name gives that kind back.
pub proof fn lemma_location_kind_name_round_trip(kind: LocationKind)
    ensures
        location_kind_from_name(location_kind_name(kind)) == Some(kind),
{
    reveal_strlit("nfs");
    reveal_strlit("s3");
    reveal_strlit("hugging_face");
    assert("s3"@.len() != "nfs"@.len());
    assert("hugging_face"@.len() != "nfs"@.len());
    assert("hugging_face"@.len() != "s3"@.len());
}

/// A dataset location: its URI together with the kind its scheme selects.
#[derive(Debug, PartialEq, Eq)]
pub struct DatasetLocation {
    uri: String,
    kind: LocationKind,
}

/// The model of a dataset location.
pub struct DatasetLocationView {
    pub uri: Seq<char>,
    pub kind: LocationKind,
}

impl View for DatasetLocation {
    type V = DatasetLocationView;

    closed spec fn view(&self) -> DatasetLocationView {
        DatasetLocationView { uri: self.uri@, kind: self.kind }
    }
}

impl DatasetLocation {
    /// The kind always agrees with the URI's scheme.
    #[verifier::type_invariant]
    spec fn classified(self) -> bool {
        spec_parse_kind(self.uri@) == Ok::<LocationKind, Seq<char>>(self.kind)
    }

    /// Parses an NFS-mounted path, S3 URI, or Hugging Face dataset URI.
    ///
    /// Fails with `UnsupportedScheme` exactly when the URI has an explicit
    /// scheme other than `s3` or `hf`.
    pub fn parse_location(uri: &str) -> (r: Result<DatasetLocation, LocationError>)
        ensures
            match spec_parse_kind(uri@) {
                Ok(kind) => r matches Ok(location) && location@ == (DatasetLocationView { uri: uri@, kind }),
                Err(scheme) => r matches Err(LocationError::UnsupportedScheme(s)) && s@ == scheme,
            },
    {
        let kind = parse_kind(uri)?;
        Ok(DatasetLocation { uri: uri.to_owned(), kind })
    }

    /// The URI this location was parsed from.
    pub fn uri(&self) -> (r: &str)
        ensures
            r@ == self@.uri,
    {
        self.uri.as_str()
    }

    /// The kind selected by the URI's scheme.
    pub fn kind(&self) -> (r: LocationKind)
        ensures
            r == self@.kind,
            spec_parse_kind(self@.uri) == Ok::<LocationKind, Seq<char>>(r),
    {
        proof {
            use_type_invariant(self);
        }
        self.kind
    }

    /// A copy of this location.
    pub fn duplicate(&self) -> (r: DatasetLocation)
        ensures
            r@ == self@,
    {
        proof {
            use_type_invariant(self);
        }
        DatasetLocation { uri: self.uri.clone(), kind: self.kind }
    }
}

fn parse_kind(uri: &str) -> (r: Result<LocationKind, LocationError>)
    ensures
        match spec_parse_kind(uri@) {
            Ok(kind) => r == Ok::<LocationKind, LocationError>(kind),
            Err(scheme) => r matches Err(LocationError::UnsupportedScheme(s)) && s@ == scheme,
        },
{
    if starts_with(uri, "s3://") {
        Ok(LocationKind::S3)
    } else if starts_with(uri, "hf://") {
        Ok(LocationKind::HuggingFace)
    } else {
        let chars = chars_of(uri);
        let sep = chars_of("://");
        match find(&chars, &sep) {
            Some(i) => Err(LocationError::UnsupportedScheme(substring(uri, 0, i))),
            None => Ok(LocationKind::Nfs),
        }
    }
}

} // verus!
