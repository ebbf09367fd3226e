use vstd::prelude::*;
use vstd::string::*;

use crate::error::DownloadError;

verus! {

/// What `warg_protocol::registry::PackageName::new` makes of a text: its namespace
/// and name, or `None` where it rejects it.
pub uninterp spec fn package_name_parts(text: Seq<char>) -> Option<(Seq<char>, Seq<char>)>;

/// A registry package name `namespace:name`.
#[derive(Debug, Clone, PartialEq, Eq)]
pub struct PackageName {
    pub namespace: String,
    pub name: String,
}

impl View for PackageName {
    type V = (Seq<char>, Seq<char>);

    open spec fn view(&self) -> (Seq<char>, Seq<char>) {
        (self.namespace@, self.name@)
    }
}

/// Relies on `warg_protocol::registry::PackageName::new` to validate a package
/// name; its namespace is the text before the last `:` and its name the text after.
#[verifier::external_body]
fn warg_package_name(text: &str) -> (r: Option<PackageName>)
    ensures
        match r {
            Some(p) => package_name_parts(text@) == Some(p@)
                && text@ == p.namespace@ + seq![':'] + p.name@,
            None => package_name_parts(text@).is_none(),
        },
{
    match warg_protocol::registry::PackageName::new(text) {
        Ok(p) => Some(PackageName { namespace: p.namespace().to_string(), name: p.name().to_string() }),
        Err(_) => None,
    }
}

impl PackageName {
    /// Parses and validates a package name.
    pub fn parse(text: &str) -> (r: Result<PackageName, DownloadError>)
        ensures
            match r {
                Ok(p) => package_name_parts(text@) == Some(p@)
                    && text@ == p.namespace@ + seq![':'] + p.name@,
                Err(e) => package_name_parts(text@).is_none()
                    && (e matches DownloadError::InvalidPackageName(m) && m@ == text@),
            },
    {
        match warg_package_name(text) {
            Some(p) => Ok(p),
            None => Err(DownloadError::InvalidPackageName(text.to_string())),
        }
    }

    /// A copy of this name.
    pub fn copied(&self) -> (r: PackageName)
        ensures
            r@ == self@,
    {
        PackageName { namespace: self.namespace.clone(), name: self.name.clone() }
    }

    /// Whether two names are the same.
    pub fn same_name(&self, other: &PackageName) -> (r: bool)
        ensures
            r == (self@ == other@),
    {
        self.namespace == other.namespace && self.name == other.name
    }

    /// The name of the file a package is written to when no output path is given.
    pub fn default_file_name(&self) -> (r: String)
        ensures
            r@ == default_file_name_of(self@),
    {
        let mut r = self.name.clone();
        proof {
            reveal_strlit(".wit");
        }
        r.append(".wit");
        assert(r@ =~= default_file_name_of(self@));
        r
    }

    /// The whole name, `namespace:name`.
    pub fn full_name(&self) -> (r: String)
        ensures
            r@ == self.namespace@ + seq![':'] + self.name@,
    {
        let mut r = self.namespace.clone();
        proof {
            reveal_strlit(":");
        }
        r.append(":");
        r.append(self.name.as_str());
        assert(r@ =~= self.namespace@ + seq![':'] + self.name@);
        r
    }
}

/// `{name}.wit`, where `name` is the part of the package name after the namespace.
pub open spec fn default_file_name_of(p: (Seq<char>, Seq<char>)) -> Seq<char> {
    p.1 + seq!['.', 'w', 'i', 't']
}

} // verus!
