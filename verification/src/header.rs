//! Header references of the generated code: `#include` lines for project
//! and system headers.

use vstd::prelude::*;

use crate::formatter::Formatter;
use crate::formatter::line_start;
use crate::formatter::written;

verus! {

/// A header reference.
#[derive(Debug)]
pub struct Include {
    /// The path of the referenced header.
    pub path: String,
    /// Whether this references a system header, in angle brackets.
    pub is_system: bool,
    /// A trailing comment on the reference, if any.
    pub doc: Option<String>,
}

/// The flat text of a header reference: the directive, the path in angle
/// brackets or double quotes, and an optional trailing comment.
pub open spec fn include_flat(i: Include) -> Seq<char> {
    "#include "@ + (if i.is_system {
        "<"@ + i.path@ + ">"@
    } else {
        "\""@ + i.path@ + "\""@
    }) + (match i.doc {
        Some(d) => "  // "@ + d@,
        None => Seq::<char>::empty(),
    }) + "\n"@
}

impl Include {
    /// Creates a new reference to a project header.
    pub fn new(path: &str) -> (r: Self)
        ensures
            r.path@ == path@,
            !r.is_system,
            r.doc is None,
    {
        Self::with_string(path.to_owned())
    }

    /// Creates a new reference to a project header, consuming the path.
    pub fn with_string(path: String) -> (r: Self)
        ensures
            r.path@ == path@,
            !r.is_system,
            r.doc is None,
    {
        Include { path, is_system: false, doc: None }
    }

    /// Creates a new reference to a system header.
    pub fn new_system(path: &str) -> (r: Self)
        ensures
            r.path@ == path@,
            r.is_system,
            r.doc is None,
    {
        Include { path: path.to_owned(), is_system: true, doc: None }
    }

    /// Sets the trailing comment of the reference.
    pub fn doc_str(&mut self, doc: &str) -> (r: &mut Self)
        ensures
            r.path == old(self).path,
            r.is_system == old(self).is_system,
            r.doc matches Some(d) && d@ == doc@,
            *final(self) == *final(r),
    {
        self.doc = Some(doc.to_owned());
        self
    }

    /// Chooses between a system header and a project header.
    pub fn system(&mut self, arg: bool) -> (r: &mut Self)
        ensures
            r.path == old(self).path,
            r.doc == old(self).doc,
            r.is_system == arg,
            *final(self) == *final(r),
    {
        self.is_system = arg;
        self
    }

    /// Writes the header reference through the formatter.
    pub fn fmt(&self, fmt: &mut Formatter)
        ensures
            final(fmt).out@ == old(fmt).out@ + written(
                include_flat(*self),
                old(fmt).spaces as nat,
                line_start(old(fmt).out@),
            ),
            final(fmt).spaces == old(fmt).spaces,
            final(fmt).scopes == old(fmt).scopes,
    {
        let mut s = String::new();
        s.append("#include ");
        if self.is_system {
            s.append("<");
            s.append(self.path.as_str());
            s.append(">");
        } else {
            s.append("\"");
            s.append(self.path.as_str());
            s.append("\"");
        }
        match &self.doc {
            Some(d) => {
                s.append("  // ");
                s.append(d.as_str());
            },
            None => {},
        }
        s.append("\n");
        proof {
            assert(s@ =~= include_flat(*self));
        }
        fmt.write_str(s.as_str());
    }
}

} // verus!
