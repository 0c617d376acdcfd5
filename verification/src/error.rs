//! The failure outcome shared by every test descriptor.
use vstd::prelude::*;
use vstd::string::StringExecFns;

verus! {

/// A test's failure outcome: the failing descriptor's name (captured, not
/// referenced, at the moment of failure), a static location string, a static
/// reason string, and an optional message.
#[derive(Debug)]
pub struct TestError {
    pub test: String,
    pub location: &'static str,
    pub reason: &'static str,
    pub message: Option<String>,
}

/// The outcome of running one test case: success, or one `TestError`.
pub type TestResult = Result<(), TestError>;

/// The separator between the rendered fields: a newline in the expanded
/// (alternate) form, a space in the compact one-line form.
pub open spec fn spec_separator(alternate: bool) -> Seq<char> {
    if alternate {
        "\n"@
    } else {
        " "@
    }
}

/// The exact character sequence `TestError::render` produces: the separator
/// stands only between segments, and nothing trails the last one.
pub open spec fn spec_render(e: TestError, alternate: bool) -> Seq<char> {
    let sep = spec_separator(alternate);
    let head = "Test '"@ + e.test@ + "' failed."@ + sep + "Location: "@ + e.location@ + "."@ + sep
        + "Reason: "@ + e.reason@ + "."@;
    match e.message {
        Some(m) => head + sep + "Message: "@ + m@ + "."@,
        None => head,
    }
}

impl TestError {
    /// Renders the failure: a compact one-line form by default, an expanded
    /// multi-line form when `alternate` is set.
    pub fn render(&self, alternate: bool) -> (r: String)
        ensures
            r@ == spec_render(*self, alternate),
    {
        let sep: &'static str = if alternate {
            "\n"
        } else {
            " "
        };
        let mut s = String::from_str("Test '");
        s.append(self.test.as_str());
        s.append("' failed.");
        s.append(sep);
        s.append("Location: ");
        s.append(self.location);
        s.append(".");
        s.append(sep);
        s.append("Reason: ");
        s.append(self.reason);
        s.append(".");
        match &self.message {
            Some(m) => {
                s.append(sep);
                s.append("Message: ");
                s.append(m.as_str());
                s.append(".");
            },
            None => {},
        }
        proof {
            assert(s@ =~= spec_render(*self, alternate));
        }
        s
    }
}

} // verus!
