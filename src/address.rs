use vstd::prelude::*;
use vstd::string::StringExecFns;

verus! {

/// An email address with an optional display name.
#[derive(Clone, Debug)]
pub struct NameAddr {
    pub name: Option<String>,
    pub email: Option<String>,
}

impl NameAddr {
    /// The display name if there is one, else the address.
    pub open spec fn name_or_addr_spec(self) -> Option<Seq<char>> {
        match self.name {
            Some(n) => Some(n@),
            None => match self.email {
                Some(e) => Some(e@),
                None => None,
            },
        }
    }

    /// `Name <address>`, the address alone, `Name <(unknown)>`, or
    /// `(unknown)`, by which parts are present.
    pub open spec fn display_spec(self) -> Seq<char> {
        match (self.name, self.email) {
            (Some(n), Some(e)) => n@ + seq![' ', '<'] + e@ + seq!['>'],
            (None, Some(e)) => e@,
            (Some(n), None) => n@ + seq![' ', '<'] + "(unknown)"@ + seq!['>'],
            (None, None) => "(unknown)"@,
        }
    }

    /// Returns the display name if available, otherwise the email address;
    /// `None` when both are missing.
    pub fn name_or_addr(&self) -> (r: Option<&str>)
        ensures
            match r {
                Some(t) => self.name_or_addr_spec() == Some(t@),
                None => self.name_or_addr_spec() is None,
            },
    {
        match &self.name {
            Some(name) => Some(name.as_str()),
            None => match &self.email {
                Some(email) => Some(email.as_str()),
                None => None,
            },
        }
    }

    /// The address as shown to the user.
    pub fn to_string(&self) -> (r: String)
        ensures
            r@ == self.display_spec(),
    {
        proof {
            reveal_strlit(" <");
            reveal_strlit(">");
        }
        let mut out = String::new();
        match &self.name {
            Some(name) => {
                out.append(name.as_str());
                out.append(" <");
                match &self.email {
                    Some(email) => out.append(email.as_str()),
                    None => out.append("(unknown)"),
                }
                out.append(">");
            },
            None => match &self.email {
                Some(email) => out.append(email.as_str()),
                None => out.append("(unknown)"),
            },
        }
        out
    }
}

} // verus!
