use vstd::prelude::*;

verus! {

/// The closed set of roles an account can hold.  Each variant has one
/// canonical lowercase name, used both on the wire and inside tokens;
/// parsing is exact and case-sensitive, anything else is invalid.
#[derive(Clone, Copy, Debug, PartialEq, Eq, Structural)]
pub enum UserGroups {
    Admin,
    User,
}

impl UserGroups {
    /// Canonical name of the role.
    pub open spec fn spec_name(self) -> Seq<char> {
        match self {
            UserGroups::Admin => "admin"@,
            UserGroups::User => "user"@,
        }
    }

    /// Which role a string denotes, if any.
    pub open spec fn spec_parse(s: Seq<char>) -> Option<UserGroups> {
        if s == "admin"@ {
            Some(UserGroups::Admin)
        } else if s == "user"@ {
            Some(UserGroups::User)
        } else {
            None
        }
    }

    pub fn to_string(&self) -> (r: String)
        ensures
            r@ == self.spec_name(),
    {
        match self {
            UserGroups::Admin => "admin".to_owned(),
            UserGroups::User => "user".to_owned(),
        }
    }

    pub fn from_str(group: &str) -> (r: Option<UserGroups>)
        ensures
            r == Self::spec_parse(group@),
    {
        let g = group.to_owned();
        if g == "admin".to_owned() {
            Some(UserGroups::Admin)
        } else if g == "user".to_owned() {
            Some(UserGroups::User)
        } else {
            None
        }
    }

    pub fn is_valid(s: &str) -> (r: bool)
        ensures
            r == (Self::spec_parse(s@) is Some),
    {
        Self::from_str(s).is_some()
    }
}

} // verus!
