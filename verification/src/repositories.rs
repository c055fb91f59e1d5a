//! The choices a repository list call is filtered and sorted by.

use vstd::prelude::*;

verus! {

/// What a repository list is sorted by.
pub enum Sort {
    Created,
    Updated,
    Pushed,
    FullName,
}

impl Sort {
    /// The value this choice takes in a query string.
    pub open spec fn param_view(self) -> Seq<char> {
        match self {
            Sort::Created => "created"@,
            Sort::Updated => "updated"@,
            Sort::Pushed => "pushed"@,
            Sort::FullName => "full_name"@,
        }
    }

    /// The value this choice takes in a query string.
    pub fn to_param(&self) -> (r: String)
        ensures
            r@ == self.param_view(),
    {
        match self {
            Sort::Created => String::from_str("created"),
            Sort::Updated => String::from_str("updated"),
            Sort::Pushed => String::from_str("pushed"),
            Sort::FullName => String::from_str("full_name"),
        }
    }
}

/// How the caller is related to a listed repository.
pub enum Affiliation {
    Owner,
    Collaborator,
    OrganizationMember,
}

impl Affiliation {
    /// The value this choice takes in a query string.
    pub open spec fn param_view(self) -> Seq<char> {
        match self {
            Affiliation::Owner => "owner"@,
            Affiliation::Collaborator => "collaborator"@,
            Affiliation::OrganizationMember => "organization_member"@,
        }
    }

    /// The value this choice takes in a query string.
    pub fn to_param(&self) -> (r: String)
        ensures
            r@ == self.param_view(),
    {
        match self {
            Affiliation::Owner => String::from_str("owner"),
            Affiliation::Collaborator => String::from_str("collaborator"),
            Affiliation::OrganizationMember => String::from_str("organization_member"),
        }
    }
}

/// Which repositories of a user are listed.
pub enum Type {
    All,
    Owner,
    Public,
    Private,
    Member,
}

impl Type {
    /// The value this choice takes in a query string.
    pub open spec fn param_view(self) -> Seq<char> {
        match self {
            Type::All => "all"@,
            Type::Owner => "owner"@,
            Type::Public => "public"@,
            Type::Private => "private"@,
            Type::Member => "member"@,
        }
    }

    /// The value this choice takes in a query string.
    pub fn to_param(&self) -> (r: String)
        ensures
            r@ == self.param_view(),
    {
        match self {
            Type::All => String::from_str("all"),
            Type::Owner => String::from_str("owner"),
            Type::Public => String::from_str("public"),
            Type::Private => String::from_str("private"),
            Type::Member => String::from_str("member"),
        }
    }
}

/// Which repositories are listed, by visibility.
pub enum Visibility {
    All,
    Public,
    Private,
}

impl Visibility {
    /// The value this choice takes in a query string.
    pub open spec fn param_view(self) -> Seq<char> {
        match self {
            Visibility::All => "all"@,
            Visibility::Public => "public"@,
            Visibility::Private => "private"@,
        }
    }

    /// The value this choice takes in a query string.
    pub fn to_param(&self) -> (r: String)
        ensures
            r@ == self.param_view(),
    {
        match self {
            Visibility::All => String::from_str("all"),
            Visibility::Public => String::from_str("public"),
            Visibility::Private => String::from_str("private"),
        }
    }
}

/// Which repositories of an organization are listed.
pub enum OrgRepoType {
    All,
    Public,
    Private,
    Forks,
    Sources,
    Member,
}

impl OrgRepoType {
    /// The value this choice takes in a query string.
    pub open spec fn param_view(self) -> Seq<char> {
        match self {
            OrgRepoType::All => "all"@,
            OrgRepoType::Public => "public"@,
            OrgRepoType::Private => "private"@,
            OrgRepoType::Forks => "forks"@,
            OrgRepoType::Sources => "sources"@,
            OrgRepoType::Member => "member"@,
        }
    }

    /// The value this choice takes in a query string.
    pub fn to_param(&self) -> (r: String)
        ensures
            r@ == self.param_view(),
    {
        match self {
            OrgRepoType::All => String::from_str("all"),
            OrgRepoType::Public => String::from_str("public"),
            OrgRepoType::Private => String::from_str("private"),
            OrgRepoType::Forks => String::from_str("forks"),
            OrgRepoType::Sources => String::from_str("sources"),
            OrgRepoType::Member => String::from_str("member"),
        }
    }
}

} // verus!
