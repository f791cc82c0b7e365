//! The REST resources of the hosting service, reduced to the fields the
//! engine reads, together with their mathematical views.

use vstd::prelude::*;

verus! {

/// The account that owns the configured token; read once per remote to
/// build an embedded-credential URL.
#[derive(Debug)]
pub struct User {
    pub username: String,
    pub name: String,
    pub id: u32,
}

/// The mathematical value of a [`User`].
pub ghost struct UserV {
    pub username: Seq<char>,
    pub name: Seq<char>,
    pub id: u32,
}

impl View for User {
    type V = UserV;

    open spec fn view(&self) -> UserV {
        UserV { username: self.username@, name: self.name@, id: self.id }
    }
}

impl DeepView for User {
    type V = UserV;

    open spec fn deep_view(&self) -> UserV {
        self.view()
    }
}

impl Clone for User {
    fn clone(&self) -> (r: Self)
        ensures
            r@ == self@,
    {
        User { username: self.username.clone(), name: self.name.clone(), id: self.id }
    }
}

/// A project on the hosting service. Fetched read-only from the source; a
/// corresponding record on the backup side is created or updated, never
/// deleted, by the engine.
#[derive(Debug)]
pub struct Project {
    pub id: u32,
    pub description: Option<String>,
    /// Whether the project has an empty repository or not.
    pub empty_repo: bool,
    /// The URL to clone the repository over SSH.
    pub ssh_url_to_repo: String,
    /// The URL to clone the repository over HTTPS.
    pub http_url_to_repo: String,
    /// The display name of the project.
    pub name: String,
    /// The display name of the project with the namespace.
    pub name_with_namespace: String,
    /// The path to the project's repository.
    pub path: String,
    /// The path to the project's repository with its namespace.
    pub path_with_namespace: String,
}

/// The mathematical value of a [`Project`].
pub ghost struct ProjectV {
    pub id: u32,
    pub description: Option<Seq<char>>,
    pub empty_repo: bool,
    pub ssh_url_to_repo: Seq<char>,
    pub http_url_to_repo: Seq<char>,
    pub name: Seq<char>,
    pub name_with_namespace: Seq<char>,
    pub path: Seq<char>,
    pub path_with_namespace: Seq<char>,
}

impl View for Project {
    type V = ProjectV;

    open spec fn view(&self) -> ProjectV {
        ProjectV {
            id: self.id,
            description: match self.description {
                Some(d) => Some(d@),
                None => None,
            },
            empty_repo: self.empty_repo,
            ssh_url_to_repo: self.ssh_url_to_repo@,
            http_url_to_repo: self.http_url_to_repo@,
            name: self.name@,
            name_with_namespace: self.name_with_namespace@,
            path: self.path@,
            path_with_namespace: self.path_with_namespace@,
        }
    }
}

impl DeepView for Project {
    type V = ProjectV;

    open spec fn deep_view(&self) -> ProjectV {
        self.view()
    }
}

impl Clone for Project {
    fn clone(&self) -> (r: Self)
        ensures
            r@ == self@,
    {
        Project {
            id: self.id,
            description: match &self.description {
                Some(d) => Some(d.clone()),
                None => None,
            },
            empty_repo: self.empty_repo,
            ssh_url_to_repo: self.ssh_url_to_repo.clone(),
            http_url_to_repo: self.http_url_to_repo.clone(),
            name: self.name.clone(),
            name_with_namespace: self.name_with_namespace.clone(),
            path: self.path.clone(),
            path_with_namespace: self.path_with_namespace.clone(),
        }
    }
}

/// A group (namespace) on the hosting service. `full_path` is the unique
/// key for existence checks.
#[derive(Debug)]
pub struct Group {
    pub id: u32,
    pub name: String,
    pub path: String,
    pub description: Option<String>,
    pub full_path: String,
}

/// The mathematical value of a [`Group`].
pub ghost struct GroupV {
    pub id: u32,
    pub name: Seq<char>,
    pub path: Seq<char>,
    pub description: Option<Seq<char>>,
    pub full_path: Seq<char>,
}

impl View for Group {
    type V = GroupV;

    open spec fn view(&self) -> GroupV {
        GroupV {
            id: self.id,
            name: self.name@,
            path: self.path@,
            description: match self.description {
                Some(d) => Some(d@),
                None => None,
            },
            full_path: self.full_path@,
        }
    }
}

impl DeepView for Group {
    type V = GroupV;

    open spec fn deep_view(&self) -> GroupV {
        self.view()
    }
}

impl Clone for Group {
    fn clone(&self) -> (r: Self)
        ensures
            r@ == self@,
    {
        Group {
            id: self.id,
            name: self.name.clone(),
            path: self.path.clone(),
            description: match &self.description {
                Some(d) => Some(d.clone()),
                None => None,
            },
            full_path: self.full_path.clone(),
        }
    }
}

impl Default for Group {
    /// The placeholder group: identity zero and empty texts.
    fn default() -> (g: Group)
        ensures
            g.id == 0,
            g.name@ == Seq::<char>::empty(),
            g.path@ == Seq::<char>::empty(),
            g.description is None,
            g.full_path@ == Seq::<char>::empty(),
    {
        Group {
            id: 0,
            name: String::new(),
            path: String::new(),
            description: None,
            full_path: String::new(),
        }
    }
}

} // verus!
