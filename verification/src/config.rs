use vstd::prelude::*;

verus! {

/// Where the configuration is read from when no other path is given.
pub const DEFAULT_PATH: &'static str = "config.toml";

/// One rule of an allow-list: a user, or everybody who holds a role.
#[derive(Clone, Copy, Debug, PartialEq, Eq)]
pub enum Permission {
    User(u64),
    Role(u64),
}

/// Who may run each guarded command.
#[derive(Clone, Debug)]
pub struct MemberPermission {
    pub purge: Vec<Permission>,
}

/// The managed role and the rules around it.
#[derive(Clone, Debug)]
pub struct Member {
    pub role: u64,
    pub permission: MemberPermission,
}

/// Where the membership registry is reached.
#[derive(Clone, Debug)]
pub struct Ebas {
    pub url: String,
}

/// The announcement that is wanted: the channel, and the text, given
/// inline or as the path of a file that holds it.
#[derive(Clone, Debug)]
pub struct Welcome {
    pub channel: u64,
    pub file: Option<String>,
    pub text: Option<String>,
}

/// The configuration of one community.
#[derive(Clone, Debug)]
pub struct Config {
    pub guild: u64,
    pub welcome: Welcome,
    pub ebas: Ebas,
    pub member: Member,
}

impl Config {
    pub fn guild(&self) -> (r: u64)
        ensures
            r == self.guild,
    {
        self.guild
    }

    pub fn welcome(&self) -> (r: &Welcome)
        ensures
            *r == self.welcome,
    {
        &self.welcome
    }

    pub fn ebas(&self) -> (r: &Ebas)
        ensures
            *r == self.ebas,
    {
        &self.ebas
    }

    pub fn member(&self) -> (r: &Member)
        ensures
            *r == self.member,
    {
        &self.member
    }
}

impl Welcome {
    pub fn channel(&self) -> (r: u64)
        ensures
            r == self.channel,
    {
        self.channel
    }

    /// The file that holds the text, where one has to be read: a file is
    /// named and no inline text stands in front of it.
    pub fn file_to_read(&self) -> (r: Option<&String>)
        ensures
            r is Some == (self.text is None && self.file is Some),
            r matches Some(path) ==> Some(*path) == self.file,
    {
        if self.text.is_some() {
            None
        } else {
            self.file.as_ref()
        }
    }

    /// The text of the announcement. Inline text comes first; without it
    /// the text is what was read from the named file, `read`, which is
    /// `None` where the file could not be read; with neither, no
    /// announcement is wanted.
    pub fn content(&self, read: Option<String>) -> (r: Option<String>)
        ensures
            r == if self.text is Some {
                self.text
            } else if self.file is Some {
                read
            } else {
                None
            },
    {
        if self.text.is_some() {
            return self.text.clone();
        }
        if self.file.is_some() {
            return read;
        }
        None
    }
}

impl Ebas {
    pub fn url(&self) -> (r: &String)
        ensures
            *r == self.url,
    {
        &self.url
    }
}

impl Member {
    pub fn role(&self) -> (r: u64)
        ensures
            r == self.role,
    {
        self.role
    }

    pub fn permission(&self) -> (r: &MemberPermission)
        ensures
            *r == self.permission,
    {
        &self.permission
    }
}

impl MemberPermission {
    pub fn purge(&self) -> (r: &Vec<Permission>)
        ensures
            *r == self.purge,
    {
        &self.purge
    }
}

} // verus!
