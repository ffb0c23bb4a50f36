use vstd::prelude::*;

verus! {

/// Where the state is kept when no other path is given.
pub const DEFAULT_PATH: &'static str = "state.toml";

/// The announcement as it was last posted: the identifier of the message.
#[derive(Clone, Copy, Debug, PartialEq, Eq)]
pub struct Welcome {
    pub message: u64,
}

/// The managed role as it was last known: its identifier.
#[derive(Clone, Copy, Debug, PartialEq, Eq)]
pub struct MemberRole {
    pub role: u64,
}

/// What the automaton believes to exist on the platform. It is read when
/// the automaton starts and written whenever it changes; each record is
/// absent until the thing it names was first seen.
#[derive(Clone, Copy, Debug, PartialEq, Eq)]
pub struct State {
    pub welcome: Option<Welcome>,
    pub member: Option<MemberRole>,
}

/// Why the state could not be read or written.
#[derive(Clone, Copy, Debug, PartialEq, Eq)]
pub enum StateError {
    /// There is no state yet.
    NotFound,
    Other,
}

/// `std::io::Error`, carried through as it is: nothing is known of an
/// error but what `io_not_found` says of it.
#[verifier::external_type_specification]
#[verifier::external_body]
pub struct ExIoError(std::io::Error);

/// `toml::de::Error`, carried through as it is; nothing is known of it.
#[verifier::external_type_specification]
#[verifier::external_body]
pub struct ExTomlDeError(toml::de::Error);

/// `toml::ser::Error`, carried through as it is; nothing is known of it.
#[verifier::external_type_specification]
#[verifier::external_body]
pub struct ExTomlSerError(toml::ser::Error);

/// Whether an error of the file system says that the file is not there.
pub uninterp spec fn io_not_found(error: std::io::Error) -> bool;

/// `std::io::Error::kind`, asked whether it is `NotFound`.
#[verifier::external_body]
fn is_not_found(error: &std::io::Error) -> (r: bool)
    ensures
        r == io_not_found(*error),
{
    match error.kind() {
        std::io::ErrorKind::NotFound => true,
        _ => false,
    }
}

impl From<std::io::Error> for StateError {
    fn from(error: std::io::Error) -> (r: StateError) {
        if is_not_found(&error) {
            StateError::NotFound
        } else {
            StateError::Other
        }
    }
}

impl vstd::std_specs::convert::FromSpecImpl<std::io::Error> for StateError {
    open spec fn obeys_from_spec() -> bool {
        true
    }

    open spec fn from_spec(error: std::io::Error) -> StateError {
        if io_not_found(error) {
            StateError::NotFound
        } else {
            StateError::Other
        }
    }
}

impl From<toml::de::Error> for StateError {
    fn from(error: toml::de::Error) -> (r: StateError) {
        StateError::Other
    }
}

impl vstd::std_specs::convert::FromSpecImpl<toml::de::Error> for StateError {
    open spec fn obeys_from_spec() -> bool {
        true
    }

    open spec fn from_spec(error: toml::de::Error) -> StateError {
        StateError::Other
    }
}

impl From<toml::ser::Error> for StateError {
    fn from(error: toml::ser::Error) -> (r: StateError) {
        StateError::Other
    }
}

impl vstd::std_specs::convert::FromSpecImpl<toml::ser::Error> for StateError {
    open spec fn obeys_from_spec() -> bool {
        true
    }

    open spec fn from_spec(error: toml::ser::Error) -> StateError {
        StateError::Other
    }
}

impl State {
    /// The state of an automaton that has seen nothing yet.
    pub fn new() -> (r: State)
        ensures
            r == (State { welcome: None, member: None }),
    {
        State { welcome: None, member: None }
    }

    pub fn welcome(&self) -> (r: Option<&Welcome>)
        ensures
            r is Some == self.welcome is Some,
            r matches Some(record) ==> Some(*record) == self.welcome,
    {
        self.welcome.as_ref()
    }

    /// The record of the announcement, to be changed in place.
    pub fn welcome_mut(&mut self) -> (r: Option<&mut Welcome>)
        ensures
            final(self).member == old(self).member,
            match old(self).welcome {
                None => r is None && final(self).welcome is None,
                Some(record) => r is Some && *r.unwrap() == record && final(self).welcome == Some(
                    *final(r.unwrap()),
                ),
            },
    {
        self.welcome.as_mut()
    }

    pub fn set_welcome(&mut self, welcome: Welcome)
        ensures
            *final(self) == (State { welcome: Some(welcome), ..*old(self) }),
    {
        self.welcome = Some(welcome);
    }

    pub fn member(&self) -> (r: Option<&MemberRole>)
        ensures
            r is Some == self.member is Some,
            r matches Some(record) ==> Some(*record) == self.member,
    {
        self.member.as_ref()
    }

    pub fn set_member(&mut self, member: MemberRole)
        ensures
            *final(self) == (State { member: Some(member), ..*old(self) }),
    {
        self.member = Some(member);
    }

    /// Takes note of the managed role as it is now. Returns whether that
    /// was news, so that the state has to be written.
    pub fn record_role(&mut self, role: u64) -> (changed: bool)
        ensures
            *final(self) == (State { member: Some(MemberRole { role }), ..*old(self) }),
            changed == (old(self).member != Some(MemberRole { role })),
    {
        let known = match self.member {
            Some(record) => record.role == role,
            None => false,
        };
        self.member = Some(MemberRole { role });
        !known
    }
}

impl Welcome {
    pub fn new(message: u64) -> (r: Welcome)
        ensures
            r.message == message,
    {
        Welcome { message }
    }

    pub fn message(&self) -> (r: u64)
        ensures
            r == self.message,
    {
        self.message
    }

    pub fn set_message(&mut self, message: u64)
        ensures
            final(self).message == message,
    {
        self.message = message
    }
}

impl MemberRole {
    pub fn new(role: u64) -> (r: MemberRole)
        ensures
            r.role == role,
    {
        MemberRole { role }
    }

    pub fn role(&self) -> (r: u64)
        ensures
            r == self.role,
    {
        self.role
    }
}

/// The state to start from, given what reading the stored state came to.
/// A state that was read is taken as it is. That there is none yet is no
/// error: the automaton starts with an empty one. Any other failure comes
/// back as it is, and the automaton must not start.
pub fn starting_state(read: Result<State, StateError>) -> (r: Result<State, StateError>)
    ensures
        r == match read {
            Ok(state) => Ok::<State, StateError>(state),
            Err(StateError::NotFound) => Ok(State { welcome: None, member: None }),
            Err(StateError::Other) => Err(StateError::Other),
        },
{
    match read {
        Ok(state) => Ok(state),
        Err(StateError::NotFound) => Ok(State::new()),
        Err(StateError::Other) => Err(StateError::Other),
    }
}

} // verus!
