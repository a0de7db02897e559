use crate::error::ErrorKind;
use crate::models::{ContractMetadata, Owner, User, UserProfile, UserSession};
use vstd::prelude::*;

verus! {

#[derive(Clone, Debug, PartialEq, Eq)]
pub struct InstantiateMsg {
    /// The owner to file; the sender where none is given.
    pub owner: Option<Owner>,
}

#[derive(Clone, Debug, PartialEq, Eq)]
pub enum SessionMsg {
    Start { seed: String },
    End { seed: String },
    Refresh { old_seed: String, new_seed: String },
}

#[derive(Clone, Debug, PartialEq, Eq)]
pub enum ExecuteMsg {
    Register { profile: UserProfile },
    Session(SessionMsg),
}

#[derive(Clone, Debug, PartialEq, Eq)]
pub enum QueryMsg {
    Session { address: String, seed: String },
    Select { fields: Option<Vec<String>>, wallet: Option<String> },
}

#[derive(Clone, Copy, Debug, PartialEq, Eq, Structural)]
pub struct MigrateMsg {}

/// The answer to a select query. A field that was not asked for is `None`.
#[derive(Clone, Debug, PartialEq, Eq)]
pub struct SelectResponse {
    pub owner: Option<Owner>,
    pub metadata: Option<ContractMetadata>,
    pub user: Option<User>,
}

#[derive(Clone, Debug, PartialEq, Eq)]
pub enum UserQueryTarget {
    Id(u64),
    Address(String),
}

pub enum UserQueryTargetView {
    Id(u64),
    Address(Seq<char>),
}

impl View for UserQueryTarget {
    type V = UserQueryTargetView;

    open spec fn view(&self) -> UserQueryTargetView {
        match *self {
            UserQueryTarget::Id(id) => UserQueryTargetView::Id(id),
            UserQueryTarget::Address(addr) => UserQueryTargetView::Address(addr@),
        }
    }
}

/// The answer to a query, before it is put on the wire.
#[derive(Clone, Debug, PartialEq, Eq)]
pub enum QueryResponse {
    Session(Option<UserSession>),
    Select(SelectResponse),
}

/// One key and value that a call reports.
#[derive(Clone, Debug, PartialEq, Eq)]
pub struct Attribute {
    pub key: String,
    pub value: String,
}

/// What a call that changed the registry reports.
#[derive(Clone, Debug, PartialEq, Eq)]
pub struct Response {
    pub attributes: Vec<Attribute>,
}

impl Attribute {
    pub fn new(key: &str, value: String) -> (a: Attribute)
        ensures
            a.key@ == key@,
            a.value@ == value@,
    {
        Attribute { key: key.to_owned(), value }
    }
}

impl View for Response {
    type V = Seq<(Seq<char>, Seq<char>)>;

    open spec fn view(&self) -> Seq<(Seq<char>, Seq<char>)> {
        self.pairs()
    }
}

/// What a call reports that did `action` and has `value` to tell under
/// `key`, or that was turned down.
pub open spec fn reported(action: Seq<char>, key: Seq<char>, value: Result<Seq<char>, ErrorKind>)
    -> Result<Seq<(Seq<char>, Seq<char>)>, ErrorKind> {
    match value {
        Ok(v) => Ok(seq![("action"@, action), (key, v)]),
        Err(kind) => Err(kind),
    }
}

impl Response {
    /// The keys and values of the attributes, in their order.
    pub open spec fn pairs(&self) -> Seq<(Seq<char>, Seq<char>)> {
        self.attributes@.map_values(|a: Attribute| (a.key@, a.value@))
    }

    /// A report of an action and of one more key and value.
    pub fn of_action(action: &str, key: &str, value: String) -> (response: Response)
        ensures
            response.pairs() == seq![("action"@, action@), (key@, value@)],
    {
        let mut attributes: Vec<Attribute> = Vec::new();
        attributes.push(Attribute::new("action", action.to_owned()));
        attributes.push(Attribute::new(key, value));
        let response = Response { attributes };
        assert(response.pairs() =~= seq![("action"@, action@), (key@, value@)]);
        response
    }

    /// A report of an action and of nothing else.
    pub fn of_action_alone(action: &str) -> (response: Response)
        ensures
            response.pairs() == seq![("action"@, action@)],
    {
        let mut attributes: Vec<Attribute> = Vec::new();
        attributes.push(Attribute::new("action", action.to_owned()));
        let response = Response { attributes };
        assert(response.pairs() =~= seq![("action"@, action@)]);
        response
    }

    /// A report of nothing.
    pub fn empty() -> (response: Response)
        ensures
            response.pairs() == Seq::<(Seq<char>, Seq<char>)>::empty(),
    {
        let response = Response { attributes: Vec::new() };
        assert(response.pairs() =~= Seq::<(Seq<char>, Seq<char>)>::empty());
        response
    }
}

} // verus!
