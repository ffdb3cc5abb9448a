use vstd::prelude::*;
use vstd::string::{StrSliceExecFns, StringExecFns};

verus! {

/// What is known about a token after it has been issued or verified.
///
/// An issued token carries its signed text and its expiry; a verified one
/// carries neither, only what its claims said.
#[derive(Debug)]
pub struct TokenDetails {
    pub token: Option<String>,
    pub token_uuid: u128,
    pub user_id: String,
    pub main_user_id: String,
    pub expires_in: Option<i64>,
    pub user_type: String,
}

/// The payload of a signed token.
#[derive(Debug)]
pub struct TokenClaims {
    pub sub: String,
    pub token_uuid: String,
    pub exp: i64,
    pub iat: i64,
    pub nbf: i64,
    pub user_type: String,
    pub main_user_id: String,
}

/// The mathematical content of a `TokenClaims` value.
pub ghost struct ClaimSet {
    pub sub: Seq<char>,
    pub token_uuid: Seq<char>,
    pub exp: int,
    pub iat: int,
    pub nbf: int,
    pub user_type: Seq<char>,
    pub main_user_id: Seq<char>,
}

impl View for TokenClaims {
    type V = ClaimSet;

    open spec fn view(&self) -> ClaimSet {
        ClaimSet {
            sub: self.sub@,
            token_uuid: self.token_uuid@,
            exp: self.exp as int,
            iat: self.iat as int,
            nbf: self.nbf as int,
            user_type: self.user_type@,
            main_user_id: self.main_user_id@,
        }
    }
}

/// The value of one member of a token's payload.
#[derive(Debug)]
pub enum ClaimValue {
    Text(String),
    Integer(i64),
}

/// The mathematical content of a `ClaimValue`.
pub ghost enum Claim {
    Text(Seq<char>),
    Integer(int),
}

impl View for ClaimValue {
    type V = Claim;

    open spec fn view(&self) -> Claim {
        match self {
            ClaimValue::Text(text) => Claim::Text(text@),
            ClaimValue::Integer(n) => Claim::Integer(*n as int),
        }
    }
}

/// One member of a token's payload: a name and a value.
#[derive(Debug)]
pub struct ClaimMember {
    pub name: String,
    pub value: ClaimValue,
}

impl View for ClaimMember {
    type V = (Seq<char>, Claim);

    open spec fn view(&self) -> (Seq<char>, Claim) {
        (self.name@, self.value@)
    }
}

/// The content of a list of members.
pub open spec fn members_view(members: Seq<ClaimMember>) -> Seq<(Seq<char>, Claim)> {
    members.map_values(|member: ClaimMember| member@)
}

/// The members that a token's payload is written with: the seven claims
/// under their names.
pub open spec fn claim_members(claims: ClaimSet) -> Seq<(Seq<char>, Claim)> {
    Seq::<(Seq<char>, Claim)>::empty().push(("sub"@, Claim::Text(claims.sub))).push(
        ("token_uuid"@, Claim::Text(claims.token_uuid)),
    ).push(("exp"@, Claim::Integer(claims.exp))).push(("iat"@, Claim::Integer(claims.iat))).push(
        ("nbf"@, Claim::Integer(claims.nbf)),
    ).push(("user_type"@, Claim::Text(claims.user_type))).push(
        ("main_user_id"@, Claim::Text(claims.main_user_id)),
    )
}

/// The value that a list of members gives to a name: that of the last
/// member with this name, if there is one.
pub open spec fn named(members: Seq<(Seq<char>, Claim)>, name: Seq<char>) -> Option<Claim>
    decreases members.len(),
{
    if members.len() == 0 {
        None
    } else if members.last().0 == name {
        Some(members.last().1)
    } else {
        named(members.drop_last(), name)
    }
}

/// The members of a list whose values are texts.
pub open spec fn member_texts(members: Seq<(Seq<char>, Claim)>) -> Map<Seq<char>, Seq<char>> {
    Map::new(
        |name: Seq<char>| named(members, name) matches Some(Claim::Text(_)),
        |name: Seq<char>| named(members, name).unwrap()->Text_0,
    )
}

/// The members of a list whose values are integers.
pub open spec fn member_integers(members: Seq<(Seq<char>, Claim)>) -> Map<Seq<char>, int> {
    Map::new(
        |name: Seq<char>| named(members, name) matches Some(Claim::Integer(_)),
        |name: Seq<char>| named(members, name).unwrap()->Integer_0,
    )
}

impl TokenClaims {
    /// The members that the payload is written with.
    pub fn members(&self) -> (list: Vec<ClaimMember>)
        ensures
            members_view(list@) == claim_members(self@),
    {
        let mut list: Vec<ClaimMember> = Vec::new();
        list.push(
            ClaimMember { name: String::from_str("sub"), value: ClaimValue::Text(self.sub.clone()) },
        );
        list.push(
            ClaimMember {
                name: String::from_str("token_uuid"),
                value: ClaimValue::Text(self.token_uuid.clone()),
            },
        );
        list.push(
            ClaimMember { name: String::from_str("exp"), value: ClaimValue::Integer(self.exp) },
        );
        list.push(
            ClaimMember { name: String::from_str("iat"), value: ClaimValue::Integer(self.iat) },
        );
        list.push(
            ClaimMember { name: String::from_str("nbf"), value: ClaimValue::Integer(self.nbf) },
        );
        list.push(
            ClaimMember {
                name: String::from_str("user_type"),
                value: ClaimValue::Text(self.user_type.clone()),
            },
        );
        list.push(
            ClaimMember {
                name: String::from_str("main_user_id"),
                value: ClaimValue::Text(self.main_user_id.clone()),
            },
        );
        assert(members_view(list@) =~= claim_members(self@));
        list
    }
}

/// The two signing contexts, each with a key pair of its own.
#[derive(Clone, Copy, Debug, PartialEq, Eq, Structural)]
pub enum TokenClass {
    Access,
    Refresh,
}

/// The role under which an account acts. It is fixed when the account is
/// registered.
#[derive(Clone, Copy, Debug, PartialEq, Eq, Structural)]
pub enum Role {
    Gym,
    Trainer,
    GymSeeker,
}

/// The role that a user type names, if it names one.
pub open spec fn role_named(user_type: Seq<char>) -> Option<Role> {
    if user_type == "gym"@ {
        Some(Role::Gym)
    } else if user_type == "gym_seeker"@ {
        Some(Role::GymSeeker)
    } else if user_type == "trainer"@ {
        Some(Role::Trainer)
    } else {
        None
    }
}

impl Role {
    /// The user type that names the role.
    pub open spec fn name(self) -> Seq<char> {
        match self {
            Role::Gym => "gym"@,
            Role::Trainer => "trainer"@,
            Role::GymSeeker => "gym_seeker"@,
        }
    }

    /// Reads a role from a user type.
    pub fn parse(user_type: &str) -> (r: Option<Role>)
        ensures
            r == role_named(user_type@),
    {
        let given = String::from_str(user_type);
        if given == String::from_str("gym") {
            Some(Role::Gym)
        } else if given == String::from_str("gym_seeker") {
            Some(Role::GymSeeker)
        } else if given == String::from_str("trainer") {
            Some(Role::Trainer)
        } else {
            None
        }
    }

    /// The user type that names the role.
    pub fn as_str(&self) -> (text: &'static str)
        ensures
            text@ == self.name(),
    {
        match self {
            Role::Gym => "gym",
            Role::Trainer => "trainer",
            Role::GymSeeker => "gym_seeker",
        }
    }
}

/// Every role is read back from its own name.
pub proof fn law_role_reads_back_from_its_name(role: Role)
    ensures
        role_named(role.name()) == Some(role),
{
    reveal_strlit("gym");
    reveal_strlit("gym_seeker");
    reveal_strlit("trainer");
    assert("gym"@.len() != "gym_seeker"@.len());
    assert("gym"@.len() != "trainer"@.len());
    assert("gym_seeker"@.len() != "trainer"@.len());
}

/// An identifier together with what it identifies: the role entity itself,
/// or the account behind it.
#[derive(Clone, Debug)]
pub enum EntityRef {
    RoleEntity(String),
    IdentityRoot(String),
}

/// Where the table name of an identifier ends: at its first colon, or at
/// its end if it has none.
pub open spec fn table_end(id: Seq<char>) -> int
    decreases id.len(),
{
    if id.len() == 0 || id[0] == ':' {
        0
    } else {
        1 + table_end(id.drop_first())
    }
}

/// The table that an identifier names: what stands before its first colon.
pub open spec fn table_of(id: Seq<char>) -> Seq<char> {
    id.subrange(0, table_end(id))
}

/// The table name ends inside the identifier, at a colon if anywhere, and
/// no colon stands before it.
pub proof fn lemma_table_end(id: Seq<char>)
    ensures
        0 <= table_end(id) <= id.len(),
        table_end(id) < id.len() ==> id[table_end(id)] == ':',
        forall|i: int| 0 <= i < table_end(id) ==> id[i] != ':',
    decreases id.len(),
{
    if id.len() == 0 || id[0] == ':' {
    } else {
        let rest = id.drop_first();
        lemma_table_end(rest);
        assert forall|i: int| 0 <= i < table_end(id) implies id[i] != ':' by {
            if i > 0 {
                assert(id[i] == rest[i - 1]);
            }
        }
        if table_end(id) < id.len() {
            assert(id[table_end(id)] == rest[table_end(rest)]);
        }
    }
}

/// A position that holds a colon, with none before it, is where the table
/// name ends; so is the end of an identifier without a colon.
pub proof fn lemma_table_end_is(id: Seq<char>, at: int)
    requires
        0 <= at <= id.len(),
        at < id.len() ==> id[at] == ':',
        forall|i: int| 0 <= i < at ==> id[i] != ':',
    ensures
        table_end(id) == at,
{
    lemma_table_end(id);
    let end = table_end(id);
    if end < at {
        assert(id[end] == ':');
    } else if at < end {
        assert(id[at] != ':');
    }
}

impl EntityRef {
    /// Tells what an identifier identifies for an account of the given
    /// role: the role entity if it names the role's own table, else the
    /// account.
    pub fn classify(id: String, role: Role) -> (r: EntityRef)
        ensures
            match r {
                EntityRef::RoleEntity(kept) => kept == id && table_of(id@) == role.name(),
                EntityRef::IdentityRoot(kept) => kept == id && table_of(id@) != role.name(),
            },
    {
        let length = id.as_str().unicode_len();
        let mut end: usize = 0;
        while end < length && id.as_str().get_char(end) != ':'
            invariant
                end <= length,
                length == id@.len(),
                forall|i: int| 0 <= i < end ==> id@[i] != ':',
            decreases length - end,
        {
            end += 1;
        }
        proof {
            lemma_table_end_is(id@, end as int);
        }
        let table = String::from_str(id.as_str().substring_char(0, end));
        if table == String::from_str(role.as_str()) {
            EntityRef::RoleEntity(id)
        } else {
            EntityRef::IdentityRoot(id)
        }
    }
}

} // verus!
